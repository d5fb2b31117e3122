//! The failures the store reports, each with a message for the caller.

use crate::text::{decimal, decimal_text};
use vstd::prelude::*;
use vstd::string::*;

verus! {

/// Why an operation did not succeed. Every failure is an ordinary value; the
/// message names the identifier or the label it is about.
#[derive(Debug, Clone, PartialEq, Eq)]
pub enum Error {
    /// No record is stored under the identifier, or no record at all.
    NotFound { msg: String },
    /// The label voted for is empty or is not an option of the quiz.
    InvalidChoice { msg: String },
    /// The record has an author, and the caller is someone else.
    NotAuthorized { msg: String },
    /// No fresh identifier could be issued.
    AllocationFault { msg: String },
    /// A record could not be written to, or read back from, its stored form.
    StorageFault { msg: String },
    /// The question or the options offered for a quiz are not acceptable.
    InvalidInput { msg: String },
}

/// The message of a lookup that found nothing under `id`.
pub open spec fn not_found_text(id: u64) -> Seq<char> {
    "a quiz with id="@ + decimal(id as nat) + " not found"@
}

/// The message of an edit that found nothing under `id`.
pub open spec fn update_not_found_text(id: u64) -> Seq<char> {
    "couldn't update a quiz with id="@ + decimal(id as nat) + ". quiz not found"@
}

/// The message of a deletion that found nothing under `id`.
pub open spec fn delete_not_found_text(id: u64) -> Seq<char> {
    "couldn't delete a quiz with id="@ + decimal(id as nat) + ". quiz not found."@
}

/// The message of a vote that found nothing under `id`.
pub open spec fn vote_not_found_text(id: u64) -> Seq<char> {
    "couldn't cast a quiz with id="@ + decimal(id as nat) + ". quiz not found"@
}

/// The message of a listing of an empty store.
pub open spec fn no_records_text() -> Seq<char> {
    "There are currently no quiz"@
}

/// The message of a vote for a label that cannot be voted for.
pub open spec fn invalid_choice_text(label: Seq<char>) -> Seq<char> {
    "The option '"@ + label + "' is not found for this quiz."@
}

/// The message of a change refused to someone who is not the author.
pub open spec fn not_authorized_text(id: u64) -> Seq<char> {
    "Not author of the quiz with id="@ + decimal(id as nat)
}

/// The message of a counter that could not be set up.
pub open spec fn no_counter_text() -> Seq<char> {
    "Cannot create a counter"@
}

/// The message of a failed allocation.
pub open spec fn allocation_text() -> Seq<char> {
    "cannot increment id counter"@
}

/// The message of a record that has no stored form within the size bound.
pub open spec fn oversize_text(id: u64) -> Seq<char> {
    "the quiz with id="@ + decimal(id as nat) + " does not fit in a stored record"@
}

/// The message of stored bytes that are not a well-formed record of that identifier.
pub open spec fn unreadable_text(id: u64) -> Seq<char> {
    "the stored quiz with id="@ + decimal(id as nat) + " cannot be read"@
}

/// The message of a vote that the counter of the label cannot take.
pub open spec fn full_tally_text(label: Seq<char>) -> Seq<char> {
    "the tally of option '"@ + label + "' is full"@
}

/// The message of a rejected question or list of options.
pub open spec fn invalid_input_text() -> Seq<char> {
    "Input validation failed"@
}

impl Error {
    /// The message the error carries.
    pub open spec fn text(self) -> Seq<char> {
        match self {
            Error::NotFound { msg } => msg@,
            Error::InvalidChoice { msg } => msg@,
            Error::NotAuthorized { msg } => msg@,
            Error::AllocationFault { msg } => msg@,
            Error::StorageFault { msg } => msg@,
            Error::InvalidInput { msg } => msg@,
        }
    }

    /// The message, for display.
    pub fn message(&self) -> (msg: String)
        ensures
            msg@ == self.text(),
    {
        match self {
            Error::NotFound { msg } => msg.clone(),
            Error::InvalidChoice { msg } => msg.clone(),
            Error::NotAuthorized { msg } => msg.clone(),
            Error::AllocationFault { msg } => msg.clone(),
            Error::StorageFault { msg } => msg.clone(),
            Error::InvalidInput { msg } => msg.clone(),
        }
    }

    /// Nothing is stored under `id`.
    pub fn not_found(id: u64) -> (e: Error)
        ensures
            e is NotFound,
            e.text() == not_found_text(id),
    {
        let mut msg = String::from_str("a quiz with id=");
        msg.append(decimal_text(id).as_str());
        msg.append(" not found");
        Error::NotFound { msg }
    }

    /// An edit found nothing under `id`.
    pub fn update_not_found(id: u64) -> (e: Error)
        ensures
            e is NotFound,
            e.text() == update_not_found_text(id),
    {
        let mut msg = String::from_str("couldn't update a quiz with id=");
        msg.append(decimal_text(id).as_str());
        msg.append(". quiz not found");
        Error::NotFound { msg }
    }

    /// A deletion found nothing under `id`.
    pub fn delete_not_found(id: u64) -> (e: Error)
        ensures
            e is NotFound,
            e.text() == delete_not_found_text(id),
    {
        let mut msg = String::from_str("couldn't delete a quiz with id=");
        msg.append(decimal_text(id).as_str());
        msg.append(". quiz not found.");
        Error::NotFound { msg }
    }

    /// A vote found nothing under `id`.
    pub fn vote_not_found(id: u64) -> (e: Error)
        ensures
            e is NotFound,
            e.text() == vote_not_found_text(id),
    {
        let mut msg = String::from_str("couldn't cast a quiz with id=");
        msg.append(decimal_text(id).as_str());
        msg.append(". quiz not found");
        Error::NotFound { msg }
    }

    /// The store holds no record.
    pub fn no_records() -> (e: Error)
        ensures
            e is NotFound,
            e.text() == no_records_text(),
    {
        Error::NotFound { msg: String::from_str("There are currently no quiz") }
    }

    /// `label` cannot be voted for.
    pub fn invalid_choice(label: &String) -> (e: Error)
        ensures
            e is InvalidChoice,
            e.text() == invalid_choice_text(label@),
    {
        let mut msg = String::from_str("The option '");
        msg.append(label.as_str());
        msg.append("' is not found for this quiz.");
        Error::InvalidChoice { msg }
    }

    /// The caller is not the author of the record under `id`.
    pub fn not_authorized(id: u64) -> (e: Error)
        ensures
            e is NotAuthorized,
            e.text() == not_authorized_text(id),
    {
        let mut msg = String::from_str("Not author of the quiz with id=");
        msg.append(decimal_text(id).as_str());
        Error::NotAuthorized { msg }
    }

    /// The counter could not be set up.
    pub fn no_counter() -> (e: Error)
        ensures
            e is AllocationFault,
            e.text() == no_counter_text(),
    {
        Error::AllocationFault { msg: String::from_str("Cannot create a counter") }
    }

    /// No identifier could be issued.
    pub fn allocation_fault() -> (e: Error)
        ensures
            e is AllocationFault,
            e.text() == allocation_text(),
    {
        Error::AllocationFault { msg: String::from_str("cannot increment id counter") }
    }

    /// The record of `id` has no stored form within the size bound.
    pub fn oversize(id: u64) -> (e: Error)
        ensures
            e is StorageFault,
            e.text() == oversize_text(id),
    {
        let mut msg = String::from_str("the quiz with id=");
        msg.append(decimal_text(id).as_str());
        msg.append(" does not fit in a stored record");
        Error::StorageFault { msg }
    }

    /// What is stored under `id` is not a well-formed record of that identifier.
    pub fn unreadable(id: u64) -> (e: Error)
        ensures
            e is StorageFault,
            e.text() == unreadable_text(id),
    {
        let mut msg = String::from_str("the stored quiz with id=");
        msg.append(decimal_text(id).as_str());
        msg.append(" cannot be read");
        Error::StorageFault { msg }
    }

    /// The counter of `label` cannot take another vote.
    pub fn full_tally(label: &String) -> (e: Error)
        ensures
            e is StorageFault,
            e.text() == full_tally_text(label@),
    {
        let mut msg = String::from_str("the tally of option '");
        msg.append(label.as_str());
        msg.append("' is full");
        Error::StorageFault { msg }
    }

    /// The question or the options are not acceptable.
    pub fn invalid_input() -> (e: Error)
        ensures
            e is InvalidInput,
            e.text() == invalid_input_text(),
    {
        Error::InvalidInput { msg: String::from_str("Input validation failed") }
    }
}

} // verus!
