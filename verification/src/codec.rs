//! The stored form of a record: its Candid encoding, within the size bound.
//!
//! Candid does the encoding and the decoding. The encoding is a function of the
//! record alone, so it has a name, and the size bound is stated over that name.
//! The decoding also depends on how much stack is left when it runs, so nothing is
//! said of what it returns: whatever it hands back is tested against the record's
//! invariant, and the rules of the store are proved for every record that passes.

use crate::record::{Quiz, QuizView};
use crate::stable::MAX_RECORD_SIZE;
use vstd::prelude::*;

verus! {

/// What `candid::encode_one` returns for the fields of a record, taken in the order
/// of their declaration as one tuple; `None` stands for its error.
pub uninterp spec fn candid_encoding(quiz: QuizView) -> Option<Seq<u8>>;

/// The bytes of an optional buffer.
pub open spec fn bytes_of(buffer: Option<Vec<u8>>) -> Option<Seq<u8>> {
    match buffer {
        Some(b) => Some(b@),
        None => None,
    }
}

/// The view of an optional record.
pub open spec fn view_of(quiz: Option<Quiz>) -> Option<QuizView> {
    match quiz {
        Some(q) => Some(q@),
        None => None,
    }
}

/// `encoded`, unless it is longer than a stored record may be.
pub open spec fn bounded(encoded: Option<Seq<u8>>) -> Option<Seq<u8>> {
    match encoded {
        Some(b) => if b.len() <= MAX_RECORD_SIZE {
            Some(b)
        } else {
            None
        },
        None => None,
    }
}

/// `decoded`, unless it breaks the invariant of a record.
pub open spec fn sound(decoded: Option<QuizView>) -> Option<QuizView> {
    match decoded {
        Some(q) => if q.wf() {
            Some(q)
        } else {
            None
        },
        None => None,
    }
}

/// The stored form of a record, if it has one.
pub open spec fn stored_form(quiz: QuizView) -> Option<Seq<u8>> {
    bounded(candid_encoding(quiz))
}

/// `candid::encode_one` on the tuple of the record's fields. The result is the
/// encoding that Candid gives, or `None` where Candid reports an error.
#[verifier::external_body]
fn candid_encode(quiz: &Quiz) -> (encoded: Option<Vec<u8>>)
    ensures
        bytes_of(encoded) == candid_encoding(quiz@),
{
    candid::encode_one((
        quiz.id,
        &quiz.author,
        &quiz.question,
        &quiz.options,
        &quiz.answers,
        quiz.created_at,
        quiz.updated_at,
    )).ok()
}

/// `candid::decode_one` for the tuple of a record's fields. The result holds the
/// fields that Candid read, or is `None` where Candid reports an error. Nothing is
/// claimed of it.
#[verifier::external_body]
fn candid_decode(bytes: &Vec<u8>) -> (decoded: Option<Quiz>) {
    let (id, author, question, options, answers, created_at, updated_at) = candid::decode_one::<
        (u64, Option<String>, String, Vec<String>, Vec<u32>, u64, Option<u64>),
    >(bytes).ok()?;
    Some(Quiz { id, author, question, options, answers, created_at, updated_at })
}

/// Keeps an encoding that fits in a stored record, and drops one that does not.
pub fn keep_bounded(encoded: Option<Vec<u8>>) -> (kept: Option<Vec<u8>>)
    ensures
        bytes_of(kept) == bounded(bytes_of(encoded)),
{
    match encoded {
        Some(bytes) => if bytes.len() <= MAX_RECORD_SIZE {
            Some(bytes)
        } else {
            None
        },
        None => None,
    }
}

/// Keeps a decoded record that meets the invariant, and drops one that does not.
pub fn keep_sound(decoded: Option<Quiz>) -> (kept: Option<Quiz>)
    ensures
        view_of(kept) == sound(view_of(decoded)),
{
    match decoded {
        Some(quiz) => if quiz.is_valid() {
            Some(quiz)
        } else {
            None
        },
        None => None,
    }
}

impl Quiz {
    /// The stored form of the record: its encoding, if there is one of at most
    /// `MAX_RECORD_SIZE` bytes.
    pub fn to_bytes(&self) -> (bytes: Option<Vec<u8>>)
        ensures
            bytes_of(bytes) == stored_form(self@),
    {
        keep_bounded(candid_encode(self))
    }

    /// The record that `bytes` are read as: what they decode to, if they decode
    /// and that meets the invariant of a record.
    pub fn from_bytes(bytes: &Vec<u8>) -> (quiz: Option<Quiz>)
        ensures
            quiz matches Some(read) ==> read@.wf(),
    {
        keep_sound(candid_decode(bytes))
    }
}

} // verus!
