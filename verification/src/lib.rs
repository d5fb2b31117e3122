//! A durable store of quiz records.
//!
//! A quiz has a question, a list of options and one vote counter for each option.
//! The store keeps every quiz in durable memory under an identifier that it issues
//! itself and never issues twice, and offers the operations on them: create, read
//! one, list all, edit, delete and vote.
//!
//! - [`record`] holds the quiz and its rules: what a valid record is, what an edit
//!   and a vote do to it.
//! - [`codec`] holds the stored form of a record.
//! - [`store`] holds the durable state and the operations on it.
//! - [`stable`] holds the durable structures underneath.
//! - [`error`] holds the failures that the operations report, and [`text`] the
//!   decimal text that their messages use.

pub mod codec;
pub mod error;
pub mod record;
pub mod stable;
pub mod store;
pub mod text;
