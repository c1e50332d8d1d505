//! What can go wrong while the store is asked and its answer is read.

use vstd::prelude::*;

verus! {

/// The kinds of failure, each with what is known of it.
#[derive(Debug)]
pub enum MyError {
    /// The store's client failed; its report.
    Redis(String),
    /// A text was to be read as a number and is none; the text.
    ParseFloat(Vec<u8>),
}

pub type Result<T> = std::result::Result<T, MyError>;

} // verus!
