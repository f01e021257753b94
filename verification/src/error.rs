//! The error that an operation answers with.

use vstd::prelude::*;

use crate::json::{Json, JsonV};

verus! {

/// Why an operation was refused or failed, in words.
#[derive(Debug)]
pub struct OpError {
    pub message: String,
}

impl View for OpError {
    type V = Seq<char>;

    open spec fn view(&self) -> Seq<char> {
        self.message@
    }
}

impl OpError {
    /// The error with the given message.
    pub fn new(message: &str) -> (r: OpError)
        ensures
            r@ == message@,
    {
        OpError { message: message.to_owned() }
    }
}

/// What an operation answered: a document or an error message.
pub open spec fn outcome(r: Result<Json, OpError>) -> Result<JsonV, Seq<char>> {
    match r {
        Ok(j) => Ok(j@),
        Err(e) => Err(e@),
    }
}

} // verus!
