use vstd::prelude::*;

verus! {

/// What an operation of the domain fails with; the text says why.
#[derive(Debug)]
pub enum DomainError {
    NotFound(String),
    BadRequest(String),
    InternalServerError(String),
}

impl DomainError {
    /// The text of the error.
    pub open spec fn text(&self) -> Seq<char> {
        match *self {
            DomainError::NotFound(text) => text@,
            DomainError::BadRequest(text) => text@,
            DomainError::InternalServerError(text) => text@,
        }
    }

    pub fn message(&self) -> (text: String)
        ensures
            text@ == self.text(),
    {
        match self {
            DomainError::NotFound(text) => text.clone(),
            DomainError::BadRequest(text) => text.clone(),
            DomainError::InternalServerError(text) => text.clone(),
        }
    }
}

} // verus!
