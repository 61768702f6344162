use vstd::prelude::*;

verus! {

/// The errors that corpus operations hand back to the fuzzing loop.
#[derive(Debug)]
pub enum AflError {
    /// The operation needs at least one entry and the corpus has none.
    Empty(String),
    /// An index was out of bounds.
    KeyNotFound(String),
    /// A testcase has neither an input nor a filename.
    IllegalState(String),
    /// Reading a persisted input failed.
    Persistence(String),
}

impl AflError {
    pub open spec fn is_empty_corpus(&self) -> bool {
        self is Empty
    }

    pub open spec fn is_key_not_found(&self) -> bool {
        self is KeyNotFound
    }

    pub open spec fn is_illegal_state(&self) -> bool {
        self is IllegalState
    }

    /// The message carried by the error.
    pub fn message(&self) -> (r: &String)
        ensures
            r == match self {
                AflError::Empty(m) => m,
                AflError::KeyNotFound(m) => m,
                AflError::IllegalState(m) => m,
                AflError::Persistence(m) => m,
            },
    {
        match self {
            AflError::Empty(m) => m,
            AflError::KeyNotFound(m) => m,
            AflError::IllegalState(m) => m,
            AflError::Persistence(m) => m,
        }
    }
}

} // verus!
