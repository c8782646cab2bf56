use vstd::prelude::*;

verus! {

/// Every failure the vault reports, each carrying a human-readable message.
#[derive(Debug, Clone, PartialEq, Eq)]
pub enum StoreError {
    /// Empty or otherwise invalid input.
    Validation(String),
    /// A directory or file could not be created or written.
    Io(String),
    /// The registry document is malformed.
    Parse(String),
    /// A file, directory or user is missing.
    NotFound(String),
    /// The remote service could not be reached or answered with a failure.
    Network(String),
}

impl StoreError {
    pub open spec fn message_view(&self) -> Seq<char> {
        match self {
            StoreError::Validation(m) => m@,
            StoreError::Io(m) => m@,
            StoreError::Parse(m) => m@,
            StoreError::NotFound(m) => m@,
            StoreError::Network(m) => m@,
        }
    }

    /// The message surfaced to the user interface.
    pub fn message(&self) -> (r: String)
        ensures
            r@ == self.message_view(),
    {
        match self {
            StoreError::Validation(m) => m.clone(),
            StoreError::Io(m) => m.clone(),
            StoreError::Parse(m) => m.clone(),
            StoreError::NotFound(m) => m.clone(),
            StoreError::Network(m) => m.clone(),
        }
    }
}

} // verus!
