use vstd::prelude::*;

verus! {

/// Why an operation on the ledger did not give its result.
#[derive(Debug, Clone)]
pub enum LedgerError {
    /// The storage could not be reached or refused the query; the text is
    /// the storage's own.
    StorageUnavailable(String),
    /// The storage holds nothing under what was asked for.
    NotFound,
    /// The request cannot be carried out as it stands; the text says why.
    InvalidInput(String),
}

impl LedgerError {
    /// The text that the error carries; `NotFound` carries none.
    pub open spec fn text(self) -> Seq<char> {
        match self {
            LedgerError::StorageUnavailable(text) => text@,
            LedgerError::NotFound => Seq::empty(),
            LedgerError::InvalidInput(text) => text@,
        }
    }

    /// The text that the error carries, for a caller to show.
    pub fn message(&self) -> (message: String)
        ensures
            message@ == self.text(),
    {
        match self {
            LedgerError::StorageUnavailable(text) => text.clone(),
            LedgerError::NotFound => String::new(),
            LedgerError::InvalidInput(text) => text.clone(),
        }
    }
}

} // verus!
