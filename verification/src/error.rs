use vstd::prelude::*;

verus! {

/// The failures a request can end in.
#[derive(Debug)]
pub enum AppError {
    /// The request was refused for what it holds (bad input, bad credentials).
    Validation(String),
    /// Something failed on the server's side.
    Internal(String),
    /// The database reported an error; the text is its description.
    Database(String),
}

impl AppError {
    /// The message carried by the error, whatever its kind.
    pub open spec fn message(self) -> Seq<char> {
        match self {
            AppError::Validation(m) => m@,
            AppError::Internal(m) => m@,
            AppError::Database(m) => m@,
        }
    }

    /// Is this a refusal of the request's content?
    pub open spec fn is_validation_with(self, text: Seq<char>) -> bool {
        self matches AppError::Validation(m) && m@ == text
    }

    /// Is this a server-side failure with exactly this message?
    pub open spec fn is_internal_with(self, text: Seq<char>) -> bool {
        self matches AppError::Internal(m) && m@ == text
    }
}

} // verus!
