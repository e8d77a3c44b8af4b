//! The errors the use cases report, and their messages.
use vstd::prelude::*;

verus! {

/// Errors that the canteen's use cases report.
#[derive(Debug, Clone)]
pub enum AppError {
    /// A storage failure, with the storage layer's message.
    Db(String),
    /// A schema migration failure.
    Migration(String),
    /// A date or time that could not be parsed.
    ChronoParse(String),
    /// A record that was looked for and not found.
    NotFound(String),
    /// Input that breaks a rule of the canteen.
    Validation(String),
    /// A lock whose holder panicked.
    LockPoisoned(String),
    /// Anything else.
    Unexpected(String),
}

/// The text that `AppError::to_string` shows: a fixed prefix per variant and the payload.
pub open spec fn app_error_text(e: AppError) -> Seq<char> {
    match e {
        AppError::Db(m) => "database error: "@ + m@,
        AppError::Migration(m) => "migration error: "@ + m@,
        AppError::ChronoParse(m) => "chrono parse error: "@ + m@,
        AppError::NotFound(m) => "not found: "@ + m@,
        AppError::Validation(m) => "validation error: "@ + m@,
        AppError::LockPoisoned(m) => "mutex was poisoned: "@ + m@,
        AppError::Unexpected(m) => "unexpected error: "@ + m@,
    }
}

impl AppError {
    /// The human readable message of the error.
    pub fn to_string(&self) -> (s: String)
        ensures
            s@ == app_error_text(*self),
    {
        match self {
            AppError::Db(m) => String::from_str("database error: ").concat(m.as_str()),
            AppError::Migration(m) => String::from_str("migration error: ").concat(m.as_str()),
            AppError::ChronoParse(m) => String::from_str("chrono parse error: ").concat(m.as_str()),
            AppError::NotFound(m) => String::from_str("not found: ").concat(m.as_str()),
            AppError::Validation(m) => String::from_str("validation error: ").concat(m.as_str()),
            AppError::LockPoisoned(m) => String::from_str("mutex was poisoned: ").concat(m.as_str()),
            AppError::Unexpected(m) => String::from_str("unexpected error: ").concat(m.as_str()),
        }
    }
}

} // verus!
