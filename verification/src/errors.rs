//! Error types of the library. The payloads are plain messages; rendering
//! for a user happens outside the core.

use vstd::prelude::*;
use vstd::string::StringExecFns;

verus! {

/// Errors of the store-facing operations.
#[derive(Debug)]
pub enum CoreError {
    /// A persistence-layer failure, carried as its message.
    Db(String),
    /// A serialization failure.
    Json(String),
    /// An I/O failure.
    Io(String),
    /// A settings-store failure.
    Settings(String),
    /// The requested entity does not exist.
    NotFound(String),
    /// The request was rejected before any work was done.
    Validation(String),
}

impl CoreError {
    /// The category label and the carried message of this error.
    pub open spec fn rendered(self) -> Seq<char> {
        match self {
            CoreError::Db(m) => "database error: "@ + m@,
            CoreError::Json(m) => "json error: "@ + m@,
            CoreError::Io(m) => "io error: "@ + m@,
            CoreError::Settings(m) => "settings error: "@ + m@,
            CoreError::NotFound(m) => "not found: "@ + m@,
            CoreError::Validation(m) => "validation: "@ + m@,
        }
    }

    /// Renders the error as its category label followed by the message.
    pub fn message(&self) -> (r: String)
        ensures
            r@ == self.rendered(),
    {
        let (prefix, m) = match self {
            CoreError::Db(m) => ("database error: ", m),
            CoreError::Json(m) => ("json error: ", m),
            CoreError::Io(m) => ("io error: ", m),
            CoreError::Settings(m) => ("settings error: ", m),
            CoreError::NotFound(m) => ("not found: ", m),
            CoreError::Validation(m) => ("validation: ", m),
        };
        let mut out = String::from_str(prefix);
        out.append(m.as_str());
        out
    }
}

/// Errors of the worker runtime's own bookkeeping. Executor failures are
/// carried here as messages and fed to the retry state machine, never
/// propagated past one processing round.
#[derive(Debug)]
pub enum WorkerError {
    /// A store-facing operation failed.
    Core(String),
    /// A persistence-layer failure.
    Db(String),
    /// A settings-store failure.
    Settings(String),
    /// A serialization failure.
    Json(String),
    /// An I/O failure.
    Io(String),
    /// The external helper process failed or answered malformedly.
    Bridge(String),
    /// The job's payload was unusable or its kind unknown.
    Payload(String),
}

impl WorkerError {
    /// The category label and the carried message of this error.
    pub open spec fn rendered(self) -> Seq<char> {
        match self {
            WorkerError::Core(m) => "core error: "@ + m@,
            WorkerError::Db(m) => "db error: "@ + m@,
            WorkerError::Settings(m) => "settings error: "@ + m@,
            WorkerError::Json(m) => "json error: "@ + m@,
            WorkerError::Io(m) => "io error: "@ + m@,
            WorkerError::Bridge(m) => "bridge error: "@ + m@,
            WorkerError::Payload(m) => "invalid payload: "@ + m@,
        }
    }

    /// Renders the error; this is the text recorded as a job's `last_error`.
    pub fn message(&self) -> (r: String)
        ensures
            r@ == self.rendered(),
    {
        let (prefix, m) = match self {
            WorkerError::Core(m) => ("core error: ", m),
            WorkerError::Db(m) => ("db error: ", m),
            WorkerError::Settings(m) => ("settings error: ", m),
            WorkerError::Json(m) => ("json error: ", m),
            WorkerError::Io(m) => ("io error: ", m),
            WorkerError::Bridge(m) => ("bridge error: ", m),
            WorkerError::Payload(m) => ("invalid payload: ", m),
        };
        let mut out = String::from_str(prefix);
        out.append(m.as_str());
        out
    }
}

/// Errors of the settings store.
#[derive(Debug)]
pub enum SettingsError {
    /// An I/O failure.
    Io(String),
    /// A serialization failure.
    Json(String),
    /// The value offered for a setting was rejected.
    Invalid(String),
    /// A stored secret could not be decoded.
    SecretDecode,
    /// The platform secret-protection service failed.
    Dpapi(String),
}

/// The error envelope handed to the embedding application surface.
pub struct AppError {
    pub code: String,
    pub message: String,
}

impl AppError {
    /// Pairs an error code with its message.
    pub fn new(code: &str, message: &str) -> (r: Self)
        ensures
            r.code@ == code@,
            r.message@ == message@,
    {
        AppError { code: code.to_owned(), message: message.to_owned() }
    }
}
} // verus!
