//! Error kinds and the internal error that carries an operation path.
use vstd::prelude::*;

verus! {

/// The class of an internal failure.
#[derive(Clone, Copy, Debug, PartialEq, Eq, Structural)]
pub enum ErrorType {
    NoRows,
    UniqueViolation,
    ForeignKeyViolation,
    NotNullViolation,
    JsonMarshal,
    JsonUnmarshal,
    Connection,
    Privileges,
    Internal,
    DBConnectionError,
    ConfigError,
}

/// The snake-case name under which an error type is shown.
pub open spec fn error_type_text(t: ErrorType) -> Seq<char> {
    match t {
        ErrorType::DBConnectionError => "db_connection_error"@,
        ErrorType::NoRows => "no_rows"@,
        ErrorType::UniqueViolation => "unique_violation"@,
        ErrorType::ForeignKeyViolation => "foreign_key_violation"@,
        ErrorType::NotNullViolation => "not_null_violation"@,
        ErrorType::JsonMarshal => "json_marshal"@,
        ErrorType::JsonUnmarshal => "json_unmarshal"@,
        ErrorType::Connection => "connection_exception"@,
        ErrorType::Privileges => "insufficient_privilege"@,
        ErrorType::ConfigError => "config_error"@,
        ErrorType::Internal => "internal_error"@,
    }
}

impl ErrorType {
    /// The snake-case name of this error type.
    pub fn to_string(&self) -> (r: String)
        ensures
            r@ == error_type_text(*self),
    {
        match self {
            ErrorType::DBConnectionError => String::from_str("db_connection_error"),
            ErrorType::NoRows => String::from_str("no_rows"),
            ErrorType::UniqueViolation => String::from_str("unique_violation"),
            ErrorType::ForeignKeyViolation => String::from_str("foreign_key_violation"),
            ErrorType::NotNullViolation => String::from_str("not_null_violation"),
            ErrorType::JsonMarshal => String::from_str("json_marshal"),
            ErrorType::JsonUnmarshal => String::from_str("json_unmarshal"),
            ErrorType::Connection => String::from_str("connection_exception"),
            ErrorType::Privileges => String::from_str("insufficient_privilege"),
            ErrorType::ConfigError => String::from_str("config_error"),
            ErrorType::Internal => String::from_str("internal_error"),
        }
    }
}

/// A failure inside the service: its cause, class, retryability, a human
/// message and the dotted path of the operation that failed.
#[derive(Debug)]
pub struct InternalError {
    /// Text of the root cause.
    pub err: String,
    pub err_type: ErrorType,
    pub temp: bool,
    pub msg: String,
    pub path: String,
    /// The failure of an inner operation that this one wraps, if any.
    pub cause: Option<Box<InternalError>>,
}

/// The inner failure that `e` wraps, if any.
pub open spec fn cause_of(e: InternalError) -> Option<InternalError> {
    match e.cause {
        Some(c) => Some(*c),
        None => None,
    }
}

/// `e` is `inner` wrapped under operation `path`: an internal, retryable failure
/// with the same root cause.
pub open spec fn wraps(e: InternalError, path: Seq<char>, inner: InternalError) -> bool {
    &&& e.path@ == path
    &&& e.err_type == ErrorType::Internal
    &&& e.temp
    &&& e.err == inner.err
    &&& cause_of(e) == Some(inner)
}

impl InternalError {
    pub fn new(path: String, err: String, err_type: ErrorType, temp: bool, msg: String) -> (r:
        InternalError)
        ensures
            r.path == path,
            r.err == err,
            r.err_type == err_type,
            r.temp == temp,
            r.msg == msg,
            r.cause is None,
    {
        InternalError { err, err_type, temp, msg, path, cause: None }
    }

    /// `inner` wrapped under operation `path` with message `msg`, as an internal,
    /// retryable failure that keeps `inner` as its cause and its root cause text.
    pub fn wrap(path: String, msg: String, inner: InternalError) -> (r: InternalError)
        ensures
            wraps(r, path@, inner),
            r.msg == msg,
    {
        let err = inner.err.clone();
        InternalError {
            err,
            err_type: ErrorType::Internal,
            temp: true,
            msg,
            path,
            cause: Some(Box::new(inner)),
        }
    }

    /// The underlying cause.
    pub fn source(&self) -> (r: Option<&String>)
        ensures
            r == Some(&self.err),
    {
        Some(&self.err)
    }
}

/// The error type of a relational-store failure with SQLSTATE `state`: the constraint
/// violations and the privilege error by their codes, class `08` as a connection
/// failure, anything else as internal.
pub open spec fn sql_state_type(state: Seq<char>) -> ErrorType {
    if state == "23505"@ {
        ErrorType::UniqueViolation
    } else if state == "23503"@ {
        ErrorType::ForeignKeyViolation
    } else if state == "23502"@ {
        ErrorType::NotNullViolation
    } else if state == "42501"@ {
        ErrorType::Privileges
    } else if state.len() >= 2 && state[0] == '0' && state[1] == '8' {
        ErrorType::Connection
    } else {
        ErrorType::Internal
    }
}

/// Classifies a relational-store failure by its SQLSTATE code.
pub fn error_type_for_sql_state(state: &str) -> (r: ErrorType)
    ensures
        r == sql_state_type(state@),
{
    let code = state.to_owned();
    if code == "23505".to_owned() {
        ErrorType::UniqueViolation
    } else if code == "23503".to_owned() {
        ErrorType::ForeignKeyViolation
    } else if code == "23502".to_owned() {
        ErrorType::NotNullViolation
    } else if code == "42501".to_owned() {
        ErrorType::Privileges
    } else if state.unicode_len() >= 2 && state.get_char(0) == '0' && state.get_char(1) == '8' {
        ErrorType::Connection
    } else {
        ErrorType::Internal
    }
}

} // verus!
