//! The validation failure kinds that both builders raise before any wire
//! text is produced, together with the failures the surrounding transport
//! reports through the same type.

use vstd::prelude::*;

verus! {

/// Main error type for the crate.
///
/// The builders in this crate only ever construct `QueryFormatError`; the
/// remaining variants are raised by the caller-supplied transport and
/// response-parsing layer, which reports its failures through the same
/// taxonomy.
#[derive(Debug, Clone)]
pub enum CruxError {
    /// The provided EDN text did not match the expected schema.
    ParseEdnError(String),
    /// An EDN value could not be deserialized into a typed record.
    DeserializeError(String),
    /// Iterating over an EDN structure failed.
    IterError(String),
    /// The HTTP request failed; the payload renders the transport's error.
    RequestError(String),
    /// The HTTP response could not be used.
    BadResponse(String),
    /// The response could not be parsed into the expected record.
    ResponseFailed(String),
    /// The database rejected the query.
    QueryError(String),
    /// The provided `Query` did not satisfy a validation rule.
    QueryFormatError(String),
    /// The provided actions cannot be empty.
    TxLogActionError(String),
}

impl CruxError {
    /// The text carried by the error.
    pub open spec fn spec_message(self) -> Seq<char> {
        match self {
            CruxError::ParseEdnError(s) => s@,
            CruxError::DeserializeError(s) => s@,
            CruxError::IterError(s) => s@,
            CruxError::RequestError(s) => s@,
            CruxError::BadResponse(s) => s@,
            CruxError::ResponseFailed(s) => s@,
            CruxError::QueryError(s) => s@,
            CruxError::QueryFormatError(s) => s@,
            CruxError::TxLogActionError(s) => s@,
        }
    }

    /// The text carried by the error.
    pub fn message(&self) -> (r: String)
        ensures
            r@ == self.spec_message(),
    {
        match self {
            CruxError::ParseEdnError(s) => s.clone(),
            CruxError::DeserializeError(s) => s.clone(),
            CruxError::IterError(s) => s.clone(),
            CruxError::RequestError(s) => s.clone(),
            CruxError::BadResponse(s) => s.clone(),
            CruxError::ResponseFailed(s) => s.clone(),
            CruxError::QueryError(s) => s.clone(),
            CruxError::QueryFormatError(s) => s.clone(),
            CruxError::TxLogActionError(s) => s.clone(),
        }
    }
}

} // verus!
