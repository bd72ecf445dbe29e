//! The classified error taxonomy.
//!
//! Every fallible operation of this crate resolves to exactly one
//! `GLApiError` variant; no layer downgrades an error to a default value.

use vstd::prelude::*;

verus! {

/// The single discriminated error type the rest of the crate converts all
/// failure paths into.
#[derive(Debug, Clone, PartialEq, Eq)]
pub enum GLApiError {
    /// A network or HTTP-layer failure, with the transport's own message.
    Transport(String),
    /// The private token was required at the point of use but absent.
    NoPrivateToken,
    /// The repository URL was required at the point of use but absent.
    NoRepoUrl,
    /// The project identifier was required at the point of use but absent.
    NoProject,
    /// The response body decoded neither as the expected type nor as the
    /// server's error envelope; carries the raw body for diagnostics.
    CantParseResp { resp_text: String },
    /// The server reported an error through its error envelope.
    APIErr { error: String },
    /// A free-form string was not a member of a closed enumeration;
    /// carries the offending string.
    ParseError(String),
    /// A configuration file could not be read.
    ReadCfgError,
}

/// The server's error envelope: a single `error` message field.
#[derive(Debug, Clone, PartialEq, Eq)]
pub struct APIErr {
    pub error: String,
}

impl From<APIErr> for GLApiError {
    fn from(ae: APIErr) -> (r: GLApiError) {
        GLApiError::APIErr { error: ae.error }
    }
}

impl vstd::std_specs::convert::FromSpecImpl<APIErr> for GLApiError {
    open spec fn obeys_from_spec() -> bool {
        true
    }

    open spec fn from_spec(ae: APIErr) -> GLApiError {
        GLApiError::APIErr { error: ae.error }
    }
}

} // verus!
