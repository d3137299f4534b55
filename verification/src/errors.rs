//! Error taxonomy of the registry service, and its mapping to the numeric
//! return codes used by the service-result structures at the boundary.

use vstd::prelude::*;

verus! {

/// Return code reported by a service result on success; every error kind
/// maps to a distinct non-zero code.
pub const SUCCESS_CODE: i32 = 0;

/// What can go wrong inside the registry service.
///
/// `StorageFailure` and `CorruptedRecord` belong to the storage interface:
/// a backend may be unreachable, or may hand back a row of the wrong shape.
/// They are part of the wire contract even though the in-memory backend of
/// this crate never produces them.  `Unauthorized` reports a failed
/// privilege check on a mutating registry call, and `InvalidArgument` a
/// malformed input such as an empty peer identity.
#[derive(Clone, Copy, Debug, PartialEq, Eq, Structural)]
pub enum ProviderError {
    StorageFailure,
    CorruptedRecord,
    Unauthorized,
    InvalidArgument,
}

/// The numeric classification of each error kind.  Stable: these codes are
/// the wire contract, and none of them collides with [`SUCCESS_CODE`].
pub open spec fn spec_error_code(e: ProviderError) -> i32 {
    match e {
        ProviderError::StorageFailure => 1,
        ProviderError::CorruptedRecord => 2,
        ProviderError::Unauthorized => 3,
        ProviderError::InvalidArgument => 4,
    }
}

/// The human-readable message of each error kind.
pub open spec fn spec_error_message(e: ProviderError) -> Seq<char> {
    match e {
        ProviderError::StorageFailure => "storage backend failure"@,
        ProviderError::CorruptedRecord => "stored record has an unexpected shape"@,
        ProviderError::Unauthorized => "caller is neither the owner nor a registered peer"@,
        ProviderError::InvalidArgument => "peer identity must not be empty"@,
    }
}

/// Maps an error to its numeric return code.
pub fn to_error_core(err: &ProviderError) -> (code: i32)
    ensures
        code == spec_error_code(*err),
        code != SUCCESS_CODE,
{
    match err {
        ProviderError::StorageFailure => 1,
        ProviderError::CorruptedRecord => 2,
        ProviderError::Unauthorized => 3,
        ProviderError::InvalidArgument => 4,
    }
}

impl ProviderError {
    /// The human-readable message reported beside the numeric code.
    pub fn message(&self) -> (msg: String)
        ensures
            msg@ == spec_error_message(*self),
    {
        match self {
            ProviderError::StorageFailure => "storage backend failure".to_owned(),
            ProviderError::CorruptedRecord => "stored record has an unexpected shape".to_owned(),
            ProviderError::Unauthorized => {
                "caller is neither the owner nor a registered peer".to_owned()
            },
            ProviderError::InvalidArgument => "peer identity must not be empty".to_owned(),
        }
    }
}

} // verus!
