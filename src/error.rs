use vstd::prelude::*;

verus! {

/// Why a block, a digest or a transaction was rejected.
#[derive(Debug, Clone, PartialEq, Eq)]
pub enum BlockError {
    /// Stored digest bytes do not have the digest length; `len` is what was found.
    MalformedDigest { len: usize },
    /// The stored digest differs from the digest of the current content.
    HashMismatch { stored: Vec<u8>, computed: Vec<u8> },
    /// A genesis transaction declares a bounty or a bounty recipient.
    GenesisBounty,
    /// Some transfer's source key has no valid signature over the commit.
    InvalidSignature,
    /// Operation indices of a transaction do not increase in order of addition.
    OperationOrder,
}

} // verus!
