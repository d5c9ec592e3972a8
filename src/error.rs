use vstd::prelude::*;

verus! {

/// Why an operation was refused. Every error aborts the operation with no
/// record changed and no token minted.
#[derive(Clone, Copy, Debug, PartialEq, Eq, Structural)]
pub enum ErrorCode {
    /// A text field is longer than its bound.
    InvalidInput,
    /// Every ticket of the concert has been sold.
    SoldOut,
    /// The sold counter cannot be incremented within 16 bits.
    ArithmeticOverflow,
    /// The new capacity would be below the number of tickets already sold.
    CapacityBelowSold,
    /// The requester is neither the record's owner nor the global admin.
    Unauthorized,
    /// The ticket has already been redeemed.
    AlreadyUsed,
    /// The token issuer reported a failure while minting.
    MintFailed,
}

/// A failure reported by the token issuer, carried as its numeric code.
#[derive(Clone, Copy, Debug, PartialEq, Eq, Structural)]
pub struct MintError {
    pub code: u32,
}

} // verus!
