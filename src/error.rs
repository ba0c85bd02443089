use vstd::prelude::*;

verus! {

/// Why an operation failed. A failed operation changes nothing.
#[derive(Clone, Copy, Debug, PartialEq, Eq, Structural)]
pub enum Error {
    /// A balance was asked of the zero address.
    InvalidOwner,
    /// The caller neither owns the tokens nor is an approved operator.
    NotOwnerNorApproved,
    TransferToZeroAddress,
    /// The sender holds less than it sends.
    InsufficientBalance,
    /// Two sequences that go pairwise differ in length.
    MismatchedLengths,
    MintToZeroAddress,
    BurnFromZeroAddress,
    BurnAmountExceedsBalance,
    /// An owner named itself as its own operator.
    SettingApprovalForSelf,
    /// A receiving contract did not accept what it was sent.
    TransferRejectedByReceiver,
    /// The caller lacks the right that the operation asks for.
    Unauthorized,
    /// A balance would exceed 2^256 - 1.
    Overflow,
}

impl Error {
    /// The code that the host reports for this failure.
    pub fn code(&self) -> (r: u16)
        ensures
            r == self.spec_code(),
    {
        match self {
            Error::InvalidOwner => 0,
            Error::NotOwnerNorApproved => 1,
            Error::TransferToZeroAddress => 2,
            Error::InsufficientBalance => 3,
            Error::MismatchedLengths => 4,
            Error::MintToZeroAddress => 5,
            Error::BurnFromZeroAddress => 6,
            Error::BurnAmountExceedsBalance => 7,
            Error::SettingApprovalForSelf => 8,
            Error::TransferRejectedByReceiver => 9,
            Error::Unauthorized => 10,
            Error::Overflow => 11,
        }
    }

    pub open spec fn spec_code(&self) -> u16 {
        match self {
            Error::InvalidOwner => 0,
            Error::NotOwnerNorApproved => 1,
            Error::TransferToZeroAddress => 2,
            Error::InsufficientBalance => 3,
            Error::MismatchedLengths => 4,
            Error::MintToZeroAddress => 5,
            Error::BurnFromZeroAddress => 6,
            Error::BurnAmountExceedsBalance => 7,
            Error::SettingApprovalForSelf => 8,
            Error::TransferRejectedByReceiver => 9,
            Error::Unauthorized => 10,
            Error::Overflow => 11,
        }
    }
}

} // verus!
