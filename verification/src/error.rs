//! The ways in which a ledger operation is turned down.

use vstd::prelude::*;

verus! {

/// Why an operation was rejected. A rejected operation changes nothing.
#[derive(Clone, Copy, Debug, PartialEq, Eq, Structural)]
pub enum MarketError {
    /// A record already occupies the address that the operation would create.
    AlreadyExists,
    /// A fee or reward rate above 10000 basis points.
    InvalidFee,
    /// The caller is not the identity that the record names.
    Unauthorized,
    /// A supplied address is not the one that the records or the derivation give.
    AddressMismatch,
    /// The escrowed item is not of the mint that the purchase names.
    MintMismatch,
    /// A balance is smaller than the amount to be taken from it.
    InsufficientFunds,
    /// No record at the address, or no address can be derived from the seeds.
    NotFound,
    /// Issuing the amount would take a supply beyond what 64 bits hold.
    Overflow,
}

impl MarketError {
    /// The name of the variant.
    pub fn message(&self) -> (text: String)
        ensures
            text@ == self.spec_message(),
    {
        let text: &str = match self {
            MarketError::AlreadyExists => "AlreadyExists",
            MarketError::InvalidFee => "InvalidFee",
            MarketError::Unauthorized => "Unauthorized",
            MarketError::AddressMismatch => "AddressMismatch",
            MarketError::MintMismatch => "MintMismatch",
            MarketError::InsufficientFunds => "InsufficientFunds",
            MarketError::NotFound => "NotFound",
            MarketError::Overflow => "Overflow",
        };
        String::from_str(text)
    }

    pub open spec fn spec_message(&self) -> Seq<char> {
        match self {
            MarketError::AlreadyExists => "AlreadyExists"@,
            MarketError::InvalidFee => "InvalidFee"@,
            MarketError::Unauthorized => "Unauthorized"@,
            MarketError::AddressMismatch => "AddressMismatch"@,
            MarketError::MintMismatch => "MintMismatch"@,
            MarketError::InsufficientFunds => "InsufficientFunds"@,
            MarketError::NotFound => "NotFound"@,
            MarketError::Overflow => "Overflow"@,
        }
    }
}

} // verus!
