//! The ways in which an operation is turned away.
use vstd::prelude::*;

verus! {

/// A rule of the marketplace that the caller's input breaks.
#[derive(Clone, Copy, Debug, PartialEq, Eq, Structural)]
pub enum MarketplaceError {
    NameTooLong,
    FeeTooHigh,
    CollectionInvalid,
    CollectionNotVerified,
    InvalidPrice,
    ArithmeticOverflow,
    UnauthorizedDelist,
    InvalidMintDecimals,
}

/// A declared account that is not what the operation needs it to be.
#[derive(Clone, Copy, Debug, PartialEq, Eq, Structural)]
pub enum AccountError {
    /// A record or holding account that has to exist does not.
    NotInitialized,
    /// An address at which something is to be created is already occupied.
    AlreadyInUse,
    /// An address is not the one that its seeds derive.
    SeedsMismatch,
    /// A holding account does not sit at the address associated with its
    /// owner and asset.
    NotAssociated,
    /// A holding account is owned by someone else than expected.
    TokenOwnerMismatch,
    /// The account paid is not the seller that the listing records.
    SellerMismatch,
    /// A listing or a holding account is for another asset than the one
    /// declared.
    AssetMismatch,
    /// The reward asset has another number of decimals than the marketplace
    /// gave it.
    MintDecimalsMismatch,
    /// The reward asset is not minted under the marketplace's authority.
    MintAuthorityMismatch,
}

/// Why an operation was refused: by a rule of the marketplace, or because an
/// account did not resolve.
#[derive(Clone, Copy, Debug, PartialEq, Eq, Structural)]
pub enum Rejection {
    Marketplace(MarketplaceError),
    Account(AccountError),
}

impl MarketplaceError {
    /// The text shown to a person for this error.
    pub open spec fn message_spec(self) -> Seq<char> {
        match self {
            MarketplaceError::NameTooLong => "Name must be less than or equal to 32 characters"@,
            MarketplaceError::FeeTooHigh => {
                "Fee must be less than or equal to 10000 basis points (100%)"@
            },
            MarketplaceError::CollectionInvalid => "Invalid collection address"@,
            MarketplaceError::CollectionNotVerified => "Collection not verified"@,
            MarketplaceError::InvalidPrice => "Price must be greater than zero"@,
            MarketplaceError::ArithmeticOverflow => "Arithmetic overflow in fee calculation"@,
            MarketplaceError::UnauthorizedDelist => {
                "Unauthorized: Only the listing maker can delist"@
            },
            MarketplaceError::InvalidMintDecimals => "Invalid mint decimals"@,
        }
    }

    pub fn message(&self) -> (text: &'static str)
        ensures
            text@ == self.message_spec(),
    {
        match self {
            MarketplaceError::NameTooLong => "Name must be less than or equal to 32 characters",
            MarketplaceError::FeeTooHigh => {
                "Fee must be less than or equal to 10000 basis points (100%)"
            },
            MarketplaceError::CollectionInvalid => "Invalid collection address",
            MarketplaceError::CollectionNotVerified => "Collection not verified",
            MarketplaceError::InvalidPrice => "Price must be greater than zero",
            MarketplaceError::ArithmeticOverflow => "Arithmetic overflow in fee calculation",
            MarketplaceError::UnauthorizedDelist => {
                "Unauthorized: Only the listing maker can delist"
            },
            MarketplaceError::InvalidMintDecimals => "Invalid mint decimals",
        }
    }
}

impl AccountError {
    /// The text shown to a person for this fault.
    pub open spec fn message_spec(self) -> Seq<char> {
        match self {
            AccountError::NotInitialized => "The account does not exist"@,
            AccountError::AlreadyInUse => "The address is already in use"@,
            AccountError::SeedsMismatch => "The address is not the one that its seeds derive"@,
            AccountError::NotAssociated => "The holding account is not the associated one"@,
            AccountError::TokenOwnerMismatch => "The holding account has another owner"@,
            AccountError::SellerMismatch => "The seller is not the one that the listing records"@,
            AccountError::AssetMismatch => "The account is for another asset"@,
            AccountError::MintDecimalsMismatch => "The reward asset has other decimals"@,
            AccountError::MintAuthorityMismatch => "The reward asset has another authority"@,
        }
    }

    pub fn message(&self) -> (text: &'static str)
        ensures
            text@ == self.message_spec(),
    {
        match self {
            AccountError::NotInitialized => "The account does not exist",
            AccountError::AlreadyInUse => "The address is already in use",
            AccountError::SeedsMismatch => "The address is not the one that its seeds derive",
            AccountError::NotAssociated => "The holding account is not the associated one",
            AccountError::TokenOwnerMismatch => "The holding account has another owner",
            AccountError::SellerMismatch => "The seller is not the one that the listing records",
            AccountError::AssetMismatch => "The account is for another asset",
            AccountError::MintDecimalsMismatch => "The reward asset has other decimals",
            AccountError::MintAuthorityMismatch => "The reward asset has another authority",
        }
    }
}

impl Rejection {
    /// The text shown to a person for this refusal.
    pub open spec fn message_spec(self) -> Seq<char> {
        match self {
            Rejection::Marketplace(error) => error.message_spec(),
            Rejection::Account(fault) => fault.message_spec(),
        }
    }

    pub fn message(&self) -> (text: &'static str)
        ensures
            text@ == self.message_spec(),
    {
        match self {
            Rejection::Marketplace(error) => error.message(),
            Rejection::Account(fault) => fault.message(),
        }
    }
}

} // verus!
