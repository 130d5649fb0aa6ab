//! List: put an asset up for sale.
//!
//! The listing is recorded at the address that the marketplace and the
//! asset derive, so that each asset has at most one listing in a
//! marketplace. A vault is opened under the listing's authority, and the
//! seller's one unit moves into it, on the seller's own signature.
use crate::accounts::{is_associated, Account, Collection, Mint, Slot, TokenAccount};
use crate::address::{canonical_bump_of, Address};
use crate::error::{AccountError, MarketplaceError, Rejection};
use crate::host::{plan_view, unsigned, HostCall, HostCallView, Instruction};
use crate::state::listing::{listing_seeds, listing_seeds_of, Listing};
use crate::state::marketplace::Marketplace;
use vstd::prelude::*;

verus! {

/// The accounts of a listing.
#[derive(Clone, Debug, PartialEq, Eq)]
pub struct List {
    /// The engine's own identity, under which its addresses derive.
    pub program_id: Address,
    /// The seller, who signs.
    pub maker: Address,
    pub marketplace: Account<Marketplace>,
    /// The asset to list.
    pub maker_mint: Account<Mint>,
    /// The seller's holding account, which has the asset now.
    pub maker_ata: Account<TokenAccount>,
    /// The collection that the seller says the asset belongs to.
    pub collection_mint: Address,
    /// The collection that the asset's metadata attests, if any.
    pub collection: Option<Collection>,
    /// Where the listing will be recorded.
    pub listing: Slot<Listing>,
    /// Where the vault will be opened.
    pub vault: Slot<TokenAccount>,
    /// The asset service that keeps the holding accounts.
    pub token_program: Address,
}

/// The bumps found while the accounts of a listing were checked.
#[derive(Clone, Copy, Debug, PartialEq, Eq)]
pub struct ListBumps {
    pub listing: u8,
}

impl List {
    /// Whether the operation declares the account at `address`.
    pub open spec fn declares(&self, address: Address) -> bool {
        ||| address == self.maker
        ||| address == self.marketplace.key
        ||| address == self.maker_mint.key
        ||| address == self.maker_ata.key
        ||| address == self.collection_mint
        ||| address == self.listing.key
        ||| address == self.vault.key
    }

    /// The bump of the listing's address, where that address is the
    /// canonical one of the marketplace and the asset.
    pub open spec fn listing_bump(&self) -> Option<u8> {
        canonical_bump_of(
            self.listing.key,
            listing_seeds(self.marketplace.key, self.maker_mint.key),
            self.program_id,
        )
    }

    /// Whether the asset may be listed on these accounts: it is a verified
    /// member of the collection named and indivisible, the seller's holding
    /// account is the seller's for that asset, the marketplace sits at its
    /// own address, and the listing's canonical address and the vault
    /// associated with it are both free.
    pub open spec fn resolves(&self) -> bool {
        &&& self.collection == Some(Collection { key: self.collection_mint, verified: true })
        &&& self.maker_mint.data.decimals == 0
        &&& self.marketplace.data.sits_at(self.program_id, self.marketplace.key)
        &&& self.maker_ata.data == (TokenAccount { mint: self.maker_mint.key, owner: self.maker })
        &&& is_associated(self.maker_ata.key, self.maker, self.maker_mint.key, self.token_program)
        &&& self.listing_bump() is Some
        &&& self.listing.data is None
        &&& is_associated(
            self.vault.key,
            self.listing.key,
            self.maker_mint.key,
            self.token_program,
        )
        &&& self.vault.data is None
    }

    /// The first thing wrong with the asset or the accounts, if anything
    /// is: the rules of the marketplace first, then the accounts.
    pub open spec fn fault(&self) -> Option<Rejection> {
        if !(self.collection matches Some(attested) && attested.key == self.collection_mint) {
            Some(Rejection::Marketplace(MarketplaceError::CollectionInvalid))
        } else if !self.collection->0.verified {
            Some(Rejection::Marketplace(MarketplaceError::CollectionNotVerified))
        } else if self.maker_mint.data.decimals != 0 {
            Some(Rejection::Marketplace(MarketplaceError::InvalidMintDecimals))
        } else if !self.marketplace.data.sits_at(self.program_id, self.marketplace.key) {
            Some(Rejection::Account(AccountError::SeedsMismatch))
        } else if self.maker_ata.data.owner != self.maker {
            Some(Rejection::Account(AccountError::TokenOwnerMismatch))
        } else if self.maker_ata.data.mint != self.maker_mint.key {
            Some(Rejection::Account(AccountError::AssetMismatch))
        } else if !is_associated(
            self.maker_ata.key,
            self.maker,
            self.maker_mint.key,
            self.token_program,
        ) {
            Some(Rejection::Account(AccountError::NotAssociated))
        } else if self.listing_bump() is None {
            Some(Rejection::Account(AccountError::SeedsMismatch))
        } else if self.listing.data is Some {
            Some(Rejection::Account(AccountError::AlreadyInUse))
        } else if !is_associated(
            self.vault.key,
            self.listing.key,
            self.maker_mint.key,
            self.token_program,
        ) {
            Some(Rejection::Account(AccountError::NotAssociated))
        } else if self.vault.data is Some {
            Some(Rejection::Account(AccountError::AlreadyInUse))
        } else {
            None
        }
    }

    /// The record of this asset listed at `price`.
    pub open spec fn record(&self, price: u64, bump: u8) -> Listing {
        Listing { maker: self.maker, mint: self.maker_mint.key, price, bump }
    }

    /// The move of the asset from the seller into the vault, on the
    /// seller's signature.
    pub open spec fn deposit(&self) -> HostCallView {
        unsigned(
            Instruction::TransferChecked {
                from: self.maker_ata.key,
                mint: self.maker_mint.key,
                to: self.vault.key,
                authority: self.maker,
                amount: 1,
                decimals: self.maker_mint.data.decimals,
            },
        )
    }

    /// What listing at `price` answers on these accounts: the plan, or why
    /// not. The price is looked at first.
    pub open spec fn outcome(&self, price: u64) -> Result<Seq<HostCallView>, Rejection> {
        if price == 0 {
            Err(Rejection::Marketplace(MarketplaceError::InvalidPrice))
        } else {
            match self.fault() {
                Some(fault) => Err(fault),
                None => Ok(seq![self.deposit()]),
            }
        }
    }

    /// The accounts after listing at `price`: the record is written, and
    /// the vault is open under the listing's authority.
    pub open spec fn listed(&self, price: u64) -> List {
        List {
            listing: Slot {
                key: self.listing.key,
                data: Some(self.record(price, self.listing_bump()->0)),
            },
            vault: Slot {
                key: self.vault.key,
                data: Some(TokenAccount { mint: self.maker_mint.key, owner: self.listing.key }),
            },
            ..*self
        }
    }

    /// Checks the asset against the rules of the marketplace and the
    /// accounts against the addresses that their seeds derive, in a fixed
    /// order, and names the first fault. Where there is none, the answer is
    /// the bump of the listing's address.
    pub fn validate(&self) -> (checked: Result<ListBumps, Rejection>)
        ensures
            checked is Ok <==> self.resolves(),
            checked == match self.fault() {
                Some(fault) => Err::<ListBumps, Rejection>(fault),
                None => Ok(ListBumps { listing: self.listing_bump()->0 }),
            },
    {
        match self.collection {
            Some(attested) => {
                if attested.key != self.collection_mint {
                    return Err(Rejection::Marketplace(MarketplaceError::CollectionInvalid));
                }
                if !attested.verified {
                    return Err(Rejection::Marketplace(MarketplaceError::CollectionNotVerified));
                }
            },
            None => return Err(Rejection::Marketplace(MarketplaceError::CollectionInvalid)),
        }
        if self.maker_mint.data.decimals != 0 {
            return Err(Rejection::Marketplace(MarketplaceError::InvalidMintDecimals));
        }
        if !self.marketplace.data.is_registry(&self.program_id, &self.marketplace.key) {
            return Err(Rejection::Account(AccountError::SeedsMismatch));
        }
        if self.maker_ata.data.owner != self.maker {
            return Err(Rejection::Account(AccountError::TokenOwnerMismatch));
        }
        if self.maker_ata.data.mint != self.maker_mint.key {
            return Err(Rejection::Account(AccountError::AssetMismatch));
        }
        if !self.maker_ata.key.is_associated_with(
            &self.maker,
            &self.maker_mint.key,
            &self.token_program,
        ) {
            return Err(Rejection::Account(AccountError::NotAssociated));
        }
        let seeds = listing_seeds_of(&self.marketplace.key, &self.maker_mint.key);
        let bump = match self.listing.key.canonical_bump(&self.program_id, &seeds) {
            Some(bump) => bump,
            None => return Err(Rejection::Account(AccountError::SeedsMismatch)),
        };
        if self.listing.data.is_some() {
            return Err(Rejection::Account(AccountError::AlreadyInUse));
        }
        if !self.vault.key.is_associated_with(
            &self.listing.key,
            &self.maker_mint.key,
            &self.token_program,
        ) {
            return Err(Rejection::Account(AccountError::NotAssociated));
        }
        if self.vault.data.is_some() {
            return Err(Rejection::Account(AccountError::AlreadyInUse));
        }
        Ok(ListBumps { listing: bump })
    }

    /// Writes the record of the listing: the seller, the asset, the price
    /// and the bump. A price of zero is refused, and nothing is written.
    pub fn create_listing(&mut self, price: u64, bumps: &ListBumps) -> (written: Result<
        (),
        MarketplaceError,
    >)
        ensures
            price == 0 ==> written == Err::<(), MarketplaceError>(MarketplaceError::InvalidPrice)
                && *final(self) == *old(self),
            price > 0 ==> written == Ok::<(), MarketplaceError>(()) && *final(self) == (List {
                listing: Slot {
                    key: old(self).listing.key,
                    data: Some(old(self).record(price, bumps.listing)),
                },
                ..*old(self)
            }),
            written is Ok ==> final(self).listing.data->0.well_formed(),
    {
        if price == 0 {
            return Err(MarketplaceError::InvalidPrice);
        }
        self.listing.data = Some(
            Listing { maker: self.maker, mint: self.maker_mint.key, price, bump: bumps.listing },
        );
        Ok(())
    }

    /// The move of the one unit of the asset from the seller's holding
    /// account into the vault. The seller still owns the asset at this
    /// point, so the seller's signature authorises it.
    pub fn deposit_nft(&self) -> (call: HostCall)
        ensures
            call@ == self.deposit(),
    {
        HostCall::unsigned(
            Instruction::TransferChecked {
                from: self.maker_ata.key,
                mint: self.maker_mint.key,
                to: self.vault.key,
                authority: self.maker,
                amount: 1,
                decimals: self.maker_mint.data.decimals,
            },
        )
    }
}

/// Lists the seller's asset at `price`.
///
/// The price must be positive, the asset a verified member of the
/// collection named, and indivisible; the listing's address and the vault's
/// must be free. On success the answer is the plan, the one move of the
/// asset into the vault, and the accounts show the listing recorded and the
/// vault open. On refusal the accounts are as they were.
pub fn list(ctx: &mut List, price: u64) -> (plan: Result<Vec<HostCall>, Rejection>)
    ensures
        plan is Ok <==> price > 0 && old(ctx).resolves(),
        match plan {
            Ok(calls) => {
                &&& old(ctx).outcome(price) == Ok::<Seq<HostCallView>, Rejection>(
                    plan_view(&calls),
                )
                &&& *final(ctx) == old(ctx).listed(price)
            },
            Err(rejection) => {
                &&& old(ctx).outcome(price) == Err::<Seq<HostCallView>, Rejection>(rejection)
                &&& *final(ctx) == *old(ctx)
            },
        },
{
    if price == 0 {
        return Err(Rejection::Marketplace(MarketplaceError::InvalidPrice));
    }
    let bumps = ctx.validate()?;
    match ctx.create_listing(price, &bumps) {
        Ok(()) => {},
        Err(error) => return Err(Rejection::Marketplace(error)),
    }
    ctx.vault.data = Some(TokenAccount { mint: ctx.maker_mint.key, owner: ctx.listing.key });
    let deposit = ctx.deposit_nft();
    let mut calls: Vec<HostCall> = Vec::new();
    calls.push(deposit);
    proof {
        assert(plan_view(&calls) =~= seq![old(ctx).deposit()]);
    }
    Ok(calls)
}

} // verus!
