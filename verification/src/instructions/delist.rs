//! Delist: take an unsold asset back.
//!
//! Only the seller that the listing records may do so. The asset leaves the
//! vault for the seller's holding account, signed as the listing; then the
//! vault and the listing are closed in the seller's favour.
use crate::accounts::{is_associated, Account, Mint, Slot, TokenAccount};
use crate::address::{derives, signer_seeds, with_bump, Address};
use crate::error::{AccountError, MarketplaceError, Rejection};
use crate::host::{plan_view, signed, unsigned, HostCall, HostCallView, Instruction};
use crate::state::listing::{listing_seeds, listing_seeds_of, Listing};
use crate::state::marketplace::Marketplace;
use vstd::prelude::*;

verus! {

/// The accounts of a delisting.
#[derive(Clone, Debug, PartialEq, Eq)]
pub struct Delist {
    /// The engine's own identity, under which its addresses derive.
    pub program_id: Address,
    /// Who asks for the asset back, and signs.
    pub maker: Address,
    pub marketplace: Account<Marketplace>,
    /// The listed asset.
    pub maker_mint: Account<Mint>,
    /// The seller's holding account, to which the asset returns.
    pub maker_ata: Account<TokenAccount>,
    pub listing: Slot<Listing>,
    /// The holding account that keeps the asset while it is listed.
    pub vault: Slot<TokenAccount>,
    /// The asset service that keeps the holding accounts.
    pub token_program: Address,
}

impl Delist {
    /// Whether the operation declares the account at `address`.
    pub open spec fn declares(&self, address: Address) -> bool {
        ||| address == self.maker
        ||| address == self.marketplace.key
        ||| address == self.maker_mint.key
        ||| address == self.maker_ata.key
        ||| address == self.listing.key
        ||| address == self.vault.key
    }

    /// The seeds that sign for the listing of the declared asset.
    pub open spec fn withdrawal_seeds(&self) -> Seq<Seq<u8>> {
        with_bump(
            listing_seeds(self.marketplace.key, self.maker_mint.key),
            self.listing.data->0.bump,
        )
    }

    /// Whether the accounts are those of a listing that the caller may
    /// withdraw: the listing and its vault exist, the caller is the seller
    /// that the listing records, every derived address is the one that its
    /// seeds derive, and the holding accounts are those of the asset, the
    /// vault under the listing's authority and the seller's under the
    /// seller's.
    pub open spec fn resolves(&self) -> bool {
        &&& self.listing.data matches Some(listing)
        &&& self.vault.data matches Some(vault)
        &&& listing.maker == self.maker
        &&& listing.mint == self.maker_mint.key
        &&& self.marketplace.data.sits_at(self.program_id, self.marketplace.key)
        &&& listing.sits_at(self.program_id, self.marketplace.key, self.listing.key)
        &&& self.maker_ata.data == (TokenAccount { mint: self.maker_mint.key, owner: self.maker })
        &&& is_associated(self.maker_ata.key, self.maker, self.maker_mint.key, self.token_program)
        &&& vault == (TokenAccount { mint: self.maker_mint.key, owner: self.listing.key })
        &&& is_associated(
            self.vault.key,
            self.listing.key,
            self.maker_mint.key,
            self.token_program,
        )
    }

    /// The first thing wrong with the accounts, if anything is. Whether the
    /// caller is the recorded seller is asked as soon as the listing is
    /// known to exist.
    pub open spec fn fault(&self) -> Option<Rejection> {
        if self.listing.data is None {
            Some(Rejection::Account(AccountError::NotInitialized))
        } else if self.listing.data->0.maker != self.maker {
            Some(Rejection::Marketplace(MarketplaceError::UnauthorizedDelist))
        } else if !self.marketplace.data.sits_at(self.program_id, self.marketplace.key) {
            Some(Rejection::Account(AccountError::SeedsMismatch))
        } else if self.maker_ata.data.owner != self.maker {
            Some(Rejection::Account(AccountError::TokenOwnerMismatch))
        } else if self.maker_ata.data.mint != self.maker_mint.key {
            Some(Rejection::Account(AccountError::AssetMismatch))
        } else if !is_associated(
            self.maker_ata.key,
            self.maker,
            self.maker_mint.key,
            self.token_program,
        ) {
            Some(Rejection::Account(AccountError::NotAssociated))
        } else if !derives(self.withdrawal_seeds(), self.program_id, self.listing.key) {
            Some(Rejection::Account(AccountError::SeedsMismatch))
        } else if self.listing.data->0.mint != self.maker_mint.key {
            Some(Rejection::Account(AccountError::AssetMismatch))
        } else if self.vault.data is None {
            Some(Rejection::Account(AccountError::NotInitialized))
        } else if self.vault.data->0.owner != self.listing.key {
            Some(Rejection::Account(AccountError::TokenOwnerMismatch))
        } else if self.vault.data->0.mint != self.maker_mint.key {
            Some(Rejection::Account(AccountError::AssetMismatch))
        } else if !is_associated(
            self.vault.key,
            self.listing.key,
            self.maker_mint.key,
            self.token_program,
        ) {
            Some(Rejection::Account(AccountError::NotAssociated))
        } else {
            None
        }
    }

    /// The move of the asset out of the vault back to the seller, signed as
    /// the listing.
    pub open spec fn withdrawal(&self) -> HostCallView {
        signed(
            Instruction::TransferChecked {
                from: self.vault.key,
                mint: self.maker_mint.key,
                to: self.maker_ata.key,
                authority: self.listing.key,
                amount: 1,
                decimals: self.maker_mint.data.decimals,
            },
            self.withdrawal_seeds(),
        )
    }

    /// The closing of the vault in favour of the seller, signed as the
    /// listing.
    pub open spec fn vault_closing(&self) -> HostCallView {
        signed(
            Instruction::CloseAccount {
                account: self.vault.key,
                destination: self.maker,
                authority: self.listing.key,
            },
            self.listing.data->0.signer_seeds_spec(self.marketplace.key),
        )
    }

    /// The closing of the listing's record in favour of the seller.
    pub open spec fn record_closing(&self) -> HostCallView {
        unsigned(Instruction::CloseRecord { record: self.listing.key, destination: self.maker })
    }

    /// The calls of a delisting, in their order.
    pub open spec fn plan(&self) -> Seq<HostCallView> {
        seq![self.withdrawal(), self.vault_closing(), self.record_closing()]
    }

    /// What a delisting answers on these accounts: the plan, or why not.
    pub open spec fn outcome(&self) -> Result<Seq<HostCallView>, Rejection> {
        match self.fault() {
            Some(fault) => Err(fault),
            None => Ok(self.plan()),
        }
    }

    /// The accounts after a delisting: listing and vault are gone.
    pub open spec fn closed(&self) -> Delist {
        Delist {
            listing: Slot { key: self.listing.key, data: None },
            vault: Slot { key: self.vault.key, data: None },
            ..*self
        }
    }

    /// Checks the accounts against each other and against the addresses
    /// that their seeds derive, in a fixed order, and names the first fault.
    pub fn validate(&self) -> (checked: Result<(), Rejection>)
        ensures
            checked is Ok <==> self.resolves(),
            checked == match self.fault() {
                Some(fault) => Err::<(), Rejection>(fault),
                None => Ok(()),
            },
    {
        let listing = match &self.listing.data {
            Some(listing) => listing,
            None => return Err(Rejection::Account(AccountError::NotInitialized)),
        };
        if listing.maker != self.maker {
            return Err(Rejection::Marketplace(MarketplaceError::UnauthorizedDelist));
        }
        if !self.marketplace.data.is_registry(&self.program_id, &self.marketplace.key) {
            return Err(Rejection::Account(AccountError::SeedsMismatch));
        }
        if self.maker_ata.data.owner != self.maker {
            return Err(Rejection::Account(AccountError::TokenOwnerMismatch));
        }
        if self.maker_ata.data.mint != self.maker_mint.key {
            return Err(Rejection::Account(AccountError::AssetMismatch));
        }
        if !self.maker_ata.key.is_associated_with(
            &self.maker,
            &self.maker_mint.key,
            &self.token_program,
        ) {
            return Err(Rejection::Account(AccountError::NotAssociated));
        }
        let seeds = listing_seeds_of(&self.marketplace.key, &self.maker_mint.key);
        if !self.listing.key.is_derived(&self.program_id, &seeds, listing.bump) {
            return Err(Rejection::Account(AccountError::SeedsMismatch));
        }
        if listing.mint != self.maker_mint.key {
            return Err(Rejection::Account(AccountError::AssetMismatch));
        }
        let vault = match &self.vault.data {
            Some(vault) => vault,
            None => return Err(Rejection::Account(AccountError::NotInitialized)),
        };
        if vault.owner != self.listing.key {
            return Err(Rejection::Account(AccountError::TokenOwnerMismatch));
        }
        if vault.mint != self.maker_mint.key {
            return Err(Rejection::Account(AccountError::AssetMismatch));
        }
        if !self.vault.key.is_associated_with(
            &self.listing.key,
            &self.maker_mint.key,
            &self.token_program,
        ) {
            return Err(Rejection::Account(AccountError::NotAssociated));
        }
        Ok(())
    }

    /// The move of the one unit of the asset from the vault back to the
    /// seller's holding account. No person signs it: the listing's address
    /// is the authority over the vault, and the call carries the seeds that
    /// sign for it.
    pub fn withdraw_nft(&self) -> (call: Result<HostCall, Rejection>)
        ensures
            match self.listing.data {
                None => call == Err::<HostCall, Rejection>(
                    Rejection::Account(AccountError::NotInitialized),
                ),
                Some(listing) => call matches Ok(transfer) && transfer@ == self.withdrawal(),
            },
    {
        let listing = match &self.listing.data {
            Some(listing) => listing,
            None => return Err(Rejection::Account(AccountError::NotInitialized)),
        };
        let seeds = listing_seeds_of(&self.marketplace.key, &self.maker_mint.key);
        let seeds = signer_seeds(&seeds, listing.bump);
        Ok(
            HostCall::signed(
                Instruction::TransferChecked {
                    from: self.vault.key,
                    mint: self.maker_mint.key,
                    to: self.maker_ata.key,
                    authority: self.listing.key,
                    amount: 1,
                    decimals: self.maker_mint.data.decimals,
                },
                seeds,
            ),
        )
    }

    /// The closing of the vault, whose reclaimed balance goes to the
    /// seller. Afterwards the vault is gone from the accounts.
    pub fn close_listing(&mut self) -> (call: Result<HostCall, Rejection>)
        ensures
            match old(self).listing.data {
                None => {
                    &&& call == Err::<HostCall, Rejection>(
                        Rejection::Account(AccountError::NotInitialized),
                    )
                    &&& *final(self) == *old(self)
                },
                Some(listing) => {
                    &&& call matches Ok(closing)
                    &&& closing@ == old(self).vault_closing()
                    &&& *final(self) == (Delist {
                        vault: Slot { key: old(self).vault.key, data: None },
                        ..*old(self)
                    })
                },
            },
    {
        let listing = match &self.listing.data {
            Some(listing) => listing,
            None => return Err(Rejection::Account(AccountError::NotInitialized)),
        };
        let seeds = listing.signer_seeds(&self.marketplace.key);
        let call = HostCall::signed(
            Instruction::CloseAccount {
                account: self.vault.key,
                destination: self.maker,
                authority: self.listing.key,
            },
            seeds,
        );
        self.vault.data = None;
        Ok(call)
    }

    /// The closing of the listing's record, whose reclaimed balance goes to
    /// the seller. Afterwards the listing is gone from the accounts.
    pub fn close_record(&mut self) -> (call: HostCall)
        ensures
            call@ == old(self).record_closing(),
            *final(self) == (Delist {
                listing: Slot { key: old(self).listing.key, data: None },
                ..*old(self)
            }),
    {
        self.listing.data = None;
        HostCall::unsigned(
            Instruction::CloseRecord { record: self.listing.key, destination: self.maker },
        )
    }
}

/// Returns a listed asset to its seller.
///
/// Anyone but the seller that the listing records is turned away with
/// `UnauthorizedDelist`, and nothing changes. On success the answer is the
/// plan, in order: the asset back to the seller, the vault closed in the
/// seller's favour, the listing's record closed in the seller's favour. The
/// accounts then show the listing and the vault closed. On refusal the
/// accounts are as they were.
pub fn delist(ctx: &mut Delist) -> (plan: Result<Vec<HostCall>, Rejection>)
    ensures
        plan is Ok <==> old(ctx).resolves(),
        match plan {
            Ok(calls) => {
                &&& old(ctx).outcome() == Ok::<Seq<HostCallView>, Rejection>(plan_view(&calls))
                &&& *final(ctx) == old(ctx).closed()
            },
            Err(rejection) => {
                &&& old(ctx).outcome() == Err::<Seq<HostCallView>, Rejection>(rejection)
                &&& *final(ctx) == *old(ctx)
            },
        },
        old(ctx).listing.data matches Some(listing) && listing.maker != old(ctx).maker ==> plan
            == Err::<Vec<HostCall>, Rejection>(
            Rejection::Marketplace(MarketplaceError::UnauthorizedDelist),
        ),
{
    ctx.validate()?;
    let withdrawal = ctx.withdraw_nft()?;
    let vault_closing = ctx.close_listing()?;
    let record_closing = ctx.close_record();
    let mut calls: Vec<HostCall> = Vec::new();
    calls.push(withdrawal);
    calls.push(vault_closing);
    calls.push(record_closing);
    proof {
        assert(plan_view(&calls) =~= old(ctx).plan());
    }
    Ok(calls)
}

} // verus!
