//! Purchase: settle a sale.
//!
//! The buyer pays the price to the seller and the fee, on top of it, to the
//! treasury. The asset leaves the vault for the buyer's holding account, the
//! vault is closed, one unit of the reward asset is minted to the buyer, and
//! the listing is closed.
use crate::accounts::{is_associated, Account, Mint, Slot, TokenAccount};
use crate::address::Address;
use crate::error::{AccountError, MarketplaceError, Rejection};
use crate::host::{plan_view, signed, unsigned, HostCall, HostCallView, Instruction};
use crate::state::listing::Listing;
use crate::state::marketplace::{checked_fee, Marketplace, REWARD_DECIMALS};
use vstd::prelude::*;

verus! {

/// The accounts of a purchase.
#[derive(Clone, Debug, PartialEq, Eq)]
pub struct Purchase {
    /// The engine's own identity, under which its addresses derive.
    pub program_id: Address,
    /// The buyer, who signs.
    pub taker: Address,
    /// The seller, who is paid.
    pub maker: Address,
    /// The asset on sale.
    pub maker_mint: Account<Mint>,
    /// The buyer's holding account for the asset; created if it is absent.
    pub taker_ata: Slot<TokenAccount>,
    pub marketplace: Account<Marketplace>,
    pub listing: Slot<Listing>,
    /// The holding account that keeps the asset while it is listed.
    pub vault: Slot<TokenAccount>,
    /// The marketplace's reward asset.
    pub rewards: Account<Mint>,
    /// Where the fee goes.
    pub treasury: Address,
    /// The asset service that keeps the holding accounts.
    pub token_program: Address,
}

impl Purchase {
    /// Whether the operation declares the account at `address`.
    pub open spec fn declares(&self, address: Address) -> bool {
        ||| address == self.taker
        ||| address == self.maker
        ||| address == self.maker_mint.key
        ||| address == self.taker_ata.key
        ||| address == self.marketplace.key
        ||| address == self.listing.key
        ||| address == self.vault.key
        ||| address == self.rewards.key
        ||| address == self.treasury
    }

    /// Whether the accounts are those of a sale that can be settled: the
    /// listing and its vault exist, every derived address is the one that
    /// its seeds derive, the seller and the asset are the ones that the
    /// listing records, the holding accounts are those of the asset, the
    /// vault under the listing's authority and the buyer's under the
    /// buyer's, and the reward asset is the marketplace's own.
    pub open spec fn resolves(&self) -> bool {
        &&& self.listing.data matches Some(listing)
        &&& self.vault.data matches Some(vault)
        &&& self.marketplace.data.sits_at(self.program_id, self.marketplace.key)
        &&& listing.sits_at(self.program_id, self.marketplace.key, self.listing.key)
        &&& listing.maker == self.maker
        &&& listing.mint == self.maker_mint.key
        &&& is_associated(self.taker_ata.key, self.taker, self.maker_mint.key, self.token_program)
        &&& (self.taker_ata.data matches Some(holding) ==> holding == (TokenAccount {
            mint: self.maker_mint.key,
            owner: self.taker,
        }))
        &&& vault == (TokenAccount { mint: self.maker_mint.key, owner: self.listing.key })
        &&& is_associated(
            self.vault.key,
            self.listing.key,
            self.maker_mint.key,
            self.token_program,
        )
        &&& self.marketplace.data.rewards_with(
            self.program_id,
            self.marketplace.key,
            self.rewards.key,
        )
        &&& self.rewards.data == (Mint {
            decimals: REWARD_DECIMALS,
            mint_authority: Some(self.marketplace.key),
        })
        &&& self.marketplace.data.collects_at(
            self.program_id,
            self.marketplace.key,
            self.treasury,
        )
    }

    /// The first thing wrong with the accounts, if anything is.
    pub open spec fn fault(&self) -> Option<Rejection> {
        let marketplace = self.marketplace.data;
        if self.listing.data is None {
            Some(Rejection::Account(AccountError::NotInitialized))
        } else if !marketplace.sits_at(self.program_id, self.marketplace.key) {
            Some(Rejection::Account(AccountError::SeedsMismatch))
        } else if !self.listing.data->0.sits_at(
            self.program_id,
            self.marketplace.key,
            self.listing.key,
        ) {
            Some(Rejection::Account(AccountError::SeedsMismatch))
        } else if self.listing.data->0.maker != self.maker {
            Some(Rejection::Account(AccountError::SellerMismatch))
        } else if self.listing.data->0.mint != self.maker_mint.key {
            Some(Rejection::Account(AccountError::AssetMismatch))
        } else if !is_associated(
            self.taker_ata.key,
            self.taker,
            self.maker_mint.key,
            self.token_program,
        ) {
            Some(Rejection::Account(AccountError::NotAssociated))
        } else if self.taker_ata.data is Some && self.taker_ata.data->0.owner != self.taker {
            Some(Rejection::Account(AccountError::TokenOwnerMismatch))
        } else if self.taker_ata.data is Some && self.taker_ata.data->0.mint
            != self.maker_mint.key {
            Some(Rejection::Account(AccountError::AssetMismatch))
        } else if self.vault.data is None {
            Some(Rejection::Account(AccountError::NotInitialized))
        } else if self.vault.data->0.owner != self.listing.key {
            Some(Rejection::Account(AccountError::TokenOwnerMismatch))
        } else if self.vault.data->0.mint != self.maker_mint.key {
            Some(Rejection::Account(AccountError::AssetMismatch))
        } else if !is_associated(
            self.vault.key,
            self.listing.key,
            self.maker_mint.key,
            self.token_program,
        ) {
            Some(Rejection::Account(AccountError::NotAssociated))
        } else if !marketplace.rewards_with(
            self.program_id,
            self.marketplace.key,
            self.rewards.key,
        ) {
            Some(Rejection::Account(AccountError::SeedsMismatch))
        } else if self.rewards.data.decimals != REWARD_DECIMALS {
            Some(Rejection::Account(AccountError::MintDecimalsMismatch))
        } else if self.rewards.data.mint_authority != Some(self.marketplace.key) {
            Some(Rejection::Account(AccountError::MintAuthorityMismatch))
        } else if !marketplace.collects_at(self.program_id, self.marketplace.key, self.treasury) {
            Some(Rejection::Account(AccountError::SeedsMismatch))
        } else {
            None
        }
    }

    /// The payment of the price to the seller.
    pub open spec fn payment(&self) -> HostCallView {
        unsigned(
            Instruction::Transfer {
                from: self.taker,
                to: self.maker,
                lamports: self.listing.data->0.price,
            },
        )
    }

    /// The payment of the fee to the treasury.
    pub open spec fn fee_payment(&self, fee: u64) -> HostCallView {
        unsigned(Instruction::Transfer { from: self.taker, to: self.treasury, lamports: fee })
    }

    /// The move of the asset out of the vault to the buyer, signed as the
    /// listing.
    pub open spec fn asset_transfer(&self) -> HostCallView {
        signed(
            Instruction::TransferChecked {
                from: self.vault.key,
                mint: self.maker_mint.key,
                to: self.taker_ata.key,
                authority: self.listing.key,
                amount: 1,
                decimals: self.maker_mint.data.decimals,
            },
            self.listing.data->0.signer_seeds_spec(self.marketplace.key),
        )
    }

    /// The closing of the vault in favour of the seller, signed as the
    /// listing.
    pub open spec fn vault_closing(&self) -> HostCallView {
        signed(
            Instruction::CloseAccount {
                account: self.vault.key,
                destination: self.maker,
                authority: self.listing.key,
            },
            self.listing.data->0.signer_seeds_spec(self.marketplace.key),
        )
    }

    /// The minting of one reward unit to the buyer, signed as the
    /// marketplace.
    pub open spec fn reward(&self) -> HostCallView {
        self.marketplace.data.reward(self.marketplace.key, self.rewards.key, self.taker)
    }

    /// The closing of the listing's record in favour of the seller.
    pub open spec fn record_closing(&self) -> HostCallView {
        unsigned(Instruction::CloseRecord { record: self.listing.key, destination: self.maker })
    }

    /// The calls of a purchase that charges `fee`, in their order.
    pub open spec fn plan(&self, fee: u64) -> Seq<HostCallView> {
        seq![
            self.payment(),
            self.fee_payment(fee),
            self.asset_transfer(),
            self.vault_closing(),
            self.reward(),
            self.record_closing(),
        ]
    }

    /// What a purchase answers on these accounts: the plan, or why not.
    pub open spec fn outcome(&self) -> Result<Seq<HostCallView>, Rejection> {
        match self.fault() {
            Some(fault) => Err(fault),
            None => match checked_fee(self.listing.data->0.price, self.marketplace.data.fee) {
                None => Err(Rejection::Marketplace(MarketplaceError::ArithmeticOverflow)),
                Some(fee) => Ok(self.plan(fee)),
            },
        }
    }

    /// The accounts after a purchase: the buyer has a holding account for
    /// the asset, and listing and vault are gone.
    pub open spec fn settled(&self) -> Purchase {
        Purchase {
            taker_ata: Slot {
                key: self.taker_ata.key,
                data: Some(
                    match self.taker_ata.data {
                        Some(account) => account,
                        None => TokenAccount { mint: self.maker_mint.key, owner: self.taker },
                    },
                ),
            },
            listing: Slot { key: self.listing.key, data: None },
            vault: Slot { key: self.vault.key, data: None },
            ..*self
        }
    }

    /// Checks the accounts against each other and against the addresses
    /// that their seeds derive, in a fixed order, and names the first fault.
    pub fn validate(&self) -> (checked: Result<(), Rejection>)
        ensures
            checked is Ok <==> self.resolves(),
            checked == match self.fault() {
                Some(fault) => Err::<(), Rejection>(fault),
                None => Ok(()),
            },
    {
        let listing = match &self.listing.data {
            Some(listing) => listing,
            None => return Err(Rejection::Account(AccountError::NotInitialized)),
        };
        let marketplace = &self.marketplace.data;
        if !marketplace.is_registry(&self.program_id, &self.marketplace.key) {
            return Err(Rejection::Account(AccountError::SeedsMismatch));
        }
        if !listing.is_listing(&self.program_id, &self.marketplace.key, &self.listing.key) {
            return Err(Rejection::Account(AccountError::SeedsMismatch));
        }
        if listing.maker != self.maker {
            return Err(Rejection::Account(AccountError::SellerMismatch));
        }
        if listing.mint != self.maker_mint.key {
            return Err(Rejection::Account(AccountError::AssetMismatch));
        }
        if !self.taker_ata.key.is_associated_with(
            &self.taker,
            &self.maker_mint.key,
            &self.token_program,
        ) {
            return Err(Rejection::Account(AccountError::NotAssociated));
        }
        match &self.taker_ata.data {
            Some(account) => {
                if account.owner != self.taker {
                    return Err(Rejection::Account(AccountError::TokenOwnerMismatch));
                }
                if account.mint != self.maker_mint.key {
                    return Err(Rejection::Account(AccountError::AssetMismatch));
                }
            },
            None => {},
        }
        let vault = match &self.vault.data {
            Some(vault) => vault,
            None => return Err(Rejection::Account(AccountError::NotInitialized)),
        };
        if vault.owner != self.listing.key {
            return Err(Rejection::Account(AccountError::TokenOwnerMismatch));
        }
        if vault.mint != self.maker_mint.key {
            return Err(Rejection::Account(AccountError::AssetMismatch));
        }
        if !self.vault.key.is_associated_with(
            &self.listing.key,
            &self.maker_mint.key,
            &self.token_program,
        ) {
            return Err(Rejection::Account(AccountError::NotAssociated));
        }
        if !marketplace.is_rewards_mint(
            &self.program_id,
            &self.marketplace.key,
            &self.rewards.key,
        ) {
            return Err(Rejection::Account(AccountError::SeedsMismatch));
        }
        if self.rewards.data.decimals != REWARD_DECIMALS {
            return Err(Rejection::Account(AccountError::MintDecimalsMismatch));
        }
        match self.rewards.data.mint_authority {
            Some(authority) => {
                if authority != self.marketplace.key {
                    return Err(Rejection::Account(AccountError::MintAuthorityMismatch));
                }
            },
            None => return Err(Rejection::Account(AccountError::MintAuthorityMismatch)),
        }
        if !marketplace.is_treasury(&self.program_id, &self.marketplace.key, &self.treasury) {
            return Err(Rejection::Account(AccountError::SeedsMismatch));
        }
        Ok(())
    }

    /// The two payments of the buyer: the price to the seller, and the fee
    /// to the treasury. The fee is charged on top of the price; the seller
    /// gets the price in full.
    pub fn send_sol(&self) -> (payments: Result<(HostCall, HostCall), Rejection>)
        ensures
            match self.listing.data {
                None => payments == Err::<(HostCall, HostCall), Rejection>(
                    Rejection::Account(AccountError::NotInitialized),
                ),
                Some(listing) => match checked_fee(listing.price, self.marketplace.data.fee) {
                    None => payments == Err::<(HostCall, HostCall), Rejection>(
                        Rejection::Marketplace(MarketplaceError::ArithmeticOverflow),
                    ),
                    Some(fee) => {
                        &&& payments matches Ok((to_seller, to_treasury))
                        &&& to_seller@ == self.payment()
                        &&& to_treasury@ == self.fee_payment(fee)
                    },
                },
            },
    {
        let listing = match &self.listing.data {
            Some(listing) => listing,
            None => return Err(Rejection::Account(AccountError::NotInitialized)),
        };
        let fee_amount = match self.marketplace.data.fee_on(listing.price) {
            Ok(amount) => amount,
            Err(error) => return Err(Rejection::Marketplace(error)),
        };
        let to_seller = HostCall::unsigned(
            Instruction::Transfer { from: self.taker, to: self.maker, lamports: listing.price },
        );
        let to_treasury = HostCall::unsigned(
            Instruction::Transfer { from: self.taker, to: self.treasury, lamports: fee_amount },
        );
        Ok((to_seller, to_treasury))
    }

    /// The move of the one unit of the asset from the vault to the buyer's
    /// holding account. The listing's address is the authority over the
    /// vault, and the call carries the seeds that sign for it.
    pub fn transfer_nft(&self) -> (call: Result<HostCall, Rejection>)
        ensures
            match self.listing.data {
                None => call == Err::<HostCall, Rejection>(
                    Rejection::Account(AccountError::NotInitialized),
                ),
                Some(listing) => call matches Ok(transfer) && transfer@ == self.asset_transfer(),
            },
    {
        let listing = match &self.listing.data {
            Some(listing) => listing,
            None => return Err(Rejection::Account(AccountError::NotInitialized)),
        };
        let seeds = listing.signer_seeds(&self.marketplace.key);
        Ok(
            HostCall::signed(
                Instruction::TransferChecked {
                    from: self.vault.key,
                    mint: self.maker_mint.key,
                    to: self.taker_ata.key,
                    authority: self.listing.key,
                    amount: 1,
                    decimals: self.maker_mint.data.decimals,
                },
                seeds,
            ),
        )
    }

    /// The closing of the vault, whose reclaimed balance goes to the
    /// seller. Afterwards the vault is gone from the accounts.
    pub fn close_listing(&mut self) -> (call: Result<HostCall, Rejection>)
        ensures
            match old(self).listing.data {
                None => {
                    &&& call == Err::<HostCall, Rejection>(
                        Rejection::Account(AccountError::NotInitialized),
                    )
                    &&& *final(self) == *old(self)
                },
                Some(listing) => {
                    &&& call matches Ok(closing)
                    &&& closing@ == old(self).vault_closing()
                    &&& *final(self) == (Purchase {
                        vault: Slot { key: old(self).vault.key, data: None },
                        ..*old(self)
                    })
                },
            },
    {
        let listing = match &self.listing.data {
            Some(listing) => listing,
            None => return Err(Rejection::Account(AccountError::NotInitialized)),
        };
        let seeds = listing.signer_seeds(&self.marketplace.key);
        let call = HostCall::signed(
            Instruction::CloseAccount {
                account: self.vault.key,
                destination: self.maker,
                authority: self.listing.key,
            },
            seeds,
        );
        self.vault.data = None;
        Ok(call)
    }

    /// The minting of one unit of the reward asset to the buyer, under the
    /// marketplace's own authority.
    pub fn reward_buyer(&self) -> (call: HostCall)
        ensures
            call@ == self.reward(),
    {
        self.marketplace.data.mint_reward(&self.marketplace.key, &self.rewards.key, &self.taker)
    }

    /// The closing of the listing's record, whose reclaimed balance goes to
    /// the seller. Afterwards the listing is gone from the accounts.
    pub fn close_record(&mut self) -> (call: HostCall)
        ensures
            call@ == old(self).record_closing(),
            *final(self) == (Purchase {
                listing: Slot { key: old(self).listing.key, data: None },
                ..*old(self)
            }),
    {
        self.listing.data = None;
        HostCall::unsigned(
            Instruction::CloseRecord { record: self.listing.key, destination: self.maker },
        )
    }
}

/// Settles the sale of the listed asset to the buyer.
///
/// The accounts are checked first, then the fee is computed; only then is
/// anything planned. On success the answer is the whole plan, in order: the
/// price to the seller, the fee to the treasury, the asset to the buyer, the
/// vault closed in the seller's favour, one reward unit to the buyer, the
/// listing's record closed in the seller's favour. The accounts then show
/// the listing and the vault closed. On refusal the accounts are as they
/// were.
pub fn purchase(ctx: &mut Purchase) -> (plan: Result<Vec<HostCall>, Rejection>)
    ensures
        plan is Ok <==> old(ctx).resolves() && checked_fee(
            old(ctx).listing.data->0.price,
            old(ctx).marketplace.data.fee,
        ) is Some,
        match plan {
            Ok(calls) => {
                &&& old(ctx).outcome() == Ok::<Seq<HostCallView>, Rejection>(plan_view(&calls))
                &&& *final(ctx) == old(ctx).settled()
            },
            Err(rejection) => {
                &&& old(ctx).outcome() == Err::<Seq<HostCallView>, Rejection>(rejection)
                &&& *final(ctx) == *old(ctx)
            },
        },
{
    ctx.validate()?;
    let (to_seller, to_treasury) = ctx.send_sol()?;
    let transfer = ctx.transfer_nft()?;
    let vault_closing = ctx.close_listing()?;
    let reward = ctx.reward_buyer();
    let record_closing = ctx.close_record();
    if ctx.taker_ata.data.is_none() {
        ctx.taker_ata.data = Some(TokenAccount { mint: ctx.maker_mint.key, owner: ctx.taker });
    }
    let mut calls: Vec<HostCall> = Vec::new();
    calls.push(to_seller);
    calls.push(to_treasury);
    calls.push(transfer);
    calls.push(vault_closing);
    calls.push(reward);
    calls.push(record_closing);
    proof {
        let fee = checked_fee(old(ctx).listing.data->0.price, old(ctx).marketplace.data.fee)->0;
        assert(plan_view(&calls) =~= old(ctx).plan(fee));
    }
    Ok(calls)
}

} // verus!
