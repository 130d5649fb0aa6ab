//! Initialize: found a marketplace.
//!
//! A marketplace is known by its name. Its registry sits at the address
//! that the name derives, its treasury and its reward asset at addresses
//! that the registry's address derives; so one name founds one marketplace,
//! once.
use crate::accounts::{Mint, Slot};
use crate::address::{canonical_bump_of, Address};
use crate::error::{AccountError, MarketplaceError, Rejection};
use crate::state::marketplace::{
    check_terms, marketplace_seeds, marketplace_seeds_of, rewards_mint_seeds,
    rewards_mint_seeds_of, treasury_seeds, treasury_seeds_of, Marketplace, MarketplaceView,
    MAX_FEE_BPS, MAX_NAME_LEN, REWARD_DECIMALS,
};
use vstd::prelude::*;
use vstd::utf8::encode_utf8;

verus! {

/// The accounts of the founding of a marketplace.
#[derive(Clone, Debug, PartialEq, Eq)]
pub struct Initialize {
    /// The engine's own identity, under which its addresses derive.
    pub program_id: Address,
    /// The founder, who signs and pays.
    pub admin: Address,
    /// Where the registry will be recorded.
    pub marketplace: Slot<Marketplace>,
    /// The account that will collect the fees.
    pub treasury: Address,
    /// Where the reward asset will be defined.
    pub rewards_mint: Slot<Mint>,
}

/// The bumps found while the accounts of a founding were checked.
#[derive(Clone, Copy, Debug, PartialEq, Eq)]
pub struct InitializeBumps {
    pub marketplace: u8,
    pub treasury: u8,
    pub rewards_mint: u8,
}

impl Initialize {
    /// The bump of the registry's address, where that address is the
    /// canonical one of the name.
    pub open spec fn marketplace_bump(&self, name: Seq<char>) -> Option<u8> {
        canonical_bump_of(self.marketplace.key, marketplace_seeds(name), self.program_id)
    }

    /// The bump of the treasury's address, where that address is the
    /// canonical one of the registry's.
    pub open spec fn treasury_bump(&self) -> Option<u8> {
        canonical_bump_of(self.treasury, treasury_seeds(self.marketplace.key), self.program_id)
    }

    /// The bump of the reward asset's address, where that address is the
    /// canonical one of the registry's.
    pub open spec fn rewards_mint_bump(&self) -> Option<u8> {
        canonical_bump_of(
            self.rewards_mint.key,
            rewards_mint_seeds(self.marketplace.key),
            self.program_id,
        )
    }

    /// The bumps of the three addresses.
    pub open spec fn bumps(&self, name: Seq<char>) -> InitializeBumps {
        InitializeBumps {
            marketplace: self.marketplace_bump(name)->0,
            treasury: self.treasury_bump()->0,
            rewards_mint: self.rewards_mint_bump()->0,
        }
    }

    /// Whether a marketplace called `name` can be founded on these
    /// accounts: registry, treasury and reward asset sit at the canonical
    /// addresses of the name, and registry and reward asset are still free.
    pub open spec fn resolves(&self, name: Seq<char>) -> bool {
        &&& self.marketplace_bump(name) is Some
        &&& self.marketplace.data is None
        &&& self.treasury_bump() is Some
        &&& self.rewards_mint_bump() is Some
        &&& self.rewards_mint.data is None
    }

    /// The first thing wrong with the accounts of a marketplace called
    /// `name`, if anything is.
    pub open spec fn fault(&self, name: Seq<char>) -> Option<Rejection> {
        if self.marketplace_bump(name) is None {
            Some(Rejection::Account(AccountError::SeedsMismatch))
        } else if self.marketplace.data is Some {
            Some(Rejection::Account(AccountError::AlreadyInUse))
        } else if self.treasury_bump() is None {
            Some(Rejection::Account(AccountError::SeedsMismatch))
        } else if self.rewards_mint_bump() is None {
            Some(Rejection::Account(AccountError::SeedsMismatch))
        } else if self.rewards_mint.data is Some {
            Some(Rejection::Account(AccountError::AlreadyInUse))
        } else {
            None
        }
    }

    /// The registry record that these accounts found.
    pub open spec fn record(&self, name: Seq<char>, fee: u16, bumps: InitializeBumps)
        -> MarketplaceView {
        MarketplaceView {
            admin: self.admin,
            fee,
            bump: bumps.marketplace,
            treasury_bump: bumps.treasury,
            rewards_mint_bump: bumps.rewards_mint,
            name,
        }
    }

    /// What founding a marketplace answers on these accounts: nothing to
    /// do for the host, or why not. Name and fee are looked at first.
    pub open spec fn outcome(&self, name: Seq<char>, fee: u16) -> Result<(), Rejection> {
        match check_terms(name, fee) {
            Err(error) => Err(Rejection::Marketplace(error)),
            Ok(()) => match self.fault(name) {
                Some(fault) => Err(fault),
                None => Ok(()),
            },
        }
    }

    /// Whether `after` is these accounts with the registry recorded under
    /// `name` and `fee`, and nothing else changed.
    pub open spec fn recorded(
        &self,
        after: Initialize,
        name: Seq<char>,
        fee: u16,
        bumps: InitializeBumps,
    ) -> bool {
        &&& after.marketplace.data matches Some(record)
        &&& record@ == self.record(name, fee, bumps)
        &&& after == (Initialize {
            marketplace: Slot { key: self.marketplace.key, data: after.marketplace.data },
            ..*self
        })
    }

    /// Whether `after` is these accounts with the marketplace founded: the
    /// registry recorded under `name` and `fee`, and the reward asset
    /// defined under the registry's authority.
    pub open spec fn founded(&self, after: Initialize, name: Seq<char>, fee: u16) -> bool {
        &&& after.marketplace.data matches Some(record)
        &&& record@ == self.record(name, fee, self.bumps(name))
        &&& after == (Initialize {
            marketplace: Slot { key: self.marketplace.key, data: after.marketplace.data },
            rewards_mint: Slot {
                key: self.rewards_mint.key,
                data: Some(
                    Mint {
                        decimals: REWARD_DECIMALS,
                        mint_authority: Some(self.marketplace.key),
                    },
                ),
            },
            ..*self
        })
    }

    /// Checks the three addresses against the ones that the name derives,
    /// and that registry and reward asset are still free, and names the
    /// first fault. Where there is none, the answer is the three bumps.
    pub fn validate(&self, name: &str) -> (checked: Result<InitializeBumps, Rejection>)
        ensures
            checked is Ok <==> self.resolves(name@),
            checked == match self.fault(name@) {
                Some(fault) => Err::<InitializeBumps, Rejection>(fault),
                None => Ok(self.bumps(name@)),
            },
    {
        let seeds = marketplace_seeds_of(name);
        let marketplace = match self.marketplace.key.canonical_bump(&self.program_id, &seeds) {
            Some(bump) => bump,
            None => return Err(Rejection::Account(AccountError::SeedsMismatch)),
        };
        if self.marketplace.data.is_some() {
            return Err(Rejection::Account(AccountError::AlreadyInUse));
        }
        let seeds = treasury_seeds_of(&self.marketplace.key);
        let treasury = match self.treasury.canonical_bump(&self.program_id, &seeds) {
            Some(bump) => bump,
            None => return Err(Rejection::Account(AccountError::SeedsMismatch)),
        };
        let seeds = rewards_mint_seeds_of(&self.marketplace.key);
        let rewards_mint = match self.rewards_mint.key.canonical_bump(&self.program_id, &seeds) {
            Some(bump) => bump,
            None => return Err(Rejection::Account(AccountError::SeedsMismatch)),
        };
        if self.rewards_mint.data.is_some() {
            return Err(Rejection::Account(AccountError::AlreadyInUse));
        }
        Ok(InitializeBumps { marketplace, treasury, rewards_mint })
    }

    /// Writes the registry record: the founder as admin, the fee, the name
    /// and the three bumps. It succeeds exactly when the name has 1 to 32
    /// bytes and the fee is at most 10000 basis points; otherwise nothing
    /// is written, and the error is `NameTooLong` for the name, else
    /// `FeeTooHigh`.
    pub fn init(&mut self, name: String, fee: u16, bumps: &InitializeBumps) -> (written: Result<
        (),
        MarketplaceError,
    >)
        ensures
            written == check_terms(name@, fee),
            written is Ok <==> 1 <= encode_utf8(name@).len() <= 32 && fee <= 10_000,
            written is Ok ==> old(self).recorded(*final(self), name@, fee, *bumps),
            written is Ok ==> final(self).marketplace.data->0.well_formed(),
            written is Err ==> *final(self) == *old(self),
    {
        let length = name.as_str().as_bytes().len();
        if !(length > 0 && length <= MAX_NAME_LEN) {
            return Err(MarketplaceError::NameTooLong);
        }
        if fee > MAX_FEE_BPS {
            return Err(MarketplaceError::FeeTooHigh);
        }
        self.marketplace.data = Some(
            Marketplace {
                admin: self.admin,
                treasury_bump: bumps.treasury,
                rewards_mint_bump: bumps.rewards_mint,
                bump: bumps.marketplace,
                fee,
                name,
            },
        );
        Ok(())
    }
}

/// Founds the marketplace called `name`, which charges `fees` basis points.
///
/// Name and fee are checked first, then the accounts. On success the
/// accounts show the registry recorded, with the founder as admin, and the
/// reward asset defined with the registry as its minting authority; no
/// funds move. On refusal the accounts are as they were. A name that was
/// used before is refused, because its registry's address is taken.
pub fn init_marketplace(ctx: &mut Initialize, name: String, fees: u16) -> (done: Result<
    (),
    Rejection,
>)
    ensures
        done is Ok <==> check_terms(name@, fees) is Ok && old(ctx).resolves(name@),
        done == old(ctx).outcome(name@, fees),
        done is Ok ==> old(ctx).founded(*final(ctx), name@, fees),
        done is Err ==> *final(ctx) == *old(ctx),
{
    let length = name.as_str().as_bytes().len();
    if !(length > 0 && length <= MAX_NAME_LEN) {
        return Err(Rejection::Marketplace(MarketplaceError::NameTooLong));
    }
    if fees > MAX_FEE_BPS {
        return Err(Rejection::Marketplace(MarketplaceError::FeeTooHigh));
    }
    let bumps = ctx.validate(name.as_str())?;
    match ctx.init(name, fees, &bumps) {
        Ok(()) => {},
        Err(error) => return Err(Rejection::Marketplace(error)),
    }
    ctx.rewards_mint.data = Some(
        Mint { decimals: REWARD_DECIMALS, mint_authority: Some(ctx.marketplace.key) },
    );
    Ok(())
}

} // verus!
