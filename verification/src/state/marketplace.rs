//! The registry record of one marketplace.
use crate::address::{derives, seeds_view, signer_seeds, text_seed, with_bump, Address};
use crate::error::MarketplaceError;
use crate::host::{signed, HostCall, HostCallView, Instruction};
use vstd::prelude::*;
use vstd::utf8::encode_utf8;

verus! {

/// The most that a marketplace may charge: all of the price again.
pub const MAX_FEE_BPS: u16 = 10_000;

/// The longest name, in bytes: one seed's worth.
pub const MAX_NAME_LEN: usize = 32;

/// Decimal places of a marketplace's reward asset.
pub const REWARD_DECIMALS: u8 = 6;

/// The tag in the seeds of a registry.
pub const MARKETPLACE_TAG: &'static str = "marketplace";

/// The tag in the seeds of a treasury.
pub const TREASURY_TAG: &'static str = "treasury";

/// The tag in the seeds of a reward asset.
pub const REWARDS_MINT_TAG: &'static str = "rewards_mint";

/// A marketplace: who runs it, what it charges, and the bumps of the
/// addresses that derive from its name.
#[derive(Clone, Debug, PartialEq, Eq)]
pub struct Marketplace {
    /// Who created the marketplace.
    pub admin: Address,
    /// The fee on every purchase, in basis points of the price.
    pub fee: u16,
    /// Bump of the registry's own address.
    pub bump: u8,
    /// Bump of the treasury's address.
    pub treasury_bump: u8,
    /// Bump of the reward asset's address.
    pub rewards_mint_bump: u8,
    /// The name, from which the registry's address derives.
    pub name: String,
}

/// A marketplace record as plain values.
pub struct MarketplaceView {
    pub admin: Address,
    pub fee: u16,
    pub bump: u8,
    pub treasury_bump: u8,
    pub rewards_mint_bump: u8,
    pub name: Seq<char>,
}

impl View for Marketplace {
    type V = MarketplaceView;

    open spec fn view(&self) -> MarketplaceView {
        MarketplaceView {
            admin: self.admin,
            fee: self.fee,
            bump: self.bump,
            treasury_bump: self.treasury_bump,
            rewards_mint_bump: self.rewards_mint_bump,
            name: self.name@,
        }
    }
}

/// The seeds of the marketplace called `name`.
pub open spec fn marketplace_seeds(name: Seq<char>) -> Seq<Seq<u8>> {
    seq![encode_utf8(MARKETPLACE_TAG@), encode_utf8(name)]
}

/// The seeds of a marketplace's treasury.
pub open spec fn treasury_seeds(marketplace: Address) -> Seq<Seq<u8>> {
    seq![encode_utf8(TREASURY_TAG@), marketplace@]
}

/// The seeds of a marketplace's reward asset.
pub open spec fn rewards_mint_seeds(marketplace: Address) -> Seq<Seq<u8>> {
    seq![encode_utf8(REWARDS_MINT_TAG@), marketplace@]
}

/// Whether a name and a fee may found a marketplace.
pub open spec fn check_terms(name: Seq<char>, fee: u16) -> Result<(), MarketplaceError> {
    if !(1 <= encode_utf8(name).len() <= MAX_NAME_LEN) {
        Err(MarketplaceError::NameTooLong)
    } else if fee > MAX_FEE_BPS {
        Err(MarketplaceError::FeeTooHigh)
    } else {
        Ok(())
    }
}

/// The fee on a price: the price times the basis points, over ten thousand,
/// rounded down.
pub open spec fn fee_amount(price: u64, fee_bps: u16) -> int {
    (price * fee_bps) / 10_000
}

/// The fee as a value, where the product and the buyer's whole outlay fit
/// in 64 bits.
pub open spec fn checked_fee(price: u64, fee_bps: u16) -> Option<u64> {
    if price * fee_bps > u64::MAX || price + fee_amount(price, fee_bps) > u64::MAX {
        None
    } else {
        Some(fee_amount(price, fee_bps) as u64)
    }
}

/// The seeds of a marketplace.
pub fn marketplace_seeds_of(name: &str) -> (seeds: Vec<Vec<u8>>)
    ensures
        seeds_view(&seeds) == marketplace_seeds(name@),
{
    let mut seeds: Vec<Vec<u8>> = Vec::new();
    seeds.push(text_seed(MARKETPLACE_TAG));
    seeds.push(text_seed(name));
    assert(seeds_view(&seeds) =~= marketplace_seeds(name@));
    seeds
}

/// The seeds of a treasury.
pub fn treasury_seeds_of(marketplace: &Address) -> (seeds: Vec<Vec<u8>>)
    ensures
        seeds_view(&seeds) == treasury_seeds(*marketplace),
{
    let mut seeds: Vec<Vec<u8>> = Vec::new();
    seeds.push(text_seed(TREASURY_TAG));
    seeds.push(marketplace.to_seed());
    assert(seeds_view(&seeds) =~= treasury_seeds(*marketplace));
    seeds
}

/// The seeds of a reward asset.
pub fn rewards_mint_seeds_of(marketplace: &Address) -> (seeds: Vec<Vec<u8>>)
    ensures
        seeds_view(&seeds) == rewards_mint_seeds(*marketplace),
{
    let mut seeds: Vec<Vec<u8>> = Vec::new();
    seeds.push(text_seed(REWARDS_MINT_TAG));
    seeds.push(marketplace.to_seed());
    assert(seeds_view(&seeds) =~= rewards_mint_seeds(*marketplace));
    seeds
}

impl Marketplace {
    /// Bytes that the record takes on the ledger: an 8-byte tag, the admin,
    /// the fee, three bumps, and the name behind its 4-byte length.
    pub const INIT_SPACE: usize = 8 + 32 + 2 + 1 + 1 + 1 + (4 + 32);

    /// A record is well formed when its name and fee could have founded it.
    pub open spec fn well_formed(&self) -> bool {
        check_terms(self.name@, self.fee) is Ok
    }

    /// The seeds that sign for the registry's address.
    pub open spec fn signer_seeds_spec(&self) -> Seq<Seq<u8>> {
        with_bump(marketplace_seeds(self.name@), self.bump)
    }

    /// The seeds with which the engine signs as this marketplace: the
    /// marketplace tag, the name, and the record's bump.
    pub fn signer_seeds(&self) -> (seeds: Vec<Vec<u8>>)
        ensures
            seeds_view(&seeds) == self.signer_seeds_spec(),
    {
        let seeds = marketplace_seeds_of(self.name.as_str());
        signer_seeds(&seeds, self.bump)
    }

    /// Whether `registry` is the address of this marketplace's registry
    /// under `program_id`.
    pub open spec fn sits_at(&self, program_id: Address, registry: Address) -> bool {
        derives(self.signer_seeds_spec(), program_id, registry)
    }

    /// Whether `treasury` is the treasury of the marketplace at `registry`.
    pub open spec fn collects_at(&self, program_id: Address, registry: Address, treasury: Address)
        -> bool {
        derives(with_bump(treasury_seeds(registry), self.treasury_bump), program_id, treasury)
    }

    /// Whether `mint` is the reward asset of the marketplace at `registry`.
    pub open spec fn rewards_with(&self, program_id: Address, registry: Address, mint: Address)
        -> bool {
        derives(with_bump(rewards_mint_seeds(registry), self.rewards_mint_bump), program_id, mint)
    }

    /// The minting of one unit of the reward asset to `to`, signed as the
    /// marketplace at `registry`.
    pub open spec fn reward(&self, registry: Address, mint: Address, to: Address) -> HostCallView {
        signed(
            Instruction::MintTo { mint, to, authority: registry, amount: 1 },
            self.signer_seeds_spec(),
        )
    }

    /// Whether `registry` is the address that this record's name and bump
    /// derive.
    pub fn is_registry(&self, program_id: &Address, registry: &Address) -> (yes: bool)
        ensures
            yes == self.sits_at(*program_id, *registry),
    {
        let seeds = marketplace_seeds_of(self.name.as_str());
        registry.is_derived(program_id, &seeds, self.bump)
    }

    /// Whether `treasury` is the account that collects this marketplace's
    /// fees: the address that the registry's address and the treasury bump
    /// derive.
    pub fn is_treasury(
        &self,
        program_id: &Address,
        registry: &Address,
        treasury: &Address,
    ) -> (yes: bool)
        ensures
            yes == self.collects_at(*program_id, *registry, *treasury),
    {
        let seeds = treasury_seeds_of(registry);
        treasury.is_derived(program_id, &seeds, self.treasury_bump)
    }

    /// Whether `mint` is this marketplace's reward asset: the address that
    /// the registry's address and the reward bump derive.
    pub fn is_rewards_mint(
        &self,
        program_id: &Address,
        registry: &Address,
        mint: &Address,
    ) -> (yes: bool)
        ensures
            yes == self.rewards_with(*program_id, *registry, *mint),
    {
        let seeds = rewards_mint_seeds_of(registry);
        mint.is_derived(program_id, &seeds, self.rewards_mint_bump)
    }

    /// The call that mints one unit of the reward asset to `to`. The
    /// registry is the minting authority, and the call carries the seeds
    /// that sign for it.
    pub fn mint_reward(&self, registry: &Address, mint: &Address, to: &Address) -> (call: HostCall)
        ensures
            call@ == self.reward(*registry, *mint, *to),
    {
        HostCall::signed(
            Instruction::MintTo { mint: *mint, to: *to, authority: *registry, amount: 1 },
            self.signer_seeds(),
        )
    }

    /// The fee that this marketplace charges on `price`, on top of it.
    /// Fails where the product of price and basis points, or the price and
    /// the fee together, do not fit in 64 bits.
    pub fn fee_on(&self, price: u64) -> (fee: Result<u64, MarketplaceError>)
        ensures
            fee == match checked_fee(price, self.fee) {
                Some(amount) => Ok::<u64, MarketplaceError>(amount),
                None => Err(MarketplaceError::ArithmeticOverflow),
            },
    {
        let product = match price.checked_mul(self.fee as u64) {
            Some(product) => product,
            None => return Err(MarketplaceError::ArithmeticOverflow),
        };
        let amount: u64 = product / 10_000;
        match price.checked_add(amount) {
            Some(_) => Ok(amount),
            None => Err(MarketplaceError::ArithmeticOverflow),
        }
    }
}

} // verus!
