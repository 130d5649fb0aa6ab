//! The record of one asset offered for sale.
use crate::address::{derives, seeds_view, signer_seeds, with_bump, Address};
use vstd::prelude::*;

verus! {

/// One asset in escrow, offered at a price. The record is written when the
/// asset is listed and closed when it is bought or withdrawn; it is never
/// changed in between.
#[derive(Clone, Copy, Debug, PartialEq, Eq)]
pub struct Listing {
    /// Who listed the asset, and who alone may withdraw it.
    pub maker: Address,
    /// The asset.
    pub mint: Address,
    /// The price, in the smallest unit of the native currency.
    pub price: u64,
    /// The bump with which the record's address derives.
    pub bump: u8,
}

/// The seeds of the listing of `mint` in `marketplace`. Its address is also
/// the authority over the vault that holds the asset.
pub open spec fn listing_seeds(marketplace: Address, mint: Address) -> Seq<Seq<u8>> {
    seq![marketplace@, mint@]
}

/// The seeds of a listing.
pub fn listing_seeds_of(marketplace: &Address, mint: &Address) -> (seeds: Vec<Vec<u8>>)
    ensures
        seeds_view(&seeds) == listing_seeds(*marketplace, *mint),
{
    let mut seeds: Vec<Vec<u8>> = Vec::new();
    seeds.push(marketplace.to_seed());
    seeds.push(mint.to_seed());
    assert(seeds_view(&seeds) =~= listing_seeds(*marketplace, *mint));
    seeds
}

impl Listing {
    /// Bytes that the record takes on the ledger: an 8-byte tag, two
    /// addresses, the price and the bump.
    pub const INIT_SPACE: usize = 8 + 32 + 32 + 8 + 1;

    /// A record is well formed when its price is positive.
    pub open spec fn well_formed(self) -> bool {
        self.price > 0
    }

    /// The seeds that sign for the listing's address in `marketplace`.
    pub open spec fn signer_seeds_spec(self, marketplace: Address) -> Seq<Seq<u8>> {
        with_bump(listing_seeds(marketplace, self.mint), self.bump)
    }

    /// Whether `listing` is the address of this record in `marketplace`
    /// under `program_id`.
    pub open spec fn sits_at(self, program_id: Address, marketplace: Address, listing: Address)
        -> bool {
        derives(self.signer_seeds_spec(marketplace), program_id, listing)
    }

    /// Whether `listing` is the address that the marketplace, this record's
    /// asset and its bump derive.
    pub fn is_listing(
        &self,
        program_id: &Address,
        marketplace: &Address,
        listing: &Address,
    ) -> (yes: bool)
        ensures
            yes == self.sits_at(*program_id, *marketplace, *listing),
    {
        let seeds = listing_seeds_of(marketplace, &self.mint);
        listing.is_derived(program_id, &seeds, self.bump)
    }

    /// The seeds with which the engine signs as this listing: the
    /// marketplace, the asset, and the record's bump.
    pub fn signer_seeds(&self, marketplace: &Address) -> (seeds: Vec<Vec<u8>>)
        ensures
            seeds_view(&seeds) == self.signer_seeds_spec(*marketplace),
    {
        let seeds = listing_seeds_of(marketplace, &self.mint);
        signer_seeds(&seeds, self.bump)
    }
}

} // verus!
