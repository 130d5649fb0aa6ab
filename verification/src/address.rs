//! Ledger addresses and their deterministic derivation.
//!
//! An address is derived from a list of byte seeds and the identity of the
//! program that owns it. The derivation itself (a hash, and a test that the
//! hash is no point of the signature curve) is the ledger's; this module
//! names its result and builds on it.
use anchor_lang::prelude::Pubkey;
use vstd::prelude::*;
use vstd::slice::slice_to_vec;
use vstd::std_specs::cmp::PartialEqSpecImpl;
use vstd::utf8::encode_utf8;

verus! {

/// A ledger address: 32 bytes.
#[derive(Clone, Copy, Debug, Eq)]
pub struct Address {
    pub bytes: [u8; 32],
}

impl View for Address {
    type V = Seq<u8>;

    open spec fn view(&self) -> Seq<u8> {
        self.bytes@
    }
}

impl PartialEq for Address {
    fn eq(&self, other: &Self) -> (r: bool) {
        let mut i: usize = 0;
        while i < 32
            invariant
                i <= 32,
                forall|j: int| 0 <= j < i ==> self.bytes[j] == other.bytes[j],
            decreases 32 - i,
        {
            if self.bytes[i] != other.bytes[i] {
                return false;
            }
            i += 1;
        }
        assert(self.bytes =~= other.bytes);
        true
    }
}

impl PartialEqSpecImpl for Address {
    open spec fn obeys_eq_spec() -> bool {
        true
    }

    open spec fn eq_spec(&self, other: &Self) -> bool {
        *self == *other
    }
}

/// Two addresses are the same exactly when their bytes are.
pub proof fn lemma_address_by_bytes(a: Address, b: Address)
    ensures
        (a@ == b@) == (a == b),
{
    if a@ == b@ {
        assert(forall|i: int| 0 <= i < 32 ==> a.bytes[i] == a@[i]);
        assert(forall|i: int| 0 <= i < 32 ==> b.bytes[i] == b@[i]);
        assert(a.bytes =~= b.bytes);
    }
}

impl Address {
    /// The address as a seed.
    pub fn to_seed(&self) -> (seed: Vec<u8>)
        ensures
            seed@ == self@,
    {
        slice_to_vec(self.bytes.as_slice())
    }
}

/// What a list of seeds holds, seed by seed.
pub open spec fn seeds_view(seeds: &Vec<Vec<u8>>) -> Seq<Seq<u8>> {
    Seq::new(seeds@.len(), |i: int| seeds@[i]@)
}

/// The bytes of an optional address.
pub open spec fn address_view(address: Option<Address>) -> Option<Seq<u8>> {
    match address {
        Some(a) => Some(a@),
        None => None,
    }
}

/// The bytes of an optional address with its bump.
pub open spec fn found_view(found: Option<(Address, u8)>) -> Option<(Seq<u8>, u8)> {
    match found {
        Some((a, bump)) => Some((a@, bump)),
        None => None,
    }
}

/// The address that the ledger derives from `seeds` under `program_id`, or
/// `None` where it derives none: the seeds are too many or too long, or the
/// hash falls on the signature curve.
pub uninterp spec fn program_address(seeds: Seq<Seq<u8>>, program_id: Seq<u8>) -> Option<Seq<u8>>;

/// The seeds with a one-byte bump seed behind them.
pub open spec fn with_bump(seeds: Seq<Seq<u8>>, bump: u8) -> Seq<Seq<u8>> {
    seeds.push(seq![bump])
}

/// The first bump, from `from` down to 1, with which the seeds derive an
/// address, and that address.
pub open spec fn search_bump(seeds: Seq<Seq<u8>>, program_id: Seq<u8>, from: u8) -> Option<
    (Seq<u8>, u8),
>
    decreases from,
{
    if from == 0 {
        None
    } else {
        match program_address(with_bump(seeds, from), program_id) {
            Some(address) => Some((address, from)),
            None => search_bump(seeds, program_id, (from - 1) as u8),
        }
    }
}

/// The canonical address of the seeds: the one derived with the greatest
/// bump that derives any.
pub open spec fn find_address(seeds: Seq<Seq<u8>>, program_id: Seq<u8>) -> Option<(Seq<u8>, u8)> {
    search_bump(seeds, program_id, 255)
}

/// Whether the seeds, bump included, derive `address` under `program_id`.
pub open spec fn derives(seeds: Seq<Seq<u8>>, program_id: Address, address: Address) -> bool {
    program_address(seeds, program_id@) == Some(address@)
}

/// The bump with which `address` is the canonical address of `seeds`, if it
/// is.
pub open spec fn canonical_bump_of(address: Address, seeds: Seq<Seq<u8>>, program_id: Address)
    -> Option<u8> {
    match find_address(seeds, program_id@) {
        Some((found, bump)) => if found == address@ {
            Some(bump)
        } else {
            None
        },
        None => None,
    }
}

/// What the search finds derives: the address with the bump found.
pub proof fn lemma_search_bump_derives(seeds: Seq<Seq<u8>>, program_id: Seq<u8>, from: u8)
    ensures
        search_bump(seeds, program_id, from) matches Some((address, bump)) ==> 1 <= bump <= from
            && program_address(with_bump(seeds, bump), program_id) == Some(address),
    decreases from,
{
    if from != 0 && program_address(with_bump(seeds, from), program_id) is None {
        lemma_search_bump_derives(seeds, program_id, (from - 1) as u8);
    }
}

/// A canonical address derives from its seeds and its bump.
pub proof fn lemma_canonical_bump_derives(
    address: Address,
    seeds: Seq<Seq<u8>>,
    program_id: Address,
)
    ensures
        canonical_bump_of(address, seeds, program_id) matches Some(bump) ==> derives(
            with_bump(seeds, bump),
            program_id,
            address,
        ),
{
    lemma_search_bump_derives(seeds, program_id@, 255);
}

/// Seeds have one canonical address: two addresses that are both canonical
/// for the same seeds under the same program are the same address, with
/// the same bump.
pub proof fn lemma_canonical_address_unique(
    a: Address,
    b: Address,
    seeds: Seq<Seq<u8>>,
    program_id: Address,
)
    requires
        canonical_bump_of(a, seeds, program_id) is Some,
        canonical_bump_of(b, seeds, program_id) is Some,
    ensures
        a == b,
        canonical_bump_of(a, seeds, program_id) == canonical_bump_of(b, seeds, program_id),
{
    lemma_address_by_bytes(a, b);
}

/// Calls `Pubkey::create_program_address` on the seeds as they stand, with
/// no bump added. Believed of it, not proved: what it returns depends on
/// the seeds and the program alone, so that it has a name,
/// `program_address`; an address comes back as `Some`, each of its errors
/// (seeds too many or too long, a hash on the curve) as `None`.
#[verifier::external_body]
pub(crate) fn create_program_address(seeds: &Vec<Vec<u8>>, program_id: &Address) -> (address:
    Option<Address>)
    ensures
        address_view(address) == program_address(seeds_view(seeds), program_id@),
{
    let parts: Vec<&[u8]> = seeds.iter().map(|seed| seed.as_slice()).collect();
    match Pubkey::create_program_address(&parts, &Pubkey::new_from_array(program_id.bytes)) {
        Ok(key) => Some(Address { bytes: key.to_bytes() }),
        Err(_) => None,
    }
}

/// Calls `Pubkey::try_find_program_address`. Believed of it, not proved: it
/// tries the bumps from 255 down to 1, each put behind the seeds as one
/// more seed of one byte, derives as `Pubkey::create_program_address` does,
/// and returns the first address that derives, with its bump; `None` where
/// no bump derives one.
#[verifier::external_body]
pub(crate) fn try_find_program_address(seeds: &Vec<Vec<u8>>, program_id: &Address) -> (found:
    Option<(Address, u8)>)
    ensures
        found_view(found) == find_address(seeds_view(seeds), program_id@),
{
    let parts: Vec<&[u8]> = seeds.iter().map(|seed| seed.as_slice()).collect();
    match Pubkey::try_find_program_address(&parts, &Pubkey::new_from_array(program_id.bytes)) {
        Some((key, bump)) => Some((Address { bytes: key.to_bytes() }, bump)),
        None => None,
    }
}

impl Address {
    /// The address that `seeds` derive under this program with the greatest
    /// bump that derives any, and that bump.
    pub fn find(&self, seeds: &Vec<Vec<u8>>) -> (found: Option<(Address, u8)>)
        ensures
            found_view(found) == find_address(seeds_view(seeds), self@),
    {
        try_find_program_address(seeds, self)
    }

    /// Whether this address is the canonical one of `seeds` under
    /// `program_id`; if so, its bump.
    pub fn canonical_bump(&self, program_id: &Address, seeds: &Vec<Vec<u8>>) -> (bump: Option<u8>)
        ensures
            bump == canonical_bump_of(*self, seeds_view(seeds), *program_id),
    {
        match try_find_program_address(seeds, program_id) {
            Some((address, bump)) => {
                if address == *self {
                    Some(bump)
                } else {
                    proof {
                        lemma_address_by_bytes(address, *self);
                    }
                    None
                }
            },
            None => None,
        }
    }

    /// Whether this address is the one that `seeds` and `bump` derive under
    /// `program_id`.
    pub fn is_derived(&self, program_id: &Address, seeds: &Vec<Vec<u8>>, bump: u8) -> (yes: bool)
        ensures
            yes == derives(with_bump(seeds_view(seeds), bump), *program_id, *self),
    {
        match program_id.derive(seeds, bump) {
            Some(address) => {
                proof {
                    lemma_address_by_bytes(address, *self);
                }
                address == *self
            },
            None => false,
        }
    }

    /// The address that `seeds` and the given bump derive under this program.
    pub fn derive(&self, seeds: &Vec<Vec<u8>>, bump: u8) -> (address: Option<Address>)
        ensures
            address_view(address) == program_address(with_bump(seeds_view(seeds), bump), self@),
    {
        let signed = signer_seeds(seeds, bump);
        create_program_address(&signed, self)
    }
}

/// A text as a seed: its UTF-8 bytes.
pub fn text_seed(text: &str) -> (seed: Vec<u8>)
    ensures
        seed@ == encode_utf8(text@),
{
    slice_to_vec(text.as_bytes())
}

/// A copy of the seeds with the bump behind them as one more seed: what
/// signs for the address that they derive.
pub fn signer_seeds(seeds: &Vec<Vec<u8>>, bump: u8) -> (signed: Vec<Vec<u8>>)
    ensures
        seeds_view(&signed) == with_bump(seeds_view(seeds), bump),
{
    let mut signed: Vec<Vec<u8>> = Vec::new();
    let mut i: usize = 0;
    while i < seeds.len()
        invariant
            i <= seeds.len(),
            signed@.len() == i,
            forall|j: int| 0 <= j < i ==> signed@[j]@ == seeds@[j]@,
        decreases seeds.len() - i,
    {
        signed.push(slice_to_vec(seeds[i].as_slice()));
        i += 1;
    }
    let mut last: Vec<u8> = Vec::new();
    last.push(bump);
    assert(last@ =~= seq![bump]);
    signed.push(last);
    assert(seeds_view(&signed) =~= with_bump(seeds_view(seeds), bump));
    signed
}

} // verus!
