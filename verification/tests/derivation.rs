use anchor_lang::prelude::Pubkey;
use nft_marketplace::accounts::{associated_token_address, ASSOCIATED_TOKEN_PROGRAM};
use nft_marketplace::address::{signer_seeds, text_seed, Address};
use nft_marketplace::state::listing::listing_seeds_of;
use nft_marketplace::state::marketplace::{
    marketplace_seeds_of, rewards_mint_seeds_of, treasury_seeds_of,
};
use nft_marketplace::Listing;

fn program() -> Address {
    Address {
        bytes: [
            184, 5, 6, 218, 41, 32, 164, 184, 33, 56, 77, 82, 13, 217, 89, 70, 69, 143, 152,
            152, 165, 60, 178, 61, 250, 238, 43, 27, 201, 173, 150, 235,
        ],
    }
}

fn token_program() -> Address {
    Address {
        bytes: [
            6, 221, 246, 225, 215, 101, 161, 147, 217, 203, 225, 70, 206, 235, 121, 172, 28,
            180, 133, 237, 95, 91, 55, 145, 58, 140, 245, 133, 126, 255, 0, 169,
        ],
    }
}

fn key(byte: u8) -> Address {
    Address { bytes: [byte; 32] }
}

#[test]
fn addresses_compare_by_their_bytes() {
    let mut other = [7u8; 32];
    assert!(key(7) == Address { bytes: other });
    other[31] = 8;
    assert!(key(7) != Address { bytes: other });
    other[31] = 7;
    other[0] = 0;
    assert!(key(7) != Address { bytes: other });
}

#[test]
fn an_address_is_its_own_seed() {
    assert_eq!(key(9).to_seed(), vec![9u8; 32]);
    assert_eq!(program().to_seed(), program().bytes.to_vec());
}

#[test]
fn a_text_seed_is_the_utf8_of_the_text() {
    assert_eq!(text_seed("Gallery"), b"Gallery".to_vec());
    assert_eq!(text_seed(""), Vec::<u8>::new());
    assert_eq!(text_seed("é"), vec![0xc3, 0xa9]);
}

#[test]
fn marketplace_seeds_are_the_tag_and_the_name() {
    assert_eq!(
        marketplace_seeds_of("Gallery"),
        vec![b"marketplace".to_vec(), b"Gallery".to_vec()]
    );
}

#[test]
fn treasury_and_reward_seeds_are_their_tag_and_the_registry() {
    let registry = key(3);
    assert_eq!(treasury_seeds_of(&registry), vec![b"treasury".to_vec(), vec![3u8; 32]]);
    assert_eq!(rewards_mint_seeds_of(&registry), vec![b"rewards_mint".to_vec(), vec![3u8; 32]]);
}

#[test]
fn listing_seeds_are_the_marketplace_and_the_asset() {
    assert_eq!(listing_seeds_of(&key(3), &key(4)), vec![vec![3u8; 32], vec![4u8; 32]]);
}

#[test]
fn signer_seeds_end_in_the_bump() {
    let seeds = vec![b"treasury".to_vec(), vec![3u8; 32]];
    assert_eq!(
        signer_seeds(&seeds, 254),
        vec![b"treasury".to_vec(), vec![3u8; 32], vec![254u8]]
    );
    assert_eq!(signer_seeds(&Vec::new(), 1), vec![vec![1u8]]);
}

#[test]
fn a_listing_signs_with_marketplace_asset_and_bump() {
    let listing = Listing { maker: key(1), mint: key(4), price: 5, bump: 250 };
    assert_eq!(
        listing.signer_seeds(&key(3)),
        vec![vec![3u8; 32], vec![4u8; 32], vec![250u8]]
    );
}

#[test]
fn find_agrees_with_the_ledger() {
    let id = Pubkey::new_from_array(program().bytes);
    let (expected, bump) = Pubkey::find_program_address(&[b"marketplace", b"Gallery"], &id);
    let found = program().find(&marketplace_seeds_of("Gallery"));
    assert_eq!(found, Some((Address { bytes: expected.to_bytes() }, bump)));
}

#[test]
fn find_depends_on_seeds_and_program() {
    let gallery = program().find(&marketplace_seeds_of("Gallery")).unwrap();
    let bazaar = program().find(&marketplace_seeds_of("Bazaar")).unwrap();
    let elsewhere = key(1).find(&marketplace_seeds_of("Gallery")).unwrap();
    assert_ne!(gallery.0, bazaar.0);
    assert_ne!(gallery.0, elsewhere.0);
    assert_ne!(gallery.0, program());
}

#[test]
fn derive_with_the_found_bump_gives_the_found_address() {
    let seeds = listing_seeds_of(&key(3), &key(4));
    let (address, bump) = program().find(&seeds).unwrap();
    assert_eq!(program().derive(&seeds, bump), Some(address));
    let id = Pubkey::new_from_array(program().bytes);
    let direct = Pubkey::create_program_address(&[&[3u8; 32], &[4u8; 32], &[bump]], &id).unwrap();
    assert_eq!(address.bytes, direct.to_bytes());
}

#[test]
fn no_greater_bump_derives_than_the_one_found() {
    let seeds = treasury_seeds_of(&key(3));
    let (_, bump) = program().find(&seeds).unwrap();
    let mut greater = bump;
    while greater < 255 {
        greater += 1;
        assert_eq!(program().derive(&seeds, greater), None);
    }
}

#[test]
fn a_seed_of_more_than_32_bytes_derives_nothing() {
    let seeds = vec![vec![1u8; 33]];
    assert_eq!(program().find(&seeds), None);
    assert_eq!(program().derive(&seeds, 255), None);
    let fits = vec![vec![1u8; 32]];
    assert!(program().find(&fits).is_some());
}

#[test]
fn more_than_16_seeds_derive_nothing() {
    let sixteen = vec![vec![1u8]; 16];
    assert_eq!(program().find(&sixteen), None);
    assert_eq!(program().derive(&sixteen, 255), None);
    let fifteen = vec![vec![1u8]; 15];
    assert!(program().find(&fifteen).is_some());
}

#[test]
fn canonical_bump_is_the_bump_that_find_gives() {
    let seeds = marketplace_seeds_of("Gallery");
    let (address, bump) = program().find(&seeds).unwrap();
    assert_eq!(address.canonical_bump(&program(), &seeds), Some(bump));
    assert_eq!(key(1).canonical_bump(&program(), &seeds), None);
    assert_eq!(address.canonical_bump(&key(1), &seeds), None);
}

#[test]
fn is_derived_holds_of_the_derived_address_only() {
    let seeds = marketplace_seeds_of("Gallery");
    let (address, bump) = program().find(&seeds).unwrap();
    assert!(address.is_derived(&program(), &seeds, bump));
    assert!(!key(1).is_derived(&program(), &seeds, bump));
    assert!(!address.is_derived(&program(), &marketplace_seeds_of("Bazaar"), bump));
    assert!(!address.is_derived(&program(), &seeds, bump.wrapping_add(1)));
}

#[test]
fn the_associated_token_program_is_the_ledgers() {
    assert_eq!(ASSOCIATED_TOKEN_PROGRAM, anchor_spl::associated_token::ID.to_bytes());
}

#[test]
fn associated_address_agrees_with_the_ledger() {
    let wallet = key(11);
    let mint = key(12);
    let expected = anchor_spl::associated_token::get_associated_token_address_with_program_id(
        &Pubkey::new_from_array(wallet.bytes),
        &Pubkey::new_from_array(mint.bytes),
        &Pubkey::new_from_array(token_program().bytes),
    );
    let address = associated_token_address(&wallet, &mint, &token_program()).unwrap();
    assert_eq!(address.bytes, expected.to_bytes());
    assert!(address.is_associated_with(&wallet, &mint, &token_program()));
    assert!(!address.is_associated_with(&mint, &wallet, &token_program()));
    assert!(!wallet.is_associated_with(&wallet, &mint, &token_program()));
}
