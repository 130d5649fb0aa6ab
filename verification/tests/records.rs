use nft_marketplace::address::Address;
use nft_marketplace::host::{HostCall, Instruction};
use nft_marketplace::state::listing::listing_seeds_of;
use nft_marketplace::state::marketplace::{
    marketplace_seeds_of, rewards_mint_seeds_of, treasury_seeds_of, MAX_FEE_BPS, MAX_NAME_LEN,
    REWARD_DECIMALS,
};
use nft_marketplace::{
    AccountError, Listing, Marketplace, MarketplaceError, Rejection, Slot,
};

fn key(byte: u8) -> Address {
    Address { bytes: [byte; 32] }
}

fn marketplace(fee: u16) -> Marketplace {
    Marketplace {
        admin: key(1),
        fee,
        bump: 255,
        treasury_bump: 254,
        rewards_mint_bump: 253,
        name: String::from("Gallery"),
    }
}

#[test]
fn every_error_has_its_message() {
    assert_eq!(
        MarketplaceError::NameTooLong.message(),
        "Name must be less than or equal to 32 characters"
    );
    assert_eq!(
        MarketplaceError::FeeTooHigh.message(),
        "Fee must be less than or equal to 10000 basis points (100%)"
    );
    assert_eq!(MarketplaceError::CollectionInvalid.message(), "Invalid collection address");
    assert_eq!(MarketplaceError::CollectionNotVerified.message(), "Collection not verified");
    assert_eq!(MarketplaceError::InvalidPrice.message(), "Price must be greater than zero");
    assert_eq!(
        MarketplaceError::ArithmeticOverflow.message(),
        "Arithmetic overflow in fee calculation"
    );
    assert_eq!(
        MarketplaceError::UnauthorizedDelist.message(),
        "Unauthorized: Only the listing maker can delist"
    );
    assert_eq!(MarketplaceError::InvalidMintDecimals.message(), "Invalid mint decimals");
}

#[test]
fn every_fault_has_its_message() {
    let faults = [
        (AccountError::NotInitialized, "The account does not exist"),
        (AccountError::AlreadyInUse, "The address is already in use"),
        (AccountError::SeedsMismatch, "The address is not the one that its seeds derive"),
        (AccountError::NotAssociated, "The holding account is not the associated one"),
        (AccountError::TokenOwnerMismatch, "The holding account has another owner"),
        (AccountError::SellerMismatch, "The seller is not the one that the listing records"),
        (AccountError::AssetMismatch, "The account is for another asset"),
        (AccountError::MintDecimalsMismatch, "The reward asset has other decimals"),
        (AccountError::MintAuthorityMismatch, "The reward asset has another authority"),
    ];
    for (fault, text) in faults {
        assert_eq!(fault.message(), text);
        assert_eq!(Rejection::Account(fault).message(), text);
    }
    assert_eq!(
        Rejection::Marketplace(MarketplaceError::InvalidPrice).message(),
        "Price must be greater than zero"
    );
}

#[test]
fn records_have_their_fixed_sizes() {
    assert_eq!(Marketplace::INIT_SPACE, 81);
    assert_eq!(Listing::INIT_SPACE, 81);
}

#[test]
fn the_bounds_are_those_of_the_rules() {
    assert_eq!(MAX_FEE_BPS, 10_000);
    assert_eq!(MAX_NAME_LEN, 32);
    assert_eq!(REWARD_DECIMALS, 6);
}

#[test]
fn a_marketplace_signs_with_tag_name_and_bump() {
    assert_eq!(
        marketplace(250).signer_seeds(),
        vec![b"marketplace".to_vec(), b"Gallery".to_vec(), vec![255u8]]
    );
}

#[test]
fn a_marketplace_knows_its_own_addresses() {
    let program = key(77);
    let record = marketplace(250);
    let (registry, bump) = program.find(&marketplace_seeds_of("Gallery")).unwrap();
    let (treasury, treasury_bump) = program.find(&treasury_seeds_of(&registry)).unwrap();
    let (rewards, rewards_mint_bump) = program.find(&rewards_mint_seeds_of(&registry)).unwrap();
    let record = Marketplace { bump, treasury_bump, rewards_mint_bump, ..record };
    assert!(record.is_registry(&program, &registry));
    assert!(!record.is_registry(&program, &treasury));
    assert!(!record.is_registry(&key(78), &registry));
    assert!(record.is_treasury(&program, &registry, &treasury));
    assert!(!record.is_treasury(&program, &registry, &rewards));
    assert!(!record.is_treasury(&program, &treasury, &treasury));
    assert!(record.is_rewards_mint(&program, &registry, &rewards));
    assert!(!record.is_rewards_mint(&program, &registry, &treasury));
    let other = Marketplace { name: String::from("Bazaar"), ..record.clone() };
    assert!(!other.is_registry(&program, &registry));
}

#[test]
fn a_listing_knows_its_own_address() {
    let program = key(77);
    let (address, bump) = program.find(&listing_seeds_of(&key(3), &key(4))).unwrap();
    let record = Listing { maker: key(1), mint: key(4), price: 5, bump };
    assert!(record.is_listing(&program, &key(3), &address));
    assert!(!record.is_listing(&program, &key(4), &address));
    assert!(!record.is_listing(&program, &key(3), &key(3)));
    let other = Listing { mint: key(5), ..record };
    assert!(!other.is_listing(&program, &key(3), &address));
}

#[test]
fn a_marketplace_mints_its_reward_in_its_own_name() {
    let call = marketplace(250).mint_reward(&key(10), &key(11), &key(12));
    assert_eq!(
        call,
        HostCall {
            instruction: Instruction::MintTo {
                mint: key(11),
                to: key(12),
                authority: key(10),
                amount: 1,
            },
            signer_seeds: vec![b"marketplace".to_vec(), b"Gallery".to_vec(), vec![255u8]],
        }
    );
}

#[test]
fn the_fee_is_the_basis_points_of_the_price() {
    assert_eq!(marketplace(250).fee_on(1_000_000), Ok(25_000));
    assert_eq!(marketplace(1).fee_on(10_000), Ok(1));
    assert_eq!(marketplace(10_000).fee_on(123_456), Ok(123_456));
    assert_eq!(marketplace(0).fee_on(123_456), Ok(0));
    assert_eq!(marketplace(250).fee_on(0), Ok(0));
}

#[test]
fn the_fee_is_rounded_down() {
    assert_eq!(marketplace(9_999).fee_on(1), Ok(0));
    assert_eq!(marketplace(5_000).fee_on(3), Ok(1));
    assert_eq!(marketplace(1).fee_on(9_999), Ok(0));
    assert_eq!(marketplace(1).fee_on(19_999), Ok(1));
    assert_eq!(marketplace(3_333).fee_on(10), Ok(3));
}

#[test]
fn a_product_that_does_not_fit_is_an_overflow() {
    let greatest = u64::MAX / 10_000;
    assert_eq!(marketplace(10_000).fee_on(greatest), Ok(greatest));
    assert_eq!(
        marketplace(10_000).fee_on(greatest + 1),
        Err(MarketplaceError::ArithmeticOverflow)
    );
    assert_eq!(marketplace(2).fee_on(u64::MAX), Err(MarketplaceError::ArithmeticOverflow));
    assert_eq!(marketplace(2).fee_on(u64::MAX / 2 + 1), Err(MarketplaceError::ArithmeticOverflow));
}

#[test]
fn an_outlay_that_does_not_fit_is_an_overflow() {
    assert_eq!(marketplace(1).fee_on(u64::MAX), Err(MarketplaceError::ArithmeticOverflow));
    assert_eq!(marketplace(1).fee_on(u64::MAX - 5), Err(MarketplaceError::ArithmeticOverflow));
    // the greatest price that a fee of one basis point can still be charged on
    let greatest = 18_444_899_583_751_176_498u64;
    assert_eq!(greatest + greatest / 10_000, u64::MAX);
    assert_eq!(marketplace(1).fee_on(greatest), Ok(greatest / 10_000));
    assert_eq!(marketplace(1).fee_on(greatest + 1), Err(MarketplaceError::ArithmeticOverflow));
}

#[test]
fn a_price_near_the_top_overflows_with_any_fee() {
    let near = u64::MAX - u64::MAX / 10_001 + 1;
    for fee in [1u16, 2, 250, 9_999, 10_000] {
        assert_eq!(marketplace(fee).fee_on(near), Err(MarketplaceError::ArithmeticOverflow));
        assert_eq!(marketplace(fee).fee_on(u64::MAX), Err(MarketplaceError::ArithmeticOverflow));
    }
    assert_eq!(marketplace(0).fee_on(u64::MAX), Ok(0));
}

#[test]
fn a_slot_is_vacant_or_occupied() {
    let vacant: Slot<Listing> = Slot::vacant(key(5));
    assert_eq!(vacant, Slot { key: key(5), data: None });
    let record = Listing { maker: key(1), mint: key(2), price: 3, bump: 4 };
    assert_eq!(Slot::occupied(key(5), record), Slot { key: key(5), data: Some(record) });
}

#[test]
fn an_unsigned_call_carries_no_seeds() {
    let transfer = Instruction::Transfer { from: key(1), to: key(2), lamports: 3 };
    let call = HostCall::unsigned(transfer);
    assert_eq!(call.instruction, transfer);
    assert!(call.signer_seeds.is_empty());
}

#[test]
fn a_signed_call_carries_its_seeds() {
    let close =
        Instruction::CloseAccount { account: key(1), destination: key(2), authority: key(3) };
    let seeds = vec![vec![1u8, 2], vec![255u8]];
    let call = HostCall::signed(close, seeds.clone());
    assert_eq!(call, HostCall { instruction: close, signer_seeds: seeds });
}
