//! What holds of the operations together.
//!
//! The laws speak of plans by what they move: the native currency and the
//! units of an asset that the calls of a plan take out of an account and
//! put into one.
use crate::accounts::{is_associated, TokenAccount};
use crate::address::{
    derives, lemma_canonical_address_unique, lemma_canonical_bump_derives, Address,
};
use crate::error::{AccountError, Rejection};
use crate::host::{
    lamports_into, lamports_out_of, lamports_paid, lamports_received, units_into, units_out_of,
    units_received, units_sent, HostCallView, Instruction,
};
use crate::instructions::delist::Delist;
use crate::instructions::initialize::Initialize;
use crate::instructions::list::List;
use crate::instructions::purchase::Purchase;
use crate::state::listing::listing_seeds;
use crate::state::marketplace::{checked_fee, fee_amount, marketplace_seeds};
use vstd::prelude::*;

verus! {

/// What a plan of one more call moves is what the plan moves and what the
/// call moves.
pub proof fn lemma_moves_of_push(
    plan: Seq<HostCallView>,
    call: HostCallView,
    asset: Address,
    account: Address,
)
    ensures
        lamports_paid(plan.push(call), account) == lamports_paid(plan, account) + lamports_out_of(
            call.instruction,
            account,
        ),
        lamports_received(plan.push(call), account) == lamports_received(plan, account)
            + lamports_into(call.instruction, account),
        units_sent(plan.push(call), asset, account) == units_sent(plan, asset, account)
            + units_out_of(call.instruction, asset, account),
        units_received(plan.push(call), asset, account) == units_received(plan, asset, account)
            + units_into(call.instruction, asset, account),
{
    assert(plan.push(call).drop_last() =~= plan);
}

/// What two plans move one after the other is the sum of what each moves.
pub proof fn lemma_moves_of_concat(
    first: Seq<HostCallView>,
    second: Seq<HostCallView>,
    asset: Address,
    account: Address,
)
    ensures
        lamports_paid(first + second, account) == lamports_paid(first, account) + lamports_paid(
            second,
            account,
        ),
        lamports_received(first + second, account) == lamports_received(first, account)
            + lamports_received(second, account),
        units_sent(first + second, asset, account) == units_sent(first, asset, account)
            + units_sent(second, asset, account),
        units_received(first + second, asset, account) == units_received(first, asset, account)
            + units_received(second, asset, account),
    decreases second.len(),
{
    if second.len() == 0 {
        assert(first + second =~= first);
    } else {
        lemma_moves_of_concat(first, second.drop_last(), asset, account);
        lemma_moves_of_push(first + second.drop_last(), second.last(), asset, account);
        assert((first + second.drop_last()).push(second.last()) =~= first + second);
    }
}

/// A name has one registry address: two foundings under the same name are
/// recorded at the same address, whoever founds.
pub proof fn lemma_one_registry_address(first: Initialize, second: Initialize, name: Seq<char>)
    requires
        first.marketplace_bump(name) is Some,
        second.marketplace_bump(name) is Some,
        first.program_id == second.program_id,
    ensures
        first.marketplace.key == second.marketplace.key,
{
    lemma_canonical_address_unique(
        first.marketplace.key,
        second.marketplace.key,
        marketplace_seeds(name),
        first.program_id,
    );
}

/// A name founds one marketplace, once: after a founding, a second one
/// under the same name fails, whoever asks and at whatever fee.
pub proof fn lemma_second_founding_fails(
    first: Initialize,
    after: Initialize,
    second: Initialize,
    name: Seq<char>,
    fee: u16,
    again: u16,
)
    requires
        first.outcome(name, fee) is Ok,
        first.founded(after, name, fee),
        second.program_id == first.program_id,
        second.marketplace.key == after.marketplace.key ==> second.marketplace.data
            == after.marketplace.data,
    ensures
        second.outcome(name, again) is Err,
{
    if second.marketplace_bump(name) is Some {
        lemma_one_registry_address(first, second, name);
    }
}

/// A listing moves exactly one unit of the asset, out of the seller's
/// holding account and into the vault, and no currency; and it records the
/// asset at the given price for the seller.
pub proof fn lemma_list_escrows_one_unit(
    ctx: List,
    price: u64,
    asset: Address,
    account: Address,
)
    requires
        ctx.outcome(price) is Ok,
    ensures
        price > 0,
        units_sent(ctx.outcome(price)->Ok_0, asset, account) == (if asset == ctx.maker_mint.key
            && account == ctx.maker_ata.key {
            1int
        } else {
            0int
        }),
        units_received(ctx.outcome(price)->Ok_0, asset, account) == (if asset
            == ctx.maker_mint.key && account == ctx.vault.key {
            1int
        } else {
            0int
        }),
        lamports_paid(ctx.outcome(price)->Ok_0, account) == 0,
        lamports_received(ctx.outcome(price)->Ok_0, account) == 0,
        ctx.listed(price).listing.data matches Some(record) && record.maker == ctx.maker
            && record.mint == ctx.maker_mint.key && record.price == price,
        ctx.listed(price).vault.data == Some(
            TokenAccount { mint: ctx.maker_mint.key, owner: ctx.listing.key },
        ),
{
    let plan = ctx.outcome(price)->Ok_0;
    let none = Seq::<HostCallView>::empty();
    assert(plan =~= none.push(ctx.deposit()));
    lemma_moves_of_push(none, ctx.deposit(), asset, account);
}

/// An asset has one listing address in a marketplace: two listings of the
/// same asset in the same marketplace, whoever makes them, are recorded at
/// the same address.
pub proof fn lemma_one_listing_address(first: List, second: List)
    requires
        first.listing_bump() is Some,
        second.listing_bump() is Some,
        first.program_id == second.program_id,
        first.marketplace.key == second.marketplace.key,
        first.maker_mint.key == second.maker_mint.key,
    ensures
        first.listing.key == second.listing.key,
{
    lemma_canonical_address_unique(
        first.listing.key,
        second.listing.key,
        listing_seeds(first.marketplace.key, first.maker_mint.key),
        first.program_id,
    );
}

/// A second listing of the same asset in the same marketplace fails,
/// whoever asks and at whatever price, once the first is recorded.
pub proof fn lemma_second_listing_fails(first: List, price: u64, second: List, again: u64)
    requires
        first.outcome(price) is Ok,
        second.program_id == first.program_id,
        second.marketplace.key == first.marketplace.key,
        second.maker_mint.key == first.maker_mint.key,
        second.listing.key == first.listing.key ==> second.listing.data == first.listed(
            price,
        ).listing.data,
    ensures
        second.outcome(again) is Err,
{
    if second.listing_bump() is Some {
        lemma_one_listing_address(first, second);
    }
}

/// A purchase is exact to the unit. The buyer pays the price and the fee,
/// and nobody else pays; the seller receives the price and the treasury the
/// fee, and nobody else receives; the fee is the price times the basis
/// points over ten thousand, rounded down.
pub proof fn lemma_purchase_is_fee_exact(ctx: Purchase, account: Address)
    requires
        ctx.outcome() is Ok,
    ensures
        lamports_paid(ctx.outcome()->Ok_0, account) == (if account == ctx.taker {
            ctx.listing.data->0.price + fee_amount(
                ctx.listing.data->0.price,
                ctx.marketplace.data.fee,
            )
        } else {
            0int
        }),
        lamports_received(ctx.outcome()->Ok_0, account) == (if account == ctx.maker {
            ctx.listing.data->0.price as int
        } else {
            0int
        }) + (if account == ctx.treasury {
            fee_amount(ctx.listing.data->0.price, ctx.marketplace.data.fee)
        } else {
            0int
        }),
        ctx.listing.data->0.maker == ctx.maker,
{
    let plan = ctx.outcome()->Ok_0;
    let fee = checked_fee(ctx.listing.data->0.price, ctx.marketplace.data.fee)->0;
    let none = Seq::<HostCallView>::empty();
    let one = none.push(ctx.payment());
    let two = one.push(ctx.fee_payment(fee));
    let three = two.push(ctx.asset_transfer());
    let four = three.push(ctx.vault_closing());
    let five = four.push(ctx.reward());
    assert(plan =~= five.push(ctx.record_closing()));
    lemma_moves_of_push(none, ctx.payment(), account, account);
    lemma_moves_of_push(one, ctx.fee_payment(fee), account, account);
    lemma_moves_of_push(two, ctx.asset_transfer(), account, account);
    lemma_moves_of_push(three, ctx.vault_closing(), account, account);
    lemma_moves_of_push(four, ctx.reward(), account, account);
    lemma_moves_of_push(five, ctx.record_closing(), account, account);
}

/// A purchase moves the one unit of the asset out of the vault and into the
/// buyer's holding account, mints one unit of the reward asset to the
/// buyer, and moves no other unit.
pub proof fn lemma_purchase_delivers(ctx: Purchase, asset: Address, account: Address)
    requires
        ctx.outcome() is Ok,
    ensures
        units_sent(ctx.outcome()->Ok_0, asset, account) == (if asset == ctx.maker_mint.key
            && account == ctx.vault.key {
            1int
        } else {
            0int
        }),
        units_received(ctx.outcome()->Ok_0, asset, account) == (if asset == ctx.maker_mint.key
            && account == ctx.taker_ata.key {
            1int
        } else {
            0int
        }) + (if asset == ctx.rewards.key && account == ctx.taker {
            1int
        } else {
            0int
        }),
        ctx.settled().listing.data is None,
        ctx.settled().vault.data is None,
        ctx.settled().taker_ata.data matches Some(holding) && holding.owner == ctx.taker,
{
    let plan = ctx.outcome()->Ok_0;
    let fee = checked_fee(ctx.listing.data->0.price, ctx.marketplace.data.fee)->0;
    let none = Seq::<HostCallView>::empty();
    let one = none.push(ctx.payment());
    let two = one.push(ctx.fee_payment(fee));
    let three = two.push(ctx.asset_transfer());
    let four = three.push(ctx.vault_closing());
    let five = four.push(ctx.reward());
    assert(plan =~= five.push(ctx.record_closing()));
    lemma_moves_of_push(none, ctx.payment(), asset, account);
    lemma_moves_of_push(one, ctx.fee_payment(fee), asset, account);
    lemma_moves_of_push(two, ctx.asset_transfer(), asset, account);
    lemma_moves_of_push(three, ctx.vault_closing(), asset, account);
    lemma_moves_of_push(four, ctx.reward(), asset, account);
    lemma_moves_of_push(five, ctx.record_closing(), asset, account);
}

/// Nothing leaves a vault but on the listing's own authority: in a purchase
/// the calls that move the asset and close the vault name the listing's
/// address as authority, the vault belongs to that address, and the seeds
/// that they carry derive it; the reward is minted on the marketplace's
/// authority, with seeds that derive the registry's address.
pub proof fn lemma_purchase_signs_as_listing(ctx: Purchase)
    requires
        ctx.outcome() is Ok,
    ensures
        ctx.vault.data->0.owner == ctx.listing.key,
        derives(ctx.asset_transfer().signer_seeds, ctx.program_id, ctx.listing.key),
        derives(ctx.vault_closing().signer_seeds, ctx.program_id, ctx.listing.key),
        derives(ctx.reward().signer_seeds, ctx.program_id, ctx.marketplace.key),
{
}

/// Nothing leaves a vault but on the listing's own authority: in a
/// delisting the calls that move the asset and close the vault name the
/// listing's address as authority, the vault belongs to that address, and
/// the seeds that they carry derive it.
pub proof fn lemma_delist_signs_as_listing(ctx: Delist)
    requires
        ctx.outcome() is Ok,
    ensures
        ctx.vault.data->0.owner == ctx.listing.key,
        ctx.listing.data->0.maker == ctx.maker,
        derives(ctx.withdrawal().signer_seeds, ctx.program_id, ctx.listing.key),
        derives(ctx.vault_closing().signer_seeds, ctx.program_id, ctx.listing.key),
{
}

/// A listing touches what it declares: every account that a call of its
/// plan reads or writes is one of the accounts of the operation.
pub proof fn lemma_list_names_declared_accounts(
    ctx: List,
    price: u64,
    call: int,
    address: Address,
)
    requires
        ctx.outcome(price) is Ok,
        0 <= call < ctx.outcome(price)->Ok_0.len(),
        ctx.outcome(price)->Ok_0[call].instruction.names(address),
    ensures
        ctx.declares(address),
{
}

/// A delisting touches what it declares: every account that a call of its
/// plan reads or writes is one of the accounts of the operation.
pub proof fn lemma_delist_names_declared_accounts(ctx: Delist, call: int, address: Address)
    requires
        ctx.outcome() is Ok,
        0 <= call < ctx.outcome()->Ok_0.len(),
        ctx.outcome()->Ok_0[call].instruction.names(address),
    ensures
        ctx.declares(address),
{
}

/// A purchase touches what it declares: every account that a call of its
/// plan reads or writes is one of the accounts of the operation.
pub proof fn lemma_purchase_names_declared_accounts(ctx: Purchase, call: int, address: Address)
    requires
        ctx.outcome() is Ok,
        0 <= call < ctx.outcome()->Ok_0.len(),
        ctx.outcome()->Ok_0[call].instruction.names(address),
    ensures
        ctx.declares(address),
{
}

/// What a delisting takes out of the vault goes back to the seller. The
/// asset goes to a holding account of the caller's for that asset, and the
/// caller is the seller that the listing records; the vault and the record
/// are closed in that seller's favour.
pub proof fn lemma_delist_pays_out_to_seller(ctx: Delist)
    requires
        ctx.outcome() is Ok,
    ensures
        ctx.listing.data->0.maker == ctx.maker,
        ctx.maker_ata.data == (TokenAccount { mint: ctx.listing.data->0.mint, owner: ctx.maker }),
        ctx.withdrawal().instruction == (Instruction::TransferChecked {
            from: ctx.vault.key,
            mint: ctx.listing.data->0.mint,
            to: ctx.maker_ata.key,
            authority: ctx.listing.key,
            amount: 1,
            decimals: ctx.maker_mint.data.decimals,
        }),
        ctx.vault_closing().instruction == (Instruction::CloseAccount {
            account: ctx.vault.key,
            destination: ctx.listing.data->0.maker,
            authority: ctx.listing.key,
        }),
        ctx.record_closing().instruction == (Instruction::CloseRecord {
            record: ctx.listing.key,
            destination: ctx.listing.data->0.maker,
        }),
{
}

/// What a purchase takes out of the vault goes to the buyer, and what it
/// pays goes to the seller. The asset goes to the holding account
/// associated with the buyer and that asset; the price is paid to the
/// seller that the listing records, and the vault and the record are closed
/// in that seller's favour.
pub proof fn lemma_purchase_pays_out_to_buyer_and_seller(ctx: Purchase)
    requires
        ctx.outcome() is Ok,
    ensures
        ctx.listing.data->0.maker == ctx.maker,
        is_associated(ctx.taker_ata.key, ctx.taker, ctx.listing.data->0.mint, ctx.token_program),
        ctx.settled().taker_ata.data == Some(
            TokenAccount { mint: ctx.listing.data->0.mint, owner: ctx.taker },
        ),
        ctx.payment().instruction == (Instruction::Transfer {
            from: ctx.taker,
            to: ctx.listing.data->0.maker,
            lamports: ctx.listing.data->0.price,
        }),
        ctx.asset_transfer().instruction == (Instruction::TransferChecked {
            from: ctx.vault.key,
            mint: ctx.listing.data->0.mint,
            to: ctx.taker_ata.key,
            authority: ctx.listing.key,
            amount: 1,
            decimals: ctx.maker_mint.data.decimals,
        }),
        ctx.vault_closing().instruction == (Instruction::CloseAccount {
            account: ctx.vault.key,
            destination: ctx.listing.data->0.maker,
            authority: ctx.listing.key,
        }),
        ctx.record_closing().instruction == (Instruction::CloseRecord {
            record: ctx.listing.key,
            destination: ctx.listing.data->0.maker,
        }),
{
}

/// The accounts of the delisting that undoes a listing: the same seller,
/// marketplace, asset and holding accounts, with listing and vault as the
/// listing left them.
pub open spec fn delisting_of(listed: List) -> Delist {
    Delist {
        program_id: listed.program_id,
        maker: listed.maker,
        marketplace: listed.marketplace,
        maker_mint: listed.maker_mint,
        maker_ata: listed.maker_ata,
        listing: listed.listing,
        vault: listed.vault,
        token_program: listed.token_program,
    }
}

/// Listing and then delisting leaves things as they were. The delisting of
/// what was just listed succeeds; afterwards neither listing nor vault
/// exists, as before the listing; over both plans every holding account
/// has received as many units of every asset as it has sent, and no
/// currency has moved; and the vault and the record that the listing
/// opened are closed in favour of the seller who listed.
pub proof fn lemma_list_then_delist_restores(
    ctx: List,
    price: u64,
    asset: Address,
    account: Address,
)
    requires
        ctx.outcome(price) is Ok,
    ensures
        delisting_of(ctx.listed(price)).outcome() is Ok,
        delisting_of(ctx.listed(price)).closed().listing == ctx.listing,
        delisting_of(ctx.listed(price)).closed().vault == ctx.vault,
        delisting_of(ctx.listed(price)).closed() == delisting_of(ctx),
        units_received(
            ctx.outcome(price)->Ok_0 + delisting_of(ctx.listed(price)).outcome()->Ok_0,
            asset,
            account,
        ) == units_sent(
            ctx.outcome(price)->Ok_0 + delisting_of(ctx.listed(price)).outcome()->Ok_0,
            asset,
            account,
        ),
        lamports_paid(
            ctx.outcome(price)->Ok_0 + delisting_of(ctx.listed(price)).outcome()->Ok_0,
            account,
        ) == 0,
        lamports_received(
            ctx.outcome(price)->Ok_0 + delisting_of(ctx.listed(price)).outcome()->Ok_0,
            account,
        ) == 0,
        delisting_of(ctx.listed(price)).vault_closing().instruction
            == (Instruction::CloseAccount {
            account: ctx.vault.key,
            destination: ctx.maker,
            authority: ctx.listing.key,
        }),
        delisting_of(ctx.listed(price)).record_closing().instruction
            == (Instruction::CloseRecord { record: ctx.listing.key, destination: ctx.maker }),
{
    let back = delisting_of(ctx.listed(price));
    lemma_canonical_bump_derives(
        ctx.listing.key,
        listing_seeds(ctx.marketplace.key, ctx.maker_mint.key),
        ctx.program_id,
    );
    assert(back.fault() is None);
    let there = ctx.outcome(price)->Ok_0;
    let and_back = back.outcome()->Ok_0;
    let none = Seq::<HostCallView>::empty();
    assert(there =~= none.push(ctx.deposit()));
    lemma_moves_of_push(none, ctx.deposit(), asset, account);
    let one = none.push(back.withdrawal());
    let two = one.push(back.vault_closing());
    assert(and_back =~= two.push(back.record_closing()));
    lemma_moves_of_push(none, back.withdrawal(), asset, account);
    lemma_moves_of_push(one, back.vault_closing(), asset, account);
    lemma_moves_of_push(two, back.record_closing(), asset, account);
    lemma_moves_of_concat(there, and_back, asset, account);
}

/// A listing is sold once. After a purchase the same accounts admit no
/// second purchase, and no other purchase or delisting that looks at the
/// same listing does any better: the record no longer resolves.
pub proof fn lemma_purchase_closes_listing(ctx: Purchase, next: Purchase, back: Delist)
    requires
        ctx.outcome() is Ok,
        next.listing == ctx.settled().listing,
        back.listing == ctx.settled().listing,
    ensures
        ctx.settled().outcome() == Err::<Seq<HostCallView>, Rejection>(
            Rejection::Account(AccountError::NotInitialized),
        ),
        next.outcome() == Err::<Seq<HostCallView>, Rejection>(
            Rejection::Account(AccountError::NotInitialized),
        ),
        back.outcome() == Err::<Seq<HostCallView>, Rejection>(
            Rejection::Account(AccountError::NotInitialized),
        ),
{
}

/// A listing is withdrawn once. After a delisting the same accounts admit
/// no second delisting, and no other delisting or purchase that looks at
/// the same listing does any better: the record no longer resolves.
pub proof fn lemma_delist_closes_listing(ctx: Delist, next: Delist, sale: Purchase)
    requires
        ctx.outcome() is Ok,
        next.listing == ctx.closed().listing,
        sale.listing == ctx.closed().listing,
    ensures
        ctx.closed().outcome() == Err::<Seq<HostCallView>, Rejection>(
            Rejection::Account(AccountError::NotInitialized),
        ),
        next.outcome() == Err::<Seq<HostCallView>, Rejection>(
            Rejection::Account(AccountError::NotInitialized),
        ),
        sale.outcome() == Err::<Seq<HostCallView>, Rejection>(
            Rejection::Account(AccountError::NotInitialized),
        ),
{
}

/// At the two ends of the fee's range: a marketplace that charges nothing
/// takes nothing, whatever the price; one that charges 10000 basis points
/// takes the price again, so that the buyer pays twice the price, where the
/// price times ten thousand still fits in 64 bits.
pub proof fn lemma_fee_at_the_bounds(price: u64)
    ensures
        fee_amount(price, 0) == 0,
        checked_fee(price, 0) == Some(0u64),
        fee_amount(price, 10_000) == price,
        price + fee_amount(price, 10_000) == 2 * price,
        checked_fee(price, 10_000) == (if price * 10_000 > u64::MAX {
            None
        } else {
            Some(price)
        }),
{
}

/// The fee is never more than the price, as long as the basis points stay
/// within their bound.
pub proof fn lemma_fee_at_most_price(price: u64, fee_bps: u16)
    requires
        fee_bps <= 10_000,
    ensures
        0 <= fee_amount(price, fee_bps) <= price,
{
    assert(0 <= price * fee_bps <= price * 10_000) by (nonlinear_arith)
        requires
            0 <= fee_bps <= 10_000,
            0 <= price,
    ;
}

/// A price near the top of the range cannot be charged a fee: with any
/// basis points but zero, a price within a ten-thousand-and-first of the
/// greatest 64-bit value overflows, and the fee is refused, not wrapped.
pub proof fn lemma_fee_overflows_near_max(price: u64, fee_bps: u16)
    requires
        fee_bps >= 1,
        price > u64::MAX - u64::MAX / 10_001,
    ensures
        checked_fee(price, fee_bps) is None,
{
    assert(price * fee_bps >= price) by (nonlinear_arith)
        requires
            fee_bps >= 1,
            price >= 0,
    ;
}

} // verus!
