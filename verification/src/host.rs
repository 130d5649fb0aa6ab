//! The calls that the engine asks of the ledger.
//!
//! An operation answers with a plan: the calls in the order in which the
//! host has to make them, all of them or none. A call that moves something
//! out of an account under a derived address carries the seeds that sign for
//! that address; the host accepts them in place of a signature when they
//! derive it under the engine's own identity.
use crate::address::{seeds_view, Address};
use vstd::prelude::*;

verus! {

/// One call into the ledger's services.
#[derive(Clone, Copy, Debug, PartialEq, Eq)]
pub enum Instruction {
    /// Move native currency from one address to another.
    Transfer { from: Address, to: Address, lamports: u64 },
    /// Move units of an asset between two holding accounts; the host checks
    /// the asset and its decimals against the accounts.
    TransferChecked {
        from: Address,
        mint: Address,
        to: Address,
        authority: Address,
        amount: u64,
        decimals: u8,
    },
    /// Close a holding account and hand its reclaimed balance to
    /// `destination`.
    CloseAccount { account: Address, destination: Address, authority: Address },
    /// Mint new units of an asset to `to`.
    MintTo { mint: Address, to: Address, authority: Address, amount: u64 },
    /// Close a record of the engine and hand its reclaimed balance to
    /// `destination`. The records are the engine's own, so the call needs
    /// no further authority.
    CloseRecord { record: Address, destination: Address },
}

/// A call, and the seeds that sign it where a derived address is its
/// authority. Without seeds the call rests on the signatures of the
/// transaction itself.
#[derive(Clone, Debug, PartialEq, Eq)]
pub struct HostCall {
    pub instruction: Instruction,
    pub signer_seeds: Vec<Vec<u8>>,
}

/// A call as plain values.
pub struct HostCallView {
    pub instruction: Instruction,
    pub signer_seeds: Seq<Seq<u8>>,
}

impl View for HostCall {
    type V = HostCallView;

    open spec fn view(&self) -> HostCallView {
        HostCallView { instruction: self.instruction, signer_seeds: seeds_view(&self.signer_seeds) }
    }
}

/// What a plan holds, call by call.
pub open spec fn plan_view(plan: &Vec<HostCall>) -> Seq<HostCallView> {
    Seq::new(plan@.len(), |i: int| plan@[i]@)
}

/// A call that the transaction's own signatures authorise.
pub open spec fn unsigned(instruction: Instruction) -> HostCallView {
    HostCallView { instruction, signer_seeds: Seq::empty() }
}

/// A call that the engine signs with the seeds of a derived address.
pub open spec fn signed(instruction: Instruction, signer_seeds: Seq<Seq<u8>>) -> HostCallView {
    HostCallView { instruction, signer_seeds }
}

impl Instruction {
    /// Whether the call reads or writes the account at `address`.
    pub open spec fn names(self, address: Address) -> bool {
        match self {
            Instruction::Transfer { from, to, lamports } => address == from || address == to,
            Instruction::TransferChecked { from, mint, to, authority, amount, decimals } => {
                address == from || address == mint || address == to || address == authority
            },
            Instruction::CloseAccount { account, destination, authority } => {
                address == account || address == destination || address == authority
            },
            Instruction::MintTo { mint, to, authority, amount } => {
                address == mint || address == to || address == authority
            },
            Instruction::CloseRecord { record, destination } => {
                address == record || address == destination
            },
        }
    }
}

impl HostCall {
    /// A call that the transaction's own signatures authorise.
    pub fn unsigned(instruction: Instruction) -> (call: HostCall)
        ensures
            call@ == unsigned(instruction),
    {
        let call = HostCall { instruction, signer_seeds: Vec::new() };
        assert(call@.signer_seeds =~= Seq::empty());
        call
    }

    /// A call that the engine signs with the seeds of a derived address.
    pub fn signed(instruction: Instruction, signer_seeds: Vec<Vec<u8>>) -> (call: HostCall)
        ensures
            call@ == signed(instruction, seeds_view(&signer_seeds)),
    {
        HostCall { instruction, signer_seeds }
    }
}

/// Native currency that one call pays into `account`. What a closed account
/// gives back is the host's to count, and is not counted here.
pub open spec fn lamports_into(instruction: Instruction, account: Address) -> int {
    match instruction {
        Instruction::Transfer { from, to, lamports } => if to == account {
            lamports as int
        } else {
            0
        },
        _ => 0,
    }
}

/// Native currency that one call takes out of `account`.
pub open spec fn lamports_out_of(instruction: Instruction, account: Address) -> int {
    match instruction {
        Instruction::Transfer { from, to, lamports } => if from == account {
            lamports as int
        } else {
            0
        },
        _ => 0,
    }
}

/// Units of `asset` that one call puts into the holding account `account`.
pub open spec fn units_into(instruction: Instruction, asset: Address, account: Address) -> int {
    match instruction {
        Instruction::TransferChecked { from, mint, to, authority, amount, decimals } => if mint
            == asset && to == account {
            amount as int
        } else {
            0
        },
        Instruction::MintTo { mint, to, authority, amount } => if mint == asset && to == account {
            amount as int
        } else {
            0
        },
        _ => 0,
    }
}

/// Units of `asset` that one call takes out of the holding account
/// `account`.
pub open spec fn units_out_of(instruction: Instruction, asset: Address, account: Address) -> int {
    match instruction {
        Instruction::TransferChecked { from, mint, to, authority, amount, decimals } => if mint
            == asset && from == account {
            amount as int
        } else {
            0
        },
        _ => 0,
    }
}

/// Native currency that a plan pays into `account`, over all its calls.
pub open spec fn lamports_received(plan: Seq<HostCallView>, account: Address) -> int
    decreases plan.len(),
{
    if plan.len() == 0 {
        0
    } else {
        lamports_received(plan.drop_last(), account) + lamports_into(
            plan.last().instruction,
            account,
        )
    }
}

/// Native currency that a plan takes out of `account`, over all its calls.
pub open spec fn lamports_paid(plan: Seq<HostCallView>, account: Address) -> int
    decreases plan.len(),
{
    if plan.len() == 0 {
        0
    } else {
        lamports_paid(plan.drop_last(), account) + lamports_out_of(
            plan.last().instruction,
            account,
        )
    }
}

/// Units of `asset` that a plan puts into `account`, over all its calls.
pub open spec fn units_received(plan: Seq<HostCallView>, asset: Address, account: Address) -> int
    decreases plan.len(),
{
    if plan.len() == 0 {
        0
    } else {
        units_received(plan.drop_last(), asset, account) + units_into(
            plan.last().instruction,
            asset,
            account,
        )
    }
}

/// Units of `asset` that a plan takes out of `account`, over all its calls.
pub open spec fn units_sent(plan: Seq<HostCallView>, asset: Address, account: Address) -> int
    decreases plan.len(),
{
    if plan.len() == 0 {
        0
    } else {
        units_sent(plan.drop_last(), asset, account) + units_out_of(
            plan.last().instruction,
            asset,
            account,
        )
    }
}

} // verus!
