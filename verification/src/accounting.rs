//! The accounting law: across any run of successful deposits and
//! withdrawals, a balance is exactly the net of the amounts moved, and
//! never leaves the range of a 64-bit unsigned integer.

use vstd::prelude::*;

verus! {

/// One successful balance movement, as the engine applies it: a deposit
/// increments by `amount`, a withdrawal decrements by `amount`.
#[derive(Clone, Copy, Debug)]
pub enum Flow {
    Deposit { amount: u64 },
    Withdraw { amount: u64 },
}

/// The sum of every deposited amount in the run.
pub open spec fn sum_deposited(ops: Seq<Flow>) -> int
    decreases ops.len(),
{
    if ops.len() == 0 {
        0
    } else {
        sum_deposited(ops.drop_last()) + match ops.last() {
            Flow::Deposit { amount } => amount as int,
            Flow::Withdraw { amount: _ } => 0,
        }
    }
}

/// The sum of every withdrawn amount in the run.
pub open spec fn sum_withdrawn(ops: Seq<Flow>) -> int
    decreases ops.len(),
{
    if ops.len() == 0 {
        0
    } else {
        sum_withdrawn(ops.drop_last()) + match ops.last() {
            Flow::Deposit { amount: _ } => 0,
            Flow::Withdraw { amount } => amount as int,
        }
    }
}

/// The balance after the run, starting from `start`: each step is the
/// exact mutation the engine's contracts state for a success.
pub open spec fn run_balance(start: int, ops: Seq<Flow>) -> int
    decreases ops.len(),
{
    if ops.len() == 0 {
        start
    } else {
        match ops.last() {
            Flow::Deposit { amount } => run_balance(start, ops.drop_last()) + amount,
            Flow::Withdraw { amount } => run_balance(start, ops.drop_last()) - amount,
        }
    }
}

/// The conditions under which the engine lets each step of the run
/// succeed: a deposit must keep the balance within `u64`, a withdrawal
/// must not exceed it.
pub open spec fn run_admissible(start: int, ops: Seq<Flow>) -> bool
    decreases ops.len(),
{
    if ops.len() == 0 {
        true
    } else {
        run_admissible(start, ops.drop_last()) && match ops.last() {
            Flow::Deposit { amount } => run_balance(start, ops.drop_last()) + amount <= u64::MAX,
            Flow::Withdraw { amount } => amount <= run_balance(start, ops.drop_last()),
        }
    }
}

/// For any account, the balance after any admissible run of successful
/// deposits and withdrawals equals the starting balance plus the sum of
/// deposited amounts minus the sum of withdrawn amounts — and is never
/// negative, nor beyond `u64::MAX`.
pub proof fn lemma_balance_is_net_flow(start: int, ops: Seq<Flow>)
    requires
        0 <= start <= u64::MAX,
        run_admissible(start, ops),
    ensures
        run_balance(start, ops) == start + sum_deposited(ops) - sum_withdrawn(ops),
        0 <= run_balance(start, ops) <= u64::MAX,
    decreases ops.len(),
{
    if ops.len() > 0 {
        lemma_balance_is_net_flow(start, ops.drop_last());
    }
}

} // verus!
