//! Token transfers that an operation asks the host to perform.

use vstd::prelude::*;
use crate::address::Address;

verus! {

/// Which way tokens move between the contract and another party.
#[derive(Copy, Clone, Debug, PartialEq, Eq, Structural)]
pub enum Direction {
    /// From the party into the contract.
    Deposit,
    /// From the contract to the party.
    Payout,
}

/// A transfer of `amount` units of `token` between the contract and `party`.
#[derive(Debug)]
pub struct Transfer {
    pub direction: Direction,
    pub token: Address,
    pub party: Address,
    pub amount: i128,
}

/// A transfer, with its addresses taken by their views.
pub struct TransferView {
    pub direction: Direction,
    pub token: Seq<u8>,
    pub party: Seq<u8>,
    pub amount: int,
}

impl View for Transfer {
    type V = TransferView;

    open spec fn view(&self) -> TransferView {
        TransferView {
            direction: self.direction,
            token: self.token@,
            party: self.party@,
            amount: self.amount as int,
        }
    }
}

/// The views of a sequence of transfers.
pub open spec fn transfer_views(s: Seq<Transfer>) -> Seq<TransferView> {
    s.map_values(|t: Transfer| t@)
}

/// A payout of `amount` of `token` from the contract to `to`.
pub open spec fn payout(token: Seq<u8>, to: Seq<u8>, amount: int) -> TransferView {
    TransferView { direction: Direction::Payout, token, party: to, amount }
}

/// A deposit of `amount` of `token` from `from` into the contract.
pub open spec fn deposit(token: Seq<u8>, from: Seq<u8>, amount: int) -> TransferView {
    TransferView { direction: Direction::Deposit, token, party: from, amount }
}

/// The payout to `to` when `amount` is positive, and nothing otherwise.
pub open spec fn payout_if_positive(token: Seq<u8>, to: Seq<u8>, amount: int) -> Seq<TransferView> {
    if amount > 0 {
        seq![payout(token, to, amount)]
    } else {
        Seq::empty()
    }
}

impl Transfer {
    /// Builds a transfer, copying the addresses.
    pub fn new(direction: Direction, token: &Address, party: &Address, amount: i128) -> (r: Transfer)
        ensures
            r@ == (TransferView { direction, token: token@, party: party@, amount: amount as int }),
    {
        Transfer { direction, token: token.duplicate(), party: party.duplicate(), amount }
    }
}

/// Appends the payout to `to` when `amount` is positive.
pub fn push_payout_if_positive(transfers: &mut Vec<Transfer>, token: &Address, to: &Address, amount: i128)
    ensures
        transfer_views(final(transfers)@) == transfer_views(old(transfers)@) + payout_if_positive(token@, to@, amount as int),
{
    if amount > 0 {
        transfers.push(Transfer::new(Direction::Payout, token, to, amount));
    }
    proof {
        assert(transfer_views(final(transfers)@) =~= transfer_views(old(transfers)@) + payout_if_positive(token@, to@, amount as int));
    }
}

} // verus!

verus! {

/// What a successful operation returns, with the transfers it asks for.
#[derive(Debug)]
pub struct Settlement<T> {
    pub value: T,
    pub transfers: Vec<Transfer>,
}

} // verus!
