use crate::address::Address;
use std::collections::HashMap;
use vstd::prelude::*;

verus! {

broadcast use vstd::std_specs::hash::group_hash_axioms;

/// Why the ledger refused a movement of value.
#[derive(Clone, Copy, Debug, PartialEq, Eq, Structural)]
pub enum LedgerError {
    /// The amount was negative.
    NegativeAmount,
    /// The sender holds less than the amount.
    InsufficientBalance,
    /// The receiver's balance would leave the range of `i128`.
    Overflow,
}

/// The holdings of one fungible token: a balance per holder, zero for a
/// holder never credited.
pub struct TokenLedger {
    balances: HashMap<u64, i128>,
}

/// The balance of `a` in a map of holdings.
pub open spec fn holding(m: Map<u64, i128>, a: Address) -> int {
    if m.contains_key(a.id) {
        m[a.id] as int
    } else {
        0
    }
}

/// No holder has a negative balance.
pub open spec fn valid_holdings(m: Map<u64, i128>) -> bool {
    forall|k: u64| #[trigger] m.contains_key(k) ==> m[k] >= 0
}

/// Whether `transfer(from, to, amount)` succeeds on holdings `m`.
pub open spec fn transfer_ok(m: Map<u64, i128>, from: Address, to: Address, amount: int) -> bool {
    &&& amount >= 0
    &&& holding(m, from) >= amount
    &&& (from == to || holding(m, to) + amount <= i128::MAX)
}

/// The holdings after a successful `transfer(from, to, amount)`.
pub open spec fn after_transfer(m: Map<u64, i128>, from: Address, to: Address, amount: int) -> Map<
    u64,
    i128,
> {
    if from == to {
        m
    } else {
        m.insert(from.id, (holding(m, from) - amount) as i128).insert(
            to.id,
            (holding(m, to) + amount) as i128,
        )
    }
}

impl View for TokenLedger {
    type V = Map<u64, i128>;

    closed spec fn view(&self) -> Map<u64, i128> {
        self.balances@
    }
}

impl TokenLedger {
    /// The balance of `a`.
    pub open spec fn balance(&self, a: Address) -> int {
        holding(self@, a)
    }

    /// Every balance is non-negative.
    pub open spec fn wf(&self) -> bool {
        valid_holdings(self@)
    }

    /// A ledger where nobody holds anything.
    pub fn new() -> (r: TokenLedger)
        ensures
            r.wf(),
            forall|a: Address| #[trigger] r.balance(a) == 0,
    {
        TokenLedger { balances: HashMap::new() }
    }

    /// The balance of `a`.
    pub fn balance_of(&self, a: Address) -> (r: i128)
        ensures
            r == self.balance(a),
    {
        match self.balances.get(&a.id) {
            Some(v) => *v,
            None => 0,
        }
    }

    /// Creates `amount` units held by `to`.
    pub fn mint(&mut self, to: Address, amount: i128) -> (r: Result<(), LedgerError>)
        requires
            old(self).wf(),
        ensures
            final(self).wf(),
            amount < 0 ==> r == Err::<(), LedgerError>(LedgerError::NegativeAmount),
            amount >= 0 && old(self).balance(to) + amount > i128::MAX ==> r == Err::<
                (),
                LedgerError,
            >(LedgerError::Overflow),
            r is Ok <==> amount >= 0 && old(self).balance(to) + amount <= i128::MAX,
            r is Ok ==> final(self)@ == old(self)@.insert(
                to.id,
                (old(self).balance(to) + amount) as i128,
            ),
            r is Err ==> final(self)@ == old(self)@,
    {
        if amount < 0 {
            return Err(LedgerError::NegativeAmount);
        }
        let cur = self.balance_of(to);
        if cur > i128::MAX - amount {
            return Err(LedgerError::Overflow);
        }
        self.balances.insert(to.id, cur + amount);
        Ok(())
    }

    /// Moves `amount` units from `from` to `to`; on failure nothing changes.
    pub fn transfer(&mut self, from: Address, to: Address, amount: i128) -> (r: Result<
        (),
        LedgerError,
    >)
        requires
            old(self).wf(),
        ensures
            final(self).wf(),
            r is Ok <==> transfer_ok(old(self)@, from, to, amount as int),
            r is Ok ==> final(self)@ == after_transfer(old(self)@, from, to, amount as int),
            r is Err ==> final(self)@ == old(self)@,
            amount < 0 ==> r == Err::<(), LedgerError>(LedgerError::NegativeAmount),
            amount >= 0 && old(self).balance(from) < amount ==> r == Err::<(), LedgerError>(
                LedgerError::InsufficientBalance,
            ),
    {
        if amount < 0 {
            return Err(LedgerError::NegativeAmount);
        }
        let have = self.balance_of(from);
        if have < amount {
            return Err(LedgerError::InsufficientBalance);
        }
        if from == to {
            return Ok(());
        }
        let dest = self.balance_of(to);
        if dest > i128::MAX - amount {
            return Err(LedgerError::Overflow);
        }
        self.balances.insert(from.id, have - amount);
        self.balances.insert(to.id, dest + amount);
        Ok(())
    }
}

} // verus!
