//! Collateral ledger: a deterministic model of the currency gateway the
//! handlers consume.
//!
//! Each account holds a free balance and a reserved (collateral) balance.
//! `reserve` moves funds from free to reserved, `unreserve` moves them
//! back, and `pay` transfers free funds between accounts. The model keeps
//! one invariant per account — free plus reserved never exceeds the
//! balance type's maximum — and rejects any payment that would overflow
//! the recipient, so no operation ever wraps. There is no minimum-balance
//! rule in this model: an account may be drawn down to zero.

use std::collections::HashMap;
use vstd::prelude::*;

verus! {

broadcast use vstd::std_specs::hash::group_hash_axioms;

/// The free and reserved balance of one account. An account absent from
/// the ledger is equivalent to one with both balances zero.
#[derive(Clone, Copy, Debug, PartialEq, Eq, Structural)]
pub struct AccountData {
    pub free: u128,
    pub reserved: u128,
}

/// The free balance of `who`, zero when the account is absent.
pub open spec fn free_of(l: Map<u64, AccountData>, who: u64) -> u128 {
    if l.dom().contains(who) {
        l[who].free
    } else {
        0
    }
}

/// The reserved balance of `who`, zero when the account is absent.
pub open spec fn reserved_of(l: Map<u64, AccountData>, who: u64) -> u128 {
    if l.dom().contains(who) {
        l[who].reserved
    } else {
        0
    }
}

/// Every account's total holding fits in the balance type.
pub open spec fn ledger_wf(l: Map<u64, AccountData>) -> bool {
    forall|a: u64| #[trigger]
        l.dom().contains(a) ==> l[a].free + l[a].reserved <= u128::MAX
}

/// A reservation succeeds exactly when the free balance covers it.
pub open spec fn can_reserve(l: Map<u64, AccountData>, who: u64, amount: u128) -> bool {
    free_of(l, who) >= amount
}

/// The ledger after moving `amount` from `who`'s free balance to its
/// reserved balance.
pub open spec fn spec_reserve(l: Map<u64, AccountData>, who: u64, amount: u128) -> Map<
    u64,
    AccountData,
> {
    l.insert(
        who,
        (AccountData {
            free: (free_of(l, who) - amount) as u128,
            reserved: (reserved_of(l, who) + amount) as u128,
        }),
    )
}

/// The ledger after moving back to `who`'s free balance as much of
/// `amount` as is actually reserved.
pub open spec fn spec_unreserve(l: Map<u64, AccountData>, who: u64, amount: u128) -> Map<
    u64,
    AccountData,
> {
    let moved = if amount <= reserved_of(l, who) {
        amount
    } else {
        reserved_of(l, who)
    };
    l.insert(
        who,
        (AccountData {
            free: (free_of(l, who) + moved) as u128,
            reserved: (reserved_of(l, who) - moved) as u128,
        }),
    )
}

/// The payee's total holding has room for `amount` more.
pub open spec fn can_receive(l: Map<u64, AccountData>, to: u64, amount: u128) -> bool {
    free_of(l, to) + reserved_of(l, to) + amount <= u128::MAX
}

/// A payment succeeds exactly when the payer's free balance covers it and
/// the payee's total holding has room for it.
pub open spec fn can_pay(l: Map<u64, AccountData>, from: u64, to: u64, amount: u128) -> bool {
    &&& free_of(l, from) >= amount
    &&& (from == to || can_receive(l, to, amount))
}

/// The ledger after paying `amount` of free balance from `from` to `to`.
/// Deducting before crediting makes a self-payment leave the balances
/// unchanged.
pub open spec fn spec_pay(l: Map<u64, AccountData>, from: u64, to: u64, amount: u128) -> Map<
    u64,
    AccountData,
> {
    let l1 = l.insert(
        from,
        (AccountData { free: (free_of(l, from) - amount) as u128, reserved: reserved_of(l, from) }),
    );
    l1.insert(
        to,
        (AccountData { free: (free_of(l1, to) + amount) as u128, reserved: reserved_of(l1, to) }),
    )
}

/// The collateral ledger itself: account id to balances.
pub struct Ledger {
    accounts: HashMap<u64, AccountData>,
}

impl View for Ledger {
    type V = Map<u64, AccountData>;

    closed spec fn view(&self) -> Map<u64, AccountData> {
        self.accounts@
    }
}

impl Ledger {
    /// An empty ledger: every account has zero balances.
    pub fn new() -> (l: Ledger)
        ensures
            l@ == Map::<u64, AccountData>::empty(),
            ledger_wf(l@),
    {
        Ledger { accounts: HashMap::new() }
    }

    /// The balances of `who`, defaulting to zero for an absent account.
    fn account(&self, who: u64) -> (r: AccountData)
        ensures
            r.free == free_of(self@, who),
            r.reserved == reserved_of(self@, who),
    {
        match self.accounts.get(&who) {
            Some(a) => *a,
            None => AccountData { free: 0, reserved: 0 },
        }
    }

    /// Overwrite `who`'s balances with a fresh endowment of free funds
    /// and nothing reserved.
    pub fn set_balance(&mut self, who: u64, free: u128)
        ensures
            final(self)@ == old(self)@.insert(who, (AccountData { free, reserved: 0 })),
            ledger_wf(old(self)@) ==> ledger_wf(final(self)@),
    {
        self.accounts.insert(who, AccountData { free, reserved: 0 });
    }

    /// The free balance of `who`.
    pub fn free_balance(&self, who: u64) -> (r: u128)
        ensures
            r == free_of(self@, who),
    {
        self.account(who).free
    }

    /// The reserved balance of `who`.
    pub fn reserved_balance(&self, who: u64) -> (r: u128)
        ensures
            r == reserved_of(self@, who),
    {
        self.account(who).reserved
    }

    /// Move `amount` from `who`'s free balance to its reserved balance.
    /// Fails, changing nothing, when the free balance does not cover it.
    pub fn reserve(&mut self, who: u64, amount: u128) -> (ok: bool)
        requires
            ledger_wf(old(self)@),
        ensures
            ledger_wf(final(self)@),
            ok == can_reserve(old(self)@, who, amount),
            ok ==> final(self)@ == spec_reserve(old(self)@, who, amount),
            !ok ==> final(self)@ == old(self)@,
    {
        let a = self.account(who);
        if a.free >= amount {
            self.accounts.insert(
                who,
                AccountData { free: a.free - amount, reserved: a.reserved + amount },
            );
            true
        } else {
            false
        }
    }

    /// Move back to `who`'s free balance as much of `amount` as is
    /// actually reserved. Never fails.
    pub fn unreserve(&mut self, who: u64, amount: u128)
        requires
            ledger_wf(old(self)@),
        ensures
            ledger_wf(final(self)@),
            final(self)@ == spec_unreserve(old(self)@, who, amount),
    {
        let a = self.account(who);
        let moved = if amount <= a.reserved {
            amount
        } else {
            a.reserved
        };
        self.accounts.insert(
            who,
            AccountData { free: a.free + moved, reserved: a.reserved - moved },
        );
    }

    /// Pay `amount` of free balance from `from` to `to`. Fails, changing
    /// nothing, when the payer cannot cover it or the payee's total
    /// holding would overflow.
    pub fn pay(&mut self, from: u64, to: u64, amount: u128) -> (ok: bool)
        requires
            ledger_wf(old(self)@),
        ensures
            ledger_wf(final(self)@),
            ok == can_pay(old(self)@, from, to, amount),
            ok ==> final(self)@ == spec_pay(old(self)@, from, to, amount),
            !ok ==> final(self)@ == old(self)@,
    {
        let src = self.account(from);
        if src.free < amount {
            return false;
        }
        if from != to {
            let dst = self.account(to);
            let used = dst.free + dst.reserved;
            if amount > u128::MAX - used {
                return false;
            }
        }
        self.accounts.insert(
            from,
            AccountData { free: src.free - amount, reserved: src.reserved },
        );
        let mid = self.account(to);
        self.accounts.insert(
            to,
            AccountData { free: mid.free + amount, reserved: mid.reserved },
        );
        true
    }
}

} // verus!
