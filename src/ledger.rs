use std::collections::HashMap;
use vstd::prelude::*;

verus! {

broadcast use vstd::std_specs::hash::group_hash_axioms;

/// The balances of one account: what it may spend, and what is locked.
#[derive(Clone, Copy, Debug, PartialEq, Eq)]
pub struct AccountData {
    pub free: u128,
    pub reserved: u128,
}

/// Why a balance operation was refused.
#[derive(Clone, Copy, Debug, PartialEq, Eq)]
pub enum BalanceError {
    /// The free balance does not cover the amount.
    InsufficientBalance,
    /// The payer's free balance would fall below the minimum balance.
    BelowMinimum,
    /// The payee's total balance would not fit.
    Overflow,
}

/// The data of `a` in `m`; an account never seen holds nothing.
pub open spec fn account_of(m: Map<u64, AccountData>, a: u64) -> AccountData {
    if m.contains_key(a) {
        m[a]
    } else {
        AccountData { free: 0, reserved: 0 }
    }
}

pub open spec fn free_of(m: Map<u64, AccountData>, a: u64) -> int {
    account_of(m, a).free as int
}

pub open spec fn reserved_of(m: Map<u64, AccountData>, a: u64) -> int {
    account_of(m, a).reserved as int
}

/// Every account's total balance fits in a `u128`.
pub open spec fn accounts_wf(m: Map<u64, AccountData>) -> bool {
    forall|a: u64| #[trigger] m.contains_key(a) ==> m[a].free + m[a].reserved <= u128::MAX
}

/// `m` with `a` holding `free` and `reserved`.
pub open spec fn set_account(m: Map<u64, AccountData>, a: u64, free: int, reserved: int) -> Map<
    u64,
    AccountData,
> {
    m.insert(a, AccountData { free: free as u128, reserved: reserved as u128 })
}

/// Moves `v` of `a`'s free balance to its reserved balance.
pub open spec fn reserve_spec(m: Map<u64, AccountData>, a: u64, v: u128) -> Map<u64, AccountData> {
    set_account(m, a, free_of(m, a) - v, reserved_of(m, a) + v)
}

/// What `unreserve` gives back: the amount asked for, at most what is reserved.
pub open spec fn unreserved_amount(m: Map<u64, AccountData>, a: u64, v: u128) -> int {
    if v <= reserved_of(m, a) {
        v as int
    } else {
        reserved_of(m, a)
    }
}

/// Moves back to `a`'s free balance as much of `v` as is reserved.
pub open spec fn unreserve_spec(m: Map<u64, AccountData>, a: u64, v: u128) -> Map<u64, AccountData> {
    set_account(
        m,
        a,
        free_of(m, a) + unreserved_amount(m, a, v),
        reserved_of(m, a) - unreserved_amount(m, a, v),
    )
}

/// The refusal of a payment of `v` from `from` to `to`, if any.
pub open spec fn transfer_error(
    m: Map<u64, AccountData>,
    min_balance: u128,
    from: u64,
    to: u64,
    v: u128,
) -> Option<BalanceError> {
    if free_of(m, from) < v {
        Some(BalanceError::InsufficientBalance)
    } else if free_of(m, from) - v < min_balance {
        Some(BalanceError::BelowMinimum)
    } else if free_of(m, to) + reserved_of(m, to) + v > u128::MAX {
        Some(BalanceError::Overflow)
    } else {
        None
    }
}

/// Moves `v` from `from`'s free balance to `to`'s (two distinct accounts).
pub open spec fn transfer_spec(m: Map<u64, AccountData>, from: u64, to: u64, v: u128) -> Map<
    u64,
    AccountData,
> {
    let m1 = set_account(m, from, free_of(m, from) - v, reserved_of(m, from));
    set_account(m1, to, free_of(m1, to) + v, reserved_of(m1, to))
}

/// Balances of accounts, with a part of each balance that can be locked.
pub struct Balances {
    accounts: HashMap<u64, AccountData>,
    min_balance: u128,
}

impl View for Balances {
    type V = Map<u64, AccountData>;

    closed spec fn view(&self) -> Map<u64, AccountData> {
        self.accounts@
    }
}

impl Balances {
    pub open spec fn wf(&self) -> bool {
        accounts_wf(self@)
    }

    /// The least free balance that a payer must keep.
    pub closed spec fn spec_min_balance(&self) -> u128 {
        self.min_balance
    }

    /// A ledger in which every account holds nothing.
    pub fn new(min_balance: u128) -> (r: Balances)
        ensures
            r.wf(),
            r@ == Map::<u64, AccountData>::empty(),
            r.spec_min_balance() == min_balance,
    {
        Balances { accounts: HashMap::new(), min_balance }
    }

    pub fn min_balance(&self) -> (r: u128)
        ensures
            r == self.spec_min_balance(),
    {
        self.min_balance
    }

    fn account(&self, who: u64) -> (r: AccountData)
        ensures
            r == account_of(self@, who),
    {
        match self.accounts.get(&who) {
            Some(d) => *d,
            None => AccountData { free: 0, reserved: 0 },
        }
    }

    pub fn free_balance(&self, who: u64) -> (r: u128)
        ensures
            r == free_of(self@, who),
    {
        self.account(who).free
    }

    pub fn reserved_balance(&self, who: u64) -> (r: u128)
        ensures
            r == reserved_of(self@, who),
    {
        self.account(who).reserved
    }

    /// Sets the free balance of `who`, keeping what it has reserved.
    pub fn set_free_balance(&mut self, who: u64, amount: u128)
        requires
            old(self).wf(),
            amount + reserved_of(old(self)@, who) <= u128::MAX,
        ensures
            final(self).wf(),
            final(self)@ == set_account(old(self)@, who, amount as int, reserved_of(old(self)@, who)),
            final(self).spec_min_balance() == old(self).spec_min_balance(),
    {
        let d = self.account(who);
        self.accounts.insert(who, AccountData { free: amount, reserved: d.reserved });
    }

    /// Locks `amount` of the free balance of `who`.
    pub fn reserve(&mut self, who: u64, amount: u128) -> (r: Result<(), BalanceError>)
        requires
            old(self).wf(),
        ensures
            final(self).wf(),
            final(self).spec_min_balance() == old(self).spec_min_balance(),
            r is Ok <==> amount <= free_of(old(self)@, who),
            r is Ok ==> final(self)@ == reserve_spec(old(self)@, who, amount),
            r is Err ==> r == Err::<(), BalanceError>(BalanceError::InsufficientBalance)
                && final(self)@ == old(self)@,
    {
        let d = self.account(who);
        if d.free < amount {
            return Err(BalanceError::InsufficientBalance);
        }
        self.accounts.insert(who, AccountData { free: d.free - amount, reserved: d.reserved + amount });
        Ok(())
    }

    /// Unlocks `amount` of what `who` has reserved, or all of it where less
    /// is reserved; returns the amount unlocked.
    pub fn unreserve(&mut self, who: u64, amount: u128) -> (r: u128)
        requires
            old(self).wf(),
        ensures
            final(self).wf(),
            final(self).spec_min_balance() == old(self).spec_min_balance(),
            r == unreserved_amount(old(self)@, who, amount),
            final(self)@ == unreserve_spec(old(self)@, who, amount),
    {
        let d = self.account(who);
        let actual = if amount <= d.reserved { amount } else { d.reserved };
        self.accounts.insert(who, AccountData { free: d.free + actual, reserved: d.reserved - actual });
        actual
    }

    /// Pays `amount` from the free balance of `from` to that of `to`, where
    /// `from` keeps at least the minimum balance.
    pub fn transfer(&mut self, from: u64, to: u64, amount: u128) -> (r: Result<(), BalanceError>)
        requires
            old(self).wf(),
            from != to,
        ensures
            final(self).wf(),
            final(self).spec_min_balance() == old(self).spec_min_balance(),
            match transfer_error(old(self)@, old(self).spec_min_balance(), from, to, amount) {
                Some(e) => r == Err::<(), BalanceError>(e) && final(self)@ == old(self)@,
                None => r is Ok && final(self)@ == transfer_spec(old(self)@, from, to, amount),
            },
    {
        let f = self.account(from);
        let t = self.account(to);
        if f.free < amount {
            return Err(BalanceError::InsufficientBalance);
        }
        if f.free - amount < self.min_balance {
            return Err(BalanceError::BelowMinimum);
        }
        if t.reserved > u128::MAX - t.free || amount > u128::MAX - t.free - t.reserved {
            return Err(BalanceError::Overflow);
        }
        self.accounts.insert(from, AccountData { free: f.free - amount, reserved: f.reserved });
        self.accounts.insert(to, AccountData { free: t.free + amount, reserved: t.reserved });
        Ok(())
    }
}

} // verus!
