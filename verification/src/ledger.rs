//! The fungible-token ledger: balances, allowances, and the transition rules.
//!
//! Amounts are unsigned 128-bit integers and accounts are 64-bit identities.
//! Every mutating operation is all-or-nothing: a failed precondition returns
//! an error and leaves the whole ledger exactly as it was. Well-formedness
//! (`wf`) is the conservation invariant: the sum of all balances equals the
//! total supply, so no sequence of transfers can create or destroy units.
use vstd::prelude::*;

use crate::errors::Error;
use crate::sums::lemma_map_sum_bound;
use crate::sums::lemma_map_sum_empty;
use crate::sums::lemma_map_sum_insert;
use crate::sums::lemma_pair_key_injective;
use crate::sums::map_sum;
use crate::sums::pair_key;
use crate::sums::pair_key_exec;
use std::collections::HashMap;

verus! {

broadcast use vstd::std_specs::hash::group_hash_axioms;

/// One token's ledger: metadata, the total supply, per-account balances,
/// and per-(owner, spender) allowances keyed by the packed pair key.
pub struct Ledger {
    /// Whether `initialize` has run; it may run exactly once.
    pub initialized: bool,
    /// Human-readable token name, fixed at initialization.
    pub token_name: String,
    /// Ticker symbol, fixed at initialization.
    pub token_symbol: String,
    /// Display precision, fixed at initialization.
    pub token_decimals: u8,
    /// Total number of token units, minted once at initialization.
    pub supply: u128,
    /// Token units held per account; an absent account holds zero.
    pub balances: HashMap<u64, u128>,
    /// Remaining delegated-spending rights per packed (owner, spender) pair;
    /// an absent pair has allowance zero.
    pub allowances: HashMap<u128, u128>,
}

impl Ledger {
    /// The balance of `account`: zero when the account has no entry.
    pub open spec fn spec_balance_of(self, account: u64) -> u128 {
        if self.balances@.contains_key(account) {
            self.balances@[account]
        } else {
            0
        }
    }

    /// What `spender` may still move out of `owner`'s balance:
    /// zero when the pair has no entry.
    pub open spec fn spec_allowance(self, owner: u64, spender: u64) -> u128 {
        if self.allowances@.contains_key(pair_key(owner, spender)) {
            self.allowances@[pair_key(owner, spender)]
        } else {
            0
        }
    }

    /// Conservation: the sum of all balances equals the total supply.
    /// Established at construction and preserved by every operation.
    pub open spec fn wf(self) -> bool {
        map_sum(self.balances@) == self.supply as int
    }

    /// A fresh, uninitialized ledger: no supply, no balances, no allowances.
    pub fn new() -> (r: Ledger)
        ensures
            r.wf(),
            !r.initialized,
            r.supply == 0,
            r.token_name@ === Seq::<char>::empty(),
            r.token_symbol@ === Seq::<char>::empty(),
            r.token_decimals == 0,
            forall|a: u64| r.spec_balance_of(a) == 0,
            forall|o: u64, s: u64| r.spec_allowance(o, s) == 0,
    {
        proof {
            lemma_map_sum_empty();
            reveal_strlit("");
            assert(""@ =~= Seq::<char>::empty());
        }
        Ledger {
            initialized: false,
            token_name: "".to_owned(),
            token_symbol: "".to_owned(),
            token_decimals: 0,
            supply: 0,
            balances: HashMap::new(),
            allowances: HashMap::new(),
        }
    }

    /// Reads the token name.
    pub fn name(&self) -> (r: String)
        ensures
            r@ == self.token_name@,
    {
        self.token_name.clone()
    }

    /// Reads the ticker symbol.
    pub fn symbol(&self) -> (r: String)
        ensures
            r@ == self.token_symbol@,
    {
        self.token_symbol.clone()
    }

    /// Reads the display precision.
    pub fn decimals(&self) -> (r: u8)
        ensures
            r == self.token_decimals,
    {
        self.token_decimals
    }

    /// Reads the total supply.
    pub fn total_supply(&self) -> (r: u128)
        ensures
            r == self.supply,
    {
        self.supply
    }

    /// Reads the balance of `account`.
    pub fn balance_of(&self, account: u64) -> (r: u128)
        ensures
            r == self.spec_balance_of(account),
    {
        match self.balances.get(&account) {
            Some(v) => *v,
            None => 0,
        }
    }

    /// Reads the allowance `owner` has granted `spender`.
    pub fn allowance(&self, owner: u64, spender: u64) -> (r: u128)
        ensures
            r == self.spec_allowance(owner, spender),
    {
        let key = pair_key_exec(owner, spender);
        match self.allowances.get(&key) {
            Some(v) => *v,
            None => 0,
        }
    }

    /// Mints the whole supply once: sets the metadata, credits `initial_holder`
    /// with all of `initial_supply`, and clears every allowance. A second call
    /// fails with `AlreadyInitialized` and changes nothing.
    pub fn initialize(
        &mut self,
        name: &str,
        symbol: &str,
        decimals: u8,
        initial_supply: u128,
        initial_holder: u64,
    ) -> (r: Result<(), Error>)
        ensures
            initialize_post(
                *old(self),
                *final(self),
                name@,
                symbol@,
                decimals,
                initial_supply,
                initial_holder,
                r,
            ),
            !old(self).initialized ==> final(self).wf(),
            old(self).wf() ==> final(self).wf(),
    {
        if self.initialized {
            return Err(Error::AlreadyInitialized);
        }
        let mut balances: HashMap<u64, u128> = HashMap::new();
        proof {
            lemma_map_sum_empty();
            lemma_map_sum_insert(Map::<u64, u128>::empty(), initial_holder, initial_supply);
        }
        balances.insert(initial_holder, initial_supply);
        self.initialized = true;
        self.token_name = name.to_owned();
        self.token_symbol = symbol.to_owned();
        self.token_decimals = decimals;
        self.supply = initial_supply;
        self.balances = balances;
        self.allowances = HashMap::new();
        Ok(())
    }

    /// Moves `amount` units from `from` to `to`; the caller has already
    /// checked that `from` holds enough. Keeps conservation: what leaves one
    /// account arrives at the other, and the credited balance stays within
    /// the supply, so it cannot overflow.
    fn move_balance(&mut self, from: u64, to: u64, amount: u128)
        requires
            old(self).wf(),
            old(self).spec_balance_of(from) >= amount,
        ensures
            final(self).wf(),
            balances_moved(*old(self), *final(self), from, to, amount),
            final(self).allowances == old(self).allowances,
            metadata_unchanged(*old(self), *final(self)),
    {
        let bal_from = self.balance_of(from);
        let new_from = bal_from - amount;
        proof {
            lemma_map_sum_insert(old(self).balances@, from, new_from);
            if old(self).balances@.contains_key(from) {
                lemma_map_sum_bound(old(self).balances@, from);
            }
        }
        self.balances.insert(from, new_from);
        let ghost mid = self.balances@;
        let bal_to = self.balance_of(to);
        proof {
            // After the debit the sum is supply - amount, and `to`'s entry is
            // bounded by that sum, so the credit cannot overflow.
            assert(map_sum(mid) == old(self).supply - amount);
            assert(amount <= old(self).supply);
            if mid.contains_key(to) {
                lemma_map_sum_bound(mid, to);
            }
            assert(bal_to + amount <= old(self).supply);
            lemma_map_sum_insert(mid, to, (bal_to + amount) as u128);
        }
        self.balances.insert(to, bal_to + amount);
    }

    /// Moves `amount` units from `from` to `to`. Fails with
    /// `InsufficientBalance` when `from` holds less than `amount`, leaving the
    /// ledger unchanged; a self-transfer that passes the check changes nothing.
    pub fn transfer(&mut self, from: u64, to: u64, amount: u128) -> (r: Result<(), Error>)
        requires
            old(self).wf(),
        ensures
            final(self).wf(),
            transfer_post(*old(self), *final(self), from, to, amount, r),
    {
        let bal_from = self.balance_of(from);
        if bal_from < amount {
            return Err(Error::InsufficientBalance);
        }
        self.move_balance(from, to, amount);
        Ok(())
    }

    /// Sets the allowance of (owner, spender) to exactly `amount`, whatever it
    /// was before. Touches no other pair and no balance.
    pub fn approve(&mut self, owner: u64, spender: u64, amount: u128)
        ensures
            approve_post(*old(self), *final(self), owner, spender, amount),
            old(self).wf() ==> final(self).wf(),
    {
        let key = pair_key_exec(owner, spender);
        self.allowances.insert(key, amount);
        proof {
            assert forall|o: u64, s: u64|
                !(o == owner && s == spender) implies final(self).spec_allowance(o, s)
                == old(self).spec_allowance(o, s) by {
                if pair_key(o, s) == pair_key(owner, spender) {
                    lemma_pair_key_injective(o, s, owner, spender);
                }
            }
        }
    }

    /// Delegated transfer: `spender` moves `amount` of `owner`'s units to `to`,
    /// consuming exactly `amount` of its allowance. Checks the allowance first
    /// (`InsufficientAllowance`), then the balance (`InsufficientBalance`);
    /// on any failure nothing changes.
    pub fn transfer_from(&mut self, spender: u64, owner: u64, to: u64, amount: u128) -> (r: Result<
        (),
        Error,
    >)
        requires
            old(self).wf(),
        ensures
            final(self).wf(),
            transfer_from_post(*old(self), *final(self), spender, owner, to, amount, r),
    {
        let granted = self.allowance(owner, spender);
        if granted < amount {
            return Err(Error::InsufficientAllowance);
        }
        let bal_owner = self.balance_of(owner);
        if bal_owner < amount {
            return Err(Error::InsufficientBalance);
        }
        let key = pair_key_exec(owner, spender);
        self.allowances.insert(key, granted - amount);
        proof {
            assert forall|o: u64, s: u64|
                !(o == owner && s == spender) implies self.spec_allowance(o, s)
                == old(self).spec_allowance(o, s) by {
                if pair_key(o, s) == pair_key(owner, spender) {
                    lemma_pair_key_injective(o, s, owner, spender);
                }
            }
        }
        self.move_balance(owner, to, amount);
        Ok(())
    }
}

/// Balances after a successful move of `amount` from `from` to `to`:
/// `from` lost it, `to` gained it, everyone else is untouched (and a
/// self-transfer nets to no change).
pub open spec fn balances_moved(pre: Ledger, post: Ledger, from: u64, to: u64, amount: u128) -> bool {
    forall|a: u64|
        post.spec_balance_of(a) as int == pre.spec_balance_of(a) - (if a == from {
            amount as int
        } else {
            0
        }) + (if a == to {
            amount as int
        } else {
            0
        })
}

/// Every (owner, spender) allowance is the same in `post` as in `pre`.
pub open spec fn allowances_unchanged(pre: Ledger, post: Ledger) -> bool {
    forall|o: u64, s: u64| post.spec_allowance(o, s) == pre.spec_allowance(o, s)
}

/// Every allowance except possibly the (owner, spender) one is unchanged.
pub open spec fn allowances_unchanged_except(
    pre: Ledger,
    post: Ledger,
    owner: u64,
    spender: u64,
) -> bool {
    forall|o: u64, s: u64|
        !(o == owner && s == spender) ==> post.spec_allowance(o, s) == pre.spec_allowance(o, s)
}

/// Name, symbol, decimals, supply and the initialized flag are unchanged.
pub open spec fn metadata_unchanged(pre: Ledger, post: Ledger) -> bool {
    &&& post.initialized == pre.initialized
    &&& post.token_name == pre.token_name
    &&& post.token_symbol == pre.token_symbol
    &&& post.token_decimals == pre.token_decimals
    &&& post.supply == pre.supply
}

/// Everything `initialize` promises: a second call fails with
/// `AlreadyInitialized` and changes nothing; the first call sets the metadata,
/// credits the full supply to the initial holder, and zeroes all allowances.
pub open spec fn initialize_post(
    pre: Ledger,
    post: Ledger,
    name: Seq<char>,
    symbol: Seq<char>,
    decimals: u8,
    initial_supply: u128,
    initial_holder: u64,
    r: Result<(), Error>,
) -> bool {
    if pre.initialized {
        r == Err::<(), Error>(Error::AlreadyInitialized) && post == pre
    } else {
        &&& r == Ok::<(), Error>(())
        &&& post.initialized
        &&& post.token_name@ == name
        &&& post.token_symbol@ == symbol
        &&& post.token_decimals == decimals
        &&& post.supply == initial_supply
        &&& post.spec_balance_of(initial_holder) == initial_supply
        &&& forall|a: u64| a != initial_holder ==> post.spec_balance_of(a) == 0
        &&& forall|o: u64, s: u64| post.spec_allowance(o, s) == 0
    }
}

/// Everything `transfer` promises: a short balance fails with
/// `InsufficientBalance` and changes nothing; otherwise the units move and
/// allowances and metadata stay as they were.
pub open spec fn transfer_post(
    pre: Ledger,
    post: Ledger,
    from: u64,
    to: u64,
    amount: u128,
    r: Result<(), Error>,
) -> bool {
    if pre.spec_balance_of(from) < amount {
        r == Err::<(), Error>(Error::InsufficientBalance) && post == pre
    } else {
        &&& r == Ok::<(), Error>(())
        &&& balances_moved(pre, post, from, to, amount)
        &&& allowances_unchanged(pre, post)
        &&& metadata_unchanged(pre, post)
    }
}

/// Everything `approve` promises: the (owner, spender) allowance becomes
/// exactly `amount` — an absolute set, not an increment — and nothing else
/// moves.
pub open spec fn approve_post(
    pre: Ledger,
    post: Ledger,
    owner: u64,
    spender: u64,
    amount: u128,
) -> bool {
    &&& post.spec_allowance(owner, spender) == amount
    &&& allowances_unchanged_except(pre, post, owner, spender)
    &&& post.balances == pre.balances
    &&& metadata_unchanged(pre, post)
}

/// Everything `transfer_from` promises: the allowance is checked before the
/// balance; failure changes nothing; success moves the units exactly as
/// `transfer(owner, to, amount)` would and consumes exactly `amount` of the
/// (owner, spender) allowance.
pub open spec fn transfer_from_post(
    pre: Ledger,
    post: Ledger,
    spender: u64,
    owner: u64,
    to: u64,
    amount: u128,
    r: Result<(), Error>,
) -> bool {
    if pre.spec_allowance(owner, spender) < amount {
        r == Err::<(), Error>(Error::InsufficientAllowance) && post == pre
    } else if pre.spec_balance_of(owner) < amount {
        r == Err::<(), Error>(Error::InsufficientBalance) && post == pre
    } else {
        &&& r == Ok::<(), Error>(())
        &&& balances_moved(pre, post, owner, to, amount)
        &&& post.spec_allowance(owner, spender) as int == pre.spec_allowance(owner, spender)
            - amount
        &&& allowances_unchanged_except(pre, post, owner, spender)
        &&& metadata_unchanged(pre, post)
    }
}

/// Law: conservation. A well-formed ledger's balances sum to exactly the
/// total supply; since every operation ensures well-formedness of the new
/// state, any sequence of successful transfers and delegated transfers keeps
/// the sum at the initial supply.
pub proof fn lemma_supply_conserved(l: Ledger)
    requires
        l.wf(),
    ensures
        map_sum(l.balances@) == l.supply as int,
{
}

/// Law: a transfer neither creates nor destroys units — the sum of all
/// balances after the call equals the sum before it, whether it succeeded
/// or failed.
pub proof fn lemma_transfer_preserves_supply(
    pre: Ledger,
    post: Ledger,
    from: u64,
    to: u64,
    amount: u128,
    r: Result<(), Error>,
)
    requires
        pre.wf(),
        post.wf(),
        transfer_post(pre, post, from, to, amount, r),
    ensures
        map_sum(post.balances@) == map_sum(pre.balances@),
{
}

/// Law: a delegated transfer neither creates nor destroys units, on success
/// as on failure.
pub proof fn lemma_transfer_from_preserves_supply(
    pre: Ledger,
    post: Ledger,
    spender: u64,
    owner: u64,
    to: u64,
    amount: u128,
    r: Result<(), Error>,
)
    requires
        pre.wf(),
        post.wf(),
        transfer_from_post(pre, post, spender, owner, to, amount, r),
    ensures
        map_sum(post.balances@) == map_sum(pre.balances@),
{
}

/// Law: no balance is ever negative in representation — amounts are unsigned,
/// and the fail-closed checks return an error instead of wrapping below zero.
pub proof fn lemma_balance_nonnegative(l: Ledger, account: u64)
    ensures
        l.spec_balance_of(account) >= 0,
{
}

/// Law: approval is an absolute set. Whatever the prior value, after an
/// approval of `amount` the (owner, spender) allowance reads back exactly
/// `amount`.
pub proof fn lemma_approve_sets_allowance(
    pre: Ledger,
    post: Ledger,
    owner: u64,
    spender: u64,
    amount: u128,
)
    requires
        approve_post(pre, post, owner, spender, amount),
    ensures
        post.spec_allowance(owner, spender) == amount,
{
}

/// Law: a delegated transfer consumes exactly the transferred amount from the
/// (owner, spender) allowance on success, and leaves it unchanged on failure.
pub proof fn lemma_transfer_from_allowance_delta(
    pre: Ledger,
    post: Ledger,
    spender: u64,
    owner: u64,
    to: u64,
    amount: u128,
    r: Result<(), Error>,
)
    requires
        transfer_from_post(pre, post, spender, owner, to, amount, r),
    ensures
        pre.spec_allowance(owner, spender) >= amount && pre.spec_balance_of(owner) >= amount
            ==> post.spec_allowance(owner, spender) as int == pre.spec_allowance(owner, spender)
            - amount,
        pre.spec_allowance(owner, spender) < amount || pre.spec_balance_of(owner) < amount
            ==> post.spec_allowance(owner, spender) == pre.spec_allowance(owner, spender),
{
}

} // verus!
