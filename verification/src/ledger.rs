//! Persisted per-user account store: balances, debits, credits and
//! one-time referral bonuses.
//!
//! Every operation is a single conditional update of one keyed record,
//! mirrored exactly by a spec-level transition function on the map view.

use vstd::prelude::*;

verus! {

/// Credits granted when an account is created on first balance query.
pub const STARTING_GRANT: u64 = 3;

/// Bonus credited to the invited account when its referral is registered.
pub const INVITEE_BONUS: u64 = 3;

/// Bonus credited to the inviting account when a referral is registered.
pub const INVITER_BONUS: u64 = 2;

/// One account record: a non-negative credit balance and a write-once
/// back-reference to the inviting principal.
#[derive(Clone, Copy)]
pub struct Account {
    pub balance: u64,
    pub referrer: Option<i64>,
}

/// Store-level failure on a credit operation: the balance cannot hold
/// the added amount.
#[derive(Debug)]
pub struct LedgerError;

/// The account store, keyed by principal id.
pub struct Ledger {
    accounts: Vec<(i64, Account)>,
}

/// The map described by a sequence of key/record pairs, later pairs
/// overriding earlier ones.
pub open spec fn entries_map(s: Seq<(i64, Account)>) -> Map<i64, Account>
    decreases s.len(),
{
    if s.len() == 0 {
        Map::empty()
    } else {
        entries_map(s.drop_last()).insert(s.last().0, s.last().1)
    }
}

/// No key occurs twice in the sequence.
pub open spec fn keys_unique(s: Seq<(i64, Account)>) -> bool {
    forall|i: int, j: int| 0 <= i < j < s.len() ==> s[i].0 != s[j].0
}

proof fn lemma_entries_map_contains(s: Seq<(i64, Account)>, k: i64)
    ensures
        entries_map(s).contains_key(k) <==> exists|i: int| 0 <= i < s.len() && s[i].0 == k,
    decreases s.len(),
{
    if s.len() > 0 {
        lemma_entries_map_contains(s.drop_last(), k);
        if s.last().0 == k {
            assert(s[s.len() - 1].0 == k);
        } else if entries_map(s.drop_last()).contains_key(k) {
            let i = choose|i: int| 0 <= i < s.drop_last().len() && s.drop_last()[i].0 == k;
            assert(s[i].0 == k);
        } else if exists|i: int| 0 <= i < s.len() && s[i].0 == k {
            let i = choose|i: int| 0 <= i < s.len() && s[i].0 == k;
            assert(s.drop_last()[i].0 == k);
        }
    }
}

proof fn lemma_entries_map_index(s: Seq<(i64, Account)>, i: int)
    requires
        keys_unique(s),
        0 <= i < s.len(),
    ensures
        entries_map(s).contains_key(s[i].0),
        entries_map(s)[s[i].0] == s[i].1,
    decreases s.len(),
{
    if i == s.len() - 1 {
        assert(entries_map(s) == entries_map(s.drop_last()).insert(s.last().0, s.last().1));
    } else {
        lemma_entries_map_index(s.drop_last(), i);
        assert(s.drop_last()[i] == s[i]);
        assert(s[i].0 != s.last().0);
    }
}

proof fn lemma_entries_map_update(s: Seq<(i64, Account)>, i: int, a: Account)
    requires
        keys_unique(s),
        0 <= i < s.len(),
    ensures
        entries_map(s.update(i, (s[i].0, a))) == entries_map(s).insert(s[i].0, a),
    decreases s.len(),
{
    let t = s.update(i, (s[i].0, a));
    if i == s.len() - 1 {
        assert(t.drop_last() =~= s.drop_last());
        assert(entries_map(t) =~= entries_map(s).insert(s[i].0, a));
    } else {
        lemma_entries_map_update(s.drop_last(), i, a);
        assert(t.drop_last() =~= s.drop_last().update(i, (s[i].0, a)));
        assert(t.last() == s.last());
        assert(s[i].0 != s.last().0);
        assert(entries_map(t) =~= entries_map(s).insert(s[i].0, a));
    }
}

proof fn lemma_entries_map_push(s: Seq<(i64, Account)>, k: i64, a: Account)
    ensures
        entries_map(s.push((k, a))) == entries_map(s).insert(k, a),
{
    assert(s.push((k, a)).drop_last() =~= s);
}

/// Saturating addition on balances: bonus credits are best-effort and
/// cap at the largest representable balance.
pub open spec fn sat_add(a: u64, b: u64) -> u64 {
    if a + b <= u64::MAX {
        (a + b) as u64
    } else {
        u64::MAX
    }
}

/// Transition of `get_or_create_balance`: the new store and the balance
/// returned.
pub open spec fn get_or_create_spec(m: Map<i64, Account>, user: i64) -> (Map<i64, Account>, u64) {
    if m.contains_key(user) {
        (m, m[user].balance)
    } else {
        (m.insert(user, Account { balance: STARTING_GRANT, referrer: None }), STARTING_GRANT)
    }
}

/// Transition of `debit_one`: the new store and whether one credit was
/// spent.
pub open spec fn debit_spec(m: Map<i64, Account>, user: i64) -> (Map<i64, Account>, bool) {
    if m.contains_key(user) && m[user].balance > 0 {
        (
            m.insert(
                user,
                Account { balance: (m[user].balance - 1) as u64, referrer: m[user].referrer },
            ),
            true,
        )
    } else {
        (m, false)
    }
}

/// Transition of `credit`: the new store and whether the store accepted
/// the amount. An absent record is left absent; an amount the balance
/// cannot hold is refused without change.
pub open spec fn credit_spec(m: Map<i64, Account>, user: i64, amount: u64) -> (
    Map<i64, Account>,
    bool,
) {
    if !m.contains_key(user) {
        (m, true)
    } else if m[user].balance + amount <= u64::MAX {
        (
            m.insert(
                user,
                Account {
                    balance: (m[user].balance + amount) as u64,
                    referrer: m[user].referrer,
                },
            ),
            true,
        )
    } else {
        (m, false)
    }
}

/// Best-effort bonus credit to the inviter: a missing inviter record is
/// left missing, a full balance saturates.
pub open spec fn inviter_credited(m: Map<i64, Account>, inviter: i64) -> Map<i64, Account> {
    if m.contains_key(inviter) {
        m.insert(
            inviter,
            Account {
                balance: sat_add(m[inviter].balance, INVITER_BONUS),
                referrer: m[inviter].referrer,
            },
        )
    } else {
        m
    }
}

/// Transition of `register_referral`: the new store and whether the
/// referral was recorded.
pub open spec fn referral_spec(m: Map<i64, Account>, invitee: i64, inviter: i64) -> (
    Map<i64, Account>,
    bool,
) {
    if invitee == inviter {
        (m, false)
    } else if !m.contains_key(invitee) {
        (
            inviter_credited(
                m.insert(
                    invitee,
                    Account {
                        balance: (STARTING_GRANT + INVITEE_BONUS) as u64,
                        referrer: Some(inviter),
                    },
                ),
                inviter,
            ),
            true,
        )
    } else if m[invitee].referrer is None {
        (
            inviter_credited(
                m.insert(
                    invitee,
                    Account {
                        balance: sat_add(m[invitee].balance, INVITEE_BONUS),
                        referrer: Some(inviter),
                    },
                ),
                inviter,
            ),
            true,
        )
    } else {
        (m, false)
    }
}

/// The store after `k` debit attempts for `user`, made one after the
/// other.
pub open spec fn debit_series(m: Map<i64, Account>, user: i64, k: nat) -> Map<i64, Account>
    decreases k,
{
    if k == 0 {
        m
    } else {
        debit_spec(debit_series(m, user, (k - 1) as nat), user).0
    }
}

/// How many of `k` debit attempts for `user` succeed.
pub open spec fn debit_successes(m: Map<i64, Account>, user: i64, k: nat) -> int
    decreases k,
{
    if k == 0 {
        0
    } else {
        debit_successes(m, user, (k - 1) as nat) + (if debit_spec(
            debit_series(m, user, (k - 1) as nat),
            user,
        ).1 {
            1 as int
        } else {
            0 as int
        })
    }
}

/// Balance lookup is idempotent: a repeated `get_or_create_balance` for
/// the same principal returns the persisted value, not a fresh grant,
/// and changes nothing; for a principal with a record the first call
/// already changes nothing.
pub proof fn lemma_get_or_create_idempotent(m: Map<i64, Account>, user: i64)
    ensures
        get_or_create_spec(get_or_create_spec(m, user).0, user).0 == get_or_create_spec(m, user).0,
        get_or_create_spec(get_or_create_spec(m, user).0, user).1 == get_or_create_spec(m, user).1,
        m.contains_key(user) ==> get_or_create_spec(m, user) == (m, m[user].balance),
{
}

/// Of `k` debit attempts against the balance `b` stored for `user`,
/// exactly the smaller of `k` and `b` succeed; the balance ends at
/// `b - k` when `k` fits and at zero otherwise, so it never goes below
/// zero, and the stored referrer is untouched.
pub proof fn lemma_debit_series(m: Map<i64, Account>, user: i64, k: nat)
    requires
        m.contains_key(user),
    ensures
        debit_series(m, user, k).contains_key(user),
        debit_series(m, user, k)[user].balance == if k <= m[user].balance {
            m[user].balance - k
        } else {
            0
        },
        debit_series(m, user, k)[user].referrer == m[user].referrer,
        debit_successes(m, user, k) == if k <= m[user].balance {
            k as int
        } else {
            m[user].balance as int
        },
    decreases k,
{
    if k > 0 {
        lemma_debit_series(m, user, (k - 1) as nat);
    }
}

/// A referrer is write-once: after a successful registration naming
/// `inviter`, any further registration for the same invitee fails and
/// leaves the store, the stored referrer included, unchanged.
pub proof fn lemma_referral_write_once(
    m: Map<i64, Account>,
    invitee: i64,
    inviter: i64,
    other: i64,
)
    requires
        referral_spec(m, invitee, inviter).1,
    ensures
        referral_spec(m, invitee, inviter).0[invitee].referrer == Some(inviter),
        !referral_spec(referral_spec(m, invitee, inviter).0, invitee, other).1,
        referral_spec(referral_spec(m, invitee, inviter).0, invitee, other).0 == referral_spec(
            m,
            invitee,
            inviter,
        ).0,
{
}

impl View for Ledger {
    type V = Map<i64, Account>;

    closed spec fn view(&self) -> Map<i64, Account> {
        entries_map(self.accounts@)
    }
}

impl Ledger {
    /// The store keeps one record per principal.
    pub closed spec fn wf(&self) -> bool {
        keys_unique(self.accounts@)
    }

    /// An empty store.
    pub fn new() -> (r: Ledger)
        ensures
            r.wf(),
            r@ == Map::<i64, Account>::empty(),
    {
        Ledger { accounts: Vec::new() }
    }

    fn find_index(&self, user: i64) -> (r: Option<usize>)
        requires
            self.wf(),
        ensures
            match r {
                Some(i) => i < self.accounts@.len() && self.accounts@[i as int].0 == user
                    && self@.contains_key(user) && self@[user] == self.accounts@[i as int].1,
                None => !self@.contains_key(user),
            },
    {
        let mut i: usize = 0;
        while i < self.accounts.len()
            invariant
                self.wf(),
                i <= self.accounts@.len(),
                forall|j: int| 0 <= j < i ==> self.accounts@[j].0 != user,
            decreases self.accounts@.len() - i,
        {
            if self.accounts[i].0 == user {
                proof {
                    lemma_entries_map_index(self.accounts@, i as int);
                }
                return Some(i);
            }
            i += 1;
        }
        proof {
            lemma_entries_map_contains(self.accounts@, user);
        }
        None
    }

    /// The record stored for a principal, if there is one.
    pub fn lookup(&self, user: i64) -> (r: Option<Account>)
        requires
            self.wf(),
        ensures
            match r {
                Some(a) => self@.contains_key(user) && self@[user] == a,
                None => !self@.contains_key(user),
            },
    {
        match self.find_index(user) {
            Some(i) => Some(self.accounts[i].1),
            None => None,
        }
    }

    /// Returns the stored balance; a principal without a record gets one
    /// with the starting grant, and that grant is returned.
    pub fn get_or_create_balance(&mut self, user: i64) -> (r: u64)
        requires
            old(self).wf(),
        ensures
            final(self).wf(),
            (final(self)@, r) == get_or_create_spec(old(self)@, user),
    {
        match self.find_index(user) {
            Some(i) => self.accounts[i].1.balance,
            None => {
                let ghost s0 = self.accounts@;
                self.accounts.push((user, Account { balance: STARTING_GRANT, referrer: None }));
                proof {
                    lemma_entries_map_push(
                        s0,
                        user,
                        Account { balance: STARTING_GRANT, referrer: None },
                    );
                    lemma_entries_map_contains(s0, user);
                }
                STARTING_GRANT
            },
        }
    }

    /// Spends one credit if and only if the principal has a record with a
    /// positive balance; a single conditional update of that record.
    pub fn debit_one(&mut self, user: i64) -> (r: bool)
        requires
            old(self).wf(),
        ensures
            final(self).wf(),
            (final(self)@, r) == debit_spec(old(self)@, user),
    {
        match self.find_index(user) {
            Some(i) => {
                let acc = self.accounts[i].1;
                if acc.balance > 0 {
                    let ghost s0 = self.accounts@;
                    let updated = Account { balance: acc.balance - 1, referrer: acc.referrer };
                    self.accounts[i] = (user, updated);
                    proof {
                        assert(s0.update(i as int, (user, updated)) =~= self.accounts@);
                        lemma_entries_map_update(s0, i as int, updated);
                    }
                    true
                } else {
                    false
                }
            },
            None => false,
        }
    }

    /// Adds `amount` to an existing record's balance; reports a store
    /// failure, without change, when the balance cannot hold it.
    pub fn credit(&mut self, user: i64, amount: u64) -> (r: Result<(), LedgerError>)
        requires
            old(self).wf(),
        ensures
            final(self).wf(),
            final(self)@ == credit_spec(old(self)@, user, amount).0,
            r is Ok <==> credit_spec(old(self)@, user, amount).1,
    {
        match self.find_index(user) {
            Some(i) => {
                let acc = self.accounts[i].1;
                if acc.balance <= u64::MAX - amount {
                    let ghost s0 = self.accounts@;
                    let updated = Account {
                        balance: acc.balance + amount,
                        referrer: acc.referrer,
                    };
                    self.accounts[i] = (user, updated);
                    proof {
                        assert(s0.update(i as int, (user, updated)) =~= self.accounts@);
                        lemma_entries_map_update(s0, i as int, updated);
                    }
                    Ok(())
                } else {
                    Err(LedgerError)
                }
            },
            None => Ok(()),
        }
    }

    fn credit_inviter(&mut self, inviter: i64)
        requires
            old(self).wf(),
        ensures
            final(self).wf(),
            final(self)@ == inviter_credited(old(self)@, inviter),
    {
        match self.find_index(inviter) {
            Some(i) => {
                let acc = self.accounts[i].1;
                let bumped = if acc.balance <= u64::MAX - INVITER_BONUS {
                    acc.balance + INVITER_BONUS
                } else {
                    u64::MAX
                };
                let ghost s0 = self.accounts@;
                let updated = Account { balance: bumped, referrer: acc.referrer };
                self.accounts[i] = (inviter, updated);
                proof {
                    assert(s0.update(i as int, (inviter, updated)) =~= self.accounts@);
                    lemma_entries_map_update(s0, i as int, updated);
                }
            },
            None => {},
        }
    }

    /// Records a one-time referral: forbidden for self-referrals, a no-op
    /// once a referrer is set, and otherwise credits both parties.
    pub fn register_referral(&mut self, invitee: i64, inviter: i64) -> (r: bool)
        requires
            old(self).wf(),
        ensures
            final(self).wf(),
            (final(self)@, r) == referral_spec(old(self)@, invitee, inviter),
    {
        if invitee == inviter {
            return false;
        }
        match self.find_index(invitee) {
            None => {
                let ghost s0 = self.accounts@;
                let fresh = Account {
                    balance: STARTING_GRANT + INVITEE_BONUS,
                    referrer: Some(inviter),
                };
                self.accounts.push((invitee, fresh));
                proof {
                    lemma_entries_map_push(s0, invitee, fresh);
                    lemma_entries_map_contains(s0, invitee);
                }
                self.credit_inviter(inviter);
                true
            },
            Some(i) => {
                let acc = self.accounts[i].1;
                match acc.referrer {
                    None => {
                        let ghost s0 = self.accounts@;
                        let bumped = if acc.balance <= u64::MAX - INVITEE_BONUS {
                            acc.balance + INVITEE_BONUS
                        } else {
                            u64::MAX
                        };
                        let updated = Account { balance: bumped, referrer: Some(inviter) };
                        self.accounts[i] = (invitee, updated);
                        proof {
                            assert(s0.update(i as int, (invitee, updated)) =~= self.accounts@);
                            lemma_entries_map_update(s0, i as int, updated);
                        }
                        self.credit_inviter(inviter);
                        true
                    },
                    Some(_) => false,
                }
            },
        }
    }
}

} // verus!
