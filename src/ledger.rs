use vstd::prelude::*;

use crate::account::{with_balance, StoreError, User, UserView};

verus! {

/// The accounts of a ledger, keyed by username.
pub type Accounts = Map<Seq<char>, UserView>;

/// Every stored account is filed under its own name and holds a balance that is not negative.
pub open spec fn at_rest(m: Accounts) -> bool {
    forall|k: Seq<char>|
        #[trigger] m.contains_key(k) ==> m[k].username == k && m[k].balance >= 0
}

/// What a transfer of `amount` from `from` to `to` makes of the accounts `m`, or why it fails.
/// The checks come in this order: the amount, a transfer to oneself, the two names, the
/// sender's funds, the receiver's headroom.
pub open spec fn transfer_spec(m: Accounts, from: Seq<char>, to: Seq<char>, amount: int) -> Result<
    Accounts,
    StoreError,
> {
    if amount <= 0 {
        Err(StoreError::InvalidAmount)
    } else if from == to {
        Err(StoreError::SelfTransfer)
    } else if !m.contains_key(from) || !m.contains_key(to) {
        Err(StoreError::NotFound)
    } else if amount > m[from].balance {
        Err(StoreError::InsufficientBalance)
    } else if m[to].balance + amount > i32::MAX {
        Err(StoreError::BalanceOverflow)
    } else {
        Ok(
            m.insert(from, with_balance(m[from], m[from].balance - amount)).insert(
                to,
                with_balance(m[to], m[to].balance + amount),
            ),
        )
    }
}

/// What creating `u` makes of the accounts `m`, or why it fails.
pub open spec fn create_spec(m: Accounts, u: UserView) -> Result<Accounts, StoreError> {
    if u.balance < 0 {
        Err(StoreError::InvalidAmount)
    } else if m.contains_key(u.username) {
        Err(StoreError::AlreadyExists)
    } else {
        Ok(m.insert(u.username, u))
    }
}

/// The account that logging in as `username` with `password` yields, or why it fails.
pub open spec fn authenticate_spec(m: Accounts, username: Seq<char>, password: Seq<char>) -> Result<
    UserView,
    StoreError,
> {
    if !m.contains_key(username) {
        Err(StoreError::NotFound)
    } else if m[username].password != password {
        Err(StoreError::WrongCredential)
    } else {
        Ok(m[username])
    }
}

/// What overwriting the account named by `u` makes of the accounts `m`, or why it fails.
pub open spec fn update_spec(m: Accounts, u: UserView) -> Result<Accounts, StoreError> {
    if !m.contains_key(u.username) {
        Err(StoreError::NotFound)
    } else if u.balance < 0 {
        Err(StoreError::InvalidAmount)
    } else {
        Ok(m.insert(u.username, u))
    }
}

/// A transfer that succeeds keeps the sum of the two balances, keeps the set of accounts, and
/// leaves every other account as it was.
pub proof fn lemma_transfer_conserves(m: Accounts, from: Seq<char>, to: Seq<char>, amount: int)
    requires
        transfer_spec(m, from, to, amount) is Ok,
    ensures
        ({
            let n = transfer_spec(m, from, to, amount)->Ok_0;
            &&& n[from].balance + n[to].balance == m[from].balance + m[to].balance
            &&& n.dom() == m.dom()
            &&& forall|k: Seq<char>| #[trigger] m.contains_key(k) && k != from && k != to ==> n[k] == m[k]
        }),
{
    let n = transfer_spec(m, from, to, amount)->Ok_0;
    assert(n.dom() =~= m.dom());
}

/// A transfer that succeeds leaves every account at rest: no balance below zero.
pub proof fn lemma_transfer_keeps_at_rest(m: Accounts, from: Seq<char>, to: Seq<char>, amount: int)
    requires
        at_rest(m),
        transfer_spec(m, from, to, amount) is Ok,
    ensures
        at_rest(transfer_spec(m, from, to, amount)->Ok_0),
{
}

/// A transfer of an amount that is not positive fails, and so changes nothing.
pub proof fn lemma_nonpositive_amount_rejected(m: Accounts, from: Seq<char>, to: Seq<char>, amount: int)
    requires
        amount <= 0,
    ensures
        transfer_spec(m, from, to, amount) == Err::<Accounts, StoreError>(StoreError::InvalidAmount),
{
}

/// A transfer of more than the sender holds fails, and so changes nothing.
pub proof fn lemma_overdraft_rejected(m: Accounts, from: Seq<char>, to: Seq<char>, amount: int)
    requires
        at_rest(m),
        m.contains_key(from),
        amount > m[from].balance,
    ensures
        transfer_spec(m, from, to, amount) is Err,
{
}

/// Two transfers in opposite directions between `a` and `b`, each covered by its sender's funds,
/// both succeed in either order and reach the same accounts: `a` loses `x` and gains `y`, `b`
/// the reverse. (Where a receiver's balance would pass `i32::MAX` the second one fails instead.)
pub proof fn lemma_opposite_transfers_commute(m: Accounts, a: Seq<char>, b: Seq<char>, x: int, y: int)
    requires
        at_rest(m),
        m.contains_key(a),
        m.contains_key(b),
        a != b,
        0 < x <= m[a].balance,
        0 < y <= m[b].balance,
        m[a].balance + y <= i32::MAX,
        m[b].balance + x <= i32::MAX,
    ensures
        ({
            let first = transfer_spec(m, a, b, x);
            let second = transfer_spec(m, b, a, y);
            &&& first is Ok
            &&& second is Ok
            &&& transfer_spec(first->Ok_0, b, a, y) is Ok
            &&& transfer_spec(second->Ok_0, a, b, x) is Ok
            &&& transfer_spec(first->Ok_0, b, a, y)->Ok_0 == transfer_spec(second->Ok_0, a, b, x)->Ok_0
            &&& transfer_spec(first->Ok_0, b, a, y)->Ok_0 == m.insert(
                a,
                with_balance(m[a], m[a].balance - x + y),
            ).insert(b, with_balance(m[b], m[b].balance + x - y))
        }),
{
    let ab = transfer_spec(m, a, b, x)->Ok_0;
    let ba = transfer_spec(m, b, a, y)->Ok_0;
    let target = m.insert(a, with_balance(m[a], m[a].balance - x + y)).insert(
        b,
        with_balance(m[b], m[b].balance + x - y),
    );
    assert(transfer_spec(ab, b, a, y)->Ok_0 =~= target);
    assert(transfer_spec(ba, a, b, x)->Ok_0 =~= target);
}

spec fn names_unique(s: Seq<User>) -> bool {
    forall|i: int, j: int|
        0 <= i < s.len() && 0 <= j < s.len() && #[trigger] s[i].username@ == #[trigger] s[j].username@
            ==> i == j
}

spec fn holds_name(s: Seq<User>, k: Seq<char>) -> bool {
    exists|i: int| 0 <= i < s.len() && #[trigger] s[i].username@ == k
}

spec fn index_of(s: Seq<User>, k: Seq<char>) -> int {
    choose|i: int| 0 <= i < s.len() && #[trigger] s[i].username@ == k
}

spec fn accounts_of(s: Seq<User>) -> Accounts {
    Map::new(|k: Seq<char>| holds_name(s, k), |k: Seq<char>| s[index_of(s, k)]@)
}

proof fn lemma_index_of(s: Seq<User>, i: int)
    requires
        names_unique(s),
        0 <= i < s.len(),
    ensures
        holds_name(s, s[i].username@),
        index_of(s, s[i].username@) == i,
{
    let k = s[i].username@;
    assert(s[i].username@ == k);
    let j = index_of(s, k);
    assert(s[j].username@ == k);
}

proof fn lemma_update(s: Seq<User>, i: int, u: User)
    requires
        names_unique(s),
        0 <= i < s.len(),
        u.username@ == s[i].username@,
    ensures
        names_unique(s.update(i, u)),
        accounts_of(s.update(i, u)) == accounts_of(s).insert(u.username@, u@),
{
    let t = s.update(i, u);
    assert forall|a: int, b: int|
        0 <= a < t.len() && 0 <= b < t.len() && #[trigger] t[a].username@ == #[trigger] t[b].username@
            implies a == b by {
        assert(t[a].username@ == s[a].username@);
        assert(t[b].username@ == s[b].username@);
    }
    let m = accounts_of(s).insert(u.username@, u@);
    assert forall|k: Seq<char>| #[trigger] m.contains_key(k) == holds_name(t, k) by {
        if holds_name(s, k) {
            let j = index_of(s, k);
            assert(t[j].username@ == k);
        }
        if holds_name(t, k) {
            let j = index_of(t, k);
            assert(s[j].username@ == k);
        }
        if k == u.username@ {
            assert(t[i].username@ == k);
        }
    }
    assert forall|k: Seq<char>| #[trigger] m.contains_key(k) implies accounts_of(t)[k] == m[k] by {
        let j = index_of(t, k);
        assert(t[j].username@ == k);
        if k == u.username@ {
            lemma_index_of(t, i);
        } else {
            assert(j != i);
            assert(s[j].username@ == k);
            lemma_index_of(s, j);
        }
    }
    assert(accounts_of(t) =~= m);
}

proof fn lemma_push(s: Seq<User>, u: User)
    requires
        names_unique(s),
        !holds_name(s, u.username@),
    ensures
        names_unique(s.push(u)),
        accounts_of(s.push(u)) == accounts_of(s).insert(u.username@, u@),
{
    let t = s.push(u);
    let n = s.len() as int;
    assert forall|a: int, b: int|
        0 <= a < t.len() && 0 <= b < t.len() && #[trigger] t[a].username@ == #[trigger] t[b].username@
            implies a == b by {
        if a < n && b == n {
            assert(s[a].username@ == u.username@);
        } else if a == n && b < n {
            assert(s[b].username@ == u.username@);
        }
    }
    let m = accounts_of(s).insert(u.username@, u@);
    assert forall|k: Seq<char>| #[trigger] m.contains_key(k) == holds_name(t, k) by {
        if holds_name(s, k) {
            let j = index_of(s, k);
            assert(t[j].username@ == k);
        }
        if holds_name(t, k) {
            let j = index_of(t, k);
            if j < n {
                assert(s[j].username@ == k);
            }
        }
        if k == u.username@ {
            assert(t[n].username@ == k);
        }
    }
    assert forall|k: Seq<char>| #[trigger] m.contains_key(k) implies accounts_of(t)[k] == m[k] by {
        let j = index_of(t, k);
        assert(t[j].username@ == k);
        if k == u.username@ {
            lemma_index_of(t, n);
        } else {
            assert(j != n);
            assert(s[j].username@ == k);
            lemma_index_of(s, j);
        }
    }
    assert(accounts_of(t) =~= m);
}

proof fn lemma_remove(s: Seq<User>, i: int)
    requires
        names_unique(s),
        0 <= i < s.len(),
    ensures
        names_unique(s.remove(i)),
        accounts_of(s.remove(i)) == accounts_of(s).remove(s[i].username@),
{
    let t = s.remove(i);
    let name = s[i].username@;
    assert forall|a: int, b: int|
        0 <= a < t.len() && 0 <= b < t.len() && #[trigger] t[a].username@ == #[trigger] t[b].username@
            implies a == b by {
        let a2 = if a < i { a } else { a + 1 };
        let b2 = if b < i { b } else { b + 1 };
        assert(t[a].username@ == s[a2].username@);
        assert(t[b].username@ == s[b2].username@);
    }
    let m = accounts_of(s).remove(name);
    assert forall|k: Seq<char>| #[trigger] m.contains_key(k) == holds_name(t, k) by {
        if holds_name(s, k) && k != name {
            let j = index_of(s, k);
            assert(j != i);
            let j2 = if j < i { j } else { j - 1 };
            assert(t[j2].username@ == k);
        }
        if holds_name(t, k) {
            let j = index_of(t, k);
            let j2 = if j < i { j } else { j + 1 };
            assert(s[j2].username@ == k);
            if k == name {
                assert(j2 == i);
            }
        }
    }
    assert forall|k: Seq<char>| #[trigger] m.contains_key(k) implies accounts_of(t)[k] == m[k] by {
        let j = index_of(t, k);
        assert(t[j].username@ == k);
        let j2 = if j < i { j } else { j + 1 };
        assert(s[j2].username@ == k);
        lemma_index_of(s, j2);
    }
    assert(accounts_of(t) =~= m);
}

/// The store of accounts. Each operation takes the whole ledger by exclusive reference, so it
/// completes entirely or, on failure, leaves every account as it found it.
pub struct Ledger {
    accounts: Vec<User>,
    start_balance: i32,
}

impl View for Ledger {
    type V = Accounts;

    closed spec fn view(&self) -> Accounts {
        accounts_of(self.accounts@)
    }
}

impl Ledger {
    /// The balance that signup gives a new account.
    pub closed spec fn start(&self) -> int {
        self.start_balance as int
    }

    pub closed spec fn inv(&self) -> bool {
        &&& names_unique(self.accounts@)
        &&& forall|i: int|
            0 <= i < self.accounts@.len() ==> #[trigger] self.accounts@[i].balance >= 0
        &&& self.start_balance >= 0
    }

    /// A well-formed ledger: its accounts are at rest and the opening balance is not negative.
    pub open spec fn wf(&self) -> bool {
        &&& self.inv()
        &&& at_rest(self@)
        &&& self.start() >= 0
    }

    proof fn lemma_at_rest(&self)
        requires
            self.inv(),
        ensures
            self.wf(),
    {
        let s = self.accounts@;
        assert forall|k: Seq<char>| #[trigger] self@.contains_key(k) implies self@[k].username == k
            && self@[k].balance >= 0 by {
            let j = index_of(s, k);
            assert(s[j].balance >= 0);
        }
    }

    /// An empty ledger whose new accounts open with `start_balance`.
    pub fn new(start_balance: i32) -> (r: Ledger)
        requires
            start_balance >= 0,
        ensures
            r.wf(),
            r@ == Map::<Seq<char>, UserView>::empty(),
            r.start() == start_balance,
    {
        let r = Ledger { accounts: Vec::new(), start_balance };
        assert(r@ =~= Map::<Seq<char>, UserView>::empty());
        proof {
            r.lemma_at_rest();
        }
        r
    }

    /// The opening balance of accounts created by signup.
    pub fn start_balance(&self) -> (r: i32)
        ensures
            r == self.start(),
    {
        self.start_balance
    }

    /// The number of stored accounts.
    pub fn count(&self) -> (r: usize)
        requires
            self.wf(),
        ensures
            r == self@.len(),
    {
        proof {
            self.lemma_len();
        }
        self.accounts.len()
    }

    proof fn lemma_len(&self)
        requires
            self.inv(),
        ensures
            self@.dom().finite(),
            self@.len() == self.accounts@.len(),
    {
        let s = self.accounts@;
        let names = s.map_values(|u: User| u.username@);
        assert forall|i: int, j: int|
            0 <= i < names.len() && 0 <= j < names.len() && i != j implies names[i] != names[j] by {
            if names[i] == names[j] {
                assert(s[i].username@ == s[j].username@);
            }
        }
        names.unique_seq_to_set();
        assert forall|k: Seq<char>| #[trigger] self@.dom().contains(k) == names.to_set().contains(k) by {
            if holds_name(s, k) {
                let j = index_of(s, k);
                assert(names[j] == k);
            }
            if names.to_set().contains(k) {
                let j = choose|j: int| 0 <= j < names.len() && names[j] == k;
                assert(s[j].username@ == k);
            }
        }
        assert(self@.dom() =~= names.to_set());
    }

    /// Stores `user` as a new account.
    pub fn create(&mut self, user: User) -> (r: Result<(), StoreError>)
        requires
            old(self).wf(),
        ensures
            final(self).wf(),
            final(self).start() == old(self).start(),
            match create_spec(old(self)@, user@) {
                Ok(m) => r is Ok && final(self)@ == m,
                Err(e) => r == Err::<(), StoreError>(e) && final(self)@ == old(self)@,
            },
    {
        if user.balance < 0 {
            return Err(StoreError::InvalidAmount);
        }
        if self.position(&user.username).is_some() {
            return Err(StoreError::AlreadyExists);
        }
        proof {
            lemma_push(self.accounts@, user);
        }
        self.accounts.push(user);
        proof {
            self.lemma_at_rest();
        }
        Ok(())
    }

    /// The account stored under `username`.
    pub fn find(&self, username: &str) -> (r: Result<User, StoreError>)
        requires
            self.wf(),
        ensures
            self@.contains_key(username@) ==> (r matches Ok(u) && u@ == self@[username@]),
            !self@.contains_key(username@) ==> r == Err::<User, StoreError>(StoreError::NotFound),
    {
        let name = username.to_string();
        match self.position(&name) {
            Some(i) => Ok(self.accounts[i].duplicate()),
            None => Err(StoreError::NotFound),
        }
    }

    /// The account stored under `username`, provided `password` is its credential.
    pub fn authenticate(&self, username: &str, password: &str) -> (r: Result<User, StoreError>)
        requires
            self.wf(),
        ensures
            match authenticate_spec(self@, username@, password@) {
                Ok(v) => r matches Ok(u) && u@ == v,
                Err(e) => r == Err::<User, StoreError>(e),
            },
    {
        let user = self.find(username)?;
        user.check_password(password)?;
        Ok(user)
    }

    /// Overwrites the stored account that has the name of `user`.
    pub fn update(&mut self, user: &User) -> (r: Result<(), StoreError>)
        requires
            old(self).wf(),
        ensures
            final(self).wf(),
            final(self).start() == old(self).start(),
            match update_spec(old(self)@, user@) {
                Ok(m) => r is Ok && final(self)@ == m,
                Err(e) => r == Err::<(), StoreError>(e) && final(self)@ == old(self)@,
            },
    {
        match self.position(&user.username) {
            None => Err(StoreError::NotFound),
            Some(i) => {
                if user.balance < 0 {
                    return Err(StoreError::InvalidAmount);
                }
                let u = user.duplicate();
                proof {
                    lemma_update(self.accounts@, i as int, u);
                }
                self.accounts.set(i, u);
                proof {
                    self.lemma_at_rest();
                }
                Ok(())
            },
        }
    }

    /// Removes the account stored under `username`.
    pub fn remove(&mut self, username: &str) -> (r: Result<(), StoreError>)
        requires
            old(self).wf(),
        ensures
            final(self).wf(),
            final(self).start() == old(self).start(),
            old(self)@.contains_key(username@) ==> r is Ok && final(self)@ == old(self)@.remove(
                username@,
            ),
            !old(self)@.contains_key(username@) ==> r == Err::<(), StoreError>(StoreError::NotFound)
                && final(self)@ == old(self)@,
    {
        let name = username.to_string();
        match self.position(&name) {
            None => Err(StoreError::NotFound),
            Some(i) => {
                proof {
                    lemma_remove(self.accounts@, i as int);
                }
                self.accounts.remove(i);
                proof {
                    self.lemma_at_rest();
                }
                Ok(())
            },
        }
    }

    /// Moves `amount` from the account `from` to the account `to`, as one step: every check is
    /// made against the stored balances before either account changes, and a failed check
    /// changes nothing.
    pub fn transfer(&mut self, from: &str, to: &str, amount: i32) -> (r: Result<(), StoreError>)
        requires
            old(self).wf(),
        ensures
            final(self).wf(),
            final(self).start() == old(self).start(),
            match transfer_spec(old(self)@, from@, to@, amount as int) {
                Ok(m) => r is Ok && final(self)@ == m,
                Err(e) => r == Err::<(), StoreError>(e) && final(self)@ == old(self)@,
            },
    {
        if amount <= 0 {
            return Err(StoreError::InvalidAmount);
        }
        let sender = from.to_string();
        let receiver = to.to_string();
        if sender == receiver {
            return Err(StoreError::SelfTransfer);
        }
        let (i, j) = match (self.position(&sender), self.position(&receiver)) {
            (Some(i), Some(j)) => (i, j),
            _ => {
                return Err(StoreError::NotFound);
            },
        };
        if amount > self.accounts[i].balance {
            return Err(StoreError::InsufficientBalance);
        }
        if self.accounts[j].balance > i32::MAX - amount {
            return Err(StoreError::BalanceOverflow);
        }
        let ghost m = self@;
        let mut a = self.accounts[i].duplicate();
        a.balance = a.balance - amount;
        proof {
            lemma_update(self.accounts@, i as int, a);
        }
        self.accounts.set(i, a);
        let mut b = self.accounts[j].duplicate();
        b.balance = b.balance + amount;
        proof {
            lemma_update(self.accounts@, j as int, b);
        }
        self.accounts.set(j, b);
        proof {
            self.lemma_at_rest();
        }
        Ok(())
    }

    /// A copy of every stored account, each once.
    pub fn records(&self) -> (r: Vec<User>)
        requires
            self.wf(),
        ensures
            r@.len() == self@.len(),
            forall|i: int|
                0 <= i < r@.len() ==> self@.contains_key((#[trigger] r@[i]).username@) && self@[r@[i].username@]
                    == r@[i]@,
            forall|k: Seq<char>|
                #[trigger] self@.contains_key(k) ==> exists|i: int| 0 <= i < r@.len() && #[trigger] r@[i].username@ == k,
    {
        proof {
            self.lemma_len();
        }
        let mut out: Vec<User> = Vec::new();
        let mut i: usize = 0;
        while i < self.accounts.len()
            invariant
                self.inv(),
                i <= self.accounts@.len(),
                out@.len() == i,
                forall|j: int| 0 <= j < i ==> (#[trigger] out@[j])@ == self.accounts@[j]@,
            decreases self.accounts@.len() - i,
        {
            out.push(self.accounts[i].duplicate());
            i = i + 1;
        }
        proof {
            assert forall|j: int| 0 <= j < out@.len() implies self@.contains_key((#[trigger] out@[j]).username@)
                && self@[out@[j].username@] == out@[j]@ by {
                lemma_index_of(self.accounts@, j);
            }
            assert forall|k: Seq<char>| #[trigger] self@.contains_key(k) implies exists|j: int|
                0 <= j < out@.len() && #[trigger] out@[j].username@ == k by {
                let j = index_of(self.accounts@, k);
                assert(out@[j].username@ == k);
            }
        }
        out
    }

    fn position(&self, name: &String) -> (r: Option<usize>)
        requires
            self.inv(),
        ensures
            r is Some <==> self@.contains_key(name@),
            r matches Some(i) ==> i < self.accounts@.len() && self.accounts@[i as int].username@
                == name@ && self@[name@] == self.accounts@[i as int]@,
    {
        let mut i: usize = 0;
        while i < self.accounts.len()
            invariant
                self.inv(),
                i <= self.accounts@.len(),
                forall|j: int| 0 <= j < i ==> #[trigger] self.accounts@[j].username@ != name@,
            decreases self.accounts@.len() - i,
        {
            if self.accounts[i].username == *name {
                proof {
                    lemma_index_of(self.accounts@, i as int);
                }
                return Some(i);
            }
            i = i + 1;
        }
        assert(!holds_name(self.accounts@, name@));
        None
    }
}

/// The account that signup creates for `username` and `password` in `db`.
pub open spec fn fresh_account(db: &Ledger, username: Seq<char>, password: Seq<char>) -> UserView {
    UserView { username, password, balance: db.start() }
}

impl User {
    /// Stores this account in `db` as a new one.
    pub fn insert_into_db(&self, db: &mut Ledger) -> (r: Result<(), StoreError>)
        requires
            old(db).wf(),
        ensures
            final(db).wf(),
            final(db).start() == old(db).start(),
            match create_spec(old(db)@, self@) {
                Ok(m) => r is Ok && final(db)@ == m,
                Err(e) => r == Err::<(), StoreError>(e) && final(db)@ == old(db)@,
            },
    {
        db.create(self.duplicate())
    }

    /// The account stored in `db` under `username`.
    pub fn retrieve_from_db(db: &Ledger, username: &str) -> (r: Result<User, StoreError>)
        requires
            db.wf(),
        ensures
            db@.contains_key(username@) ==> (r matches Ok(u) && u@ == db@[username@]),
            !db@.contains_key(username@) ==> r == Err::<User, StoreError>(StoreError::NotFound),
    {
        db.find(username)
    }

    /// Overwrites the stored account of the same name with this one.
    pub fn update_to_db(&self, db: &mut Ledger) -> (r: Result<(), StoreError>)
        requires
            old(db).wf(),
        ensures
            final(db).wf(),
            final(db).start() == old(db).start(),
            match update_spec(old(db)@, self@) {
                Ok(m) => r is Ok && final(db)@ == m,
                Err(e) => r == Err::<(), StoreError>(e) && final(db)@ == old(db)@,
            },
    {
        db.update(self)
    }

    /// Removes the stored account of this name.
    pub fn delete_from_db(&self, db: &mut Ledger) -> (r: Result<(), StoreError>)
        requires
            old(db).wf(),
        ensures
            final(db).wf(),
            final(db).start() == old(db).start(),
            old(db)@.contains_key(self.username@) ==> r is Ok && final(db)@ == old(db)@.remove(
                self.username@,
            ),
            !old(db)@.contains_key(self.username@) ==> r == Err::<(), StoreError>(
                StoreError::NotFound,
            ) && final(db)@ == old(db)@,
    {
        db.remove(self.username.as_str())
    }

    /// Creates the account `username` with the ledger's opening balance.
    pub fn signup(db: &mut Ledger, username: &str, password: &str) -> (r: Result<User, StoreError>)
        requires
            old(db).wf(),
        ensures
            final(db).wf(),
            final(db).start() == old(db).start(),
            match create_spec(old(db)@, fresh_account(old(db), username@, password@)) {
                Ok(m) => (r matches Ok(u) && u@ == fresh_account(old(db), username@, password@))
                    && final(db)@ == m,
                Err(e) => r == Err::<User, StoreError>(e) && final(db)@ == old(db)@,
            },
    {
        let user = User::new(username.to_string(), password.to_string(), db.start_balance());
        user.insert_into_db(db)?;
        Ok(user)
    }

    /// The stored account `username`, provided `password` is its credential.
    pub fn login(db: &Ledger, username: &str, password: &str) -> (r: Result<User, StoreError>)
        requires
            db.wf(),
        ensures
            match authenticate_spec(db@, username@, password@) {
                Ok(v) => r matches Ok(u) && u@ == v,
                Err(e) => r == Err::<User, StoreError>(e),
            },
    {
        db.authenticate(username, password)
    }

    /// Ends the account's session; the ledger keeps no session state, so this always succeeds.
    pub fn logout(&self) -> (r: Result<(), StoreError>)
        ensures
            r is Ok,
    {
        Ok(())
    }

    /// Moves `amount` from this account to `to`; on success this value takes the stored state
    /// of the account, and on failure it stays as it was.
    pub fn transfer_to_other(&mut self, db: &mut Ledger, to: &str, amount: i32) -> (r: Result<(), StoreError>)
        requires
            old(db).wf(),
        ensures
            final(db).wf(),
            final(db).start() == old(db).start(),
            match transfer_spec(old(db)@, old(self).username@, to@, amount as int) {
                Ok(m) => r is Ok && final(db)@ == m && final(self)@ == m[old(self).username@],
                Err(e) => r == Err::<(), StoreError>(e) && final(db)@ == old(db)@ && *final(self)
                    == *old(self),
            },
    {
        db.transfer(self.username.as_str(), to, amount)?;
        match db.find(self.username.as_str()) {
            Ok(stored) => {
                *self = stored;
            },
            Err(_) => {},
        }
        Ok(())
    }

    /// The same as `transfer_to_other`.
    pub fn transfer(&mut self, db: &mut Ledger, to: &str, amount: i32) -> (r: Result<(), StoreError>)
        requires
            old(db).wf(),
        ensures
            final(db).wf(),
            final(db).start() == old(db).start(),
            match transfer_spec(old(db)@, old(self).username@, to@, amount as int) {
                Ok(m) => r is Ok && final(db)@ == m && final(self)@ == m[old(self).username@],
                Err(e) => r == Err::<(), StoreError>(e) && final(db)@ == old(db)@ && *final(self)
                    == *old(self),
            },
    {
        self.transfer_to_other(db, to, amount)
    }
}

} // verus!
