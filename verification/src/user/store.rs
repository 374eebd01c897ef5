//! The users table itself: the stored rows, the id counter, and the operations that read
//! and change them.
use vstd::prelude::*;

use super::{
    deleted, id_in_use, name_of_id, valid_rows, User, UserDeleteError, UserError, UserRows,
};

verus! {
/// The consistency of a table's parts: every stored user has an id between 1 and the
/// counter, names and ids are distinct, and the row map holds exactly the stored users.
pub closed spec fn parts_wf(users: Seq<User>, next_id: i64, rows: UserRows) -> bool {
    &&& next_id >= 1
    &&& forall|i: int|
        0 <= i < users.len() ==> {
            &&& 1 <= #[trigger] users[i].id < next_id
            &&& rows.contains_key(users[i].username@)
            &&& rows[users[i].username@] == (users[i].id, users[i].password_hash@)
        }
    &&& forall|i: int, j: int|
        #![trigger users[i], users[j]]
        0 <= i < users.len() && 0 <= j < users.len() && i != j ==> {
            &&& users[i].username@ != users[j].username@
            &&& users[i].id != users[j].id
        }
    &&& forall|k: Seq<char>|
        #[trigger] rows.contains_key(k) ==> exists|i: int|
            0 <= i < users.len() && #[trigger] users[i].username@ == k
    &&& rows.dom().finite()
}

proof fn lemma_parts_valid(users: Seq<User>, next_id: i64, rows: UserRows)
    requires
        parts_wf(users, next_id, rows),
    ensures
        valid_rows(rows),
        forall|k: Seq<char>| #[trigger] rows.contains_key(k) ==> rows[k].0 < next_id,
{
    assert forall|k: Seq<char>| #[trigger] rows.contains_key(k) implies rows[k].0 >= 1 && rows[k].0
        < next_id by {
        let i = choose|i: int| 0 <= i < users.len() && #[trigger] users[i].username@ == k;
        assert(users[i].id >= 1);
    }
    assert forall|k1: Seq<char>, k2: Seq<char>|
        #![trigger rows.contains_key(k1), rows.contains_key(k2)]
        rows.contains_key(k1) && rows.contains_key(k2) && k1 != k2 implies rows[k1].0
        != rows[k2].0 by {
        let i1 = choose|i: int| 0 <= i < users.len() && #[trigger] users[i].username@ == k1;
        let i2 = choose|i: int| 0 <= i < users.len() && #[trigger] users[i].username@ == k2;
        assert(users[i1].id != users[i2].id);
    }
}

/// Adding a user whose name and id are both new keeps a table consistent.
proof fn lemma_push_row(users: Seq<User>, next_id: i64, rows: UserRows, u: User, new_next: i64)
    requires
        parts_wf(users, next_id, rows),
        !rows.contains_key(u.username@),
        !id_in_use(rows, u.id),
        1 <= u.id < new_next,
        next_id <= new_next,
    ensures
        parts_wf(users.push(u), new_next, rows.insert(u.username@, (u.id, u.password_hash@))),
{
    let users2 = users.push(u);
    let rows2 = rows.insert(u.username@, (u.id, u.password_hash@));
    let n = users.len() as int;
    assert(users2[n] == u);
    assert forall|i: int| 0 <= i < n implies #[trigger] users[i].id != u.id by {
        assert(1 <= users[i].id);
        assert(rows.contains_key(users[i].username@));
    }
    assert forall|i: int| 0 <= i < users2.len() implies {
        &&& 1 <= #[trigger] users2[i].id < new_next
        &&& rows2.contains_key(users2[i].username@)
        &&& rows2[users2[i].username@] == (users2[i].id, users2[i].password_hash@)
    } by {
        if i < n {
            assert(users2[i] == users[i]);
            assert(1 <= users[i].id);
        }
    }
    assert forall|i: int, j: int|
        #![trigger users2[i], users2[j]]
        0 <= i < users2.len() && 0 <= j < users2.len() && i != j implies {
        &&& users2[i].username@ != users2[j].username@
        &&& users2[i].id != users2[j].id
    } by {
        if i < n {
            assert(users2[i] == users[i]);
            assert(1 <= users[i].id);
        }
        if j < n {
            assert(users2[j] == users[j]);
            assert(1 <= users[j].id);
        }
        if i < n && j < n {
            assert(users[i].username@ != users[j].username@);
        }
    }
    assert forall|k: Seq<char>| #[trigger] rows2.contains_key(k) implies exists|i: int|
        0 <= i < users2.len() && #[trigger] users2[i].username@ == k by {
        if k == u.username@ {
            assert(users2[n].username@ == k);
        } else {
            let i = choose|i: int| 0 <= i < users.len() && #[trigger] users[i].username@ == k;
            assert(users2[i] == users[i]);
        }
    }
}

/// Removing the user at position `i` (and its row) keeps a table consistent.
proof fn lemma_remove_row(users: Seq<User>, next_id: i64, rows: UserRows, i: int)
    requires
        parts_wf(users, next_id, rows),
        0 <= i < users.len(),
    ensures
        parts_wf(users.remove(i), next_id, rows.remove(users[i].username@)),
{
    let users2 = users.remove(i);
    let rows2 = rows.remove(users[i].username@);
    assert(users[i].id >= 1);
    assert forall|j: int| 0 <= j < users2.len() implies {
        &&& 1 <= #[trigger] users2[j].id < next_id
        &&& rows2.contains_key(users2[j].username@)
        &&& rows2[users2[j].username@] == (users2[j].id, users2[j].password_hash@)
    } by {
        let j0 = if j < i { j } else { j + 1 };
        assert(users2[j] == users[j0]);
        assert(1 <= users[j0].id);
        assert(users[j0].username@ != users[i].username@);
    }
    assert forall|a: int, b: int|
        #![trigger users2[a], users2[b]]
        0 <= a < users2.len() && 0 <= b < users2.len() && a != b implies {
        &&& users2[a].username@ != users2[b].username@
        &&& users2[a].id != users2[b].id
    } by {
        let a0 = if a < i { a } else { a + 1 };
        let b0 = if b < i { b } else { b + 1 };
        assert(users2[a] == users[a0]);
        assert(users2[b] == users[b0]);
        assert(users[a0].username@ != users[b0].username@);
    }
    assert forall|k: Seq<char>| #[trigger] rows2.contains_key(k) implies exists|j: int|
        0 <= j < users2.len() && #[trigger] users2[j].username@ == k by {
        let j0 = choose|j: int| 0 <= j < users.len() && #[trigger] users[j].username@ == k;
        assert(j0 != i);
        let j = if j0 < i { j0 } else { j0 - 1 };
        assert(users2[j] == users[j0]);
    }
}

/// An in-memory users table: no two rows share a name or an id, and ids are handed out
/// from a counter that only grows, so an id is never handed out twice.
pub struct UserStore {
    users: Vec<User>,
    next_id: i64,
    rows: Ghost<UserRows>,
    hashing_failures: Ghost<nat>,
}

impl View for UserStore {
    type V = UserRows;

    closed spec fn view(&self) -> UserRows {
        self.rows@
    }
}

impl UserStore {
    /// The store's internal consistency: the vector and the row map agree. Every store
    /// satisfies it.
    #[verifier::type_invariant]
    pub closed spec fn wf(&self) -> bool {
        parts_wf(self.users@, self.next_id, self.rows@)
    }

    /// The id the next created account gets.
    pub closed spec fn id_counter(&self) -> int {
        self.next_id as int
    }

    /// How many sign-ups the table has turned away because hashing the password failed.
    /// Only a failed `bcrypt` call, handed to `insert_user`, raises it.
    pub closed spec fn hashing_failures(&self) -> nat {
        self.hashing_failures@
    }

    /// Whether an insertion still has an id to hand out.
    pub open spec fn accepts_new_ids(&self) -> bool {
        self.id_counter() < i64::MAX
    }

    /// An empty table.
    pub fn new() -> (s: UserStore)
        ensures
            s@ == Map::<Seq<char>, (i64, Seq<char>)>::empty(),
            s.accepts_new_ids(),
            s.id_counter() == 1,
            s.hashing_failures() == 0,
    {
        UserStore { users: Vec::new(), next_id: 1, rows: Ghost(Map::empty()), hashing_failures: Ghost(0) }
    }

    /// Every table the store keeps has positive, distinct ids, all below the counter.
    pub proof fn lemma_valid(&self)
        requires
            self.wf(),
        ensures
            valid_rows(self@),
            forall|k: Seq<char>| #[trigger] self@.contains_key(k) ==> self@[k].0 < self.id_counter(),
    {
        lemma_parts_valid(self.users@, self.next_id, self.rows@);
    }

    /// The position of the row named `name`.
    fn index_of_name(&self, name: &String) -> (r: Option<usize>)
        requires
            self.wf(),
        ensures
            match r {
                Some(i) => i < self.users.len() && self.users[i as int].username@ == name@
                    && self@.contains_key(name@),
                None => !self@.contains_key(name@),
            },
    {
        let mut i: usize = 0;
        while i < self.users.len()
            invariant
                self.wf(),
                i <= self.users.len(),
                forall|j: int| 0 <= j < i ==> #[trigger] self.users[j].username@ != name@,
            decreases self.users.len() - i,
        {
            if self.users[i].username == *name {
                assert(self.users[i as int].id >= 1);
                return Some(i);
            }
            i = i + 1;
        }
        None
    }

    /// The position of the row whose id is `id`.
    fn index_of_id(&self, id: i64) -> (r: Option<usize>)
        requires
            self.wf(),
        ensures
            match r {
                Some(i) => i < self.users.len() && self.users[i as int].id == id,
                None => !id_in_use(self@, id),
            },
    {
        let mut i: usize = 0;
        while i < self.users.len()
            invariant
                self.wf(),
                i <= self.users.len(),
                forall|j: int| 0 <= j < i ==> #[trigger] self.users[j].id != id,
            decreases self.users.len() - i,
        {
            if self.users[i].id == id {
                return Some(i);
            }
            i = i + 1;
        }
        assert forall|k: Seq<char>| #[trigger] self@.contains_key(k) implies self@[k].0 != id by {
            let j = choose|j: int| 0 <= j < self.users.len() && #[trigger] self.users[j].username@ == k;
            assert(self.users[j].id != id);
        }
        None
    }

    /// Takes the store's contents out, leaving an empty table behind.
    fn take(&mut self) -> (r: (Vec<User>, i64, Ghost<UserRows>))
        ensures
            parts_wf(r.0@, r.1, r.2@),
            r.0@ == old(self).users@,
            r.1 == old(self).next_id,
            r.2@ == old(self)@,
    {
        proof {
            use_type_invariant(&*self);
        }
        let mut empty = UserStore::new();
        std::mem::swap(&mut empty, self);
        let UserStore { users, next_id, rows, hashing_failures: _ } = empty;
        (users, next_id, rows)
    }
}

/// Adds a row for `username` with the hash that hashing the password gave, under the next
/// id. The name is looked up first: a taken name is refused whatever `hashed` holds.
pub fn insert_user(
    store: &mut UserStore,
    username: String,
    hashed: Result<String, bcrypt::BcryptError>,
) -> (r: Result<(), UserError>)
    ensures
        valid_rows(final(store)@),
        (r matches Err(UserError::UsernameTaken)) <==> old(store)@.contains_key(username@),
        !old(store)@.contains_key(username@) && hashed is Err ==> (r matches Err(
            UserError::DatabaseError(m),
        ) && m@ == "password hashing failed"@),
        !old(store)@.contains_key(username@) && hashed is Ok && !old(store).accepts_new_ids() ==> (
        r matches Err(UserError::DatabaseError(m)) && m@ == "user ids exhausted"@),
        !old(store)@.contains_key(username@) && hashed is Ok && old(store).accepts_new_ids()
            ==> r is Ok,
        r is Err ==> final(store)@ == old(store)@ && final(store).id_counter() == old(store).id_counter(),
        r is Ok ==> final(store)@[username@].0 == old(store).id_counter() && final(store).id_counter() == old(store).id_counter() + 1,
        final(store).hashing_failures() == old(store).hashing_failures() + if !old(store)@.contains_key(
            username@,
        ) && hashed is Err {
            1nat
        } else {
            0nat
        },
        r is Ok ==> {
            &&& hashed is Ok
            &&& final(store)@ == old(store)@.insert(
                username@,
                (final(store)@[username@].0, hashed->Ok_0@),
            )
            &&& final(store)@[username@].0 >= 1
            &&& !id_in_use(old(store)@, final(store)@[username@].0)
        },
{
    proof {
        use_type_invariant(&*store);
        store.lemma_valid();
    }
    if let Some(_) = store.index_of_name(&username) {
        return Err(UserError::UsernameTaken);
    }
    let hash = match hashed {
        Ok(h) => h,
        Err(_) => {
            store.hashing_failures = Ghost(store.hashing_failures@ + 1);
            return Err(UserError::DatabaseError(String::from_str("password hashing failed")));
        },
    };
    if store.next_id == i64::MAX {
        return Err(UserError::DatabaseError(String::from_str("user ids exhausted")));
    }
    let ghost failures = store.hashing_failures@;
    let (mut users, next_id, rows) = store.take();
    let u = User { id: next_id, username, password_hash: hash };
    proof {
        lemma_push_row(users@, next_id, rows@, u, (next_id + 1) as i64);
    }
    let ghost new_rows = rows@.insert(u.username@, (u.id, u.password_hash@));
    users.push(u);
    *store = UserStore { users, next_id: next_id + 1, rows: Ghost(new_rows), hashing_failures: Ghost(failures) };
    proof {
        store.lemma_valid();
    }
    Ok(())
}

/// A new account's id lies above every id in the table it joined: since the counter
/// never goes down, not even when accounts are deleted, no id is ever handed out again.
pub proof fn law_new_id_above_table(before: &UserStore, after: UserRows, name: Seq<char>)
    requires
        before.wf(),
        after.contains_key(name),
        after[name].0 == before.id_counter(),
    ensures
        forall|k: Seq<char>| #[trigger] before@.contains_key(k) ==> before@[k].0 < after[name].0,
{
    before.lemma_valid();
}

/// Puts back a row that was saved earlier (with its own id), as when the table is
/// reloaded from disk. Later ids are handed out above it.
pub fn restore_user(store: &mut UserStore, user: User) -> (r: Result<(), UserError>)
    ensures
        final(store).hashing_failures() == old(store).hashing_failures(),
        valid_rows(final(store)@),
        (r matches Err(UserError::UsernameTaken)) <==> old(store)@.contains_key(user.username@),
        !old(store)@.contains_key(user.username@) ==> (r is Ok <==> (1 <= user.id < i64::MAX
            && !id_in_use(old(store)@, user.id))),
        r matches Err(UserError::DatabaseError(m)) ==> m@ == "invalid or duplicate user id"@,
        r is Err ==> final(store)@ == old(store)@ && final(store).id_counter() == old(store).id_counter(),
        r is Ok ==> final(store)@ == old(store)@.insert(
            user.username@,
            (user.id, user.password_hash@),
        ),
        r is Ok ==> final(store).id_counter() == if old(store).id_counter() <= user.id {
            user.id + 1
        } else {
            old(store).id_counter()
        },
{
    proof {
        use_type_invariant(&*store);
        store.lemma_valid();
    }
    if let Some(_) = store.index_of_name(&user.username) {
        return Err(UserError::UsernameTaken);
    }
    if user.id < 1 || user.id == i64::MAX {
        return Err(UserError::DatabaseError(String::from_str("invalid or duplicate user id")));
    }
    if let Some(i) = store.index_of_id(user.id) {
        assert(store.users[i as int].id >= 1);
        assert(store.rows@.contains_key(store.users[i as int].username@));
        return Err(UserError::DatabaseError(String::from_str("invalid or duplicate user id")));
    }
    let ghost failures = store.hashing_failures@;
    let (mut users, next_id, rows) = store.take();
    let new_next = if next_id <= user.id {
        user.id + 1
    } else {
        next_id
    };
    proof {
        lemma_push_row(users@, next_id, rows@, user, new_next);
    }
    let ghost new_rows = rows@.insert(user.username@, (user.id, user.password_hash@));
    users.push(user);
    *store = UserStore { users, next_id: new_next, rows: Ghost(new_rows), hashing_failures: Ghost(failures) };
    proof {
        store.lemma_valid();
    }
    Ok(())
}

/// The account named `username`, if there is one.
pub fn find_user_by_username(store: &UserStore, username: &str) -> (r: Option<User>)
    ensures
        valid_rows(store@),
        match r {
            Some(u) => {
                &&& store@.contains_key(username@)
                &&& u.username@ == username@
                &&& store@[username@] == (u.id, u.password_hash@)
            },
            None => !store@.contains_key(username@),
        },
{
    proof {
        use_type_invariant(store);
        store.lemma_valid();
    }
    let name = String::from_str(username);
    match store.index_of_name(&name) {
        Some(i) => Some(store.users[i].duplicate()),
        None => None,
    }
}

/// The account whose id is `user_id`, if there is one.
pub fn find_user_by_id(store: &UserStore, user_id: i64) -> (r: Option<User>)
    ensures
        valid_rows(store@),
        match r {
            Some(u) => {
                &&& u.id == user_id
                &&& store@.contains_key(u.username@)
                &&& store@[u.username@] == (user_id, u.password_hash@)
                &&& u.username@ == name_of_id(store@, user_id)
            },
            None => !id_in_use(store@, user_id),
        },
{
    proof {
        use_type_invariant(store);
        store.lemma_valid();
    }
    match store.index_of_id(user_id) {
        Some(i) => {
            assert(store.users[i as int].id >= 1);
            let u = store.users[i].duplicate();
            proof {
                let k = name_of_id(store@, user_id);
                assert(store@.contains_key(u.username@));
                assert(store@.contains_key(k) && store@[k].0 == user_id);
            }
            Some(u)
        },
        None => None,
    }
}

/// Deletes the account whose id is `user_id`.
pub fn delete_user(store: &mut UserStore, user_id: i64) -> (r: Result<(), UserDeleteError>)
    ensures
        final(store).hashing_failures() == old(store).hashing_failures(),
        valid_rows(final(store)@),
        r is Ok || r matches Err(UserDeleteError::UserNotFound),
        (r matches Err(UserDeleteError::UserNotFound)) <==> !id_in_use(old(store)@, user_id),
        r is Ok ==> deleted(old(store)@, final(store)@, user_id),
        r is Err ==> final(store)@ == old(store)@,
        final(store).id_counter() == old(store).id_counter(),
{
    proof {
        use_type_invariant(&*store);
        store.lemma_valid();
    }
    let i = match store.index_of_id(user_id) {
        Some(i) => i,
        None => {
            return Err(UserDeleteError::UserNotFound);
        },
    };
    proof {
        let name = store.users[i as int].username@;
        assert(store.users[i as int].id >= 1);
        assert(store.rows@.contains_key(name));
        let k = name_of_id(store.rows@, user_id);
        assert(store.rows@.contains_key(k) && store.rows@[k].0 == user_id);
    }
    let ghost failures = store.hashing_failures@;
    let (mut users, next_id, rows) = store.take();
    proof {
        lemma_remove_row(users@, next_id, rows@, i as int);
    }
    let ghost new_rows = rows@.remove(users@[i as int].username@);
    let _removed = users.remove(i);
    *store = UserStore { users, next_id, rows: Ghost(new_rows), hashing_failures: Ghost(failures) };
    proof {
        store.lemma_valid();
    }
    Ok(())
}

} // verus!
