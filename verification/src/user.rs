//! The user records and an in-memory user store.
//!
//! The store models the relational table the application keeps its users in:
//! a sequence of records with unique ids and unique emails. The surrounding
//! application performs the durable storage; every decision made over the
//! records is verified here against the store's sequence view.

use vstd::prelude::*;

verus! {

/// A stored user record. The password field holds an encoded password hash,
/// never a plaintext password.
#[derive(Debug)]
pub struct User {
    pub id: i32,
    pub name: String,
    pub email: String,
    pub password: String,
    pub created_at: Option<String>,
    pub updated_at: Option<String>,
}

impl Clone for User {
    fn clone(&self) -> (r: Self)
        ensures
            r == *self,
    {
        User {
            id: self.id,
            name: self.name.clone(),
            email: self.email.clone(),
            password: self.password.clone(),
            created_at: match &self.created_at {
                Some(s) => Some(s.clone()),
                None => None,
            },
            updated_at: match &self.updated_at {
                Some(s) => Some(s.clone()),
                None => None,
            },
        }
    }
}

/// A record to be inserted: the store itself assigns the id.
pub struct NewUser<'a> {
    pub name: &'a str,
    pub email: &'a str,
    pub password: &'a str,
}

/// Why an insertion or update was refused.
#[derive(PartialEq, Eq, Structural, Debug, Clone, Copy)]
pub enum StoreError {
    DuplicateEmail,
    CapacityExhausted,
}

/// The first record in `users` whose email reads `email`, if any.
pub open spec fn spec_find_email(users: Seq<User>, email: Seq<char>) -> Option<User>
    decreases users.len(),
{
    if users.len() == 0 {
        None
    } else if users[0].email@ == email {
        Some(users[0])
    } else {
        spec_find_email(users.skip(1), email)
    }
}

/// The first record in `users` whose id is `id`, if any.
pub open spec fn spec_find_id(users: Seq<User>, id: i32) -> Option<User>
    decreases users.len(),
{
    if users.len() == 0 {
        None
    } else if users[0].id == id {
        Some(users[0])
    } else {
        spec_find_id(users.skip(1), id)
    }
}

/// A sought email that no record holds is not found.
pub proof fn lemma_find_email_absent(users: Seq<User>, email: Seq<char>)
    requires
        forall|i: int| 0 <= i < users.len() ==> (#[trigger] users[i]).email@ != email,
    ensures
        spec_find_email(users, email) is None,
    decreases users.len(),
{
    if users.len() > 0 {
        lemma_find_email_absent(users.skip(1), email);
    }
}

/// An email that is not found is held by no record.
pub proof fn lemma_find_email_none_absent(users: Seq<User>, email: Seq<char>)
    requires
        spec_find_email(users, email) is None,
    ensures
        forall|i: int| 0 <= i < users.len() ==> (#[trigger] users[i]).email@ != email,
    decreases users.len(),
{
    if users.len() > 0 {
        lemma_find_email_none_absent(users.skip(1), email);
        assert forall|i: int| 0 <= i < users.len() implies (#[trigger] users[i]).email@
            != email by {
            if i >= 1 {
                assert(users.skip(1)[i - 1] == users[i]);
            }
        }
    }
}

/// A found record is one of the records and holds the sought email.
pub proof fn lemma_find_email_mem(users: Seq<User>, email: Seq<char>, u: User)
    requires
        spec_find_email(users, email) == Some(u),
    ensures
        exists|i: int| 0 <= i < users.len() && users[i] == u,
        u.email@ == email,
    decreases users.len(),
{
    if users.len() > 0 && users[0].email@ != email {
        lemma_find_email_mem(users.skip(1), email, u);
        let i = choose|i: int| 0 <= i < users.skip(1).len() && users.skip(1)[i] == u;
        assert(users[i + 1] == u);
    }
}

/// Finding an email in concatenated records first searches the front part.
pub proof fn lemma_find_email_concat(a: Seq<User>, b: Seq<User>, email: Seq<char>)
    ensures
        spec_find_email(a + b, email) == match spec_find_email(a, email) {
            Some(u) => Some(u),
            None => spec_find_email(b, email),
        },
    decreases a.len(),
{
    if a.len() == 0 {
        assert(a + b =~= b);
    } else {
        lemma_find_email_concat(a.skip(1), b, email);
        assert((a + b).skip(1) =~= a.skip(1) + b);
    }
}

/// A sought id that no record holds is not found.
pub proof fn lemma_find_id_absent(users: Seq<User>, id: i32)
    requires
        forall|i: int| 0 <= i < users.len() ==> (#[trigger] users[i]).id != id,
    ensures
        spec_find_id(users, id) is None,
    decreases users.len(),
{
    if users.len() > 0 {
        lemma_find_id_absent(users.skip(1), id);
    }
}

/// A found record is one of the records and holds the sought id.
pub proof fn lemma_find_id_mem(users: Seq<User>, id: i32, u: User)
    requires
        spec_find_id(users, id) == Some(u),
    ensures
        exists|i: int| 0 <= i < users.len() && users[i] == u,
        u.id == id,
    decreases users.len(),
{
    if users.len() > 0 && users[0].id != id {
        lemma_find_id_mem(users.skip(1), id, u);
        let i = choose|i: int| 0 <= i < users.skip(1).len() && users.skip(1)[i] == u;
        assert(users[i + 1] == u);
    }
}

/// A record holding the sought id, with no earlier record holding it, is
/// the one found.
pub proof fn lemma_find_id_at(users: Seq<User>, id: i32, k: int)
    requires
        0 <= k < users.len(),
        users[k].id == id,
        forall|j: int| 0 <= j < k ==> (#[trigger] users[j]).id != id,
    ensures
        spec_find_id(users, id) == Some(users[k]),
    decreases k,
{
    if k > 0 {
        lemma_find_id_at(users.skip(1), id, k - 1);
    }
}

/// Finding an id in concatenated records first searches the front part.
pub proof fn lemma_find_id_concat(a: Seq<User>, b: Seq<User>, id: i32)
    ensures
        spec_find_id(a + b, id) == match spec_find_id(a, id) {
            Some(u) => Some(u),
            None => spec_find_id(b, id),
        },
    decreases a.len(),
{
    if a.len() == 0 {
        assert(a + b =~= b);
    } else {
        lemma_find_id_concat(a.skip(1), b, id);
        assert((a + b).skip(1) =~= a.skip(1) + b);
    }
}

/// How an inserted record relates to what was handed in.
pub open spec fn inserted_user(u: User, id: i32, nu: NewUser) -> bool {
    &&& u.id == id
    &&& u.name@ == nu.name@
    &&& u.email@ == nu.email@
    &&& u.password@ == nu.password@
    &&& u.created_at is None
    &&& u.updated_at is None
}

/// How a record looks after its profile fields were rewritten.
pub open spec fn profile_updated(u0: User, u1: User, name: Seq<char>, email: Seq<char>) -> bool {
    &&& u1.id == u0.id
    &&& u1.name@ == name
    &&& u1.email@ == email
    &&& u1.password == u0.password
    &&& u1.created_at == u0.created_at
    &&& u1.updated_at == u0.updated_at
}

/// How a record looks after its password hash was rewritten.
pub open spec fn password_updated(u0: User, u1: User, password: Seq<char>) -> bool {
    &&& u1.id == u0.id
    &&& u1.name == u0.name
    &&& u1.email == u0.email
    &&& u1.password@ == password
    &&& u1.created_at == u0.created_at
    &&& u1.updated_at == u0.updated_at
}

/// What a sequence of records must satisfy to be held by a store: unique
/// ids and emails, every id positive and below the largest assignable id.
pub open spec fn records_valid(users: Seq<User>) -> bool {
    &&& forall|p: int, q: int|
        #![trigger users[p], users[q]]
        0 <= p < q < users.len() ==> users[p].id != users[q].id && users[p].email@
            != users[q].email@
    &&& forall|p: int| 0 <= p < users.len() ==> 0 < (#[trigger] users[p]).id < i32::MAX
}

/// An in-memory user store: the sequence of records, and the id the next
/// inserted record receives.
pub struct UserStore {
    users: Vec<User>,
    next_id: i32,
}

impl View for UserStore {
    type V = Seq<User>;

    closed spec fn view(&self) -> Seq<User> {
        self.users@
    }
}

impl UserStore {
    /// Well-formedness: ids and emails are unique, ids are positive and
    /// below the next id to be assigned.
    pub closed spec fn wf(self) -> bool {
        &&& 0 < self.next_id
        &&& forall|i: int, j: int|
            #![trigger self@[i], self@[j]]
            0 <= i < j < self@.len() ==> self@[i].id != self@[j].id && self@[i].email@
                != self@[j].email@
        &&& forall|i: int| 0 <= i < self@.len() ==> 0 < (#[trigger] self@[i]).id < self.next_id
    }

    /// Whether the store has run out of assignable ids.
    pub closed spec fn at_capacity(self) -> bool {
        self.next_id == i32::MAX
    }

    /// The record holding `email`, if any.
    pub open spec fn spec_find_by_email(self, email: Seq<char>) -> Option<User> {
        spec_find_email(self@, email)
    }

    /// The record holding `id`, if any.
    pub open spec fn spec_find_by_id(self, id: i32) -> Option<User> {
        spec_find_id(self@, id)
    }

    /// An empty store.
    pub fn new() -> (r: UserStore)
        ensures
            r.wf(),
            !r.at_capacity(),
            r@ =~= Seq::<User>::empty(),
    {
        UserStore { users: Vec::new(), next_id: 1 }
    }

    /// Builds a store around existing records — say, rows read from a
    /// durable table — keeping their ids. Refused exactly when the records
    /// would break the store's invariant.
    pub fn from_records(users: Vec<User>) -> (r: Option<UserStore>)
        ensures
            match r {
                Some(s) => s.wf() && s@ =~= users@ && records_valid(users@),
                None => !records_valid(users@),
            },
    {
        let n = users.len();
        let mut max_id: i32 = 0;
        let mut i: usize = 0;
        while i < n
            invariant
                i <= n,
                n == users@.len(),
                0 <= max_id < i32::MAX,
                forall|p: int, q: int|
                    #![trigger users@[p], users@[q]]
                    0 <= p < q < i ==> users@[p].id != users@[q].id && users@[p].email@
                        != users@[q].email@,
                forall|p: int| 0 <= p < i ==> 0 < (#[trigger] users@[p]).id < i32::MAX,
                forall|p: int| 0 <= p < i ==> (#[trigger] users@[p]).id <= max_id,
            decreases n - i,
        {
            if users[i].id <= 0 || users[i].id == i32::MAX {
                return None;
            }
            let mut j: usize = 0;
            while j < i
                invariant
                    j <= i < n,
                    n == users@.len(),
                    forall|q: int|
                        0 <= q < j ==> (#[trigger] users@[q]).id != users@[i as int].id
                            && users@[q].email@ != users@[i as int].email@,
                decreases i - j,
            {
                if users[j].id == users[i].id {
                    return None;
                }
                if crate::strutil::str_eq(users[j].email.as_str(), users[i].email.as_str()) {
                    return None;
                }
                j = j + 1;
            }
            if users[i].id > max_id {
                max_id = users[i].id;
            }
            i = i + 1;
        }
        Some(UserStore { users, next_id: max_id + 1 })
    }

    /// How many records the store holds.
    pub fn len(&self) -> (r: usize)
        ensures
            r == self@.len(),
    {
        self.users.len()
    }

    /// The position of the record holding `email`, if any.
    fn position_of_email(&self, email: &str) -> (r: Option<usize>)
        ensures
            match r {
                Some(k) => {
                    &&& k < self@.len()
                    &&& self@[k as int].email@ == email@
                    &&& forall|j: int| 0 <= j < k ==> (#[trigger] self@[j]).email@ != email@
                    &&& self.spec_find_by_email(email@) == Some(self@[k as int])
                },
                None => self.spec_find_by_email(email@) is None,
            },
    {
        let n = self.users.len();
        let mut i: usize = 0;
        assert(self@.skip(0) =~= self@);
        while i < n
            invariant
                i <= n,
                n == self@.len(),
                spec_find_email(self@, email@) == spec_find_email(self@.skip(i as int), email@),
                forall|j: int| 0 <= j < i ==> (#[trigger] self@[j]).email@ != email@,
            decreases n - i,
        {
            assert(self@.skip(i as int)[0] == self@[i as int]);
            if crate::strutil::str_eq(self.users[i].email.as_str(), email) {
                return Some(i);
            }
            assert(self@.skip(i as int).skip(1) =~= self@.skip(i as int + 1));
            i = i + 1;
        }
        assert(self@.skip(n as int) =~= Seq::<User>::empty());
        None
    }

    /// The position of the record holding `id`, if any.
    fn position_of_id(&self, id: i32) -> (r: Option<usize>)
        ensures
            match r {
                Some(k) => {
                    &&& k < self@.len()
                    &&& self@[k as int].id == id
                    &&& forall|j: int| 0 <= j < k ==> (#[trigger] self@[j]).id != id
                    &&& self.spec_find_by_id(id) == Some(self@[k as int])
                },
                None => self.spec_find_by_id(id) is None,
            },
    {
        let n = self.users.len();
        let mut i: usize = 0;
        assert(self@.skip(0) =~= self@);
        while i < n
            invariant
                i <= n,
                n == self@.len(),
                spec_find_id(self@, id) == spec_find_id(self@.skip(i as int), id),
                forall|j: int| 0 <= j < i ==> (#[trigger] self@[j]).id != id,
            decreases n - i,
        {
            assert(self@.skip(i as int)[0] == self@[i as int]);
            if self.users[i].id == id {
                return Some(i);
            }
            assert(self@.skip(i as int).skip(1) =~= self@.skip(i as int + 1));
            i = i + 1;
        }
        assert(self@.skip(n as int) =~= Seq::<User>::empty());
        None
    }

    /// Looks a record up by email.
    pub fn find_by_email(&self, email: &str) -> (r: Option<User>)
        ensures
            r == self.spec_find_by_email(email@),
    {
        match self.position_of_email(email) {
            Some(k) => Some(self.users[k].clone()),
            None => None,
        }
    }

    /// Looks a record up by id.
    pub fn find_by_id(&self, id: i32) -> (r: Option<User>)
        ensures
            r == self.spec_find_by_id(id),
    {
        match self.position_of_id(id) {
            Some(k) => Some(self.users[k].clone()),
            None => None,
        }
    }

    /// Inserts a new record, assigning it a fresh id. Refused when the email
    /// is already taken or the ids are exhausted; the store is then
    /// unchanged.
    pub fn insert(&mut self, new_user: NewUser<'_>) -> (r: Result<i32, StoreError>)
        requires
            old(self).wf(),
        ensures
            final(self).wf(),
            match r {
                Ok(id) => {
                    &&& old(self).spec_find_by_email(new_user.email@) is None
                    &&& !old(self).at_capacity()
                    &&& final(self)@.len() == old(self)@.len() + 1
                    &&& final(self)@.subrange(0, old(self)@.len() as int) =~= old(self)@
                    &&& inserted_user(final(self)@.last(), id, new_user)
                    &&& final(self).spec_find_by_email(new_user.email@) == Some(
                        final(self)@.last(),
                    )
                    &&& final(self).spec_find_by_id(id) == Some(final(self)@.last())
                },
                Err(StoreError::DuplicateEmail) => {
                    &&& old(self).spec_find_by_email(new_user.email@) is Some
                    &&& *final(self) == *old(self)
                },
                Err(StoreError::CapacityExhausted) => {
                    &&& old(self).at_capacity()
                    &&& *final(self) == *old(self)
                },
            },
    {
        match self.position_of_email(new_user.email) {
            Some(_) => Err(StoreError::DuplicateEmail),
            None => {
                if self.next_id == i32::MAX {
                    return Err(StoreError::CapacityExhausted);
                }
                let id = self.next_id;
                let user = User {
                    id,
                    name: new_user.name.to_owned(),
                    email: new_user.email.to_owned(),
                    password: new_user.password.to_owned(),
                    created_at: None,
                    updated_at: None,
                };
                proof {
                    lemma_find_email_none_absent(self@, new_user.email@);
                }
                let ghost old_users = self@;
                self.users.push(user);
                self.next_id = id + 1;
                proof {
                    let nu = self@;
                    let ln = old_users.len() as int;
                    assert(nu =~= old_users + seq![nu.last()]);
                    assert(forall|i: int| 0 <= i < ln ==> #[trigger] nu[i] == old_users[i]);
                    assert(nu[ln].id == id && nu[ln].email@ == new_user.email@);
                    assert forall|i: int| 0 <= i < ln implies (#[trigger] old_users[i]).id
                        != id by {
                        assert(old(self)@[i] == old_users[i]);
                    }
                    lemma_find_email_concat(old_users, seq![nu.last()], new_user.email@);
                    lemma_find_id_absent(old_users, id);
                    lemma_find_id_concat(old_users, seq![nu.last()], id);
                    assert(nu.subrange(0, ln) =~= old_users);
                    assert forall|i: int, j: int|
                        #![trigger nu[i], nu[j]]
                        0 <= i < j < nu.len() implies nu[i].id != nu[j].id && nu[i].email@
                        != nu[j].email@ by {
                        assert(old(self)@[i] == nu[i]);
                        if j < ln {
                            assert(old(self)@[j] == nu[j]);
                        } else {
                            assert(old(self)@[i].id < id);
                            assert(old(self)@[i].email@ != new_user.email@);
                        }
                    }
                    assert forall|i: int| 0 <= i < nu.len() implies 0 < (#[trigger] nu[i]).id
                        < self.next_id by {
                        if i < ln {
                            assert(old(self)@[i] == nu[i]);
                        }
                    }
                }
                Ok(id)
            },
        }
    }

    /// Rewrites the name and email of the record holding `id`. Returns the
    /// number of records changed: 0 when no record holds `id` or the email
    /// is taken by another record, 1 otherwise.
    pub fn update(&mut self, id: i32, name: &str, email: &str) -> (r: usize)
        requires
            old(self).wf(),
        ensures
            final(self).wf(),
            r == 0 || r == 1,
            (r == 1) == (old(self).spec_find_by_id(id) is Some && !old(self).email_conflicts(
                id,
                email@,
            )),
            r == 0 ==> *final(self) == *old(self),
            final(self)@.len() == old(self)@.len(),
            forall|i: int|
                0 <= i < old(self)@.len() ==> if old(self)@[i].id == id && r == 1 {
                    profile_updated(old(self)@[i], #[trigger] final(self)@[i], name@, email@)
                } else {
                    final(self)@[i] == old(self)@[i]
                },
            r == 1 ==> (final(self).spec_find_by_id(id) matches Some(u2) && profile_updated(
                old(self).spec_find_by_id(id).unwrap(),
                u2,
                name@,
                email@,
            )),
    {
        match self.position_of_id(id) {
            None => 0,
            Some(k) => {
                let conflict: bool = match self.position_of_email(email) {
                    Some(j) => self.users[j].id != id,
                    None => false,
                };
                if conflict {
                    return 0;
                }
                proof {
                    self.lemma_no_other_email(k as int, email@);
                }
                let ghost old_users = self@;
                let u = &mut self.users[k];
                u.name = name.to_owned();
                u.email = email.to_owned();
                proof {
                    assert(forall|i: int|
                        0 <= i < old_users.len() && i != k ==> final(self)@[i] == old_users[i]);
                    lemma_find_id_at(final(self)@, id, k as int);
                }
                1
            },
        }
    }

    /// Rewrites the password hash of the record holding `id`. Returns the
    /// number of records changed: 0 when no record holds `id`, 1 otherwise.
    pub fn update_password(&mut self, id: i32, password: &str) -> (r: usize)
        requires
            old(self).wf(),
        ensures
            final(self).wf(),
            r == 0 || r == 1,
            (r == 1) == (old(self).spec_find_by_id(id) is Some),
            r == 0 ==> *final(self) == *old(self),
            final(self)@.len() == old(self)@.len(),
            forall|i: int|
                0 <= i < old(self)@.len() ==> if old(self)@[i].id == id && r == 1 {
                    password_updated(old(self)@[i], #[trigger] final(self)@[i], password@)
                } else {
                    final(self)@[i] == old(self)@[i]
                },
            r == 1 ==> (final(self).spec_find_by_id(id) matches Some(u2) && password_updated(
                old(self).spec_find_by_id(id).unwrap(),
                u2,
                password@,
            )),
    {
        match self.position_of_id(id) {
            None => 0,
            Some(k) => {
                let u = &mut self.users[k];
                u.password = password.to_owned();
                proof {
                    lemma_find_id_at(final(self)@, id, k as int);
                }
                1
            },
        }
    }

    /// Removes the record holding `email`, if any. Returns the number of
    /// records removed.
    pub fn delete_by_email(&mut self, email: &str) -> (r: usize)
        requires
            old(self).wf(),
        ensures
            final(self).wf(),
            final(self).spec_find_by_email(email@) is None,
            match old(self).spec_find_by_email(email@) {
                Some(u) => {
                    &&& r == 1
                    &&& final(self)@.len() + 1 == old(self)@.len()
                    &&& final(self).spec_find_by_id(u.id) is None
                    &&& exists|k: int|
                        0 <= k < old(self)@.len() && old(self)@[k] == u && final(self)@
                            =~= old(self)@.subrange(0, k) + old(self)@.subrange(
                            k + 1,
                            old(self)@.len() as int,
                        )
                },
                None => r == 0 && *final(self) == *old(self),
            },
    {
        match self.position_of_email(email) {
            None => {
                return 0;
            },
            Some(k) => {
                let ghost old_users = self@;
                let ghost removed = self@[k as int];
                self.users.remove(k);
                proof {
                    assert(final(self)@ =~= old_users.subrange(0, k as int) + old_users.subrange(
                        k as int + 1,
                        old_users.len() as int,
                    ));
                    assert(forall|i: int|
                        0 <= i < final(self)@.len() ==> #[trigger] final(self)@[i] == if i < k {
                            old_users[i]
                        } else {
                            old_users[i + 1]
                        });
                    lemma_find_email_absent(self@, email@);
                    lemma_find_id_absent(self@, removed.id);
                }
                1
            },
        }
    }

    /// In a well-formed store every record's id is positive.
    pub proof fn lemma_wf_ids_positive(&self)
        requires
            self.wf(),
        ensures
            forall|i: int| 0 <= i < self@.len() ==> (#[trigger] self@[i]).id > 0,
    {
    }

    /// Whether some record other than the one holding `id` holds `email`.
    pub open spec fn email_conflicts(self, id: i32, email: Seq<char>) -> bool {
        match self.spec_find_by_email(email) {
            Some(u) => u.id != id,
            None => false,
        }
    }

    /// In a well-formed store, when the record at `k` is the one a sought
    /// email resolves to (or the email is absent), no other record holds it.
    proof fn lemma_no_other_email(&self, k: int, email: Seq<char>)
        requires
            self.wf(),
            0 <= k < self@.len(),
            !self.email_conflicts(self@[k].id, email),
        ensures
            forall|i: int|
                0 <= i < self@.len() && i != k ==> (#[trigger] self@[i]).email@ != email,
    {
        match spec_find_email(self@, email) {
            None => {
                lemma_find_email_none_absent(self@, email);
            },
            Some(u) => {
                lemma_find_email_mem(self@, email, u);
                let j = choose|j: int| 0 <= j < self@.len() && self@[j] == u;
                assert(self@[j].id == self@[k].id);
                assert(j == k);
                assert(self@[k].email@ == email);
            },
        }
    }
}

} // verus!
