use vstd::prelude::*;

verus! {

/// Role id stored for newly registered accounts: the least privileged role.
pub const DEFAULT_ROLE_ID: i32 = 2;

/// A stored user account. `password` holds the password's hash, never the
/// password itself; instants are seconds since the Unix epoch.
pub struct UserRecord {
    pub id: i32,
    pub uuid_user: u128,
    pub username: String,
    pub email: String,
    pub password: String,
    pub is_accepted_terms: bool,
    pub is_active: bool,
    pub is_superuser: bool,
    pub last_login: Option<u64>,
    pub registered_at: u64,
    pub updated_at: u64,
    pub timezone: String,
    pub role_id: i32,
}

/// An account to register, as a client submits it. The password is still in
/// plain text here.
pub struct NewUser {
    pub username: String,
    pub email: String,
    pub password: String,
    pub is_accepted_terms: bool,
    pub timezone: String,
}

/// Why the directory refused to store an account.
#[derive(Debug, Clone, Copy, PartialEq, Eq, Structural)]
pub enum DirectoryError {
    EmailTaken,
    IdentifierTaken,
    Full,
}

/// Some stored account has this email.
pub open spec fn email_taken(users: Seq<UserRecord>, email: Seq<char>) -> bool {
    exists|i: int| 0 <= i < users.len() && (#[trigger] users[i]).email@ == email
}

/// Some stored account has this stable identifier.
pub open spec fn uuid_taken(users: Seq<UserRecord>, uuid: u128) -> bool {
    exists|i: int| 0 <= i < users.len() && (#[trigger] users[i]).uuid_user == uuid
}

/// Position of the account with this email, if any.
pub open spec fn email_position(users: Seq<UserRecord>, email: Seq<char>) -> int {
    choose|i: int| 0 <= i < users.len() && (#[trigger] users[i]).email@ == email
}

/// Position of the account with this identifier, if any.
pub open spec fn uuid_position(users: Seq<UserRecord>, uuid: u128) -> int {
    choose|i: int| 0 <= i < users.len() && (#[trigger] users[i]).uuid_user == uuid
}

/// The account with this email.
pub open spec fn user_by_email(users: Seq<UserRecord>, email: Seq<char>) -> Option<UserRecord> {
    if email_taken(users, email) {
        Some(users[email_position(users, email)])
    } else {
        None
    }
}

/// Emails, identifiers and ids are each unique across accounts.
pub open spec fn users_unique(users: Seq<UserRecord>) -> bool {
    forall|i: int, j: int|
        0 <= i < users.len() && 0 <= j < users.len() && i != j ==> {
            &&& (#[trigger] users[i]).email@ != (#[trigger] users[j]).email@
            &&& users[i].uuid_user != users[j].uuid_user
            &&& users[i].id != users[j].id
        }
}

/// The record stored for `n` under the given identifier, id, hash and instant.
pub open spec fn registered_record(
    n: NewUser,
    uuid: u128,
    id: i32,
    hash: Seq<char>,
    now: u64,
) -> spec_fn(UserRecord) -> bool {
    |u: UserRecord|
        {
            &&& u.id == id
            &&& u.uuid_user == uuid
            &&& u.username@ == n.username@
            &&& u.email@ == n.email@
            &&& u.password@ == hash
            &&& u.is_accepted_terms == n.is_accepted_terms
            &&& u.is_active
            &&& !u.is_superuser
            &&& u.last_login is None
            &&& u.registered_at == now
            &&& u.updated_at == now
            &&& u.timezone@ == n.timezone@
            &&& u.role_id == DEFAULT_ROLE_ID
        }
}

/// `u` with its password hash replaced, and nothing else changed.
pub open spec fn with_password(u: UserRecord, v: UserRecord, hash: Seq<char>) -> bool {
    &&& v.password@ == hash
    &&& v.updated_at == u.updated_at
    &&& v.id == u.id && v.uuid_user == u.uuid_user && v.username == u.username
    &&& v.email == u.email && v.is_accepted_terms == u.is_accepted_terms
    &&& v.is_active == u.is_active && v.is_superuser == u.is_superuser
    &&& v.last_login == u.last_login && v.registered_at == u.registered_at
    &&& v.timezone == u.timezone && v.role_id == u.role_id
}

/// `u` with its last login recorded at instant `now`.
pub open spec fn with_last_login(u: UserRecord, v: UserRecord, now: u64) -> bool {
    &&& v.last_login == Some(now)
    &&& v.id == u.id && v.uuid_user == u.uuid_user && v.username == u.username
    &&& v.email == u.email && v.password == u.password
    &&& v.is_accepted_terms == u.is_accepted_terms
    &&& v.is_active == u.is_active && v.is_superuser == u.is_superuser
    &&& v.registered_at == u.registered_at && v.updated_at == u.updated_at
    &&& v.timezone == u.timezone && v.role_id == u.role_id
}

/// The store of user accounts, looked up by email or by stable identifier.
pub struct UserDirectory {
    users: Vec<UserRecord>,
    next_id: i32,
}

impl View for UserDirectory {
    type V = Seq<UserRecord>;

    closed spec fn view(&self) -> Seq<UserRecord> {
        self.users@
    }
}

impl UserDirectory {
    /// Accounts are unique by email, identifier and id, and ids stay below
    /// the next one to hand out.
    pub closed spec fn wf(&self) -> bool {
        &&& users_unique(self.users@)
        &&& self.next_id >= 1
        &&& forall|i: int| 0 <= i < self.users@.len() ==> (#[trigger] self.users@[i]).id < self.next_id
    }

    /// Every id has been handed out: no further account can be stored.
    pub closed spec fn ids_exhausted(&self) -> bool {
        self.next_id == i32::MAX
    }

    /// A well-formed directory holds unique accounts.
    pub proof fn lemma_unique(&self)
        requires
            self.wf(),
        ensures
            users_unique(self@),
    {
    }

    /// An empty directory.
    pub fn new() -> (r: UserDirectory)
        ensures
            r.wf(),
            r@ == Seq::<UserRecord>::empty(),
    {
        UserDirectory { users: Vec::new(), next_id: 1 }
    }

    /// Number of accounts.
    pub fn len(&self) -> (r: usize)
        ensures
            r == self@.len(),
    {
        self.users.len()
    }

    /// The account at position `i`.
    pub fn get(&self, i: usize) -> (r: &UserRecord)
        requires
            i < self@.len(),
        ensures
            *r == self@[i as int],
    {
        &self.users[i]
    }

    /// Position of the account with this email.
    pub fn find_by_email(&self, email: &str) -> (r: Option<usize>)
        requires
            self.wf(),
        ensures
            r matches Some(i) ==> i < self@.len() && i == email_position(self@, email@)
                && email_taken(self@, email@),
            r is None ==> !email_taken(self@, email@),
    {
        let q = email.to_owned();
        let mut i: usize = 0;
        while i < self.users.len()
            invariant
                self.wf(),
                q@ == email@,
                0 <= i <= self.users@.len(),
                forall|j: int| 0 <= j < i ==> (#[trigger] self.users@[j]).email@ != email@,
            decreases self.users@.len() - i,
        {
            if self.users[i].email == q {
                proof {
                    let p = email_position(self@, email@);
                    assert(self.users@[i as int].email@ == email@);
                    assert(users_unique(self.users@));
                    if p != i {
                        assert(self.users@[p].email@ != self.users@[i as int].email@);
                    }
                }
                return Some(i);
            }
            i += 1;
        }
        None
    }

    /// Position of the account with this stable identifier.
    pub fn find_by_uuid(&self, uuid: u128) -> (r: Option<usize>)
        requires
            self.wf(),
        ensures
            r matches Some(i) ==> i < self@.len() && i == uuid_position(self@, uuid) && uuid_taken(
                self@,
                uuid,
            ),
            r is None ==> !uuid_taken(self@, uuid),
    {
        let mut i: usize = 0;
        while i < self.users.len()
            invariant
                self.wf(),
                0 <= i <= self.users@.len(),
                forall|j: int| 0 <= j < i ==> (#[trigger] self.users@[j]).uuid_user != uuid,
            decreases self.users@.len() - i,
        {
            if self.users[i].uuid_user == uuid {
                proof {
                    let p = uuid_position(self@, uuid);
                    assert(self.users@[i as int].uuid_user == uuid);
                    assert(users_unique(self.users@));
                    if p != i {
                        assert(self.users@[p].uuid_user != self.users@[i as int].uuid_user);
                    }
                }
                return Some(i);
            }
            i += 1;
        }
        None
    }

    /// Stores a new account for `n` under `uuid`, with the password hash
    /// `hash`, registered at instant `now`. Refused, with nothing stored, when
    /// the email or the identifier is already in use or the ids are used up.
    pub fn create(&mut self, n: NewUser, uuid: u128, hash: String, now: u64) -> (r: Result<
        usize,
        DirectoryError,
    >)
        requires
            old(self).wf(),
        ensures
            final(self).wf(),
            email_taken(old(self)@, n.email@) ==> r == Err::<usize, DirectoryError>(
                DirectoryError::EmailTaken,
            ),
            !email_taken(old(self)@, n.email@) && uuid_taken(old(self)@, uuid) ==> r == Err::<
                usize,
                DirectoryError,
            >(DirectoryError::IdentifierTaken),
            r is Err ==> final(self)@ == old(self)@,
            !email_taken(old(self)@, n.email@) && !uuid_taken(old(self)@, uuid) && !old(
                self,
            ).ids_exhausted() ==> r is Ok,
            r == Err::<usize, DirectoryError>(DirectoryError::Full) ==> old(self).ids_exhausted(),
            r == Err::<usize, DirectoryError>(DirectoryError::EmailTaken) ==> email_taken(
                old(self)@,
                n.email@,
            ),
            r == Err::<usize, DirectoryError>(DirectoryError::IdentifierTaken) ==> uuid_taken(
                old(self)@,
                uuid,
            ),
            r matches Ok(i) ==> {
                &&& i == old(self)@.len()
                &&& final(self)@.len() == old(self)@.len() + 1
                &&& final(self)@.subrange(0, i as int) == old(self)@
                &&& (registered_record(n, uuid, final(self)@[i as int].id, hash@, now))(
                    final(self)@[i as int],
                )
            },
    {
        if self.find_by_email(n.email.as_str()).is_some() {
            return Err(DirectoryError::EmailTaken);
        }
        if self.find_by_uuid(uuid).is_some() {
            return Err(DirectoryError::IdentifierTaken);
        }
        if self.next_id == i32::MAX {
            return Err(DirectoryError::Full);
        }
        let id = self.next_id;
        let rec = UserRecord {
            id,
            uuid_user: uuid,
            username: n.username,
            email: n.email,
            password: hash,
            is_accepted_terms: n.is_accepted_terms,
            is_active: true,
            is_superuser: false,
            last_login: None,
            registered_at: now,
            updated_at: now,
            timezone: n.timezone,
            role_id: DEFAULT_ROLE_ID,
        };
        let ghost before = self.users@;
        self.users.push(rec);
        self.next_id = id + 1;
        proof {
            assert(self.users@.subrange(0, before.len() as int) =~= before);
            assert forall|i: int, j: int|
                0 <= i < self.users@.len() && 0 <= j < self.users@.len() && i != j implies {
                &&& (#[trigger] self.users@[i]).email@ != (#[trigger] self.users@[j]).email@
                &&& self.users@[i].uuid_user != self.users@[j].uuid_user
                &&& self.users@[i].id != self.users@[j].id
            } by {
                if i < before.len() && j < before.len() {
                    assert(self.users@[i] == before[i]);
                    assert(self.users@[j] == before[j]);
                } else if i < before.len() {
                    assert(self.users@[i] == before[i]);
                } else {
                    assert(self.users@[j] == before[j]);
                }
            }
        }
        Ok(self.users.len() - 1)
    }

    /// Replaces the password hash of the account at position `i`.
    pub fn update_password(&mut self, i: usize, hash: String)
        requires
            old(self).wf(),
            i < old(self)@.len(),
        ensures
            final(self).wf(),
            final(self)@.len() == old(self)@.len(),
            forall|j: int| 0 <= j < old(self)@.len() && j != i ==> final(self)@[j] == old(self)@[j],
            with_password(old(self)@[i as int], final(self)@[i as int], hash@),
    {
        let ghost before = self.users@;
        let mut rec = self.users.remove(i);
        rec.password = hash;
        self.users.insert(i, rec);
        proof {
            assert(self.users@ =~= before.update(i as int, self.users@[i as int]));
            assert forall|a: int, b: int|
                0 <= a < self.users@.len() && 0 <= b < self.users@.len() && a != b implies {
                &&& (#[trigger] self.users@[a]).email@ != (#[trigger] self.users@[b]).email@
                &&& self.users@[a].uuid_user != self.users@[b].uuid_user
                &&& self.users@[a].id != self.users@[b].id
            } by {
                assert(before[a].email@ != before[b].email@);
            }
        }
    }

    /// Records a login at instant `now` for the account at position `i`.
    pub fn update_last_login(&mut self, i: usize, now: u64)
        requires
            old(self).wf(),
            i < old(self)@.len(),
        ensures
            final(self).wf(),
            final(self)@.len() == old(self)@.len(),
            forall|j: int| 0 <= j < old(self)@.len() && j != i ==> final(self)@[j] == old(self)@[j],
            with_last_login(old(self)@[i as int], final(self)@[i as int], now),
    {
        let ghost before = self.users@;
        let mut rec = self.users.remove(i);
        rec.last_login = Some(now);
        self.users.insert(i, rec);
        proof {
            assert(self.users@ =~= before.update(i as int, self.users@[i as int]));
            assert forall|a: int, b: int|
                0 <= a < self.users@.len() && 0 <= b < self.users@.len() && a != b implies {
                &&& (#[trigger] self.users@[a]).email@ != (#[trigger] self.users@[b]).email@
                &&& self.users@[a].uuid_user != self.users@[b].uuid_user
                &&& self.users@[a].id != self.users@[b].id
            } by {
                assert(before[a].email@ != before[b].email@);
            }
        }
    }
}

} // verus!
