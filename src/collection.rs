use vstd::prelude::*;
use crate::claims::{TokenClaims, TokenKind, payload_claims};
use crate::text::chars_of;
use vstd::utf8::encode_utf8;
use crate::token::{TokenAuthority, TokenError, check_claims, rs256_decoded};

verus! {

/// Longest collection name, in UTF-8 bytes.
pub const NAME_MAX: usize = 100;

/// Longest collection description, in UTF-8 bytes.
pub const DESCRIPTION_MAX: usize = 250;

/// Failures of collection operations.
#[derive(Debug, Clone, Copy, PartialEq, Eq, Structural)]
pub enum CollectionError {
    DatabaseError,
    InvalidName,
    InvalidDescription,
    InvalidToken,
    Forbidden,
    NotFound,
}

/// A collection, owned by the user whose stable identifier is `owner`.
pub struct Collection {
    pub id: i32,
    pub name: String,
    pub owner: u128,
    pub registered_at: u64,
    pub updated_at: u64,
    pub is_public: bool,
    pub description: Option<String>,
}

/// A collection as a client submits it for creation.
pub struct NewCollection {
    pub name: String,
    pub description: Option<String>,
    pub is_public: bool,
}

/// New values for a collection's fields.
pub struct UpdatedCollection {
    pub name: String,
    pub description: Option<String>,
    pub is_public: bool,
}

/// Unicode `White_Space`, the characters `char::is_whitespace` accepts.
pub open spec fn is_white_space(c: char) -> bool {
    ('\u{9}' <= c && c <= '\u{d}') || c == ' ' || c == '\u{85}' || c == '\u{a0}' || c == '\u{1680}'
        || ('\u{2000}' <= c && c <= '\u{200a}') || c == '\u{2028}' || c == '\u{2029}' || c
        == '\u{202f}' || c == '\u{205f}' || c == '\u{3000}'
}

/// Nothing but white space (what trims to the empty string).
pub open spec fn blank(s: Seq<char>) -> bool {
    forall|i: int| 0 <= i < s.len() ==> is_white_space(#[trigger] s[i])
}

/// Whether a name and an optional description may stand in a collection.
pub open spec fn fields_check(name: Seq<char>, description: Option<Seq<char>>) -> Result<
    (),
    CollectionError,
> {
    if blank(name) || encode_utf8(name).len() > NAME_MAX {
        Err(CollectionError::InvalidName)
    } else if description matches Some(d) && encode_utf8(d).len() > DESCRIPTION_MAX {
        Err(CollectionError::InvalidDescription)
    } else {
        Ok(())
    }
}

/// The view of an optional string.
pub open spec fn opt_view(s: Option<String>) -> Option<Seq<char>> {
    match s {
        Some(x) => Some(x@),
        None => None,
    }
}

/// Whether `c` is white space.
pub fn is_space(c: char) -> (r: bool)
    ensures
        r == is_white_space(c),
{
    ('\u{9}' <= c && c <= '\u{d}') || c == ' ' || c == '\u{85}' || c == '\u{a0}' || c == '\u{1680}'
        || ('\u{2000}' <= c && c <= '\u{200a}') || c == '\u{2028}' || c == '\u{2029}' || c
        == '\u{202f}' || c == '\u{205f}' || c == '\u{3000}'
}

/// Whether `s` holds nothing but white space.
pub fn is_blank(s: &str) -> (r: bool)
    ensures
        r == blank(s@),
{
    let t = chars_of(s);
    let mut i: usize = 0;
    while i < t.len()
        invariant
            t@ == s@,
            0 <= i <= t@.len(),
            forall|j: int| 0 <= j < i ==> is_white_space(#[trigger] t@[j]),
        decreases t@.len() - i,
    {
        if !is_space(t[i]) {
            return false;
        }
        i += 1;
    }
    true
}

/// Checks a collection's name and description: the name must hold something
/// besides white space and have at most `NAME_MAX` bytes in UTF-8, the
/// description at most `DESCRIPTION_MAX`.
pub fn validate_fields(name: &str, description: &Option<String>) -> (r: Result<(), CollectionError>)
    ensures
        r == fields_check(name@, opt_view(*description)),
{
    if is_blank(name) {
        return Err(CollectionError::InvalidName);
    }
    if name.as_bytes().len() > NAME_MAX {
        return Err(CollectionError::InvalidName);
    }
    match description {
        Some(d) => {
            if d.as_str().as_bytes().len() > DESCRIPTION_MAX {
                return Err(CollectionError::InvalidDescription);
            }
        },
        None => {},
    }
    Ok(())
}

/// Who may mutate a resource owned by `owner`, given what verifying the
/// caller's access token gave: nobody without a valid token, and only the
/// owner with one.
pub open spec fn ownership_check(caller: Result<TokenClaims, TokenError>, owner: u128) -> Result<
    u128,
    CollectionError,
> {
    match caller {
        Err(_) => Err(CollectionError::InvalidToken),
        Ok(c) => if c.subject == owner {
            Ok(c.subject)
        } else {
            Err(CollectionError::Forbidden)
        },
    }
}

/// The identity that `token` proves at instant `now` as an access token
/// verified under `key`, if any.
pub open spec fn access_caller(token: Seq<char>, key: Seq<u8>, now: u64) -> Option<u128> {
    match rs256_decoded(token, key) {
        Err(_) => None,
        Ok(p) => match check_claims(payload_claims(p), TokenKind::Access, now) {
            Ok(c) => Some(c.subject),
            Err(_) => None,
        },
    }
}

/// The identity an access token resolves to at instant `now`.
pub fn resolve_caller(authority: &TokenAuthority, token: &str, now: u64) -> (r: Result<
    u128,
    CollectionError,
>)
    ensures
        r == match access_caller(token@, authority.verifying_key(), now) {
            Some(u) => Ok::<u128, CollectionError>(u),
            None => Err(CollectionError::InvalidToken),
        },
{
    match authority.verify(token, TokenKind::Access, now) {
        Ok(c) => Ok(c.subject),
        Err(_) => Err(CollectionError::InvalidToken),
    }
}

/// Authorizes a mutation of a resource owned by `owner` for the bearer of
/// `token` at instant `now`; on success, gives the caller's identity.
pub fn authorize_mutation(authority: &TokenAuthority, token: &str, owner: u128, now: u64) -> (r: Result<
    u128,
    CollectionError,
>)
    ensures
        rs256_decoded(token@, authority.verifying_key()) is Err ==> r == Err::<u128, CollectionError>(
            CollectionError::InvalidToken,
        ),
        rs256_decoded(token@, authority.verifying_key()) matches Ok(p) ==> r == ownership_check(
            check_claims(payload_claims(p), TokenKind::Access, now),
            owner,
        ),
{
    match authority.verify(token, TokenKind::Access, now) {
        Ok(c) => {
            if c.subject == owner {
                Ok(c.subject)
            } else {
                Err(CollectionError::Forbidden)
            }
        },
        Err(_) => Err(CollectionError::InvalidToken),
    }
}

/// Some stored collection has this id.
pub open spec fn has_id(items: Seq<Collection>, id: i32) -> bool {
    exists|i: int| 0 <= i < items.len() && (#[trigger] items[i]).id == id
}

/// Position of the collection with this id.
pub open spec fn id_position(items: Seq<Collection>, id: i32) -> int {
    choose|i: int| 0 <= i < items.len() && (#[trigger] items[i]).id == id
}

/// Whether `caller` (absent when the token did not verify) may mutate the
/// collection with this id: the position of the collection, or the failure.
/// Ownership is checked against the stored owner on every call.
pub open spec fn mutation_check(items: Seq<Collection>, id: i32, caller: Option<u128>) -> Result<
    int,
    CollectionError,
> {
    match caller {
        None => Err(CollectionError::InvalidToken),
        Some(u) => if !has_id(items, id) {
            Err(CollectionError::NotFound)
        } else if items[id_position(items, id)].owner != u {
            Err(CollectionError::Forbidden)
        } else {
            Ok(id_position(items, id))
        },
    }
}

/// `c` made public or private at instant `now`.
pub open spec fn switched(c: Collection, is_public: bool, now: u64) -> Collection {
    Collection { is_public, updated_at: now, ..c }
}

/// `c` with the fields of `data`, changed at instant `now`.
pub open spec fn updated(c: Collection, data: UpdatedCollection, now: u64) -> Collection {
    Collection {
        name: data.name,
        description: data.description,
        is_public: data.is_public,
        updated_at: now,
        ..c
    }
}

/// Ids are unique and below the next one to hand out, and every stored
/// collection has a valid name and description.
pub open spec fn collections_wf(items: Seq<Collection>, next_id: i32) -> bool {
    &&& next_id >= 1
    &&& forall|i: int, j: int|
        0 <= i < items.len() && 0 <= j < items.len() && i != j ==> (#[trigger] items[i]).id != (
        #[trigger] items[j]).id
    &&& forall|i: int|
        0 <= i < items.len() ==> (#[trigger] items[i]).id < next_id && fields_check(
            items[i].name@,
            opt_view(items[i].description),
        ) is Ok
}

impl Collection {
    /// A copy of this collection.
    pub fn duplicate(&self) -> (r: Collection)
        ensures
            r == *self,
    {
        let description = match &self.description {
            Some(d) => Some(d.clone()),
            None => None,
        };
        Collection {
            id: self.id,
            name: self.name.clone(),
            owner: self.owner,
            registered_at: self.registered_at,
            updated_at: self.updated_at,
            is_public: self.is_public,
            description,
        }
    }
}

/// The owned collections, each mutated only by its owner.
pub struct CollectionService {
    authority: TokenAuthority,
    items: Vec<Collection>,
    next_id: i32,
}

impl View for CollectionService {
    type V = Seq<Collection>;

    closed spec fn view(&self) -> Seq<Collection> {
        self.items@
    }
}

impl CollectionService {
    /// The key that callers' access tokens are verified under.
    pub closed spec fn verifying_key(&self) -> Seq<u8> {
        self.authority.verifying_key()
    }

    /// Every id has been handed out: no further collection can be stored.
    pub closed spec fn ids_exhausted(&self) -> bool {
        self.next_id == i32::MAX
    }

    /// The store's invariant.
    pub closed spec fn wf(&self) -> bool {
        collections_wf(self.items@, self.next_id)
    }

    /// A well-formed store holds collections with unique ids and valid fields.
    pub proof fn lemma_wf(&self)
        requires
            self.wf(),
        ensures
            forall|i: int, j: int|
                0 <= i < self@.len() && 0 <= j < self@.len() && i != j ==> (#[trigger] self@[i]).id
                    != (#[trigger] self@[j]).id,
            forall|i: int|
                0 <= i < self@.len() ==> fields_check(
                    (#[trigger] self@[i]).name@,
                    opt_view(self@[i].description),
                ) is Ok,
    {
    }

    /// An empty store whose tokens are verified by `authority`.
    pub fn new(authority: TokenAuthority) -> (r: CollectionService)
        ensures
            r.wf(),
            r@ == Seq::<Collection>::empty(),
            r.verifying_key() == authority.verifying_key(),
    {
        CollectionService { authority, items: Vec::new(), next_id: 1 }
    }

    fn find(&self, id: i32) -> (r: Option<usize>)
        requires
            self.wf(),
        ensures
            r matches Some(i) ==> i < self@.len() && i == id_position(self@, id) && has_id(self@, id),
            r is None ==> !has_id(self@, id),
    {
        let mut i: usize = 0;
        while i < self.items.len()
            invariant
                self.wf(),
                0 <= i <= self.items@.len(),
                forall|j: int| 0 <= j < i ==> (#[trigger] self.items@[j]).id != id,
            decreases self.items@.len() - i,
        {
            if self.items[i].id == id {
                proof {
                    let p = id_position(self@, id);
                    assert(self.items@[i as int].id == id);
                    if p != i {
                        assert(self.items@[p].id != self.items@[i as int].id);
                    }
                }
                return Some(i);
            }
            i += 1;
        }
        None
    }

    /// Creates a collection owned by the bearer of the access token `token`,
    /// at instant `now`, and gives its id. The fields are checked before
    /// anything else; nothing is stored on failure.
    pub fn create_collection(&mut self, new_collection: NewCollection, token: &str, now: u64) -> (r: Result<
        i32,
        CollectionError,
    >)
        requires
            old(self).wf(),
        ensures
            final(self).wf(),
            final(self).verifying_key() == old(self).verifying_key(),
            r is Err ==> final(self)@ == old(self)@,
            fields_check(new_collection.name@, opt_view(new_collection.description)) matches Err(e)
                ==> r == Err::<i32, CollectionError>(e),
            fields_check(new_collection.name@, opt_view(new_collection.description)) is Ok
                ==> match access_caller(token@, old(self).verifying_key(), now) {
                None => r == Err::<i32, CollectionError>(CollectionError::InvalidToken),
                Some(u) => if old(self).ids_exhausted() {
                    r == Err::<i32, CollectionError>(CollectionError::DatabaseError)
                } else {
                    r is Ok
                },
            },
            r matches Ok(id) ==> final(self)@ == old(self)@.push(
                Collection {
                    id,
                    name: new_collection.name,
                    owner: access_caller(token@, old(self).verifying_key(), now)->Some_0,
                    registered_at: now,
                    updated_at: now,
                    is_public: new_collection.is_public,
                    description: new_collection.description,
                },
            ) && !has_id(old(self)@, id),
    {
        match validate_fields(new_collection.name.as_str(), &new_collection.description) {
            Err(e) => {
                return Err(e);
            },
            Ok(()) => {},
        }
        let owner = match resolve_caller(&self.authority, token, now) {
            Ok(u) => u,
            Err(e) => {
                return Err(e);
            },
        };
        if self.next_id == i32::MAX {
            return Err(CollectionError::DatabaseError);
        }
        let id = self.next_id;
        let c = Collection {
            id,
            name: new_collection.name,
            owner,
            registered_at: now,
            updated_at: now,
            is_public: new_collection.is_public,
            description: new_collection.description,
        };
        let ghost before = self.items@;
        self.items.push(c);
        self.next_id = id + 1;
        proof {
            assert forall|i: int, j: int|
                0 <= i < self.items@.len() && 0 <= j < self.items@.len() && i != j implies (
            #[trigger] self.items@[i]).id != (#[trigger] self.items@[j]).id by {
                if i < before.len() && j < before.len() {
                    assert(self.items@[i] == before[i]);
                    assert(self.items@[j] == before[j]);
                } else if i < before.len() {
                    assert(self.items@[i] == before[i]);
                } else {
                    assert(self.items@[j] == before[j]);
                }
            }
            assert forall|i: int| 0 <= i < before.len() implies (#[trigger] before[i]).id != id by {
                assert(before[i].id < id);
            }
        }
        Ok(id)
    }

    /// The collections owned by the bearer of the access token `token`, in
    /// the order they were stored.
    pub fn get_collections(&self, token: &str, now: u64) -> (r: Result<Vec<Collection>, CollectionError>)
        requires
            self.wf(),
        ensures
            access_caller(token@, self.verifying_key(), now) is None ==> r == Err::<
                Vec<Collection>,
                CollectionError,
            >(CollectionError::InvalidToken),
            access_caller(token@, self.verifying_key(), now) matches Some(u) ==> r is Ok
                && r->Ok_0@ == self@.filter(|c: Collection| c.owner == u),
    {
        let owner = match resolve_caller(&self.authority, token, now) {
            Ok(u) => u,
            Err(e) => {
                return Err(e);
            },
        };
        let mut out: Vec<Collection> = Vec::new();
        let mut i: usize = 0;
        while i < self.items.len()
            invariant
                0 <= i <= self.items@.len(),
                out@ == self.items@.subrange(0, i as int).filter(|c: Collection| c.owner == owner),
            decreases self.items@.len() - i,
        {
            if self.items[i].owner == owner {
                out.push(self.items[i].duplicate());
            }
            proof {
                let s = self.items@.subrange(0, i + 1);
                assert(s.drop_last() =~= self.items@.subrange(0, i as int));
                assert(s.last() == self.items@[i as int]);
                reveal(Seq::filter);
            }
            i += 1;
        }
        assert(self.items@.subrange(0, self.items@.len() as int) =~= self.items@);
        Ok(out)
    }

    /// Makes a collection public or private at instant `now`, for its owner
    /// only.
    pub fn switch_area_collection(&mut self, collection_id: i32, is_public: bool, token: &str, now: u64) -> (r: Result<
        (),
        CollectionError,
    >)
        requires
            old(self).wf(),
        ensures
            final(self).wf(),
            final(self).verifying_key() == old(self).verifying_key(),
            mutation_check(
                old(self)@,
                collection_id,
                access_caller(token@, old(self).verifying_key(), now),
            ) matches Err(e) ==> r == Err::<(), CollectionError>(e) && final(self)@ == old(self)@,
            mutation_check(
                old(self)@,
                collection_id,
                access_caller(token@, old(self).verifying_key(), now),
            ) matches Ok(i) ==> r is Ok && final(self)@ == old(self)@.update(
                i,
                switched(old(self)@[i], is_public, now),
            ),
    {
        let caller = match resolve_caller(&self.authority, token, now) {
            Ok(u) => u,
            Err(e) => {
                return Err(e);
            },
        };
        let i = match self.find(collection_id) {
            Some(i) => i,
            None => {
                return Err(CollectionError::NotFound);
            },
        };
        if self.items[i].owner != caller {
            return Err(CollectionError::Forbidden);
        }
        let ghost before = self.items@;
        let mut c = self.items.remove(i);
        c.is_public = is_public;
        c.updated_at = now;
        self.items.insert(i, c);
        proof {
            assert(self.items@ =~= before.update(i as int, switched(before[i as int], is_public, now)));
        }
        Ok(())
    }

    /// Deletes a collection, for its owner only.
    pub fn delete_collection(&mut self, collection_id: i32, token: &str, now: u64) -> (r: Result<
        (),
        CollectionError,
    >)
        requires
            old(self).wf(),
        ensures
            final(self).wf(),
            final(self).verifying_key() == old(self).verifying_key(),
            mutation_check(
                old(self)@,
                collection_id,
                access_caller(token@, old(self).verifying_key(), now),
            ) matches Err(e) ==> r == Err::<(), CollectionError>(e) && final(self)@ == old(self)@,
            mutation_check(
                old(self)@,
                collection_id,
                access_caller(token@, old(self).verifying_key(), now),
            ) matches Ok(i) ==> r is Ok && final(self)@ == old(self)@.remove(i),
    {
        let caller = match resolve_caller(&self.authority, token, now) {
            Ok(u) => u,
            Err(e) => {
                return Err(e);
            },
        };
        let i = match self.find(collection_id) {
            Some(i) => i,
            None => {
                return Err(CollectionError::NotFound);
            },
        };
        if self.items[i].owner != caller {
            return Err(CollectionError::Forbidden);
        }
        let ghost before = self.items@;
        self.items.remove(i);
        proof {
            assert forall|a: int, b: int|
                0 <= a < self.items@.len() && 0 <= b < self.items@.len() && a != b implies (
            #[trigger] self.items@[a]).id != (#[trigger] self.items@[b]).id by {
                let a0 = if a < i { a } else { a + 1 };
                let b0 = if b < i { b } else { b + 1 };
                assert(self.items@[a] == before[a0]);
                assert(self.items@[b] == before[b0]);
            }
            assert forall|a: int| 0 <= a < self.items@.len() implies (#[trigger] self.items@[a]).id
                < self.next_id && fields_check(
                self.items@[a].name@,
                opt_view(self.items@[a].description),
            ) is Ok by {
                let a0 = if a < i { a } else { a + 1 };
                assert(self.items@[a] == before[a0]);
            }
        }
        Ok(())
    }

    /// Replaces a collection's name, description and visibility at instant
    /// `now`, for its owner only. The new fields are checked first.
    pub fn update_collection(
        &mut self,
        collection_id: i32,
        token: &str,
        data: UpdatedCollection,
        now: u64,
    ) -> (r: Result<(), CollectionError>)
        requires
            old(self).wf(),
        ensures
            final(self).wf(),
            final(self).verifying_key() == old(self).verifying_key(),
            r is Err ==> final(self)@ == old(self)@,
            fields_check(data.name@, opt_view(data.description)) matches Err(e) ==> r == Err::<
                (),
                CollectionError,
            >(e),
            fields_check(data.name@, opt_view(data.description)) is Ok ==> match mutation_check(
                old(self)@,
                collection_id,
                access_caller(token@, old(self).verifying_key(), now),
            ) {
                Err(e) => r == Err::<(), CollectionError>(e),
                Ok(i) => r is Ok && final(self)@ == old(self)@.update(
                    i,
                    updated(old(self)@[i], data, now),
                ),
            },
    {
        match validate_fields(data.name.as_str(), &data.description) {
            Err(e) => {
                return Err(e);
            },
            Ok(()) => {},
        }
        let caller = match resolve_caller(&self.authority, token, now) {
            Ok(u) => u,
            Err(e) => {
                return Err(e);
            },
        };
        let i = match self.find(collection_id) {
            Some(i) => i,
            None => {
                return Err(CollectionError::NotFound);
            },
        };
        if self.items[i].owner != caller {
            return Err(CollectionError::Forbidden);
        }
        let ghost before = self.items@;
        let ghost d = data;
        let mut c = self.items.remove(i);
        c.name = data.name;
        c.description = data.description;
        c.is_public = data.is_public;
        c.updated_at = now;
        self.items.insert(i, c);
        proof {
            assert(self.items@ =~= before.update(i as int, updated(before[i as int], d, now)));
        }
        Ok(())
    }
}

/// Ownership: a caller other than the owner can neither switch, update nor
/// delete a collection (the check refuses with `Forbidden`, and the
/// operations then leave the store unchanged), while the owner passes it.
pub proof fn lemma_only_owner_mutates(items: Seq<Collection>, i: int, intruder: u128)
    requires
        0 <= i < items.len(),
        forall|a: int, b: int|
            0 <= a < items.len() && 0 <= b < items.len() && a != b ==> (#[trigger] items[a]).id != (
            #[trigger] items[b]).id,
        intruder != items[i].owner,
    ensures
        mutation_check(items, items[i].id, Some(intruder)) == Err::<int, CollectionError>(
            CollectionError::Forbidden,
        ),
        mutation_check(items, items[i].id, Some(items[i].owner)) == Ok::<int, CollectionError>(i),
        mutation_check(items, items[i].id, None) == Err::<int, CollectionError>(
            CollectionError::InvalidToken,
        ),
{
    let id = items[i].id;
    assert(has_id(items, id));
    let p = id_position(items, id);
    if p != i {
        assert(items[p].id != items[i].id);
    }
}

} // verus!
