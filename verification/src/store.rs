//! The in-memory credential store: an indexed table mapping each issued
//! access token to the user identity that owns it.
//!
//! The store enforces two uniqueness invariants atomically with every write:
//! no two records share a token, and no two records share an owner ("one
//! active token per user"). Tokens are memory-only by design; a process
//! restart empties the store and users re-authenticate.

use vstd::prelude::*;

use crate::error::{EnumErrorCode, HoneyIdError};
use crate::ids::UserPublicId;

verus! {

/// One issued credential: an internal sequential id (assigned at insert,
/// never reused), the owning user, and the access token value.
#[derive(Debug, Clone, Copy, PartialEq, Eq, Structural)]
pub struct TokenRecord {
    /// Internal sequential identifier, equal to the record's position.
    pub id: u64,
    /// The user the token was issued to.
    pub public_id: UserPublicId,
    /// The 128-bit access token value.
    pub token: u128,
}

/// Storage abstraction for issued access tokens, as needed by the
/// connection-authorization handlers: insert on receipt of a credential
/// callback, unique-key lookup on connection establishment.
pub trait TokenStorage: Sized {
    /// Validity of the store's internal state; established by constructors
    /// and preserved by every operation.
    spec fn inv(&self) -> bool;

    /// Whether a record with this token value exists.
    spec fn contains_token(&self, token: u128) -> bool;

    /// Whether some record is owned by this user.
    spec fn contains_owner(&self, owner: UserPublicId) -> bool;

    /// The owner of the record holding `token`; meaningful only when
    /// `contains_token(token)` holds.
    spec fn owner_of(&self, token: u128) -> UserPublicId;

    /// Stores a received `token` belonging to the user with `user_pub_id`.
    /// Fails with a duplicate-key error when the token is already present or
    /// the user already has a token; on failure the store is unchanged.
    fn store_token(&mut self, user_pub_id: UserPublicId, token: u128) -> (r: Result<
        (),
        HoneyIdError,
    >)
        requires
            old(self).inv(),
        ensures
            final(self).inv(),
            r is Ok <==> (!old(self).contains_token(token) && !old(self).contains_owner(
                user_pub_id,
            )),
            r is Ok ==> {
                &&& forall|t: u128|
                    #[trigger] final(self).contains_token(t) <==> (old(self).contains_token(t) || t
                        == token)
                &&& forall|u: UserPublicId|
                    #[trigger] final(self).contains_owner(u) <==> (old(self).contains_owner(u) || u
                        == user_pub_id)
                &&& final(self).owner_of(token) == user_pub_id
                &&& forall|t: u128|
                    t != token && old(self).contains_token(t) ==> #[trigger] final(self).owner_of(t)
                        == old(self).owner_of(t)
            },
            r is Err ==> *final(self) == *old(self),
            r matches Err(e) ==> e.code == EnumErrorCode::DuplicateRequest.spec_code(),
    ;

    /// Validates `token` and returns its owner when the token was issued.
    /// A pure lookup: the store is never changed.
    fn validate_token(&self, token: u128) -> (r: Result<UserPublicId, HoneyIdError>)
        requires
            self.inv(),
        ensures
            r is Ok <==> self.contains_token(token),
            r matches Ok(o) ==> o == self.owner_of(token),
            r matches Err(e) ==> e.code == EnumErrorCode::NotFound.spec_code(),
    ;
}

/// Law: after a successful insert of `(owner, token)` into any store, a
/// subsequent validation of `token` resolves to exactly `owner`, and a second
/// insert that reuses either the same owner or the same token must fail.
///
/// The hypotheses are exactly what [`TokenStorage::store_token`] ensures of a
/// successful call on a store that lacked both keys; the conclusions are the
/// conditions under which [`TokenStorage::validate_token`] answers `owner`
/// and a second `store_token` answers an error.
pub proof fn lemma_insert_then_validate<T: TokenStorage>(
    pre: T,
    post: T,
    owner: UserPublicId,
    token: u128,
    owner2: UserPublicId,
    token2: u128,
)
    requires
        !pre.contains_token(token),
        !pre.contains_owner(owner),
        forall|t: u128| #[trigger] post.contains_token(t) <==> (pre.contains_token(t) || t == token),
        forall|u: UserPublicId|
            #[trigger] post.contains_owner(u) <==> (pre.contains_owner(u) || u == owner),
        post.owner_of(token) == owner,
    ensures
        post.contains_token(token),
        post.owner_of(token) == owner,
        owner2 == owner || token2 == token ==> (post.contains_token(token2) || post.contains_owner(
            owner2,
        )),
{
}

/// Law: in every well-formed table state — that is, after any sequence of
/// successful inserts, since inserts are the only writes and each preserves
/// well-formedness — every recorded token validates to exactly the owner it
/// was recorded with.
pub proof fn lemma_all_records_validate(s: TokenWorkTableStorage, i: int)
    requires
        s.wf(),
        0 <= i < s.rows_seq().len(),
    ensures
        s.contains_token(s.rows_seq()[i].token),
        s.owner_of(s.rows_seq()[i].token) == s.rows_seq()[i].public_id,
{
    let token = s.rows_seq()[i].token;
    assert(s.contains_token(token));
    let w = choose|j: int|
        0 <= j < s.rows_seq().len() && (#[trigger] s.rows_seq()[j]).token == token;
    assert(s.rows_seq()[w].token == token);
    if w < i {
        assert(s.rows_seq()[w].token != s.rows_seq()[i].token);
    } else if w > i {
        assert(s.rows_seq()[i].token != s.rows_seq()[w].token);
    }
}

/// The crate's own indexed token table: a growable sequence of records with
/// unique owners and unique tokens, looked up by linear scans.
pub struct TokenWorkTableStorage {
    rows: Vec<TokenRecord>,
}

impl TokenWorkTableStorage {
    /// The records currently held, in insertion order.
    pub closed spec fn rows_seq(&self) -> Seq<TokenRecord> {
        self.rows@
    }

    /// Well-formedness: sequential ids match positions, and both the owner
    /// column and the token column are unique.
    pub open spec fn wf(&self) -> bool {
        &&& forall|i: int|
            0 <= i < self.rows_seq().len() ==> (#[trigger] self.rows_seq()[i]).id == i
        &&& forall|i: int, j: int|
            0 <= i < j < self.rows_seq().len() ==> (#[trigger] self.rows_seq()[i]).public_id != (
            #[trigger] self.rows_seq()[j]).public_id
        &&& forall|i: int, j: int|
            0 <= i < j < self.rows_seq().len() ==> (#[trigger] self.rows_seq()[i]).token != (
            #[trigger] self.rows_seq()[j]).token
    }

    /// Creates an empty store.
    pub fn new() -> (r: Self)
        ensures
            r.inv(),
            r.rows_seq() == Seq::<TokenRecord>::empty(),
    {
        TokenWorkTableStorage { rows: Vec::new() }
    }

    /// The number of records held.
    pub fn len(&self) -> (r: usize)
        ensures
            r == self.rows_seq().len(),
    {
        self.rows.len()
    }
}

impl TokenStorage for TokenWorkTableStorage {
    open spec fn inv(&self) -> bool {
        self.wf()
    }

    open spec fn contains_token(&self, token: u128) -> bool {
        exists|i: int| 0 <= i < self.rows_seq().len() && (#[trigger] self.rows_seq()[i]).token == token
    }

    open spec fn contains_owner(&self, owner: UserPublicId) -> bool {
        exists|i: int|
            0 <= i < self.rows_seq().len() && (#[trigger] self.rows_seq()[i]).public_id == owner
    }

    open spec fn owner_of(&self, token: u128) -> UserPublicId {
        let i = choose|i: int|
            0 <= i < self.rows_seq().len() && (#[trigger] self.rows_seq()[i]).token == token;
        self.rows_seq()[i].public_id
    }

    fn store_token(&mut self, user_pub_id: UserPublicId, token: u128) -> (r: Result<
        (),
        HoneyIdError,
    >) {
        let n = self.rows.len();
        let mut i: usize = 0;
        while i < n
            invariant
                *self == *old(self),
                old(self).inv(),
                n == self.rows_seq().len(),
                0 <= i <= n,
                forall|j: int|
                    0 <= j < i ==> (#[trigger] self.rows_seq()[j]).token != token && (
                    #[trigger] self.rows_seq()[j]).public_id != user_pub_id,
            decreases n - i,
        {
            let row = &self.rows[i];
            if row.token == token || row.public_id == user_pub_id {
                proof {
                    assert(self.rows_seq()[i as int].token == row.token);
                    assert(self.rows_seq()[i as int].public_id == row.public_id);
                }
                return Err(
                    HoneyIdError::from_enum(
                        EnumErrorCode::DuplicateRequest,
                        "duplicate key: owner or token already present".to_owned(),
                    ),
                );
            }
            i += 1;
        }
        let id = self.rows.len() as u64;
        self.rows.push(TokenRecord { id, public_id: user_pub_id, token });
        proof {
            let rec = TokenRecord { id, public_id: user_pub_id, token };
            let rows = self.rows_seq();
            let old_rows = old(self).rows_seq();
            let m = old_rows.len() as int;
            assert(rows =~= old_rows.push(rec));
            assert(rows[m] == rec);
            assert(forall|j: int| 0 <= j < m ==> rows[j] == old_rows[j]);
            // both uniqueness columns and the id column still hold
            assert forall|a: int| 0 <= a < rows.len() implies (#[trigger] rows[a]).id == a by {
                if a < m {
                    assert(old_rows[a].id == a);
                }
            }
            assert forall|a: int, b: int| 0 <= a < b < rows.len() implies (
            #[trigger] rows[a]).public_id != (#[trigger] rows[b]).public_id by {
                if b < m {
                    assert(old_rows[a].public_id != old_rows[b].public_id);
                } else {
                    assert(old_rows[a].public_id != user_pub_id);
                }
            }
            assert forall|a: int, b: int| 0 <= a < b < rows.len() implies (#[trigger] rows[a]).token
                != (#[trigger] rows[b]).token by {
                if b < m {
                    assert(old_rows[a].token != old_rows[b].token);
                } else {
                    assert(old_rows[a].token != token);
                }
            }
            assert(self.wf());
            // membership in either column changed by exactly the new record
            assert forall|t: u128| #[trigger] self.contains_token(t) implies (old(
                self,
            ).contains_token(t) || t == token) by {
                let j = choose|j: int| 0 <= j < rows.len() && (#[trigger] rows[j]).token == t;
                if j < m {
                    assert(old_rows[j].token == t);
                }
            }
            assert forall|t: u128| (old(self).contains_token(t) || t
                == token) implies #[trigger] self.contains_token(t) by {
                if t == token {
                    assert(rows[m].token == t);
                } else {
                    let j = choose|j: int|
                        0 <= j < old_rows.len() && (#[trigger] old_rows[j]).token == t;
                    assert(rows[j].token == t);
                }
            }
            assert forall|u: UserPublicId| #[trigger] self.contains_owner(u) implies (old(
                self,
            ).contains_owner(u) || u == user_pub_id) by {
                let j = choose|j: int| 0 <= j < rows.len() && (#[trigger] rows[j]).public_id == u;
                if j < m {
                    assert(old_rows[j].public_id == u);
                }
            }
            assert forall|u: UserPublicId| (old(self).contains_owner(u) || u
                == user_pub_id) implies #[trigger] self.contains_owner(u) by {
                if u == user_pub_id {
                    assert(rows[m].public_id == u);
                } else {
                    let j = choose|j: int|
                        0 <= j < old_rows.len() && (#[trigger] old_rows[j]).public_id == u;
                    assert(rows[j].public_id == u);
                }
            }
            // the new token resolves to its owner, older tokens to theirs
            assert(self.contains_token(token));
            let wn = choose|j: int| 0 <= j < rows.len() && (#[trigger] rows[j]).token == token;
            assert(wn == m);
            assert forall|t: u128| t != token && old(self).contains_token(
                t,
            ) implies #[trigger] self.owner_of(t) == old(self).owner_of(t) by {
                let wo = choose|j: int|
                    0 <= j < old_rows.len() && (#[trigger] old_rows[j]).token == t;
                assert(rows[wo].token == t);
                assert(self.contains_token(t));
                let w = choose|j: int| 0 <= j < rows.len() && (#[trigger] rows[j]).token == t;
                assert(w == wo);
            }
        }
        Ok(())
    }

    fn validate_token(&self, token: u128) -> (r: Result<UserPublicId, HoneyIdError>) {
        let n = self.rows.len();
        let mut i: usize = 0;
        while i < n
            invariant
                self.inv(),
                n == self.rows_seq().len(),
                0 <= i <= n,
                forall|j: int| 0 <= j < i ==> (#[trigger] self.rows_seq()[j]).token != token,
            decreases n - i,
        {
            let row = &self.rows[i];
            if row.token == token {
                proof {
                    assert(self.rows_seq()[i as int].token == token);
                    assert(self.contains_token(token));
                    let w = choose|j: int|
                        0 <= j < self.rows_seq().len() && (#[trigger] self.rows_seq()[j]).token
                            == token;
                    assert(self.rows_seq()[w].token == token);
                    if w < i as int {
                        assert(self.rows_seq()[w].token != self.rows_seq()[i as int].token);
                    } else if w > i as int {
                        assert(self.rows_seq()[i as int].token != self.rows_seq()[w].token);
                    }
                    assert(w == i as int);
                }
                return Ok(row.public_id);
            }
            i += 1;
        }
        Err(HoneyIdError::from_enum(EnumErrorCode::NotFound, "token not found".to_owned()))
    }
}

} // verus!
