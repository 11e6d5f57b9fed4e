//! The session-token lifecycle: issue, expiry check, refresh, validation.
//!
//! A token is issued with a two-day window and bound to its user; a check on
//! a still-live token refreshes it in place to a one-day window; a check on
//! a missing token reports it invalid. Rotation of an expired token is the
//! login flow's job (see the users module).

use vstd::prelude::*;

use crate::clock::{
    parse_timestamp, timestamp_text_of, MAX_NOW, MAX_STAMP, MIN_STAMP, TTL_ISSUE_MILLIS,
    TTL_REFRESH_MILLIS,
};
use crate::database::{Database, SessionTokenErrors, TokenRecord};

verus! {

/// A session token as the caller sees it: the opaque secret and the expiry
/// instant rendered as a UTC string.
#[derive(Debug, Clone)]
pub struct Token {
    pub expiry: String,
    pub secret: String,
}

impl Token {
    /// Reads the expiry string back as a millisecond timestamp. On a token
    /// the library issued this is the stored instant.
    pub fn expiry_millis(&self) -> (r: Option<i64>)
        ensures
            forall|t: i64|
                MIN_STAMP <= t <= MAX_STAMP && self.expiry@ == timestamp_text_of(t) ==> r
                    == Some(t),
    {
        parse_timestamp(self.expiry.as_str())
    }
}

/// Relies on uuid's `Uuid::new_v4` and `Simple::encode_lower`: a fresh
/// random identifier in its 32-character lowercase hexadecimal form. The
/// result is random, so nothing beyond its length is promised.
#[verifier::external_body]
pub(crate) fn new_secret() -> (r: String)
    ensures
        r@.len() == 32,
{
    let mut buffer = uuid::Uuid::encode_buffer();
    let s = uuid::Uuid::new_v4().simple().encode_lower(&mut buffer);
    s.to_owned()
}

/// The record a fresh issue writes: the given secret, bound to the given
/// user, expiring a full issue window after `now`.
pub open spec fn issued(secret: Seq<char>, name: Seq<char>, now: i64, t: TokenRecord) -> bool {
    t.secret@ == secret && t.owner@ == name && t.expiry == now + TTL_ISSUE_MILLIS
}

/// What an expiry check reports: `Ok(expired?)` for a stored token,
/// `InvalidSessionToken` for an unknown secret. It never reports
/// `ExpiredSessionToken`; that signal belongs to `validate_token`.
pub open spec fn expiry_check(db: Database, secret: Seq<char>, now: i64) -> Result<
    bool,
    SessionTokenErrors,
> {
    if db.contains_token(secret) {
        Result::Ok(now >= db.token_of(secret).expiry)
    } else {
        Result::Err(SessionTokenErrors::InvalidSessionToken)
    }
}

/// A refresh: the named token, if stored, now expires a refresh window
/// after `now`; nothing else moves.
pub open spec fn refresh_post(pre: Database, post: Database, secret: Seq<char>, now: i64) -> bool {
    &&& post.users@ == pre.users@
    &&& post.tokens@.len() == pre.tokens@.len()
    &&& if pre.contains_token(secret) {
        &&& post.contains_token(secret)
        &&& post.token_of(secret).expiry == now + TTL_REFRESH_MILLIS
        &&& post.token_of(secret).secret@ == secret
        &&& post.token_of(secret).owner == pre.token_of(secret).owner
        &&& forall|s: Seq<char>| s != secret ==> post.contains_token(s) == pre.contains_token(s)
        &&& forall|s: Seq<char>|
            s != secret && pre.contains_token(s) ==> post.token_of(s) == pre.token_of(s)
    } else {
        post.tokens@ == pre.tokens@
    }
}

/// An issue: the token store maps `secret` to a freshly issued record, the
/// named user's reference points at it, and nothing else moves.
pub open spec fn create_token_post(
    pre: Database,
    post: Database,
    secret: Seq<char>,
    name: Seq<char>,
    now: i64,
) -> bool {
    &&& post.contains_token(secret)
    &&& issued(secret, name, now, post.token_of(secret))
    &&& forall|s: Seq<char>| s != secret ==> post.contains_token(s) == pre.contains_token(s)
    &&& forall|s: Seq<char>|
        s != secret && pre.contains_token(s) ==> post.token_of(s) == pre.token_of(s)
    &&& post.users@.len() == pre.users@.len()
    &&& forall|n: Seq<char>| post.contains_user(n) == pre.contains_user(n)
    &&& crate::database::ref_is(post.user_of(name), secret)
    &&& post.user_of(name).username@ == name
    &&& post.user_of(name).email == pre.user_of(name).email
    &&& post.user_of(name).hashed_pass == pre.user_of(name).hashed_pass
    &&& forall|n: Seq<char>|
        n != name && pre.contains_user(n) ==> post.user_of(n) == pre.user_of(n)
}

/// A deletion: the named secret is gone from the token store, any user
/// reference to it is cleared, and nothing else moves.
pub open spec fn delete_post(pre: Database, post: Database, secret: Seq<char>) -> bool {
    &&& !post.contains_token(secret)
    &&& forall|s: Seq<char>| s != secret ==> post.contains_token(s) == pre.contains_token(s)
    &&& forall|s: Seq<char>|
        s != secret && pre.contains_token(s) ==> post.token_of(s) == pre.token_of(s)
    &&& post.users@.len() == pre.users@.len()
    &&& forall|k: int|
        0 <= k < pre.users@.len() ==> #[trigger] post.users@[k] == (if crate::database::ref_is(
            pre.users@[k],
            secret,
        ) {
            crate::database::cleared_ref(pre.users@[k])
        } else {
            pre.users@[k]
        })
    &&& forall|n: Seq<char>| post.contains_user(n) == pre.contains_user(n)
    &&& forall|n: Seq<char>| pre.contains_user(n) ==> post.user_ix(n) == pre.user_ix(n)
}

/// What checking a token and refreshing it on success leaves behind.
pub open spec fn validate_post(
    pre: Database,
    post: Database,
    secret: Seq<char>,
    now: i64,
    r: Result<(), SessionTokenErrors>,
) -> bool {
    if !pre.contains_token(secret) {
        &&& r == Result::<(), SessionTokenErrors>::Err(SessionTokenErrors::InvalidSessionToken)
        &&& post.users@ == pre.users@
        &&& post.tokens@ == pre.tokens@
    } else if now >= pre.token_of(secret).expiry {
        &&& r == Result::<(), SessionTokenErrors>::Err(SessionTokenErrors::ExpiredSessionToken)
        &&& post.users@ == pre.users@
        &&& post.tokens@ == pre.tokens@
    } else {
        &&& r == Result::<(), SessionTokenErrors>::Ok(())
        &&& refresh_post(pre, post, secret, now)
    }
}

impl Database {
    /// Whether the session with this secret has expired by `now`: `Ok(true)`
    /// once `now` reaches the stored expiry, `Ok(false)` strictly before it,
    /// `InvalidSessionToken` for a secret the store does not hold. This
    /// check never reports `ExpiredSessionToken`.
    pub fn is_sessionid_expired_at(&self, token: &str, now: i64) -> (r: Result<
        bool,
        SessionTokenErrors,
    >)
        requires
            self.wf(),
        ensures
            r == expiry_check(*self, token@, now),
    {
        let key: String = token.to_owned();
        match self.find_token(&key) {
            Some(i) => {
                proof {
                    self.lemma_token_at(i as int);
                }
                Ok(now >= self.tokens[i].expiry)
            },
            None => Err(SessionTokenErrors::InvalidSessionToken),
        }
    }

    /// Extends the named token, if stored, to a refresh window after `now`.
    /// A secret the store does not hold leaves the store untouched.
    pub fn refresh_token_at(&mut self, token: &str, now: i64)
        requires
            old(self).wf(),
            MIN_STAMP <= now <= MAX_NOW,
        ensures
            final(self).wf(),
            refresh_post(*old(self), *final(self), token@, now),
    {
        let key: String = token.to_owned();
        match self.find_token(&key) {
            Some(i) => {
                proof {
                    old(self).lemma_token_at(i as int);
                }
                self.tokens[i].expiry = now + TTL_REFRESH_MILLIS;
                proof {
                    Database::lemma_tokens_pointwise(*old(self), *self);
                    assert forall|s: Seq<char>|
                        s != key@ && old(self).contains_token(s) implies self.token_of(s) == old(
                        self,
                    ).token_of(s) by {
                        let j = old(self).token_ix(s);
                        assert(j != i);
                        assert(self.tokens@[j] == old(self).tokens@[j]);
                    }
                    assert(self.token_of(key@) == self.tokens@[i as int]);
                }
            },
            None => {},
        }
    }

    /// Writes a freshly issued token under `token`, bound to `username`, and
    /// points the user's reference at it. A record already stored under the
    /// same secret is superseded.
    pub fn create_token_at(&mut self, token: &str, username: &str, now: i64)
        requires
            old(self).wf(),
            old(self).contains_user(username@),
            MIN_STAMP <= now <= MAX_NOW,
        ensures
            final(self).wf(),
            create_token_post(*old(self), *final(self), token@, username@, now),
    {
        let key: String = token.to_owned();
        let rec = TokenRecord {
            secret: token.to_owned(),
            expiry: now + TTL_ISSUE_MILLIS,
            owner: username.to_owned(),
        };
        let ghost mid: Database;
        match self.find_token(&key) {
            Some(i) => {
                proof {
                    old(self).lemma_token_at(i as int);
                }
                self.tokens[i] = rec;
                proof {
                    mid = *self;
                    Database::lemma_tokens_pointwise(*old(self), *self);
                    assert forall|s: Seq<char>|
                        s != key@ && old(self).contains_token(s) implies self.token_of(s) == old(
                        self,
                    ).token_of(s) by {
                        let j = old(self).token_ix(s);
                        assert(j != i);
                        assert(self.tokens@[j] == old(self).tokens@[j]);
                    }
                    assert(self.token_of(key@) == self.tokens@[i as int]);
                }
            },
            None => {
                self.tokens.push(rec);
                proof {
                    mid = *self;
                    Database::lemma_tokens_push(*old(self), *self, self.tokens@.last());
                }
            },
        }
        proof {
            assert(mid == *self);
            assert(mid.contains_token(key@) && issued(key@, username@, now, mid.token_of(key@)));
            assert(mid.users@ == old(self).users@);
            assert(mid.contains_user(username@));
        }
        let uname: String = username.to_owned();
        match self.find_user(&uname) {
            Some(j) => {
                self.users[j].token_secret = Some(token.to_owned());
                proof {
                    mid.lemma_user_at(j as int);
                    Database::lemma_users_pointwise(mid, *self);
                    assert forall|n: Seq<char>|
                        n != username@ && mid.contains_user(n) implies self.user_of(n)
                        == mid.user_of(n) by {
                        let k = mid.user_ix(n);
                        assert(k != j);
                        assert(self.users@[k] == mid.users@[k]);
                    }
                    assert(self.user_of(username@) == self.users@[j as int]);
                    assert(self.tokens@ == mid.tokens@);
                    assert forall|k: int|
                        0 <= k < self.users@.len() implies match (
                    #[trigger] self.users@[k]).token_secret {
                        Option::Some(s) => self.contains_token(s@),
                        Option::None => true,
                    } by {
                        if k != j {
                            assert(self.users@[k] == mid.users@[k]);
                        }
                    }
                }
            },
            None => {
                proof {
                    assert(false);
                }
            },
        }
    }

    /// Deletes the token stored under this secret, clearing any user
    /// reference to it. An unknown secret leaves the token store untouched.
    pub fn delete_token(&mut self, token: &str)
        requires
            old(self).wf(),
        ensures
            final(self).wf(),
            delete_post(*old(self), *final(self), token@),
    {
        let ghost pre = *old(self);
        let key: String = token.to_owned();
        match self.find_token(&key) {
            Some(i) => {
                proof {
                    pre.lemma_token_at(i as int);
                }
                self.tokens.remove(i);
                proof {
                    Database::lemma_tokens_remove(pre, *self, i as int);
                }
            },
            None => {},
        }
        let ghost mid = *self;
        proof {
            assert(!mid.contains_token(key@));
            assert(mid.users@ == pre.users@);
        }
        let mut j: usize = 0;
        while j < self.users.len()
            invariant
                self.users@.len() == pre.users@.len(),
                self.tokens@ == mid.tokens@,
                j <= self.users@.len(),
                forall|k: int|
                    0 <= k < j ==> #[trigger] self.users@[k] == (if crate::database::ref_is(
                        pre.users@[k],
                        key@,
                    ) {
                        crate::database::cleared_ref(pre.users@[k])
                    } else {
                        pre.users@[k]
                    }),
                forall|k: int| j <= k < self.users@.len() ==> self.users@[k] == pre.users@[k],
            decreases self.users@.len() - j,
        {
            let clear = match &self.users[j].token_secret {
                Some(s) => *s == key,
                None => false,
            };
            if clear {
                self.users[j].token_secret = None;
            }
            j += 1;
        }
        proof {
            Database::lemma_users_pointwise(pre, *self);
            assert forall|k: int|
                0 <= k < self.users@.len() implies match (
            #[trigger] self.users@[k]).token_secret {
                Option::Some(s) => self.contains_token(s@),
                Option::None => true,
            } by {
                match self.users@[k].token_secret {
                    Option::Some(s) => {
                        assert(pre.users@[k].token_secret == Option::Some(s));
                        assert(s@ != key@);
                        assert(pre.contains_token(s@));
                    },
                    Option::None => {},
                }
            }
        }
    }

    /// Checks the session with this secret and, when it is still live,
    /// refreshes it in place before reporting success. An expired session is
    /// reported as such for the rotation logic; an unknown secret is
    /// invalid.
    pub fn validate_token_at(&mut self, token: &str, now: i64) -> (r: Result<
        (),
        SessionTokenErrors,
    >)
        requires
            old(self).wf(),
            MIN_STAMP <= now <= MAX_NOW,
        ensures
            final(self).wf(),
            validate_post(*old(self), *final(self), token@, now, r),
    {
        match self.is_sessionid_expired_at(token, now) {
            Ok(expired) => {
                if expired {
                    return Err(SessionTokenErrors::ExpiredSessionToken);
                }
                self.refresh_token_at(token, now);
                Ok(())
            },
            Err(e) => Err(e),
        }
    }
    /// `is_sessionid_expired_at` against the wall clock. Whether a live
    /// token counts as expired depends on the instant drawn; that the secret
    /// is known at all does not.
    pub fn is_sessionid_expired(&self, token: &str) -> (r: Result<bool, SessionTokenErrors>)
        requires
            self.wf(),
        ensures
            r is Ok <==> self.contains_token(token@),
            r is Err ==> r == Result::<bool, SessionTokenErrors>::Err(
                SessionTokenErrors::InvalidSessionToken,
            ),
            exists|now: i64|
                MIN_STAMP <= now <= MAX_NOW && r == #[trigger] expiry_check(*self, token@, now),
    {
        let now = crate::clock::current_stamp();
        let r = self.is_sessionid_expired_at(token, now);
        proof {
            assert(r == expiry_check(*self, token@, now));
        }
        r
    }

    /// `refresh_token_at` against the wall clock.
    pub fn refresh_token(&mut self, token: &str)
        requires
            old(self).wf(),
        ensures
            final(self).wf(),
            exists|now: i64|
                MIN_STAMP <= now <= MAX_NOW && #[trigger] refresh_post(
                    *old(self),
                    *final(self),
                    token@,
                    now,
                ),
    {
        let now = crate::clock::current_stamp();
        self.refresh_token_at(token, now);
    }

    /// `create_token_at` against the wall clock.
    pub fn create_token(&mut self, token: &str, username: &str)
        requires
            old(self).wf(),
            old(self).contains_user(username@),
        ensures
            final(self).wf(),
            exists|now: i64|
                MIN_STAMP <= now <= MAX_NOW && #[trigger] create_token_post(
                    *old(self),
                    *final(self),
                    token@,
                    username@,
                    now,
                ),
    {
        let now = crate::clock::current_stamp();
        self.create_token_at(token, username, now);
    }

    /// `validate_token_at` against the wall clock. An unknown secret is
    /// invalid whatever the clock says; success needs the secret known.
    pub fn validate_token(&mut self, token: &str) -> (r: Result<(), SessionTokenErrors>)
        requires
            old(self).wf(),
        ensures
            final(self).wf(),
            !old(self).contains_token(token@) ==> r == Result::<(), SessionTokenErrors>::Err(
                SessionTokenErrors::InvalidSessionToken,
            ) && final(self).users@ == old(self).users@ && final(self).tokens@ == old(
                self,
            ).tokens@,
            r is Ok ==> old(self).contains_token(token@),
            exists|now: i64|
                MIN_STAMP <= now <= MAX_NOW && #[trigger] validate_post(
                    *old(self),
                    *final(self),
                    token@,
                    now,
                    r,
                ),
    {
        let now = crate::clock::current_stamp();
        self.validate_token_at(token, now)
    }

    /// The stored expiry of the token with this secret, if any.
    pub fn token_expiry_stamp(&self, token: &str) -> (r: Option<i64>)
        requires
            self.wf(),
        ensures
            r == (if self.contains_token(token@) {
                Option::Some(self.token_of(token@).expiry)
            } else {
                Option::<i64>::None
            }),
    {
        let key: String = token.to_owned();
        match self.find_token(&key) {
            Some(i) => {
                proof {
                    self.lemma_token_at(i as int);
                }
                Some(self.tokens[i].expiry)
            },
            None => None,
        }
    }

    /// The secret currently referenced by the user with this name, if any.
    pub fn user_token_secret(&self, username: &str) -> (r: Option<String>)
        requires
            self.wf(),
        ensures
            if self.contains_user(username@) {
                match self.user_of(username@).token_secret {
                    Option::Some(s) => r matches Some(rs) && rs@ == s@,
                    Option::None => r is None,
                }
            } else {
                r is None
            },
    {
        let uname: String = username.to_owned();
        match self.find_user(&uname) {
            Some(i) => {
                proof {
                    self.lemma_user_at(i as int);
                }
                match &self.users[i].token_secret {
                    Some(s) => Some(s.clone()),
                    None => None,
                }
            },
            None => None,
        }
    }
}

/// A token still live at validation keeps its secret and owner and has its
/// expiry strictly increased — provided the refresh window reaches past the
/// old expiry. (A token still carrying more than a full refresh window,
/// e.g. one freshly issued with the longer issue window, is reset to
/// exactly one refresh window, which is no increase; such inputs are left
/// out here.)
pub proof fn lemma_live_token_refresh_extends(
    d0: Database,
    d1: Database,
    s: Seq<char>,
    now: i64,
    r: Result<(), SessionTokenErrors>,
)
    requires
        d0.wf(),
        validate_post(d0, d1, s, now, r),
        d0.contains_token(s),
        now < d0.token_of(s).expiry,
        d0.token_of(s).expiry < now + TTL_REFRESH_MILLIS,
    ensures
        r == Result::<(), SessionTokenErrors>::Ok(()),
        d1.contains_token(s),
        d1.token_of(s).secret@ == s,
        d1.token_of(s).owner == d0.token_of(s).owner,
        d1.token_of(s).expiry > d0.token_of(s).expiry,
{
    assert(refresh_post(d0, d1, s, now));
}

/// Within one instant, validation is idempotent after the first check: the
/// first success pins the expiry to a full refresh window after `now`, and
/// a second check at the same instant finds the token live again and
/// leaves that expiry exactly where it was. Repeated checks never shorten
/// a live session.
pub proof fn lemma_validate_idempotent_same_instant(
    d0: Database,
    d1: Database,
    d2: Database,
    s: Seq<char>,
    now: i64,
    r1: Result<(), SessionTokenErrors>,
    r2: Result<(), SessionTokenErrors>,
)
    requires
        d0.wf(),
        validate_post(d0, d1, s, now, r1),
        r1 == Result::<(), SessionTokenErrors>::Ok(()),
        validate_post(d1, d2, s, now, r2),
    ensures
        r2 == Result::<(), SessionTokenErrors>::Ok(()),
        d1.contains_token(s),
        d1.token_of(s).expiry == now + TTL_REFRESH_MILLIS,
        d2.contains_token(s),
        d2.token_of(s).expiry == d1.token_of(s).expiry,
{
    assert(refresh_post(d0, d1, s, now));
    assert(now < d1.token_of(s).expiry);
    assert(refresh_post(d1, d2, s, now));
}

} // verus!
