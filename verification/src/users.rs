//! Users and the authentication service: signup and login.
//!
//! A signup stores a user record keyed by username, with the password kept
//! only as its digest, and issues an initial session token. A login checks
//! the presented password against the stored digest and then either
//! refreshes the user's still-live token in place or rotates an expired
//! (or missing) one for a freshly minted secret.

use vstd::prelude::*;

use crate::clock::{
    format_timestamp, timestamp_text_of, MAX_NOW, MIN_STAMP, TTL_ISSUE_MILLIS, TTL_REFRESH_MILLIS,
};
use crate::database::{
    cleared_ref, ref_is, Database, LoginErrors, SessionTokenErrors, SignupErrors, UserRecord,
};
use crate::token::{
    create_token_post, delete_post, expiry_check, issued, new_secret, refresh_post, Token,
};

verus! {

/// The hexadecimal digest that the hash function yields for a text.
pub uninterp spec fn sha512_hex_of(s: Seq<char>) -> Seq<char>;

/// Relies on sha2's `Sha512` (via the `Digest` trait) and the lowercase
/// hexadecimal rendering of its 64-byte output: a pure function of the
/// input text alone, named `sha512_hex_of`.
#[verifier::external_body]
pub fn generate_sha512_string(string: String) -> (r: String)
    ensures
        r@ == sha512_hex_of(string@),
        r@.len() == 128,
{
    let mut hasher = <sha2::Sha512 as sha2::Digest>::new();
    sha2::Digest::update(&mut hasher, string.as_bytes());
    let result = sha2::Digest::finalize(hasher.clone());
    format!("{:x}", result)
}

/// The body of a signup request: all fields as the caller sent them.
pub struct AuthUserSignupRequest {
    pub username: String,
    pub password: String,
    pub email: String,
}

/// The body of a login request.
pub struct AuthUserLoginRequest {
    pub username: String,
    pub password: String,
}

/// A user as the caller sees one: the unique username, the contact address,
/// the current session token when one is attached, and the password digest
/// (never the password itself).
#[derive(Debug)]
pub struct User {
    pub token: Option<Token>,
    pub username: String,
    pub email: String,
    pub hashed_pass: String,
}

impl User {
    /// A fresh user for the given credentials: no token attached yet, the
    /// password stored only as its digest.
    pub fn new(username: String, password: String, email: String) -> (u: User)
        ensures
            u.token is None,
            u.username@ == username@,
            u.email@ == email@,
            u.hashed_pass@ == sha512_hex_of(password@),
    {
        User { token: None, username, hashed_pass: generate_sha512_string(password), email }
    }
}

/// The login credentials match a stored account: the username is known and
/// the presented password hashes to the stored digest.
pub open spec fn cred_ok(db: Database, name: Seq<char>, pass: Seq<char>) -> bool {
    db.contains_user(name) && db.user_of(name).hashed_pass@ == sha512_hex_of(pass)
}

/// The instant a token issued at `now` expires.
pub open spec fn issue_expiry(now: i64) -> i64 {
    (now + TTL_ISSUE_MILLIS) as i64
}

/// The instant a token refreshed at `now` expires.
pub open spec fn refresh_expiry(now: i64) -> i64 {
    (now + TTL_REFRESH_MILLIS) as i64
}

/// The caller-facing user a successful signup or login hands back: the
/// stored record's fields with the current token attached.
pub open spec fn returned_user(
    ru: User,
    u: UserRecord,
    secret: Seq<char>,
    expiry_text: Seq<char>,
) -> bool {
    &&& ru.username@ == u.username@
    &&& ru.email@ == u.email@
    &&& ru.hashed_pass@ == u.hashed_pass@
    &&& match ru.token {
        Option::Some(t) => t.secret@ == secret && t.expiry@ == expiry_text,
        Option::None => false,
    }
}

/// What a signup leaves behind: on a fresh username, the stored user record
/// with its digest, a token issued under the given secret and linked to the
/// user, and everything else in place; on a taken username, the store
/// untouched and the collision reported.
pub open spec fn add_user_post(
    pre: Database,
    post: Database,
    u: User,
    secret: Seq<char>,
    now: i64,
    r: Result<User, SignupErrors>,
) -> bool {
    if pre.contains_user(u.username@) {
        &&& r == Result::<User, SignupErrors>::Err(SignupErrors::UsernameTaken)
        &&& post.users@ == pre.users@
        &&& post.tokens@ == pre.tokens@
    } else {
        &&& post.contains_user(u.username@)
        &&& post.user_of(u.username@).email@ == u.email@
        &&& post.user_of(u.username@).hashed_pass@ == u.hashed_pass@
        &&& ref_is(post.user_of(u.username@), secret)
        &&& post.contains_token(secret)
        &&& issued(secret, u.username@, now, post.token_of(secret))
        &&& forall|s: Seq<char>| s != secret ==> post.contains_token(s) == pre.contains_token(s)
        &&& forall|s: Seq<char>|
            s != secret && pre.contains_token(s) ==> post.token_of(s) == pre.token_of(s)
        &&& forall|n: Seq<char>|
            n != u.username@ ==> post.contains_user(n) == pre.contains_user(n)
        &&& forall|n: Seq<char>|
            n != u.username@ && pre.contains_user(n) ==> post.user_of(n) == pre.user_of(n)
        &&& match r {
            Result::Ok(ru) => returned_user(
                ru,
                post.user_of(u.username@),
                secret,
                timestamp_text_of(issue_expiry(now)),
            ),
            Result::Err(_) => false,
        }
    }
}

/// The secret of the user's still-live token at `now`, if they have one:
/// their reference must name a stored token that has not yet expired.
pub open spec fn live_secret(db: Database, u: UserRecord, now: i64) -> Option<Seq<char>> {
    match u.token_secret {
        Option::Some(s) => if db.contains_token(s@) && now < db.token_of(s@).expiry {
            Option::Some(s@)
        } else {
            Option::<Seq<char>>::None
        },
        Option::None => Option::<Seq<char>>::None,
    }
}

/// The secret the user's reference names, live or not.
pub open spec fn referenced_secret(u: UserRecord) -> Option<Seq<char>> {
    match u.token_secret {
        Option::Some(s) => Option::Some(s@),
        Option::None => Option::<Seq<char>>::None,
    }
}

/// A rotation: whatever token the user referenced before (`old_s`) is gone,
/// a token freshly issued under `fresh` is stored and linked to the user,
/// and nothing else moves — except that any other reference to the deleted
/// secret is cleared with it.
pub open spec fn rotate_post(
    pre: Database,
    post: Database,
    name: Seq<char>,
    now: i64,
    fresh: Seq<char>,
    old_s: Option<Seq<char>>,
) -> bool {
    &&& post.contains_token(fresh)
    &&& issued(fresh, name, now, post.token_of(fresh))
    &&& ref_is(post.user_of(name), fresh)
    &&& post.user_of(name).username@ == name
    &&& post.user_of(name).email == pre.user_of(name).email
    &&& post.user_of(name).hashed_pass == pre.user_of(name).hashed_pass
    &&& match old_s {
        Option::Some(s) => s != fresh ==> !post.contains_token(s),
        Option::None => true,
    }
    &&& forall|s: Seq<char>|
        s != fresh && Option::Some(s) != old_s ==> post.contains_token(s) == pre.contains_token(
            s,
        )
    &&& forall|s: Seq<char>|
        s != fresh && Option::Some(s) != old_s && pre.contains_token(s) ==> post.token_of(s)
            == pre.token_of(s)
    &&& forall|n: Seq<char>| post.contains_user(n) == pre.contains_user(n)
    &&& forall|n: Seq<char>|
        n != name && pre.contains_user(n) ==> post.user_of(n) == (if (match old_s {
            Option::Some(s) => ref_is(pre.user_of(n), s),
            Option::None => false,
        }) {
            cleared_ref(pre.user_of(n))
        } else {
            pre.user_of(n)
        })
}

/// What a login leaves behind. Credentials that match no stored account —
/// unknown username and wrong password alike — are turned away with the
/// one `NoSuchEntry` outcome and the store untouched. Matching credentials
/// always succeed: a still-live token is refreshed in place and handed
/// back under its unchanged secret; an expired or missing one is rotated
/// for a token freshly issued under `fresh`.
pub open spec fn login_post(
    pre: Database,
    post: Database,
    name: Seq<char>,
    pass: Seq<char>,
    now: i64,
    fresh: Seq<char>,
    r: Result<User, LoginErrors>,
) -> bool {
    if !cred_ok(pre, name, pass) {
        &&& r == Result::<User, LoginErrors>::Err(LoginErrors::NoSuchEntry)
        &&& post.users@ == pre.users@
        &&& post.tokens@ == pre.tokens@
    } else {
        let u = pre.user_of(name);
        match live_secret(pre, u, now) {
            Option::Some(s) => {
                &&& refresh_post(pre, post, s, now)
                &&& match r {
                    Result::Ok(ru) => returned_user(
                        ru,
                        u,
                        s,
                        timestamp_text_of(refresh_expiry(now)),
                    ),
                    Result::Err(_) => false,
                }
            },
            Option::None => {
                &&& rotate_post(pre, post, name, now, fresh, referenced_secret(u))
                &&& match r {
                    Result::Ok(ru) => returned_user(
                        ru,
                        u,
                        fresh,
                        timestamp_text_of(issue_expiry(now)),
                    ),
                    Result::Err(_) => false,
                }
            },
        }
    }
}

impl Database {
    /// Stores a new user under their username and issues their first
    /// session token under the given secret. A username already stored is
    /// reported as taken, with nothing changed.
    pub fn add_user_at(&mut self, new_user: User, token: &str, now: i64) -> (r: Result<
        User,
        SignupErrors,
    >)
        requires
            old(self).wf(),
            MIN_STAMP <= now <= MAX_NOW,
        ensures
            final(self).wf(),
            add_user_post(*old(self), *final(self), new_user, token@, now, r),
    {
        let ghost pre = *old(self);
        let uname: String = new_user.username.clone();
        match self.find_user(&uname) {
            Some(_) => {
                return Err(SignupErrors::UsernameTaken);
            },
            None => {},
        }
        let rec = UserRecord {
            username: new_user.username.clone(),
            email: new_user.email.clone(),
            hashed_pass: new_user.hashed_pass.clone(),
            token_secret: None,
        };
        self.users.push(rec);
        proof {
            Database::lemma_users_push(pre, *self, self.users@.last());
            assert(self.tokens@ == pre.tokens@);
        }
        let ghost mid = *self;
        self.create_token_at(token, uname.as_str(), now);
        let tok = Token { secret: token.to_owned(), expiry: format_timestamp(now + TTL_ISSUE_MILLIS) };
        let ret = User {
            token: Some(tok),
            username: new_user.username,
            email: new_user.email,
            hashed_pass: new_user.hashed_pass,
        };
        proof {
            let name = uname@;
            assert(mid.user_of(name) == mid.users@.last());
            assert(create_token_post(mid, *self, token@, name, now));
            assert forall|n: Seq<char>| n != name implies self.contains_user(n)
                == pre.contains_user(n) by {
                assert(self.contains_user(n) == mid.contains_user(n));
            }
            assert forall|n: Seq<char>| n != name && pre.contains_user(n) implies self.user_of(n)
                == pre.user_of(n) by {
                assert(self.user_of(n) == mid.user_of(n));
            }
        }
        Ok(ret)
    }

    /// Authenticates a login attempt. Credentials that match no account are
    /// turned away as `NoSuchEntry`, whichever part failed. On a match, the
    /// user's still-live token is refreshed in place; an expired or missing
    /// one is deleted and replaced by a token issued under `fresh`. The
    /// user comes back with their current token attached.
    pub fn login_at(&mut self, username: &str, password: &str, now: i64, fresh: &str) -> (r:
        Result<User, LoginErrors>)
        requires
            old(self).wf(),
            MIN_STAMP <= now <= MAX_NOW,
        ensures
            final(self).wf(),
            login_post(*old(self), *final(self), username@, password@, now, fresh@, r),
    {
        let ghost pre = *old(self);
        let ghost name = username@;
        let uname: String = username.to_owned();
        let idx = match self.find_user(&uname) {
            Some(i) => i,
            None => {
                return Err(LoginErrors::NoSuchEntry);
            },
        };
        proof {
            pre.lemma_user_at(idx as int);
        }
        let hashed = generate_sha512_string(password.to_owned());
        let pass_ok = self.users[idx].hashed_pass == hashed;
        if !pass_ok {
            return Err(LoginErrors::NoSuchEntry);
        }
        proof {
            assert(cred_ok(pre, name, password@));
        }
        let email = self.users[idx].email.clone();
        let hp = self.users[idx].hashed_pass.clone();
        let ghost u = pre.user_of(name);
        let secret_opt: Option<String> = match &self.users[idx].token_secret {
            Some(s) => Some(s.clone()),
            None => None,
        };
        match secret_opt {
            Some(sec) => {
                proof {
                    assert(pre.contains_token(sec@));
                }
                let expired = match self.is_sessionid_expired_at(sec.as_str(), now) {
                    Ok(b) => b,
                    Err(_) => {
                        proof {
                            assert(false);
                        }
                        true
                    },
                };
                if expired {
                    proof {
                        assert(live_secret(pre, u, now) is None);
                    }
                    self.delete_token(sec.as_str());
                    let ghost mid = *self;
                    proof {
                        assert(delete_post(pre, mid, sec@));
                        assert(mid.contains_user(name));
                    }
                    self.create_token_at(fresh, uname.as_str(), now);
                    let tok = Token {
                        secret: fresh.to_owned(),
                        expiry: format_timestamp(now + TTL_ISSUE_MILLIS),
                    };
                    let ret = User { token: Some(tok), username: uname, email, hashed_pass: hp };
                    proof {
                        assert(create_token_post(mid, *self, fresh@, name, now));
                        let k = pre.user_ix(name);
                        assert(ref_is(pre.users@[k], sec@));
                        assert(mid.users@[k] == cleared_ref(pre.users@[k]));
                        assert(mid.user_ix(name) == k);
                        assert(mid.user_of(name).email == u.email);
                        assert(mid.user_of(name).hashed_pass == u.hashed_pass);
                        assert forall|n: Seq<char>|
                            n != name && pre.contains_user(n) implies self.user_of(n) == (
                        if ref_is(pre.user_of(n), sec@) {
                            cleared_ref(pre.user_of(n))
                        } else {
                            pre.user_of(n)
                        }) by {
                            let j = pre.user_ix(n);
                            assert(0 <= j < pre.users@.len());
                            assert(mid.users@[j] == (if ref_is(pre.users@[j], sec@) {
                                cleared_ref(pre.users@[j])
                            } else {
                                pre.users@[j]
                            }));
                            assert(mid.user_ix(n) == j);
                            assert(mid.user_of(n) == mid.users@[j]);
                            assert(self.user_of(n) == mid.user_of(n));
                        }
                        assert(rotate_post(pre, *self, name, now, fresh@, Option::Some(sec@)));
                        assert(referenced_secret(u) == Option::Some(sec@));
                    }
                    Ok(ret)
                } else {
                    proof {
                        assert(live_secret(pre, u, now) == Option::Some(sec@));
                    }
                    self.refresh_token_at(sec.as_str(), now);
                    let tok = Token {
                        secret: sec,
                        expiry: format_timestamp(now + TTL_REFRESH_MILLIS),
                    };
                    let ret = User { token: Some(tok), username: uname, email, hashed_pass: hp };
                    Ok(ret)
                }
            },
            None => {
                proof {
                    assert(live_secret(pre, u, now) is None);
                    assert(referenced_secret(u) is None);
                }
                self.create_token_at(fresh, uname.as_str(), now);
                let tok = Token {
                    secret: fresh.to_owned(),
                    expiry: format_timestamp(now + TTL_ISSUE_MILLIS),
                };
                let ret = User { token: Some(tok), username: uname, email, hashed_pass: hp };
                proof {
                    assert(create_token_post(pre, *self, fresh@, name, now));
                    assert(rotate_post(pre, *self, name, now, fresh@, Option::<Seq<char>>::None));
                }
                Ok(ret)
            },
        }
    }

    /// Every stored user, each with their current token fetched and its
    /// expiry rendered.
    pub fn _get_all_users(&self) -> (r: Option<Vec<User>>)
        requires
            self.wf(),
        ensures
            r matches Some(v) && v@.len() == self.users@.len(),
            r matches Some(v) ==> forall|k: int|
                0 <= k < v@.len() ==> fetched(*self, self.users@[k], #[trigger] v@[k]),
    {
        let mut out: Vec<User> = Vec::new();
        let mut k: usize = 0;
        while k < self.users.len()
            invariant
                self.wf(),
                k <= self.users@.len(),
                out@.len() == k,
                forall|j: int| 0 <= j < k ==> fetched(*self, self.users@[j], #[trigger] out@[j]),
            decreases self.users@.len() - k,
        {
            let tok: Option<Token> = match &self.users[k].token_secret {
                Some(s) => {
                    let i = match self.find_token(s) {
                        Some(i) => i,
                        None => {
                            proof {
                                assert(false);
                            }
                            0
                        },
                    };
                    proof {
                        self.lemma_token_at(i as int);
                    }
                    Some(
                        Token {
                            secret: s.clone(),
                            expiry: format_timestamp(self.tokens[i].expiry),
                        },
                    )
                },
                None => None,
            };
            let ru = User {
                token: tok,
                username: self.users[k].username.clone(),
                email: self.users[k].email.clone(),
                hashed_pass: self.users[k].hashed_pass.clone(),
            };
            out.push(ru);
            k += 1;
        }
        Some(out)
    }

    /// `add_user_at` against the wall clock. Whether the username is free
    /// does not depend on the instant drawn.
    pub fn add_user(&mut self, new_user: User, token: &str) -> (r: Result<User, SignupErrors>)
        requires
            old(self).wf(),
        ensures
            final(self).wf(),
            r is Ok <==> !old(self).contains_user(new_user.username@),
            exists|now: i64|
                MIN_STAMP <= now <= MAX_NOW && #[trigger] add_user_post(
                    *old(self),
                    *final(self),
                    new_user,
                    token@,
                    now,
                    r,
                ),
    {
        let ghost nu = new_user;
        let now = crate::clock::current_stamp();
        let r = self.add_user_at(new_user, token, now);
        proof {
            assert(add_user_post(*old(self), *self, nu, token@, now, r));
        }
        r
    }

    /// `login_at` against the wall clock, with a freshly minted secret
    /// standing by for rotation. Whether the credentials match does not
    /// depend on the instant drawn or on the minted secret.
    pub fn login(&mut self, username: &str, password: &str) -> (r: Result<User, LoginErrors>)
        requires
            old(self).wf(),
        ensures
            final(self).wf(),
            r is Ok <==> cred_ok(*old(self), username@, password@),
            r is Err ==> r == Result::<User, LoginErrors>::Err(LoginErrors::NoSuchEntry),
            exists|now: i64, fr: Seq<char>|
                MIN_STAMP <= now <= MAX_NOW && #[trigger] login_post(
                    *old(self),
                    *final(self),
                    username@,
                    password@,
                    now,
                    fr,
                    r,
                ),
    {
        let now = crate::clock::current_stamp();
        let fr = new_secret();
        let r = self.login_at(username, password, now, fr.as_str());
        proof {
            assert(login_post(*old(self), *self, username@, password@, now, fr@, r));
        }
        r
    }
}

/// The stored user `u` as `_get_all_users` reports it: the record's fields
/// with the referenced token fetched and rendered.
pub open spec fn fetched(db: Database, u: UserRecord, ru: User) -> bool {
    &&& ru.username@ == u.username@
    &&& ru.email@ == u.email@
    &&& ru.hashed_pass@ == u.hashed_pass@
    &&& match u.token_secret {
        Option::Some(s) => match ru.token {
            Option::Some(t) => t.secret@ == s@ && t.expiry@ == timestamp_text_of(
                db.token_of(s@).expiry,
            ),
            Option::None => false,
        },
        Option::None => ru.token is None,
    }
}

/// Hashing is a pure function: the same password text always yields the
/// same digest, so the credentials accepted at signup are exactly the
/// credentials a later login accepts. (That distinct texts yield distinct
/// digests is the hash's collision resistance, an expectation about the
/// cryptography and not a theorem.)
pub proof fn lemma_hash_deterministic(p1: Seq<char>, p2: Seq<char>)
    requires
        p1 == p2,
    ensures
        sha512_hex_of(p1) == sha512_hex_of(p2),
{
}

/// A login with credentials that match no stored account — an unknown
/// username and a wrong password alike — is turned away with the one
/// `NoSuchEntry` outcome and leaves the store untouched: the caller cannot
/// tell which part of the credentials failed.
pub proof fn lemma_login_rejects_bad_credentials(
    d0: Database,
    d1: Database,
    name: Seq<char>,
    pass: Seq<char>,
    now: i64,
    fresh: Seq<char>,
    r: Result<User, LoginErrors>,
)
    requires
        login_post(d0, d1, name, pass, now, fresh, r),
        !cred_ok(d0, name, pass),
    ensures
        r == Result::<User, LoginErrors>::Err(LoginErrors::NoSuchEntry),
        d1.users@ == d0.users@,
        d1.tokens@ == d0.tokens@,
{
}

/// A user who has just signed up can immediately log in with the same
/// password, whatever instant the login happens at, and comes away holding
/// a token that stays valid for at least a full refresh window from the
/// moment of return.
pub proof fn lemma_signup_then_login(
    d0: Database,
    d1: Database,
    d2: Database,
    nu: User,
    secret: Seq<char>,
    now1: i64,
    now2: i64,
    pass: Seq<char>,
    fresh: Seq<char>,
    r1: Result<User, SignupErrors>,
    r2: Result<User, LoginErrors>,
)
    requires
        d0.wf(),
        d1.wf(),
        MIN_STAMP <= now1 <= MAX_NOW,
        MIN_STAMP <= now2 <= MAX_NOW,
        nu.hashed_pass@ == sha512_hex_of(pass),
        add_user_post(d0, d1, nu, secret, now1, r1),
        r1 is Ok,
        login_post(d1, d2, nu.username@, pass, now2, fresh, r2),
    ensures
        r2 is Ok,
        match r2 {
            Result::Ok(ru) => match ru.token {
                Option::Some(t) => d2.contains_token(t.secret@) && d2.token_of(t.secret@).expiry
                    >= now2 + TTL_REFRESH_MILLIS,
                Option::None => false,
            },
            Result::Err(_) => true,
        },
{
    let name = nu.username@;
    assert(cred_ok(d1, name, pass));
    let u = d1.user_of(name);
    match live_secret(d1, u, now2) {
        Option::Some(s) => {
            assert(refresh_post(d1, d2, s, now2));
        },
        Option::None => {
            assert(rotate_post(d1, d2, name, now2, fresh, referenced_secret(u)));
        },
    }
}

/// A token found expired at login is rotated: the user comes away holding
/// the freshly minted secret and, as long as the mint did not collide with
/// the old secret, the old secret is gone — any later check of it reports
/// `InvalidSessionToken`.
pub proof fn lemma_expired_token_rotated(
    d0: Database,
    d1: Database,
    name: Seq<char>,
    pass: Seq<char>,
    now: i64,
    fresh: Seq<char>,
    r: Result<User, LoginErrors>,
    s: Seq<char>,
)
    requires
        d0.wf(),
        login_post(d0, d1, name, pass, now, fresh, r),
        cred_ok(d0, name, pass),
        referenced_secret(d0.user_of(name)) == Option::Some(s),
        d0.contains_token(s),
        now >= d0.token_of(s).expiry,
        fresh != s,
    ensures
        r is Ok,
        match r {
            Result::Ok(ru) => match ru.token {
                Option::Some(t) => t.secret@ == fresh,
                Option::None => false,
            },
            Result::Err(_) => true,
        },
        ref_is(d1.user_of(name), fresh),
        d1.contains_token(fresh),
        !d1.contains_token(s),
        forall|later: i64|
            expiry_check(d1, s, later) == Result::<bool, SessionTokenErrors>::Err(
                SessionTokenErrors::InvalidSessionToken,
            ),
{
    let u = d0.user_of(name);
    assert(live_secret(d0, u, now) is None);
    assert(rotate_post(d0, d1, name, now, fresh, Option::Some(s)));
}

} // verus!
