//! The credential store: user records and token records, linked by key.
//!
//! The store keeps both kinds of record as independently addressable entries
//! so that a token secret can be looked up directly without loading the
//! owning user first. Usernames and token secrets are unique keys; a user's
//! token reference, when set, always names a stored token.

use vstd::prelude::*;

use crate::clock::{MAX_STAMP, MIN_STAMP};

verus! {

/// A stored user: key, contact address, password digest, and the key of the
/// session token currently linked to the user, if any.
pub struct UserRecord {
    pub username: String,
    pub email: String,
    pub hashed_pass: String,
    pub token_secret: Option<String>,
}

/// A stored session token: its secret (the key), the instant it expires, and
/// the username it was issued to.
pub struct TokenRecord {
    pub secret: String,
    pub expiry: i64,
    pub owner: String,
}

/// Outcomes of checking a presented session token.
#[derive(Debug, PartialEq, Eq)]
pub enum SessionTokenErrors {
    ExpiredSessionToken,
    InvalidSessionToken,
    _NoSessionToken,
}

/// Outcome of a failed login. Unknown usernames and wrong passwords share
/// the one variant on purpose: the caller cannot tell which part failed.
#[derive(Debug, PartialEq, Eq)]
pub enum LoginErrors {
    NoSuchEntry,
}

/// Outcome of a failed signup.
#[derive(Debug, PartialEq, Eq)]
pub enum SignupErrors {
    UsernameTaken,
}

/// The in-memory credential store.
pub struct Database {
    pub users: Vec<UserRecord>,
    pub tokens: Vec<TokenRecord>,
}

/// Does this user record reference exactly the given secret?
pub open spec fn ref_is(u: UserRecord, secret: Seq<char>) -> bool {
    match u.token_secret {
        Option::Some(s) => s@ == secret,
        Option::None => false,
    }
}

/// The same user record with its token reference cleared.
pub open spec fn cleared_ref(u: UserRecord) -> UserRecord {
    UserRecord { token_secret: Option::None, ..u }
}

impl Database {
    /// Some stored user carries this username.
    pub open spec fn contains_user(self, name: Seq<char>) -> bool {
        exists|i: int|
            0 <= i < self.users@.len() && (#[trigger] self.users@[i]).username@ == name
    }

    /// The index of the user with this username (meaningful when
    /// `contains_user` holds and usernames are unique).
    pub open spec fn user_ix(self, name: Seq<char>) -> int {
        choose|i: int|
            0 <= i < self.users@.len() && (#[trigger] self.users@[i]).username@ == name
    }

    /// The stored record of the user with this username.
    pub open spec fn user_of(self, name: Seq<char>) -> UserRecord {
        self.users@[self.user_ix(name)]
    }

    /// Some stored token carries this secret.
    pub open spec fn contains_token(self, secret: Seq<char>) -> bool {
        exists|i: int|
            0 <= i < self.tokens@.len() && (#[trigger] self.tokens@[i]).secret@ == secret
    }

    /// The index of the token with this secret (meaningful when
    /// `contains_token` holds and secrets are unique).
    pub open spec fn token_ix(self, secret: Seq<char>) -> int {
        choose|i: int|
            0 <= i < self.tokens@.len() && (#[trigger] self.tokens@[i]).secret@ == secret
    }

    /// The stored record of the token with this secret.
    pub open spec fn token_of(self, secret: Seq<char>) -> TokenRecord {
        self.tokens@[self.token_ix(secret)]
    }

    /// Usernames are unique keys.
    pub open spec fn users_unique(self) -> bool {
        forall|i: int, j: int|
            0 <= i < self.users@.len() && 0 <= j < self.users@.len() && i != j
                ==> (#[trigger] self.users@[i]).username@ != (
                #[trigger] self.users@[j]).username@
    }

    /// Token secrets are unique keys.
    pub open spec fn tokens_unique(self) -> bool {
        forall|i: int, j: int|
            0 <= i < self.tokens@.len() && 0 <= j < self.tokens@.len() && i != j
                ==> (#[trigger] self.tokens@[i]).secret@ != (
                #[trigger] self.tokens@[j]).secret@
    }

    /// Every set token reference names a stored token.
    pub open spec fn refs_valid(self) -> bool {
        forall|i: int|
            0 <= i < self.users@.len() ==> match (#[trigger] self.users@[i]).token_secret {
                Option::Some(s) => self.contains_token(s@),
                Option::None => true,
            }
    }

    /// Every stored expiry is a renderable timestamp.
    pub open spec fn expiries_in_range(self) -> bool {
        forall|i: int|
            0 <= i < self.tokens@.len() ==> MIN_STAMP <= (
            #[trigger] self.tokens@[i]).expiry <= MAX_STAMP
    }

    /// The store's invariant, established by `init` and kept by every
    /// operation.
    pub open spec fn wf(self) -> bool {
        self.users_unique() && self.tokens_unique() && self.refs_valid()
            && self.expiries_in_range()
    }

    /// The user stored at index `i` is the one `user_of` finds under its
    /// name.
    pub proof fn lemma_user_at(self, i: int)
        requires
            self.users_unique(),
            0 <= i < self.users@.len(),
        ensures
            self.contains_user(self.users@[i].username@),
            self.user_ix(self.users@[i].username@) == i,
            self.user_of(self.users@[i].username@) == self.users@[i],
    {
        let name = self.users@[i].username@;
        assert(self.contains_user(name));
        let j = self.user_ix(name);
        assert(0 <= j < self.users@.len() && self.users@[j].username@ == name);
    }

    /// The token stored at index `i` is the one `token_of` finds under its
    /// secret.
    pub proof fn lemma_token_at(self, i: int)
        requires
            self.tokens_unique(),
            0 <= i < self.tokens@.len(),
        ensures
            self.contains_token(self.tokens@[i].secret@),
            self.token_ix(self.tokens@[i].secret@) == i,
            self.token_of(self.tokens@[i].secret@) == self.tokens@[i],
    {
        let secret = self.tokens@[i].secret@;
        assert(self.contains_token(secret));
        let j = self.token_ix(secret);
        assert(0 <= j < self.tokens@.len() && self.tokens@[j].secret@ == secret);
    }

    /// When every user keeps its name, every lookup by name is unmoved.
    pub proof fn lemma_users_pointwise(pre: Database, post: Database)
        requires
            pre.users_unique(),
            post.users@.len() == pre.users@.len(),
            forall|k: int|
                0 <= k < pre.users@.len() ==> (#[trigger] post.users@[k]).username@
                    == pre.users@[k].username@,
        ensures
            post.users_unique(),
            forall|n: Seq<char>| post.contains_user(n) == pre.contains_user(n),
            forall|n: Seq<char>|
                pre.contains_user(n) ==> post.user_ix(n) == pre.user_ix(n),
    {
        assert forall|n: Seq<char>| post.contains_user(n) == pre.contains_user(n) by {
            if pre.contains_user(n) {
                let i = pre.user_ix(n);
                assert(post.users@[i].username@ == n);
                assert(post.contains_user(n));
            }
            if post.contains_user(n) {
                let i = post.user_ix(n);
                assert(pre.users@[i].username@ == n);
                assert(pre.contains_user(n));
            }
        }
        assert forall|n: Seq<char>| pre.contains_user(n) implies post.user_ix(n) == pre.user_ix(
            n,
        ) by {
            let i = pre.user_ix(n);
            assert(post.users@[i].username@ == n);
            let j = post.user_ix(n);
            assert(post.users@[j].username@ == n);
            assert(pre.users@[j].username@ == n);
        }
    }

    /// When every token keeps its secret, every lookup by secret is unmoved.
    pub proof fn lemma_tokens_pointwise(pre: Database, post: Database)
        requires
            pre.tokens_unique(),
            post.tokens@.len() == pre.tokens@.len(),
            forall|k: int|
                0 <= k < pre.tokens@.len() ==> (#[trigger] post.tokens@[k]).secret@
                    == pre.tokens@[k].secret@,
        ensures
            post.tokens_unique(),
            forall|s: Seq<char>| post.contains_token(s) == pre.contains_token(s),
            forall|s: Seq<char>|
                pre.contains_token(s) ==> post.token_ix(s) == pre.token_ix(s),
    {
        assert forall|s: Seq<char>| post.contains_token(s) == pre.contains_token(s) by {
            if pre.contains_token(s) {
                let i = pre.token_ix(s);
                assert(post.tokens@[i].secret@ == s);
                assert(post.contains_token(s));
            }
            if post.contains_token(s) {
                let i = post.token_ix(s);
                assert(pre.tokens@[i].secret@ == s);
                assert(pre.contains_token(s));
            }
        }
        assert forall|s: Seq<char>| pre.contains_token(s) implies post.token_ix(s)
            == pre.token_ix(s) by {
            let i = pre.token_ix(s);
            assert(post.tokens@[i].secret@ == s);
            let j = post.token_ix(s);
            assert(post.tokens@[j].secret@ == s);
            assert(pre.tokens@[j].secret@ == s);
        }
    }

    /// Appending a user under a new name leaves every other lookup in place.
    pub proof fn lemma_users_push(pre: Database, post: Database, rec: UserRecord)
        requires
            pre.users_unique(),
            !pre.contains_user(rec.username@),
            post.users@ == pre.users@.push(rec),
        ensures
            post.users_unique(),
            post.contains_user(rec.username@),
            post.user_ix(rec.username@) == pre.users@.len(),
            post.user_of(rec.username@) == rec,
            forall|n: Seq<char>|
                n != rec.username@ ==> post.contains_user(n) == pre.contains_user(n),
            forall|n: Seq<char>|
                n != rec.username@ && pre.contains_user(n) ==> post.user_ix(n) == pre.user_ix(n)
                    && post.user_of(n) == pre.user_of(n),
    {
        let len = pre.users@.len() as int;
        assert forall|i: int, j: int|
            0 <= i < post.users@.len() && 0 <= j < post.users@.len() && i != j implies (
        #[trigger] post.users@[i]).username@ != (#[trigger] post.users@[j]).username@ by {
            if i < len && j < len {
            } else if i == len {
                assert(pre.contains_user(pre.users@[j].username@)) by {
                    pre.lemma_user_at(j);
                }
            } else {
                assert(pre.contains_user(pre.users@[i].username@)) by {
                    pre.lemma_user_at(i);
                }
            }
        }
        assert(post.users@[len] == rec);
        post.lemma_user_at(len);
        assert forall|n: Seq<char>| n != rec.username@ implies post.contains_user(n)
            == pre.contains_user(n) by {
            if pre.contains_user(n) {
                let i = pre.user_ix(n);
                assert(post.users@[i].username@ == n);
                assert(post.contains_user(n));
            }
            if post.contains_user(n) {
                let i = post.user_ix(n);
                assert(i != len);
                assert(pre.users@[i].username@ == n);
                assert(pre.contains_user(n));
            }
        }
        assert forall|n: Seq<char>| n != rec.username@ && pre.contains_user(n) implies post.user_ix(
            n,
        ) == pre.user_ix(n) && post.user_of(n) == pre.user_of(n) by {
            let i = pre.user_ix(n);
            assert(post.users@[i].username@ == n);
            post.lemma_user_at(i);
        }
    }

    /// Appending a token under a new secret leaves every other lookup in
    /// place.
    pub proof fn lemma_tokens_push(pre: Database, post: Database, rec: TokenRecord)
        requires
            pre.tokens_unique(),
            !pre.contains_token(rec.secret@),
            post.tokens@ == pre.tokens@.push(rec),
        ensures
            post.tokens_unique(),
            post.contains_token(rec.secret@),
            post.token_ix(rec.secret@) == pre.tokens@.len(),
            post.token_of(rec.secret@) == rec,
            forall|s: Seq<char>|
                s != rec.secret@ ==> post.contains_token(s) == pre.contains_token(s),
            forall|s: Seq<char>|
                s != rec.secret@ && pre.contains_token(s) ==> post.token_ix(s) == pre.token_ix(s)
                    && post.token_of(s) == pre.token_of(s),
    {
        let len = pre.tokens@.len() as int;
        assert forall|i: int, j: int|
            0 <= i < post.tokens@.len() && 0 <= j < post.tokens@.len() && i != j implies (
        #[trigger] post.tokens@[i]).secret@ != (#[trigger] post.tokens@[j]).secret@ by {
            if i < len && j < len {
            } else if i == len {
                assert(pre.contains_token(pre.tokens@[j].secret@)) by {
                    pre.lemma_token_at(j);
                }
            } else {
                assert(pre.contains_token(pre.tokens@[i].secret@)) by {
                    pre.lemma_token_at(i);
                }
            }
        }
        assert(post.tokens@[len] == rec);
        post.lemma_token_at(len);
        assert forall|s: Seq<char>| s != rec.secret@ implies post.contains_token(s)
            == pre.contains_token(s) by {
            if pre.contains_token(s) {
                let i = pre.token_ix(s);
                assert(post.tokens@[i].secret@ == s);
                assert(post.contains_token(s));
            }
            if post.contains_token(s) {
                let i = post.token_ix(s);
                assert(i != len);
                assert(pre.tokens@[i].secret@ == s);
                assert(pre.contains_token(s));
            }
        }
        assert forall|s: Seq<char>|
            s != rec.secret@ && pre.contains_token(s) implies post.token_ix(s) == pre.token_ix(s)
            && post.token_of(s) == pre.token_of(s) by {
            let i = pre.token_ix(s);
            assert(post.tokens@[i].secret@ == s);
            post.lemma_token_at(i);
        }
    }

    /// Removing the token at one index removes exactly that secret and
    /// leaves every other lookup's record in place.
    pub proof fn lemma_tokens_remove(pre: Database, post: Database, at: int)
        requires
            pre.tokens_unique(),
            0 <= at < pre.tokens@.len(),
            post.tokens@ == pre.tokens@.remove(at),
        ensures
            post.tokens_unique(),
            !post.contains_token(pre.tokens@[at].secret@),
            forall|s: Seq<char>|
                s != pre.tokens@[at].secret@ ==> post.contains_token(s) == pre.contains_token(s),
            forall|s: Seq<char>|
                s != pre.tokens@[at].secret@ && pre.contains_token(s) ==> post.token_of(s)
                    == pre.token_of(s),
    {
        let gone = pre.tokens@[at].secret@;
        let len = pre.tokens@.len() as int;
        assert forall|i: int, j: int|
            0 <= i < post.tokens@.len() && 0 <= j < post.tokens@.len() && i != j implies (
        #[trigger] post.tokens@[i]).secret@ != (#[trigger] post.tokens@[j]).secret@ by {
            let pi: int = if i < at { i } else { i + 1 };
            let pj: int = if j < at { j } else { j + 1 };
            assert(post.tokens@[i] == pre.tokens@[pi]);
            assert(post.tokens@[j] == pre.tokens@[pj]);
        }
        assert forall|s: Seq<char>| post.contains_token(s) implies s == gone || pre.contains_token(
            s,
        ) by {
            let i = post.token_ix(s);
            let pi: int = if i < at { i } else { i + 1 };
            assert(pre.tokens@[pi].secret@ == s);
        }
        if post.contains_token(gone) {
            let i = post.token_ix(gone);
            let pi: int = if i < at { i } else { i + 1 };
            assert(pre.tokens@[pi].secret@ == gone);
            assert(pi != at);
        }
        assert forall|s: Seq<char>|
            s != gone && pre.contains_token(s) implies post.contains_token(s) && post.token_of(s)
            == pre.token_of(s) by {
            let i = pre.token_ix(s);
            assert(i != at);
            let qi: int = if i < at { i } else { i - 1 };
            assert(post.tokens@[qi] == pre.tokens@[i]);
            post.lemma_token_at(qi);
        }
    }

    /// An empty store.
    pub fn init() -> (db: Database)
        ensures
            db.users@ =~= Seq::<UserRecord>::empty(),
            db.tokens@ =~= Seq::<TokenRecord>::empty(),
            db.wf(),
    {
        Database { users: Vec::new(), tokens: Vec::new() }
    }

    /// Linear search for a user by name.
    pub fn find_user(&self, name: &String) -> (r: Option<usize>)
        ensures
            match r {
                Option::Some(i) => i < self.users@.len() && self.users@[i as int].username@
                    == name@,
                Option::None => !self.contains_user(name@),
            },
    {
        let mut i: usize = 0;
        while i < self.users.len()
            invariant
                i <= self.users@.len(),
                forall|j: int| 0 <= j < i ==> (#[trigger] self.users@[j]).username@ != name@,
            decreases self.users@.len() - i,
        {
            if self.users[i].username == *name {
                return Some(i);
            }
            i += 1;
        }
        None
    }

    /// Linear search for a token by secret.
    pub fn find_token(&self, secret: &String) -> (r: Option<usize>)
        ensures
            match r {
                Option::Some(i) => i < self.tokens@.len() && self.tokens@[i as int].secret@
                    == secret@,
                Option::None => !self.contains_token(secret@),
            },
    {
        let mut i: usize = 0;
        while i < self.tokens.len()
            invariant
                i <= self.tokens@.len(),
                forall|j: int| 0 <= j < i ==> (#[trigger] self.tokens@[j]).secret@ != secret@,
            decreases self.tokens@.len() - i,
        {
            if self.tokens[i].secret == *secret {
                return Some(i);
            }
            i += 1;
        }
        None
    }
}

impl SessionTokenErrors {
    /// The caller-facing wording of each outcome.
    pub open spec fn text(self) -> Seq<char> {
        match self {
            SessionTokenErrors::ExpiredSessionToken => "Session token has expired!"@,
            SessionTokenErrors::InvalidSessionToken => "Session token is invalid"@,
            SessionTokenErrors::_NoSessionToken => "No session token has been provided"@,
        }
    }

    /// Renders the outcome for the caller.
    pub fn message(&self) -> (r: String)
        ensures
            r@ == self.text(),
    {
        match self {
            SessionTokenErrors::ExpiredSessionToken => "Session token has expired!".to_owned(),
            SessionTokenErrors::InvalidSessionToken => "Session token is invalid".to_owned(),
            SessionTokenErrors::_NoSessionToken => "No session token has been provided".to_owned(),
        }
    }
}

impl LoginErrors {
    /// The caller-facing wording of each outcome.
    pub open spec fn text(self) -> Seq<char> {
        match self {
            LoginErrors::NoSuchEntry => "No such username/password found in the database!"@,
        }
    }

    /// Renders the outcome for the caller.
    pub fn message(&self) -> (r: String)
        ensures
            r@ == self.text(),
    {
        match self {
            LoginErrors::NoSuchEntry => "No such username/password found in the database!".to_owned(),
        }
    }
}

impl SignupErrors {
    /// The caller-facing wording of each outcome.
    pub open spec fn text(self) -> Seq<char> {
        match self {
            SignupErrors::UsernameTaken => "Username is already taken!"@,
        }
    }

    /// Renders the outcome for the caller.
    pub fn message(&self) -> (r: String)
        ensures
            r@ == self.text(),
    {
        match self {
            SignupErrors::UsernameTaken => "Username is already taken!".to_owned(),
        }
    }
}

} // verus!
