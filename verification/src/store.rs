//! User store: idempotent get-or-create persistence of local user records.
//!
//! A record is keyed by the pair (provider user id, platform); the store's
//! invariant is that at most one record exists per key.  The opaque session
//! token of a record is chosen when the record is created and never changes
//! afterwards, so every later login for the same identity resolves to the
//! same token.

use vstd::prelude::*;

verus! {

/// A persistent user record: the provider-side identity, the platform the
/// identity belongs to, a display name, and the locally issued opaque
/// session token.
pub struct User {
    pub user_id: String,
    pub platform: String,
    pub name: String,
    pub token: String,
}

/// The mathematical value of a [`User`] record: its four fields as
/// character sequences.
pub ghost struct UserV {
    pub user_id: Seq<char>,
    pub platform: Seq<char>,
    pub name: Seq<char>,
    pub token: Seq<char>,
}

impl View for User {
    type V = UserV;

    open spec fn view(&self) -> UserV {
        UserV {
            user_id: self.user_id@,
            platform: self.platform@,
            name: self.name@,
            token: self.token@,
        }
    }
}

impl User {
    /// A field-for-field copy of the record.
    pub fn duplicate(&self) -> (r: User)
        ensures
            r@ == self@,
    {
        User {
            user_id: self.user_id.clone(),
            platform: self.platform.clone(),
            name: self.name.clone(),
            token: self.token.clone(),
        }
    }
}

/// Whether the record at index `i` of `s` carries the key
/// (`user_id`, `platform`).
pub open spec fn key_at(s: Seq<UserV>, user_id: Seq<char>, platform: Seq<char>, i: int) -> bool {
    0 <= i < s.len() && s[i].user_id == user_id && s[i].platform == platform
}

/// Whether some record of `s` carries the key (`user_id`, `platform`).
pub open spec fn has_key(s: Seq<UserV>, user_id: Seq<char>, platform: Seq<char>) -> bool {
    exists|i: int| key_at(s, user_id, platform, i)
}

/// Whether some record of `s` carries the key (`user_id`, `platform`) and
/// the session token `token`.
pub open spec fn stored(
    s: Seq<UserV>,
    user_id: Seq<char>,
    platform: Seq<char>,
    token: Seq<char>,
) -> bool {
    exists|i: int| key_at(s, user_id, platform, i) && s[i].token == token
}

/// What a successful lookup returns: a record value that is in `s` and
/// carries the key (`user_id`, `platform`).
pub open spec fn key_at_result(
    s: Seq<UserV>,
    user_id: Seq<char>,
    platform: Seq<char>,
    u: UserV,
) -> bool {
    exists|i: int| key_at(s, user_id, platform, i) && s[i] == u
}

/// No two records of `s` share a key: the pair (provider user id, platform)
/// identifies at most one record.
pub open spec fn unique_keys(s: Seq<UserV>) -> bool {
    forall|i: int, j: int| #![trigger s[i], s[j]]
        0 <= i < j < s.len() ==> !(s[i].user_id == s[j].user_id && s[i].platform == s[j].platform)
}

/// Under key uniqueness the stored session token is a function of the key:
/// repeated successful logins for one identity always resolve to the same
/// token.
pub proof fn lemma_stored_token_unique(
    s: Seq<UserV>,
    user_id: Seq<char>,
    platform: Seq<char>,
    t1: Seq<char>,
    t2: Seq<char>,
)
    requires
        unique_keys(s),
        stored(s, user_id, platform, t1),
        stored(s, user_id, platform, t2),
    ensures
        t1 == t2,
{
    let i = choose|i: int| key_at(s, user_id, platform, i) && s[i].token == t1;
    let j = choose|j: int| key_at(s, user_id, platform, j) && s[j].token == t2;
    if i != j {
        assert(s[i].user_id == s[j].user_id);
        assert(s[i].platform == s[j].platform);
        assert(false);
    }
}

/// Appending a record whose key is absent keeps the keys unique.
pub proof fn lemma_push_preserves_unique(s: Seq<UserV>, u: UserV)
    requires
        unique_keys(s),
        !has_key(s, u.user_id, u.platform),
    ensures
        unique_keys(s.push(u)),
{
    let s2 = s.push(u);
    assert forall|i: int, j: int| #![trigger s2[i], s2[j]]
        0 <= i < j < s2.len() implies !(s2[i].user_id == s2[j].user_id && s2[i].platform
        == s2[j].platform) by {
        if j < s.len() {
            assert(s[i] == s2[i] && s[j] == s2[j]);
        } else {
            assert(s2[j] == u);
            if s[i].user_id == u.user_id && s[i].platform == u.platform {
                assert(key_at(s, u.user_id, u.platform, i));
                assert(false);
            }
        }
    }
}

/// A first login creates the identity's record, and from then on the
/// identity resolves to the token chosen at creation: once the record is
/// appended, its key is present and every token stored under that key is
/// the created one.
pub proof fn lemma_create_then_reuse(s: Seq<UserV>, u: UserV)
    requires
        unique_keys(s),
        !has_key(s, u.user_id, u.platform),
    ensures
        unique_keys(s.push(u)),
        has_key(s.push(u), u.user_id, u.platform),
        forall|t: Seq<char>| stored(s.push(u), u.user_id, u.platform, t) ==> t == u.token,
{
    lemma_push_preserves_unique(s, u);
    let s2 = s.push(u);
    assert(s2[s.len() as int] == u);
    assert(key_at(s2, u.user_id, u.platform, s.len() as int));
    assert forall|t: Seq<char>| stored(s2, u.user_id, u.platform, t) implies t == u.token by {
        lemma_stored_token_unique(s2, u.user_id, u.platform, t, u.token);
    }
}

/// The store of user records.  Its value is the sequence of record values,
/// in insertion order; well-formedness is key uniqueness.
pub struct UserStore {
    pub users: Vec<User>,
}

impl View for UserStore {
    type V = Seq<UserV>;

    open spec fn view(&self) -> Seq<UserV> {
        self.users@.map_values(|u: User| u@)
    }
}

impl UserStore {
    /// The store invariant: no two records share a key.
    pub open spec fn wf(&self) -> bool {
        unique_keys(self@)
    }

    /// An empty store.
    pub fn new() -> (r: UserStore)
        ensures
            r.wf(),
            r@ == Seq::<UserV>::empty(),
    {
        let r = UserStore { users: Vec::new() };
        proof {
            assert(r@ =~= Seq::<UserV>::empty());
        }
        r
    }

    /// Single lookup by composite key.  Absence is a normal outcome, not an
    /// error: the result is `Some` exactly when a record with the key exists,
    /// and then carries a copy of that record.
    pub fn get_user(&self, user_id: &String, platform: &String) -> (r: Option<User>)
        ensures
            match r {
                Some(u) => key_at_result(self@, user_id@, platform@, u@),
                None => !has_key(self@, user_id@, platform@),
            },
    {
        let n: usize = self.users.len();
        let mut i: usize = 0;
        while i < n
            invariant
                n == self.users.len(),
                0 <= i <= n,
                forall|j: int| 0 <= j < i ==> !key_at(self@, user_id@, platform@, j),
            decreases n - i,
        {
            let u = &self.users[i];
            if u.user_id == *user_id && u.platform == *platform {
                proof {
                    assert(self@[i as int] == self.users@[i as int]@);
                    assert(key_at(self@, user_id@, platform@, i as int));
                }
                return Some(u.duplicate());
            }
            i += 1;
        }
        None
    }

    /// Insertion of a record whose key is not yet present; the store grows by
    /// exactly that record and stays well formed.
    pub fn insert_new_user(&mut self, user: User)
        requires
            old(self).wf(),
            !has_key(old(self)@, user.user_id@, user.platform@),
        ensures
            final(self).wf(),
            final(self)@ == old(self)@.push(user@),
    {
        let ghost prev = self@;
        let ghost uv = user@;
        self.users.push(user);
        proof {
            assert(self@ =~= prev.push(uv));
            lemma_push_preserves_unique(prev, uv);
        }
    }

    /// Get-or-create resolution of a login: if a record with the key exists
    /// its stored token is returned and the store is untouched; otherwise a
    /// new record holding `fresh_token` is appended and that token is
    /// returned.
    pub fn get_or_create(
        &mut self,
        user_id: &String,
        platform: &String,
        name: &String,
        fresh_token: String,
    ) -> (token: String)
        requires
            old(self).wf(),
        ensures
            final(self).wf(),
            has_key(old(self)@, user_id@, platform@) ==> final(self)@ == old(self)@ && stored(
                old(self)@,
                user_id@,
                platform@,
                token@,
            ),
            !has_key(old(self)@, user_id@, platform@) ==> token@ == fresh_token@ && final(self)@
                == old(self)@.push(
                (UserV {
                    user_id: user_id@,
                    platform: platform@,
                    name: name@,
                    token: fresh_token@,
                }),
            ),
    {
        match self.get_user(user_id, platform) {
            Some(existing) => existing.token,
            None => {
                let user = User {
                    user_id: user_id.clone(),
                    platform: platform.clone(),
                    name: name.clone(),
                    token: fresh_token,
                };
                let token = user.token.clone();
                self.insert_new_user(user);
                token
            },
        }
    }
}

} // verus!
