use vstd::prelude::*;

verus! {

use crate::authentication::{PasswordHash, PasswordSalt, User, UserFinder, UserView, Username};

/// The error type of a store that cannot fail: no lookup ever yields it.
#[derive(Debug)]
pub struct NoError;

/// The record found for a username in a sequence of entries: the first one
/// whose key is the username, if any.
pub open spec fn lookup(entries: Seq<(Seq<char>, UserView)>, username: Seq<char>) -> Option<
    UserView,
>
    decreases entries.len(),
{
    if entries.len() == 0 {
        None
    } else if entries[0].0 == username {
        Some(entries[0].1)
    } else {
        lookup(entries.drop_first(), username)
    }
}

/// A prefix without the username leaves the lookup to the rest of the
/// entries.
proof fn lemma_lookup_skip(entries: Seq<(Seq<char>, UserView)>, username: Seq<char>, i: int)
    requires
        0 <= i <= entries.len(),
        forall|j: int| 0 <= j < i ==> (#[trigger] entries[j]).0 != username,
    ensures
        lookup(entries, username) == lookup(entries.skip(i), username),
    decreases i,
{
    if i > 0 {
        assert(entries[0].0 != username);
        assert(entries.drop_first().skip(i - 1) =~= entries.skip(i));
        lemma_lookup_skip(entries.drop_first(), username, i - 1);
    } else {
        assert(entries.skip(0) =~= entries);
    }
}

/// Find users by username in memory, keyed as a map would key them: of the
/// held entries, the first with the looked-up username counts.
pub struct HashMapUserFinder(pub Vec<(Username, User)>);

impl View for HashMapUserFinder {
    type V = Seq<(Seq<char>, UserView)>;

    open spec fn view(&self) -> Seq<(Seq<char>, UserView)> {
        self.0@.map_values(|entry: (Username, User)| (entry.0@, entry.1@))
    }
}

impl HashMapUserFinder {
    /// An empty store.
    pub fn new() -> (r: Self)
        ensures
            r@ == Seq::<(Seq<char>, UserView)>::empty(),
    {
        let r = HashMapUserFinder(Vec::new());
        assert(r@ =~= Seq::<(Seq<char>, UserView)>::empty());
        r
    }
}

/// A copy of a user record with the same content.
fn clone_user(user: &User) -> (r: User)
    ensures
        r@ == user@,
{
    let r = User {
        user_id: user.user_id,
        password_iterations: user.password_iterations,
        password_salt: PasswordSalt(user.password_salt.0.clone()),
        password_hash: PasswordHash(user.password_hash.0.clone()),
    };
    assert(r.password_salt.0@ =~= user.password_salt.0@);
    assert(r.password_hash.0@ =~= user.password_hash.0@);
    assert(r@ =~= user@);
    r
}

impl UserFinder for HashMapUserFinder {
    type Error = NoError;

    /// Every held record is well-formed. Duplicate usernames, which a real
    /// map could not hold, are tolerated here: `lookup` takes the first
    /// entry, so later duplicates are dead weight, never a second answer.
    open spec fn inv(&self) -> bool {
        forall|i: int| 0 <= i < self@.len() ==> (#[trigger] self@[i]).1.wf()
    }

    /// The store is a function of its entries: the one admitted outcome is
    /// `lookup` of them.
    open spec fn may_find(&self, username: Seq<char>, found: Option<UserView>) -> bool {
        found == lookup(self@, username)
    }

    /// A lookup in memory never fails.
    open spec fn may_fail(&self, username: Seq<char>, err: NoError) -> bool {
        false
    }

    fn find_user(&mut self, username: &Username) -> (r: Result<Option<User>, NoError>)
        ensures
            *final(self) == *old(self),
    {
        let mut i: usize = 0;
        while i < self.0.len()
            invariant
                *self == *old(self),
                old(self).inv(),
                i <= self.0.len(),
                forall|j: int| 0 <= j < i ==> (#[trigger] self@[j]).0 != username@,
            decreases self.0.len() - i,
        {
            if self.0[i].0.0 == username.0 {
                let user = clone_user(&self.0[i].1);
                proof {
                    lemma_lookup_skip(self@, username@, i as int);
                    assert(self@.skip(i as int)[0] == self@[i as int]);
                    assert(lookup(self@.skip(i as int), username@) == Some(self@[i as int].1));
                    assert(self@[i as int].1.wf());
                }
                return Ok(Some(user));
            }
            i += 1;
        }
        proof {
            lemma_lookup_skip(self@, username@, i as int);
            assert(self@.skip(i as int) =~= Seq::<(Seq<char>, UserView)>::empty());
        }
        Ok(None)
    }
}

} // verus!
