use vstd::prelude::*;

pub mod hash_map;
pub mod postgres;

verus! {

use vstd::utf8::encode_utf8;

/// A user identifier: the 128 bits of a UUID, assigned once per account.
#[derive(Clone, Copy, Debug, Eq, Hash, Ord, PartialEq, PartialOrd, Structural)]
pub struct UserId(pub u128);

/// A username.
#[derive(Clone, Debug, Eq, Hash, Ord, PartialEq, PartialOrd)]
pub struct Username(pub String);

impl View for Username {
    type V = Seq<char>;

    open spec fn view(&self) -> Seq<char> {
        self.0@
    }
}

impl From<&str> for Username {
    /// Take the string itself as the username.
    fn from(other: &str) -> (r: Self)
        ensures
            r@ == other@,
    {
        Username(other.to_owned())
    }
}

impl vstd::std_specs::convert::FromSpecImpl<&str> for Username {
    open spec fn obeys_from_spec() -> bool {
        false
    }

    open spec fn from_spec(other: &str) -> Username {
        arbitrary()
    }
}

/// A password: the ephemeral plaintext secret of one authentication attempt.
///
/// It deliberately has no `Debug` form; diagnostic output goes through
/// [`Password::redacted`], which never reveals the content.
#[derive(Clone, Eq, PartialEq)]
pub struct Password(pub String);

impl View for Password {
    type V = Seq<char>;

    open spec fn view(&self) -> Seq<char> {
        self.0@
    }
}

impl Password {
    /// The fixed placeholder shown in place of the secret, whatever it is.
    pub fn redacted(&self) -> (r: &'static str)
        ensures
            r@ == "********"@,
    {
        "********"
    }
}

/// A password salt.
#[derive(Clone, Debug, Eq, PartialEq)]
pub struct PasswordSalt(pub Vec<u8>);

impl View for PasswordSalt {
    type V = Seq<u8>;

    open spec fn view(&self) -> Seq<u8> {
        self.0@
    }
}

/// A password hash.
#[derive(Clone, Debug, Eq, PartialEq)]
pub struct PasswordHash(pub Vec<u8>);

impl View for PasswordHash {
    type V = Seq<u8>;

    open spec fn view(&self) -> Seq<u8> {
        self.0@
    }
}

/// The mathematical content of a stored [`User`] record.
#[verifier::ext_equal]
pub struct UserView {
    pub user_id: UserId,
    pub password_iterations: u32,
    pub password_salt: Seq<u8>,
    pub password_hash: Seq<u8>,
}

impl UserView {
    /// A well-formed record: a positive work factor, and salt and hash whose
    /// lengths the key-derivation function accepts.
    pub open spec fn wf(self) -> bool {
        &&& 1 <= self.password_iterations
        &&& 1 <= self.password_hash.len() <= 0x1fffffffe0
        &&& self.password_salt.len() < 0x2000000000000000
    }
}

/// A user, as far as authentication is concerned.
#[derive(Clone, Debug, Eq, PartialEq)]
pub struct User {
    pub user_id: UserId,
    pub password_iterations: u32,
    pub password_salt: PasswordSalt,
    pub password_hash: PasswordHash,
}

impl View for User {
    type V = UserView;

    open spec fn view(&self) -> UserView {
        UserView {
            user_id: self.user_id,
            password_iterations: self.password_iterations,
            password_salt: self.password_salt@,
            password_hash: self.password_hash@,
        }
    }
}

/// A response to an authentication challenge.
#[derive(Clone, Eq, PartialEq)]
pub struct Response {
    pub username: Username,
    pub password: Password,
}

/// The PBKDF2 key-derivation function with HMAC-SHA256 as its pseudorandom
/// function: `out_len` bytes derived from the password and salt with the
/// given iteration count. Its value is fixed by RFC 2898; nothing here
/// states it, only the trusted items below relate it to `ring`.
pub uninterp spec fn pbkdf2_hmac_sha256(
    iterations: u32,
    salt: Seq<u8>,
    password: Seq<u8>,
    out_len: nat,
) -> Seq<u8>;

/// The hash stored for a fresh credential: the full-digest-length PBKDF2
/// value of the password bytes.
pub open spec fn derive_spec(iterations: u32, salt: Seq<u8>, password: Seq<char>) -> Seq<u8> {
    pbkdf2_hmac_sha256(iterations, salt, encode_utf8(password), 32)
}

/// Whether the attempted password matches a stored record: its PBKDF2 value
/// at the stored hash's length equals that hash. An attempt whose bytes the
/// digest cannot take never matches.
pub open spec fn check_password_spec(user: UserView, password: Seq<char>) -> bool {
    &&& encode_utf8(password).len() < 0x2000000000000000
    &&& user.password_hash == pbkdf2_hmac_sha256(
        user.password_iterations,
        user.password_salt,
        encode_utf8(password),
        user.password_hash.len(),
    )
}

/// Relies on `ring::pbkdf2::derive` with `PBKDF2_HMAC_SHA256`: it fills the
/// output, here of `ring::digest::SHA256_OUTPUT_LEN` bytes, with the PBKDF2
/// value of the password and salt, a function of the arguments alone. The
/// bounds keep out the lengths on which `ring` panics.
#[verifier::external_body]
fn pbkdf2_derive_sha256(iterations: u32, salt: &[u8], password: &[u8]) -> (r: Vec<u8>)
    requires
        1 <= iterations,
        salt@.len() < 0x2000000000000000,
        password@.len() < 0x2000000000000000,
    ensures
        r@ == pbkdf2_hmac_sha256(iterations, salt@, password@, 32),
        r@.len() == 32,
{
    let mut out = vec![0u8; ring::digest::SHA256_OUTPUT_LEN];
    let iterations = match core::num::NonZeroU32::new(iterations) {
        Some(i) => i,
        None => return out,
    };
    ring::pbkdf2::derive(ring::pbkdf2::PBKDF2_HMAC_SHA256, iterations, salt, password, &mut out);
    out
}

/// Relies on `ring::pbkdf2::verify` with `PBKDF2_HMAC_SHA256`: it succeeds
/// exactly when `previously_derived` equals the PBKDF2 value of the password
/// and salt at `previously_derived`'s own length, comparing in constant
/// time. The bounds keep out the lengths it rejects for other reasons than a
/// mismatch.
#[verifier::external_body]
fn pbkdf2_verify_sha256(
    iterations: u32,
    salt: &[u8],
    password: &[u8],
    previously_derived: &[u8],
) -> (r: bool)
    requires
        1 <= iterations,
        1 <= previously_derived@.len() <= 0x1fffffffe0,
        salt@.len() < 0x2000000000000000,
        password@.len() < 0x2000000000000000,
    ensures
        r == (previously_derived@ == pbkdf2_hmac_sha256(
            iterations,
            salt@,
            password@,
            previously_derived@.len(),
        )),
{
    let iterations = match core::num::NonZeroU32::new(iterations) {
        Some(i) => i,
        None => return false,
    };
    ring::pbkdf2::verify(
        ring::pbkdf2::PBKDF2_HMAC_SHA256,
        iterations,
        salt,
        password,
        previously_derived,
    ).is_ok()
}

/// Derive the hash stored for a new credential from the password, its salt,
/// and the work factor. Setting a credential uses this; verification
/// re-derives with the identical algorithm.
pub fn derive(iterations: u32, salt: &PasswordSalt, password: &Password) -> (r: PasswordHash)
    requires
        1 <= iterations,
        salt@.len() < 0x2000000000000000,
        encode_utf8(password@).len() < 0x2000000000000000,
    ensures
        r@ == derive_spec(iterations, salt@, password@),
        r@.len() == 32,
{
    let password_bytes = password.0.as_str().as_bytes();
    PasswordHash(pbkdf2_derive_sha256(iterations, salt.0.as_slice(), password_bytes))
}

/// Check the attempted password against a user's stored record: re-derive
/// and compare. Total: a mismatch is `false`, never an error, and the result
/// is a function of the record and the password alone.
pub fn check_password(user: &User, password: &Password) -> (r: bool)
    requires
        user@.wf(),
    ensures
        r == check_password_spec(user@, password@),
{
    let password_bytes = password.0.as_str().as_bytes();
    if !((password_bytes.len() as u64) < 0x2000000000000000u64) {
        return false;
    }
    pbkdf2_verify_sha256(
        user.password_iterations,
        user.password_salt.0.as_slice(),
        password_bytes,
        user.password_hash.0.as_slice(),
    )
}

/// Something that can find a user by username.
///
/// A store's lookup may be nondeterministic (what a database holds is not a
/// function of the finder value), so its contract only confines the outcome:
/// `may_find` admits the successful outcomes, `may_fail` says whether the
/// lookup may fail at all, and whatever record comes back is well-formed.
pub trait UserFinder {
    type Error;

    /// Well-formedness of the store itself.
    spec fn inv(&self) -> bool;

    /// Which successful lookup outcomes the store admits for a username.
    spec fn may_find(&self, username: Seq<char>, found: Option<UserView>) -> bool;

    /// Which errors a lookup for this username may fail with.
    spec fn may_fail(&self, username: Seq<char>, err: Self::Error) -> bool;

    fn find_user(&mut self, username: &Username) -> (r: Result<Option<User>, Self::Error>)
        requires
            old(self).inv(),
        ensures
            final(self).inv(),
            match r {
                Ok(Some(user)) => old(self).may_find(username@, Some(user@)) && user@.wf(),
                Ok(None) => old(self).may_find(username@, None),
                Err(e) => old(self).may_fail(username@, e),
            },
    ;
}

/// A store whose lookups never complete: every attempt fails with a copy of
/// the held error value. It stands in for a backend that cannot be reached.
pub struct UnavailableUserFinder<E: Copy>(pub E);

impl<E: Copy> UserFinder for UnavailableUserFinder<E> {
    type Error = E;

    open spec fn inv(&self) -> bool {
        true
    }

    /// No lookup ever completes, so no successful outcome is admitted.
    open spec fn may_find(&self, username: Seq<char>, found: Option<UserView>) -> bool {
        false
    }

    /// Exactly the held error value comes back.
    open spec fn may_fail(&self, username: Seq<char>, err: E) -> bool {
        err == self.0
    }

    fn find_user(&mut self, username: &Username) -> (r: Result<Option<User>, E>)
        ensures
            r == Err::<Option<User>, E>(old(self).0),
    {
        Err(self.0)
    }
}

/// The outcome of one authentication attempt against a looked-up record:
/// the user's id when the password matches, and `None` both when no record
/// exists and when the password does not match, so that the two failure
/// causes are indistinguishable in the result.
pub open spec fn authenticate_spec(found: Option<UserView>, password: Seq<char>) -> Option<
    UserId,
> {
    match found {
        None => None,
        Some(user) => if check_password_spec(user, password) {
            Some(user.user_id)
        } else {
            None
        },
    }
}

/// Find a user and check the password against theirs.
///
/// A lookup error propagates unmodified; otherwise the result is
/// `authenticate_spec` of some outcome the store admits for this username.
pub fn authenticate<A: UserFinder>(user_finder: &mut A, response: &Response) -> (r: Result<
    Option<UserId>,
    A::Error,
>)
    requires
        old(user_finder).inv(),
    ensures
        final(user_finder).inv(),
        match r {
            Ok(outcome) => (exists|found: Option<UserView>|
                {
                    &&& old(user_finder).may_find(response.username@, found)
                    &&& outcome == authenticate_spec(found, response.password@)
                }),
            Err(e) => old(user_finder).may_fail(response.username@, e),
        },
{
    match user_finder.find_user(&response.username) {
        Err(e) => Err(e),
        Ok(None) => {
            let ghost found: Option<UserView> = None;
            assert(Option::<UserId>::None == authenticate_spec(found, response.password@));
            Ok(None)
        },
        Ok(Some(user)) => {
            let ghost found = Some(user@);
            if check_password(&user, &response.password) {
                assert(Some(user@.user_id) == authenticate_spec(found, response.password@));
                Ok(Some(user.user_id))
            } else {
                assert(Option::<UserId>::None == authenticate_spec(found, response.password@));
                Ok(None)
            }
        },
    }
}

/// A record whose stored hash was derived from a password verifies that very
/// password: `check_password` of `derive`'s output is always `true`.
pub proof fn lemma_derive_verify_round_trip(user: UserView, password: Seq<char>)
    requires
        user.password_hash == derive_spec(
            user.password_iterations,
            user.password_salt,
            password,
        ),
        user.password_hash.len() == 32,
        encode_utf8(password).len() < 0x2000000000000000,
    ensures
        check_password_spec(user, password),
{
}

/// Verification is deterministic: any two results that satisfy
/// `check_password`'s contract for the same record and password agree,
/// because each equals `check_password_spec` of those inputs.
pub proof fn lemma_verify_deterministic(user: UserView, password: Seq<char>, r1: bool, r2: bool)
    requires
        r1 == check_password_spec(user, password),
        r2 == check_password_spec(user, password),
    ensures
        r1 == r2,
{
}

/// An account whose record the store yields, with a matching password,
/// authenticates as its own user id.
pub proof fn lemma_matching_password_authenticates(user: UserView, password: Seq<char>)
    requires
        check_password_spec(user, password),
    ensures
        authenticate_spec(Some(user), password) == Some(user.user_id),
{
}

/// An account whose record the store yields, with a password that does not
/// match, is not authenticated: the outcome is `None`, the same as for an
/// unknown username.
pub proof fn lemma_wrong_password_rejected(user: UserView, password: Seq<char>)
    requires
        !check_password_spec(user, password),
    ensures
        authenticate_spec(Some(user), password) == Option::<UserId>::None,
{
}

/// A username for which the store yields no record is not authenticated,
/// whatever the supplied password.
pub proof fn lemma_unknown_user_rejected(password: Seq<char>)
    ensures
        authenticate_spec(None, password) == Option::<UserId>::None,
{
}

} // verus!
