//! The password hasher: salted, memory-hard PHC hash strings.
use vstd::prelude::*;

verus! {

/// What verifying `password` against the PHC string `phc` gives: `None` when
/// the string does not parse as a password hash, `Some(b)` otherwise, with `b`
/// true exactly when the password matches.
pub uninterp spec fn phc_verify(password: Seq<char>, phc: Seq<char>) -> Option<bool>;

/// The longest password, in characters, that the hasher is asked to hash.
pub const MAX_HASHED_CHARS: usize = 4096;

/// Relies on password_auth::generate_hash: a fresh random salt each call, and a
/// PHC string that password_auth::verify_password parses and accepts for the
/// same password. It panics only on a hashing error, which Argon2 raises for
/// passwords far longer than the bound required here.
#[verifier::external_body]
fn generate_phc(password: &str) -> (r: String)
    requires
        password@.len() <= MAX_HASHED_CHARS,
    ensures
        phc_verify(password@, r@) == Some(true),
{
    password_auth::generate_hash(password)
}

/// Relies on password_auth::verify_password: `Err(Parse)` when the hash does
/// not parse, `Err(PasswordInvalid)` when the password does not match, `Ok`
/// otherwise. The outcome depends on the two strings alone.
#[verifier::external_body]
fn verify_phc(password: &str, phc: &str) -> (r: Option<bool>)
    ensures
        r == phc_verify(password@, phc@),
{
    match password_auth::verify_password(password, phc) {
        Ok(()) => Some(true),
        Err(password_auth::VerifyError::PasswordInvalid) => Some(false),
        Err(password_auth::VerifyError::Parse(_)) => None,
    }
}

/// A hash string that could not be read as a password hash.
#[derive(Debug, Clone, Copy, PartialEq, Eq)]
pub enum HashError {
    MalformedHash,
}

/// Hashes `password` with a freshly generated salt. The result verifies
/// against the same password.
pub fn hash_password(password: &str) -> (r: String)
    requires
        password@.len() <= MAX_HASHED_CHARS,
    ensures
        phc_verify(password@, r@) == Some(true),
{
    generate_phc(password)
}

/// Checks `password` against the stored hash `phc`. A hash string that does
/// not parse is an error, never a silent mismatch.
pub fn verify_password(password: &str, phc: &str) -> (r: Result<bool, HashError>)
    ensures
        phc_verify(password@, phc@) is None <==> r == Err::<bool, HashError>(
            HashError::MalformedHash,
        ),
        phc_verify(password@, phc@) == Some(true) <==> r == Ok::<bool, HashError>(true),
        phc_verify(password@, phc@) == Some(false) <==> r == Ok::<bool, HashError>(false),
{
    match verify_phc(password, phc) {
        Some(matched) => Ok(matched),
        None => Err(HashError::MalformedHash),
    }
}

/// The password behind the dummy hash. Nobody logs in with it: a lookup that
/// found no user never yields success.
pub open spec fn dummy_password() -> Seq<char> {
    "gZiV6Mrrf2-dummy-credential-placeholder"@
}

/// A hash computed once and reused whenever a username is unknown, so that
/// the expensive verification runs whether or not the user exists.
pub struct DummyHash {
    phc: String,
}

impl DummyHash {
    /// The hash string held.
    pub closed spec fn view(&self) -> Seq<char> {
        self.phc@
    }

    /// Computes the dummy hash with the same work factor as real hashes.
    pub fn new() -> (r: DummyHash)
        ensures
            phc_verify(dummy_password(), r@) == Some(true),
    {
        let password = "gZiV6Mrrf2-dummy-credential-placeholder";
        proof {
            reveal_strlit("gZiV6Mrrf2-dummy-credential-placeholder");
        }
        DummyHash { phc: hash_password(password) }
    }

    /// Wraps a hash string computed elsewhere, such as at startup.
    pub fn from_phc(phc: String) -> (r: DummyHash)
        ensures
            r@ == phc@,
    {
        DummyHash { phc }
    }

    /// The cached hash string; the same on every call.
    pub fn as_str(&self) -> (r: &str)
        ensures
            r@ == self@,
    {
        self.phc.as_str()
    }
}

} // verus!
