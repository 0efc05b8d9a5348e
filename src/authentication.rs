//! The credential validator: lookup outcome plus password check, with the
//! same work done and the same error given whether or not the user exists.
use vstd::prelude::*;
use crate::password::{phc_verify, verify_password, hash_password, DummyHash, HashError};

verus! {

/// The identifier of a stored user (the 128 bits of its UUID).
#[derive(Debug, Clone, Copy, PartialEq, Eq, Structural)]
pub struct UserId {
    pub value: u128,
}

/// A user record as the credential store holds it.
pub struct StoredCredential {
    pub user_id: UserId,
    pub username: String,
    pub password_hash: String,
}

impl StoredCredential {
    /// The parts of the record that validation reads.
    pub open spec fn record(&self) -> (UserId, Seq<char>) {
        (self.user_id, self.password_hash@)
    }
}

/// A fault of the credential store (I/O, a corrupt row), kept for logging.
pub struct StoreError {
    pub detail: String,
}

/// Why an attempt ended in an unexpected error.
#[derive(Debug, Clone, Copy, PartialEq, Eq, Structural)]
pub enum UnexpectedCause {
    /// The credential store failed.
    StoreFault,
    /// The stored hash could not be parsed.
    MalformedHash,
    /// The dummy hash accepted the password: nobody should know that password.
    DummyHashMatched,
    /// The worker that ran the verification failed.
    WorkerFault,
}

/// The ways a validation attempt fails.
#[derive(Debug, Clone, Copy, PartialEq, Eq, Structural)]
pub enum AuthError {
    /// Wrong password or unknown user; the two are not told apart.
    InvalidCredentials,
    /// Anything else; the cause is for logs, not for the user.
    UnexpectedError(UnexpectedCause),
}

/// What the lookup found, reduced to what validation reads.
pub open spec fn found_record(found: Option<StoredCredential>) -> Option<(UserId, Seq<char>)> {
    match found {
        Some(c) => Some(c.record()),
        None => None,
    }
}

/// The outcome of checking `password` against the record found, or against
/// the dummy hash when no record was found.
pub open spec fn outcome_of(
    password: Seq<char>,
    found: Option<(UserId, Seq<char>)>,
    dummy: Seq<char>,
) -> Result<UserId, AuthError> {
    let phc = match found {
        Some(rec) => rec.1,
        None => dummy,
    };
    match phc_verify(password, phc) {
        None => Err(AuthError::UnexpectedError(UnexpectedCause::MalformedHash)),
        Some(false) => Err(AuthError::InvalidCredentials),
        Some(true) => match found {
            Some(rec) => Ok(rec.0),
            None => Err(AuthError::UnexpectedError(UnexpectedCause::DummyHashMatched)),
        },
    }
}

/// The outcome of a validation attempt given the store's answer to the lookup.
pub open spec fn validation_outcome(
    password: Seq<char>,
    lookup: Result<Option<StoredCredential>, StoreError>,
    dummy: Seq<char>,
) -> Result<UserId, AuthError> {
    match lookup {
        Err(_) => Err(AuthError::UnexpectedError(UnexpectedCause::StoreFault)),
        Ok(found) => outcome_of(password, found_record(found), dummy),
    }
}

/// Validates `password` against the store's answer to a lookup by username.
/// When no user was found the dummy hash stands in, so the expensive
/// verification runs in every case that reaches it.
pub fn validate_credentials(
    password: &str,
    lookup: Result<Option<StoredCredential>, StoreError>,
    dummy: &DummyHash,
) -> (r: Result<UserId, AuthError>)
    ensures
        r == validation_outcome(password@, lookup, dummy@),
{
    let found = match lookup {
        Err(_) => {
            return Err(AuthError::UnexpectedError(UnexpectedCause::StoreFault));
        },
        Ok(found) => found,
    };
    let (user_id, phc): (Option<UserId>, &str) = match &found {
        Some(c) => (Some(c.user_id), c.password_hash.as_str()),
        None => (None, dummy.as_str()),
    };
    match verify_password(password, phc) {
        Err(HashError::MalformedHash) => Err(
            AuthError::UnexpectedError(UnexpectedCause::MalformedHash),
        ),
        Ok(false) => Err(AuthError::InvalidCredentials),
        Ok(true) => match user_id {
            Some(id) => Ok(id),
            None => Err(AuthError::UnexpectedError(UnexpectedCause::DummyHashMatched)),
        },
    }
}

/// The fewest characters a new password may have.
pub const MIN_PASSWORD_CHARS: usize = 8;

/// The most characters a new password may have.
pub const MAX_PASSWORD_CHARS: usize = 128;

/// Why a new password was refused before hashing.
#[derive(Debug, Clone, Copy, PartialEq, Eq, Structural)]
pub enum PasswordPolicyError {
    TooShort,
    TooLong,
}

/// The store update that a password change asks for.
pub struct PasswordUpdate {
    pub user_id: UserId,
    pub password_hash: String,
}

/// Checks the length bounds on a new password, counted in characters.
pub fn check_password_policy(password: &str) -> (r: Result<(), PasswordPolicyError>)
    ensures
        r == Err::<(), PasswordPolicyError>(PasswordPolicyError::TooShort) <==> password@.len()
            < MIN_PASSWORD_CHARS,
        r == Err::<(), PasswordPolicyError>(PasswordPolicyError::TooLong) <==> password@.len()
            > MAX_PASSWORD_CHARS,
        r is Ok <==> MIN_PASSWORD_CHARS <= password@.len() <= MAX_PASSWORD_CHARS,
{
    let n = password.unicode_len();
    if n < MIN_PASSWORD_CHARS {
        Err(PasswordPolicyError::TooShort)
    } else if n > MAX_PASSWORD_CHARS {
        Err(PasswordPolicyError::TooLong)
    } else {
        Ok(())
    }
}

/// Computes the new hash for `user_id` after checking the length policy; the
/// caller persists the update. A password out of bounds is never hashed.
pub fn change_password(user_id: UserId, new_password: &str) -> (r: Result<
    PasswordUpdate,
    PasswordPolicyError,
>)
    ensures
        r is Ok <==> MIN_PASSWORD_CHARS <= new_password@.len() <= MAX_PASSWORD_CHARS,
        new_password@.len() < MIN_PASSWORD_CHARS ==> r matches Err(PasswordPolicyError::TooShort),
        new_password@.len() > MAX_PASSWORD_CHARS ==> r matches Err(PasswordPolicyError::TooLong),
        r matches Ok(u) ==> u.user_id == user_id && phc_verify(new_password@, u.password_hash@)
            == Some(true),
{
    match check_password_policy(new_password) {
        Err(e) => Err(e),
        Ok(()) => {
            let password_hash = hash_password(new_password);
            Ok(PasswordUpdate { user_id, password_hash })
        },
    }
}

/// A stored user who supplies the right password is authenticated with that
/// user's identifier.
pub proof fn lemma_correct_password_authenticates(
    password: Seq<char>,
    user_id: UserId,
    phc: Seq<char>,
    dummy: Seq<char>,
)
    requires
        phc_verify(password, phc) == Some(true),
    ensures
        outcome_of(password, Some((user_id, phc)), dummy) == Ok::<UserId, AuthError>(user_id),
{
}

/// A wrong password for a stored user and any password for an unknown user
/// end in the same error, so the result does not tell the two apart.
pub proof fn lemma_failures_indistinguishable(
    wrong_password: Seq<char>,
    user_id: UserId,
    phc: Seq<char>,
    any_password: Seq<char>,
    dummy: Seq<char>,
)
    requires
        phc_verify(wrong_password, phc) == Some(false),
        phc_verify(any_password, dummy) == Some(false),
    ensures
        outcome_of(wrong_password, Some((user_id, phc)), dummy) == outcome_of(
            any_password,
            None,
            dummy,
        ),
        outcome_of(any_password, None, dummy) == Err::<UserId, AuthError>(
            AuthError::InvalidCredentials,
        ),
{
}

/// Once a password change has been stored, validating with the new password
/// authenticates the user; a password that the new hash rejects does not.
pub proof fn lemma_changed_password_authenticates(
    user_id: UserId,
    new_password: Seq<char>,
    update: PasswordUpdate,
    old_password: Seq<char>,
    dummy: Seq<char>,
)
    requires
        update.user_id == user_id,
        phc_verify(new_password, update.password_hash@) == Some(true),
    ensures
        outcome_of(new_password, Some((user_id, update.password_hash@)), dummy) == Ok::<
            UserId,
            AuthError,
        >(user_id),
        phc_verify(old_password, update.password_hash@) == Some(false) ==> outcome_of(
            old_password,
            Some((user_id, update.password_hash@)),
            dummy,
        ) == Err::<UserId, AuthError>(AuthError::InvalidCredentials),
{
}

} // verus!
