//! The decisions the HTTP handlers make around the core: which error a failed
//! login shows, where it redirects, what a password-change form is refused
//! for, and the error page of newsletter publishing.
use vstd::prelude::*;
use crate::authentication::{
    change_password, AuthError, PasswordPolicyError, PasswordUpdate, UnexpectedCause, UserId,
    MAX_PASSWORD_CHARS, MIN_PASSWORD_CHARS,
};
use crate::password::phc_verify;
use crate::signing::{canonical_query, query_for, sign, tag_of, SigningKey};

verus! {

/// A failed login, as the user is told of it.
#[derive(Debug, Clone, Copy, PartialEq, Eq, Structural)]
pub enum LoginError {
    /// Wrong username or password.
    AuthError,
    /// Anything else; the cause is kept for logs.
    UnexpectedError(UnexpectedCause),
}

/// The text shown for a failed login.
pub open spec fn login_error_text(e: LoginError) -> Seq<char> {
    match e {
        LoginError::AuthError => "Authentication failed"@,
        LoginError::UnexpectedError(_) => "Something went wrong"@,
    }
}

/// Where a failed login redirects: the login page with the signed error.
pub open spec fn failure_location(key: Seq<u8>, message: Seq<char>) -> Seq<char> {
    "/login?"@ + canonical_query(message) + "&tag="@ + tag_of(key, message)
}

impl LoginError {
    /// Classifies a validation failure.
    pub fn from_auth_error(e: AuthError) -> (r: LoginError)
        ensures
            e == AuthError::InvalidCredentials ==> r == LoginError::AuthError,
            e matches AuthError::UnexpectedError(c) ==> r == LoginError::UnexpectedError(c),
    {
        match e {
            AuthError::InvalidCredentials => LoginError::AuthError,
            AuthError::UnexpectedError(c) => LoginError::UnexpectedError(c),
        }
    }

    /// The generic text shown to the user; it never holds internal detail.
    pub fn message(&self) -> (r: String)
        ensures
            r@ == login_error_text(*self),
    {
        match self {
            LoginError::AuthError => {
                let text = "Authentication failed";
                proof {
                    reveal_strlit("Authentication failed");
                }
                String::from_str(text)
            },
            LoginError::UnexpectedError(_) => {
                let text = "Something went wrong";
                proof {
                    reveal_strlit("Something went wrong");
                }
                String::from_str(text)
            },
        }
    }

    /// The redirect target after this failure: `/login?error=<text>&tag=<hex>`,
    /// the tag signing the error text.
    pub fn redirect_location(&self, key: &SigningKey) -> (r: String)
        ensures
            r@ == failure_location(key@, login_error_text(*self)),
    {
        let message = self.message();
        let query = query_for(message.as_str());
        let tag = sign(message.as_str(), key);
        let start = "/login?";
        let tag_field = "&tag=";
        proof {
            reveal_strlit("/login?");
            reveal_strlit("&tag=");
        }
        let mut location = String::from_str(start);
        location.append(query.as_str());
        location.append(tag_field);
        location.append(tag.as_str());
        location
    }
}

/// Why a password-change form was refused.
#[derive(Debug, Clone, Copy, PartialEq, Eq, Structural)]
pub enum PasswordChangeRejection {
    /// The two new-password fields differ.
    Mismatch,
    /// The current password did not validate.
    CurrentIncorrect,
    /// The new password is out of the length bounds.
    Policy(PasswordPolicyError),
}

/// Checks that the new password was typed the same twice.
pub fn confirm_new_password(new_password: &String, new_password_check: &String) -> (r: Result<
    (),
    PasswordChangeRejection,
>)
    ensures
        r is Ok <==> new_password@ == new_password_check@,
        r is Err ==> r == Err::<(), PasswordChangeRejection>(PasswordChangeRejection::Mismatch),
{
    if new_password.eq(new_password_check) {
        Ok(())
    } else {
        Err(PasswordChangeRejection::Mismatch)
    }
}

/// The flash message text for a refused password change.
pub open spec fn rejection_text(r: PasswordChangeRejection) -> Seq<char> {
    match r {
        PasswordChangeRejection::Mismatch => "You entered two different new passwords - the field values must match."@,
        PasswordChangeRejection::CurrentIncorrect => "The current password is incorrect."@,
        PasswordChangeRejection::Policy(PasswordPolicyError::TooShort) => "The new password is too short."@,
        PasswordChangeRejection::Policy(PasswordPolicyError::TooLong) => "The new password is too long."@,
    }
}

impl PasswordChangeRejection {
    /// The message flashed to the user.
    pub fn message(&self) -> (r: String)
        ensures
            r@ == rejection_text(*self),
    {
        match self {
            PasswordChangeRejection::Mismatch => {
                let text = "You entered two different new passwords - the field values must match.";
                proof {
                    reveal_strlit("You entered two different new passwords - the field values must match.");
                }
                String::from_str(text)
            },
            PasswordChangeRejection::CurrentIncorrect => {
                let text = "The current password is incorrect.";
                proof {
                    reveal_strlit("The current password is incorrect.");
                }
                String::from_str(text)
            },
            PasswordChangeRejection::Policy(PasswordPolicyError::TooShort) => {
                let text = "The new password is too short.";
                proof {
                    reveal_strlit("The new password is too short.");
                }
                String::from_str(text)
            },
            PasswordChangeRejection::Policy(PasswordPolicyError::TooLong) => {
                let text = "The new password is too long.";
                proof {
                    reveal_strlit("The new password is too long.");
                }
                String::from_str(text)
            },
        }
    }
}

/// How a password change that got past the confirmation field ends badly.
#[derive(Debug, Clone, Copy, PartialEq, Eq, Structural)]
pub enum PasswordChangeFailure {
    /// Shown to the user as a flash message.
    Rejected(PasswordChangeRejection),
    /// Answered with a server error.
    Unexpected(UnexpectedCause),
}

/// Decides a password change once the current password has been validated:
/// a wrong current password is refused, an unexpected failure is passed on,
/// and otherwise the new password is checked and hashed for `user_id`.
pub fn password_change_after_validation(
    user_id: UserId,
    current: Result<UserId, AuthError>,
    new_password: &str,
) -> (r: Result<PasswordUpdate, PasswordChangeFailure>)
    ensures
        current == Err::<UserId, AuthError>(AuthError::InvalidCredentials) ==> r matches Err(
            PasswordChangeFailure::Rejected(PasswordChangeRejection::CurrentIncorrect),
        ),
        current matches Err(AuthError::UnexpectedError(c)) ==> r matches Err(
            PasswordChangeFailure::Unexpected(d),
        ) && d == c,
        current is Ok ==> (r is Ok <==> MIN_PASSWORD_CHARS <= new_password@.len()
            <= MAX_PASSWORD_CHARS),
        current is Ok && new_password@.len() < MIN_PASSWORD_CHARS ==> r matches Err(
            PasswordChangeFailure::Rejected(
                PasswordChangeRejection::Policy(PasswordPolicyError::TooShort),
            ),
        ),
        current is Ok && new_password@.len() > MAX_PASSWORD_CHARS ==> r matches Err(
            PasswordChangeFailure::Rejected(
                PasswordChangeRejection::Policy(PasswordPolicyError::TooLong),
            ),
        ),
        r matches Ok(u) ==> u.user_id == user_id && phc_verify(new_password@, u.password_hash@)
            == Some(true),
{
    match current {
        Err(AuthError::InvalidCredentials) => Err(
            PasswordChangeFailure::Rejected(PasswordChangeRejection::CurrentIncorrect),
        ),
        Err(AuthError::UnexpectedError(c)) => Err(PasswordChangeFailure::Unexpected(c)),
        Ok(_) => match change_password(user_id, new_password) {
            Ok(update) => Ok(update),
            Err(e) => Err(PasswordChangeFailure::Rejected(PasswordChangeRejection::Policy(e))),
        },
    }
}

/// The HTML of the flash messages on the login page, one paragraph each.
pub open spec fn flash_html(messages: Seq<Seq<char>>) -> Seq<char>
    decreases messages.len(),
{
    if messages.len() == 0 {
        Seq::empty()
    } else {
        flash_html(messages.drop_last()) + "<p><i>"@ + messages.last() + "</i></p>\n"@
    }
}

/// Renders the flash messages shown above the login form.
pub fn render_flash_messages(messages: &Vec<String>) -> (r: String)
    ensures
        r@ == flash_html(messages@.map_values(|m: String| m@)),
{
    let open_tags = "<p><i>";
    let close_tags = "</i></p>\n";
    proof {
        reveal_strlit("<p><i>");
        reveal_strlit("</i></p>\n");
    }
    let ghost all = messages@.map_values(|m: String| m@);
    let mut html = String::new();
    let mut i: usize = 0;
    while i < messages.len()
        invariant
            i <= messages@.len(),
            all == messages@.map_values(|m: String| m@),
            open_tags@ == "<p><i>"@,
            close_tags@ == "</i></p>\n"@,
            html@ == flash_html(all.take(i as int)),
        decreases messages@.len() - i,
    {
        let ghost before = html@;
        let ghost next = all.take(i as int + 1);
        assert(next.drop_last() =~= all.take(i as int));
        assert(next.last() == messages@[i as int]@);
        html.append(open_tags);
        html.append(messages[i].as_str());
        html.append(close_tags);
        assert(html@ =~= flash_html(next.drop_last()) + "<p><i>"@ + next.last() + "</i></p>\n"@);
        i = i + 1;
    }
    assert(all.take(i as int) =~= all);
    html
}

/// A failure while publishing a newsletter issue.
pub enum PublishError {
    /// Anything that went wrong; the text is for logs.
    UnexpectedError(String),
}

impl PublishError {
    /// The HTTP status that the error is answered with.
    pub fn status_code(&self) -> (r: u16)
        ensures
            self matches PublishError::UnexpectedError(_) ==> r == 500,
    {
        match self {
            PublishError::UnexpectedError(_) => 500,
        }
    }
}

/// A newsletter issue as submitted for publishing.
pub struct BodyData {
    pub title: String,
    pub content: Content,
}

/// The two renderings of an issue's body.
pub struct Content {
    pub html: String,
    pub text: String,
}

} // verus!
