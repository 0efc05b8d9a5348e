use zero2prod::authentication::{AuthError, PasswordPolicyError, UnexpectedCause, UserId};
use zero2prod::password::verify_password;
use zero2prod::routes::{
    confirm_new_password, password_change_after_validation, render_flash_messages, BodyData,
    Content, LoginError, PasswordChangeFailure, PasswordChangeRejection, PublishError,
};
use zero2prod::signing::{sign, verify, SigningKey};

#[test]
fn login_error_messages() {
    let a = LoginError::from_auth_error(AuthError::InvalidCredentials);
    assert_eq!(a, LoginError::AuthError);
    assert_eq!(a.message(), "Authentication failed");
    let u = LoginError::from_auth_error(AuthError::UnexpectedError(UnexpectedCause::StoreFault));
    assert_eq!(u, LoginError::UnexpectedError(UnexpectedCause::StoreFault));
    assert_eq!(u.message(), "Something went wrong");
}

#[test]
fn failed_login_redirect_is_signed() {
    let key = SigningKey::new(b"k".to_vec());
    let loc = LoginError::AuthError.redirect_location(&key);
    let tag = sign("Authentication failed", &key);
    assert_eq!(loc, format!("/login?error=Authentication%20failed&tag={tag}"));
    assert_eq!(verify("Authentication failed", &tag, &key), Ok(()));
}

#[test]
fn new_password_confirmation() {
    let a = "NewPass123!".to_string();
    let b = "NewPass123?".to_string();
    assert_eq!(confirm_new_password(&a, &a.clone()), Ok(()));
    assert_eq!(confirm_new_password(&a, &b), Err(PasswordChangeRejection::Mismatch));
    assert_eq!(
        PasswordChangeRejection::Mismatch.message(),
        "You entered two different new passwords - the field values must match."
    );
    assert_eq!(
        PasswordChangeRejection::CurrentIncorrect.message(),
        "The current password is incorrect."
    );
}

#[test]
fn password_change_decisions() {
    let id = UserId { value: 5 };
    let r = password_change_after_validation(id, Err(AuthError::InvalidCredentials), "NewPass123!");
    assert!(matches!(
        r,
        Err(PasswordChangeFailure::Rejected(PasswordChangeRejection::CurrentIncorrect))
    ));
    let r = password_change_after_validation(
        id,
        Err(AuthError::UnexpectedError(UnexpectedCause::MalformedHash)),
        "NewPass123!",
    );
    assert!(matches!(
        r,
        Err(PasswordChangeFailure::Unexpected(UnexpectedCause::MalformedHash))
    ));
    let r = password_change_after_validation(id, Ok(id), "short");
    assert!(matches!(
        r,
        Err(PasswordChangeFailure::Rejected(PasswordChangeRejection::Policy(
            PasswordPolicyError::TooShort
        )))
    ));
    let update = password_change_after_validation(id, Ok(id), "NewPass123!").ok().unwrap();
    assert_eq!(update.user_id, id);
    assert_eq!(verify_password("NewPass123!", &update.password_hash), Ok(true));
}

#[test]
fn flash_messages_render_as_paragraphs() {
    assert_eq!(render_flash_messages(&vec![]), "");
    let html = render_flash_messages(&vec!["one".to_string(), "two".to_string()]);
    assert_eq!(html, "<p><i>one</i></p>\n<p><i>two</i></p>\n");
}

#[test]
fn publish_error_is_a_server_error() {
    let e = PublishError::UnexpectedError("smtp down".to_string());
    assert_eq!(e.status_code(), 500);
    let body = BodyData {
        title: "Issue".to_string(),
        content: Content { html: "<p>hi</p>".to_string(), text: "hi".to_string() },
    };
    assert_eq!(body.content.text, "hi");
}
