//! Forms and answers of the login pages.

use vstd::prelude::*;
use crate::auth::{AuthServiceError, PasswordChange, User};

verus! {

/// What the login page is called with.
#[derive(Clone, Debug)]
pub struct LoginQuery {
    pub error: Option<String>,
}

/// The login form. It cannot be printed: it holds a password.
#[derive(Clone)]
pub struct LoginRequest {
    pub username: String,
    pub password: String,
}

/// The form to change the password. It cannot be printed: it holds
/// passwords.
#[derive(Clone)]
pub struct ChangePasswordRequest {
    pub current_password: String,
    pub new_password: String,
    pub confirm_password: String,
}

/// What a page learns of who is logged in.
#[derive(Clone, Debug)]
pub struct AuthStatusResponse {
    pub authenticated: bool,
    pub username: Option<String>,
    pub must_change_password: bool,
    pub is_admin: bool,
}

/// The page to change the password.
pub const CHANGE_PASSWORD_PATH: &'static str = "/change-password";

/// The front page.
pub const HOME_PATH: &'static str = "/";

/// The front page, telling that the password was changed.
pub const PASSWORD_CHANGED_PATH: &'static str = "/?password_changed=true";

/// Where a user goes after logging in: to change the password where that is
/// due, else to the front page.
pub fn login_destination(user: &User) -> (path: &'static str)
    ensures
        path@ == if user.must_change_password {
            CHANGE_PASSWORD_PATH@
        } else {
            HOME_PATH@
        },
{
    if user.must_change_password {
        CHANGE_PASSWORD_PATH
    } else {
        HOME_PATH
    }
}

/// Tells whether the new password was typed the same twice.
pub fn new_password_confirmed(request: &ChangePasswordRequest) -> (confirmed: bool)
    ensures
        confirmed == (request.new_password@ == request.confirm_password@),
{
    request.new_password == request.confirm_password
}

/// What a page learns of the user that the session resolved to: name and
/// flags of a user, or that nobody is logged in.
pub fn auth_status(user: Option<&User>) -> (status: AuthStatusResponse)
    ensures
        status.authenticated == user is Some,
        match user {
            Some(user) => status.username matches Some(name) && name@ == user.username@
                && status.must_change_password == user.must_change_password && status.is_admin
                == user.is_admin,
            None => status.username is None && !status.must_change_password && !status.is_admin,
        },
{
    match user {
        Some(user) => AuthStatusResponse {
            authenticated: true,
            username: Some(user.username.clone()),
            must_change_password: user.must_change_password,
            is_admin: user.is_admin,
        },
        None => AuthStatusResponse {
            authenticated: false,
            username: None,
            must_change_password: false,
            is_admin: false,
        },
    }
}

/// What a page answers: it sends the browser somewhere, or shows the form
/// again with a message.
#[derive(Clone, Copy, Debug, PartialEq, Eq)]
pub enum PageReply {
    Redirect(&'static str),
    Message(&'static str),
}

/// Shown where a login fails for the name or the password. It does not say
/// which.
pub const LOGIN_FAILED_MESSAGE: &'static str = "Wrong user name or password";

/// Shown where the system fails. It says nothing of what failed.
pub const INTERNAL_ERROR_MESSAGE: &'static str = "Internal error";

/// Shown where the current password is wrong.
pub const WRONG_PASSWORD_MESSAGE: &'static str = "The current password is wrong";

/// Shown where the new password was not typed the same twice.
pub const MISMATCH_MESSAGE: &'static str = "The new passwords do not match";

/// Shown where the new password is weak.
pub const WEAK_PASSWORD_MESSAGE: &'static str =
    "The new password does not meet the security criteria";

/// What the login page answers to an attempt: a user goes on, a failure
/// for the name or the password gets one message, a fault of the system
/// another.
pub fn login_reply(outcome: &Result<Option<User>, AuthServiceError>) -> (reply: PageReply)
    ensures
        match *outcome {
            Ok(Some(user)) => reply matches PageReply::Redirect(path) && path@ == (
            if user.must_change_password {
                CHANGE_PASSWORD_PATH@
            } else {
                HOME_PATH@
            }),
            Ok(None) => reply matches PageReply::Message(text) && text@ == LOGIN_FAILED_MESSAGE@,
            Err(_) => reply matches PageReply::Message(text) && text@ == INTERNAL_ERROR_MESSAGE@,
        },
{
    match outcome {
        Ok(Some(user)) => PageReply::Redirect(login_destination(user)),
        Ok(None) => PageReply::Message(LOGIN_FAILED_MESSAGE),
        Err(_) => PageReply::Message(INTERNAL_ERROR_MESSAGE),
    }
}

/// What the page answers to a change of password that was decided.
pub fn change_password_reply(
    outcome: &Result<PasswordChange, AuthServiceError>,
) -> (reply: PageReply)
    ensures
        match *outcome {
            Ok(PasswordChange::Changed { .. }) => reply matches PageReply::Redirect(path) && path@
                == PASSWORD_CHANGED_PATH@,
            Ok(PasswordChange::Refused) => reply matches PageReply::Message(text) && text@
                == WRONG_PASSWORD_MESSAGE@,
            Err(AuthServiceError::WeakPassword) => reply matches PageReply::Message(text) && text@
                == WEAK_PASSWORD_MESSAGE@,
            Err(_) => reply matches PageReply::Message(text) && text@ == INTERNAL_ERROR_MESSAGE@,
        },
{
    match outcome {
        Ok(PasswordChange::Changed { .. }) => PageReply::Redirect(PASSWORD_CHANGED_PATH),
        Ok(PasswordChange::Refused) => PageReply::Message(WRONG_PASSWORD_MESSAGE),
        Err(AuthServiceError::WeakPassword) => PageReply::Message(WEAK_PASSWORD_MESSAGE),
        Err(_) => PageReply::Message(INTERNAL_ERROR_MESSAGE),
    }
}

} // verus!
