//! Browser sessions: the cookie profile of a deployment, and the claims
//! that a session carries.
//!
//! A session points at a user; it is no copy of one. Whoever wants the user
//! of a session reads the identifier from the claims and fetches the record
//! again, so that a change of rights takes effect at once. The other claims
//! are for display.

use vstd::prelude::*;
use vstd::string::{StringExecFns, StringSliceAdditionalSpecFns};
use crate::auth::{format_uuid, parse_uuid, uuid_parsed, uuid_text, User};
use crate::time::TimeSpan;

verus! {

/// To which requests from other sites a browser sends the cookie.
#[derive(Clone, Copy, Debug, PartialEq, Eq, Structural)]
pub enum SameSite {
    /// Never with a request from another site.
    Strict,
    /// With requests that follow a link from another site.
    Lax,
    /// With every request.
    Unrestricted,
}

/// How the session cookie is set. It cannot be printed: it holds the
/// secret of the deployment.
#[derive(Clone)]
pub struct SessionConfig {
    pub secret_key: String,
    pub max_age: TimeSpan,
    pub secure: bool,
    pub http_only: bool,
    pub same_site: SameSite,
}

/// The profile of a deployment.
#[derive(Clone, Copy, Debug, PartialEq, Eq, Structural)]
pub enum SessionProfile {
    Development,
    Production,
}

/// The profile for development: sessions of a day, sent over plain HTTP
/// too, and with requests that follow a link from another site.
pub fn development_session_config() -> (config: SessionConfig)
    ensures
        config.secret_key@ == "your-secret-key-change-in-production"@,
        config.max_age.spec_nanos() == 24 * 60 * 60 * 1_000_000_000,
        !config.secure,
        config.http_only,
        config.same_site == SameSite::Lax,
{
    SessionConfig {
        secret_key: String::from_str("your-secret-key-change-in-production"),
        max_age: TimeSpan::from_secs(24 * 60 * 60),
        secure: false,
        http_only: true,
        same_site: SameSite::Lax,
    }
}

/// The profile for production: sessions of two hours, sent over HTTPS only,
/// hidden from scripts, and never sent with a request from another site.
/// `session_secret` is the secret that the deployment sets, if it sets one.
pub fn production_session_config(session_secret: Option<String>) -> (config: SessionConfig)
    ensures
        config.secret_key@ == match session_secret {
            Some(secret) => secret@,
            None => "change-this-in-production"@,
        },
        config.max_age.spec_nanos() == 2 * 60 * 60 * 1_000_000_000,
        config.secure,
        config.http_only,
        config.same_site == SameSite::Strict,
{
    SessionConfig {
        secret_key: match session_secret {
            Some(secret) => secret,
            None => String::from_str("change-this-in-production"),
        },
        max_age: TimeSpan::from_secs(2 * 60 * 60),
        secure: true,
        http_only: true,
        same_site: SameSite::Strict,
    }
}

/// An ASCII letter in lower case; any other byte as it is.
pub open spec fn ascii_lower(byte: u8) -> u8 {
    if 0x41 <= byte <= 0x5a {
        (byte + 0x20) as u8
    } else {
        byte
    }
}

/// Two texts are the same but for the case of ASCII letters.
pub open spec fn same_ignoring_ascii_case(left: Seq<u8>, right: Seq<u8>) -> bool {
    left.len() == right.len() && forall|i: int|
        0 <= i < left.len() ==> ascii_lower(#[trigger] left[i]) == ascii_lower(right[i])
}

/// Tells whether two texts are the same but for the case of ASCII letters.
pub fn eq_ignore_ascii_case(left: &[u8], right: &[u8]) -> (same: bool)
    ensures
        same == same_ignoring_ascii_case(left@, right@),
{
    if left.len() != right.len() {
        return false;
    }
    let mut i: usize = 0;
    while i < left.len()
        invariant
            0 <= i <= left.len(),
            left.len() == right.len(),
            forall|j: int| 0 <= j < i ==> ascii_lower(#[trigger] left@[j]) == ascii_lower(right@[j]),
        decreases left.len() - i,
    {
        let a: u8 = left[i];
        let b: u8 = right[i];
        let lower_a: u8 = if 0x41 <= a && a <= 0x5a {
            a + 0x20
        } else {
            a
        };
        let lower_b: u8 = if 0x41 <= b && b <= 0x5a {
            b + 0x20
        } else {
            b
        };
        if lower_a != lower_b {
            return false;
        }
        i += 1;
    }
    true
}

/// The profile that the environment names: production where it says
/// `production` in any case, else development.
pub open spec fn spec_session_profile(app_env: Option<Seq<u8>>) -> SessionProfile {
    if app_env matches Some(name) && same_ignoring_ascii_case(name, "production".spec_bytes()) {
        SessionProfile::Production
    } else {
        SessionProfile::Development
    }
}

/// Tells the profile that the environment names.
pub fn session_profile(app_env: Option<&str>) -> (profile: SessionProfile)
    ensures
        profile == spec_session_profile(
            match app_env {
                Some(name) => Some(name.spec_bytes()),
                None => None,
            },
        ),
{
    match app_env {
        Some(name) => {
            if eq_ignore_ascii_case(name.as_bytes(), "production".as_bytes()) {
                SessionProfile::Production
            } else {
                SessionProfile::Development
            }
        },
        None => SessionProfile::Development,
    }
}

/// The session configuration of a deployment, chosen once at startup.
pub fn select_session_config(
    app_env: Option<&str>,
    session_secret: Option<String>,
) -> (config: SessionConfig)
    ensures
        match spec_session_profile(
            match app_env {
                Some(name) => Some(name.spec_bytes()),
                None => None,
            },
        ) {
            SessionProfile::Production => config.secure && config.same_site == SameSite::Strict
                && config.max_age.spec_nanos() == 2 * 60 * 60 * 1_000_000_000 && config.secret_key@
                == match session_secret {
                Some(secret) => secret@,
                None => "change-this-in-production"@,
            },
            SessionProfile::Development => !config.secure && config.same_site == SameSite::Lax
                && config.max_age.spec_nanos() == 24 * 60 * 60 * 1_000_000_000
                && config.secret_key@ == "your-secret-key-change-in-production"@,
        },
        config.http_only,
{
    match session_profile(app_env) {
        SessionProfile::Production => production_session_config(session_secret),
        SessionProfile::Development => development_session_config(),
    }
}

/// What a session says of who is logged in.
#[derive(Clone, Debug)]
pub struct SessionClaims {
    pub user_id: String,
    pub username: String,
    pub is_admin: bool,
    pub must_change_password: bool,
}

/// Names under which the claims are kept in a session.
pub const USER_ID_CLAIM: &'static str = "user_id";

pub const USERNAME_CLAIM: &'static str = "username";

pub const IS_ADMIN_CLAIM: &'static str = "is_admin";

pub const MUST_CHANGE_PASSWORD_CLAIM: &'static str = "must_change_password";

/// The claims that a session carries once `user` has logged in. The
/// identifier is written so that `current_user_id` reads it as the user's
/// again.
pub fn login_claims(user: &User) -> (claims: SessionClaims)
    ensures
        claims.user_id@ == uuid_text(user.id),
        uuid_parsed(claims.user_id@) == Some(user.id),
        claims.username@ == user.username@,
        claims.is_admin == user.is_admin,
        claims.must_change_password == user.must_change_password,
{
    SessionClaims {
        user_id: format_uuid(user.id),
        username: user.username.clone(),
        is_admin: user.is_admin,
        must_change_password: user.must_change_password,
    }
}

/// The user that a session points at: the identifier in its claim, where
/// there is a claim and it is an identifier.
pub open spec fn claimed_user_id(user_id_claim: Option<Seq<char>>) -> Option<u128> {
    match user_id_claim {
        Some(text) => uuid_parsed(text),
        None => None,
    }
}

/// Reads the identifier of the user that a session points at. A session
/// without the claim, or with one that is no identifier, points at nobody.
pub fn current_user_id(user_id_claim: Option<&str>) -> (id: Option<u128>)
    ensures
        id == claimed_user_id(
            match user_id_claim {
                Some(text) => Some(text@),
                None => None,
            },
        ),
{
    match user_id_claim {
        Some(text) => match parse_uuid(text) {
            Ok(id) => Some(id),
            Err(_) => None,
        },
        None => None,
    }
}

/// The identifier as the store holds it, to fetch the user by.
pub fn user_id_text(id: u128) -> (text: String)
    ensures
        text@ == uuid_text(id),
        uuid_parsed(text@) == Some(id),
{
    format_uuid(id)
}

} // verus!
