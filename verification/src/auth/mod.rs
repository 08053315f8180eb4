//! Credentials: user records, password policy, password hashing, and the
//! decisions of the credential store.
//!
//! The store itself is somewhere else. What it holds of a user arrives here
//! as a `UserRecord`, a row of text and flags; what it is to write leaves as
//! a record or as a hash string. Nothing here keeps or logs a password.

pub mod session;

use vstd::prelude::*;
use vstd::string::{StringExecFns, StringSliceAdditionalSpecFns, StrSliceExecFns};
use vstd::utf8::encode_utf8;
use crate::chars::{
    char_is_alphanumeric, char_is_lowercase, char_is_numeric, char_is_uppercase, is_alphanumeric,
    is_lowercase, is_numeric, is_uppercase,
};
use crate::crypto::{argon2_hash, argon2_verdict, argon2_verify, random_below};
use crate::time::unix_time;

verus! {

/// A moment in time: seconds since the Unix epoch, and nanoseconds into that
/// second.
#[derive(Clone, Copy, Debug, PartialEq, Eq, Structural)]
pub struct Timestamp {
    pub secs: i64,
    pub nanos: u32,
}

/// A user of the dashboard. It cannot be printed: it holds the password
/// hash.
#[derive(Clone)]
pub struct User {
    pub id: u128,
    pub username: String,
    pub password_hash: String,
    pub created_at: Timestamp,
    pub last_login: Option<Timestamp>,
    pub is_admin: bool,
    pub must_change_password: bool,
}

/// What a `User` holds, as mathematical values.
pub struct UserView {
    pub id: u128,
    pub username: Seq<char>,
    pub password_hash: Seq<char>,
    pub created_at: Timestamp,
    pub last_login: Option<Timestamp>,
    pub is_admin: bool,
    pub must_change_password: bool,
}

impl View for User {
    type V = UserView;

    open spec fn view(&self) -> UserView {
        UserView {
            id: self.id,
            username: self.username@,
            password_hash: self.password_hash@,
            created_at: self.created_at,
            last_login: self.last_login,
            is_admin: self.is_admin,
            must_change_password: self.must_change_password,
        }
    }
}

/// A user as the credential store holds it: identifier and times as text.
/// It cannot be printed: it holds the password hash.
#[derive(Clone)]
pub struct UserRecord {
    pub id: String,
    pub username: String,
    pub password_hash: String,
    pub created_at: String,
    pub last_login: Option<String>,
    pub is_admin: bool,
    pub must_change_password: bool,
}

/// What a `UserRecord` holds, as mathematical values.
pub struct UserRecordView {
    pub id: Seq<char>,
    pub username: Seq<char>,
    pub password_hash: Seq<char>,
    pub created_at: Seq<char>,
    pub last_login: Option<Seq<char>>,
    pub is_admin: bool,
    pub must_change_password: bool,
}

impl View for UserRecord {
    type V = UserRecordView;

    open spec fn view(&self) -> UserRecordView {
        UserRecordView {
            id: self.id@,
            username: self.username@,
            password_hash: self.password_hash@,
            created_at: self.created_at@,
            last_login: match self.last_login {
                Some(text) => Some(text@),
                None => None,
            },
            is_admin: self.is_admin,
            must_change_password: self.must_change_password,
        }
    }
}

/// What goes wrong in the credential store's decisions. All but
/// `WeakPassword` mean that the system is broken, not that somebody was
/// refused.
#[derive(Clone, Copy, Debug, PartialEq, Eq, Structural)]
pub enum AuthServiceError {
    /// A stored user identifier is no UUID.
    MalformedUserId,
    /// A stored creation time is no RFC 3339 time, or the present moment
    /// cannot be written as one.
    MalformedTimestamp,
    /// A stored password hash is no hash string.
    MalformedHash,
    /// The password could not be hashed.
    Hashing,
    /// The new password does not meet the strength policy.
    WeakPassword,
}

impl AuthServiceError {
    /// The error is a fault of the system, to be reported apart from
    /// refusals.
    pub open spec fn spec_is_internal(self) -> bool {
        self != AuthServiceError::WeakPassword
    }

    /// The error is a fault of the system, to be reported apart from
    /// refusals.
    pub fn is_internal(&self) -> (internal: bool)
        ensures
            internal == self.spec_is_internal(),
    {
        match self {
            AuthServiceError::WeakPassword => false,
            _ => true,
        }
    }

    /// The error in words. No message names a user, a password or a hash.
    pub fn message(&self) -> (text: &'static str)
        ensures
            text@ == match *self {
                AuthServiceError::MalformedUserId => "stored user identifier is malformed"@,
                AuthServiceError::MalformedTimestamp => "stored time is malformed"@,
                AuthServiceError::MalformedHash => "stored password hash is malformed"@,
                AuthServiceError::Hashing => "password hashing failed"@,
                AuthServiceError::WeakPassword => "the new password does not meet the security criteria"@,
            },
    {
        match self {
            AuthServiceError::MalformedUserId => "stored user identifier is malformed",
            AuthServiceError::MalformedTimestamp => "stored time is malformed",
            AuthServiceError::MalformedHash => "stored password hash is malformed",
            AuthServiceError::Hashing => "password hashing failed",
            AuthServiceError::WeakPassword => "the new password does not meet the security criteria",
        }
    }
}

/// The error of the `uuid` parser, carried through as it is.
#[verifier::external_type_specification]
#[verifier::external_body]
pub struct ExUuidError(uuid::Error);

/// The error of the `chrono` parser, carried through as it is.
#[verifier::external_type_specification]
#[verifier::external_body]
pub struct ExChronoParseError(chrono::ParseError);

/// The UUID that `text` denotes for `Uuid::parse_str` of the `uuid` crate,
/// as a 128-bit number; `None` where it rejects `text`.
pub uninterp spec fn uuid_parsed(text: Seq<char>) -> Option<u128>;

/// The hyphenated lower-case text that the `uuid` crate writes for the UUID
/// of the number `id`.
pub uninterp spec fn uuid_text(id: u128) -> Seq<char>;

/// The moment that `text` denotes for `DateTime::parse_from_rfc3339` of the
/// `chrono` crate, as seconds since the Unix epoch and nanoseconds; `None`
/// where it rejects `text`.
pub uninterp spec fn rfc3339_parsed(text: Seq<char>) -> Option<Timestamp>;

/// The RFC 3339 text that the `chrono` crate writes for a moment in UTC;
/// `None` where the moment is outside the range of its calendar.
pub uninterp spec fn rfc3339_text(secs: i64, nanos: u32) -> Option<Seq<char>>;

/// `Uuid::parse_str` and `Uuid::as_u128`. The contract names what comes
/// back.
#[verifier::external_body]
pub(crate) fn parse_uuid(text: &str) -> (parsed: Result<u128, uuid::Error>)
    ensures
        parsed is Ok <==> uuid_parsed(text@) is Some,
        parsed matches Ok(id) ==> uuid_parsed(text@) == Some(id),
{
    Ok(uuid::Uuid::parse_str(text)?.as_u128())
}

/// `Uuid::from_u128` and its `to_string`. The contract names the text that
/// comes back and claims that `Uuid::parse_str` reads it as `id` again.
#[verifier::external_body]
pub(crate) fn format_uuid(id: u128) -> (text: String)
    ensures
        text@ == uuid_text(id),
        uuid_parsed(text@) == Some(id),
{
    uuid::Uuid::from_u128(id).to_string()
}

/// `Uuid::new_v4`: a random identifier. Nothing is claimed of it.
#[verifier::external_body]
pub(crate) fn random_uuid() -> u128 {
    uuid::Uuid::new_v4().as_u128()
}

/// `DateTime::parse_from_rfc3339`, read off as `timestamp` and
/// `timestamp_subsec_nanos`. The contract names what comes back.
#[verifier::external_body]
pub(crate) fn parse_rfc3339(text: &str) -> (parsed: Result<Timestamp, chrono::ParseError>)
    ensures
        parsed is Ok <==> rfc3339_parsed(text@) is Some,
        parsed matches Ok(at) ==> rfc3339_parsed(text@) == Some(at),
{
    let at = chrono::DateTime::parse_from_rfc3339(text)?;
    Ok(Timestamp { secs: at.timestamp(), nanos: at.timestamp_subsec_nanos() })
}

/// First second that RFC 3339 cannot write: the start of the year 10000.
pub const END_OF_RFC3339: i64 = 253_402_300_800;

/// `DateTime::from_timestamp` and `to_rfc3339`. The contract names what
/// comes back, and claims that `DateTime::parse_from_rfc3339` reads it where
/// the moment lies between the Unix epoch and the end of the year 9999:
/// there the year is written in four digits, and what is written is an RFC
/// 3339 time.
#[verifier::external_body]
pub(crate) fn format_rfc3339(at: Timestamp) -> (text: Option<String>)
    ensures
        text is Some <==> rfc3339_text(at.secs, at.nanos) is Some,
        text matches Some(written) ==> rfc3339_text(at.secs, at.nanos) == Some(written@),
        text matches Some(written) ==> (0 <= at.secs < END_OF_RFC3339 ==> rfc3339_parsed(written@)
            is Some),
{
    Some(chrono::DateTime::from_timestamp(at.secs, at.nanos)?.to_rfc3339())
}

/// The present moment on the system clock; `None` where the clock reads a
/// time before the Unix epoch, or one whose seconds no `Timestamp` holds.
/// The clock is read through std and not through `chrono::Utc::now`, which
/// panics on a clock before the epoch.
pub(crate) fn utc_now() -> (now: Option<Timestamp>)
    ensures
        now matches Some(at) ==> at.secs >= 0,
{
    match unix_time() {
        Some((secs, nanos)) => if secs <= 0x7fff_ffff_ffff_ffff {
            Some(Timestamp { secs: secs as i64, nanos })
        } else {
            None
        },
        None => None,
    }
}

/// Writes a moment as the store holds it. Only moments between the Unix
/// epoch and the end of the year 9999 are written; what is written can be
/// read back.
pub fn timestamp_text(at: Timestamp) -> (text: Option<String>)
    ensures
        text is Some <==> 0 <= at.secs < END_OF_RFC3339 && rfc3339_text(at.secs, at.nanos) is Some,
        text matches Some(written) ==> rfc3339_text(at.secs, at.nanos) == Some(written@)
            && rfc3339_parsed(written@) is Some,
{
    if 0 <= at.secs && at.secs < END_OF_RFC3339 {
        format_rfc3339(at)
    } else {
        None
    }
}

/// The user that a record denotes. The identifier is read first, then the
/// creation time; a last login that cannot be read counts as none.
pub open spec fn parsed_user(record: UserRecordView) -> Result<UserView, AuthServiceError> {
    match uuid_parsed(record.id) {
        None => Err(AuthServiceError::MalformedUserId),
        Some(id) => match rfc3339_parsed(record.created_at) {
            None => Err(AuthServiceError::MalformedTimestamp),
            Some(created_at) => Ok(
                UserView {
                    id,
                    username: record.username,
                    password_hash: record.password_hash,
                    created_at,
                    last_login: match record.last_login {
                        Some(text) => rfc3339_parsed(text),
                        None => None,
                    },
                    is_admin: record.is_admin,
                    must_change_password: record.must_change_password,
                },
            ),
        },
    }
}

/// Reads a record of the store as a user.
pub fn user_from_record(record: &UserRecord) -> (user: Result<User, AuthServiceError>)
    ensures
        match user {
            Ok(user) => parsed_user(record@) == Ok::<UserView, AuthServiceError>(user@),
            Err(error) => parsed_user(record@) == Err::<UserView, AuthServiceError>(error),
        },
{
    let id: u128 = match parse_uuid(record.id.as_str()) {
        Ok(id) => id,
        Err(_) => {
            return Err(AuthServiceError::MalformedUserId);
        },
    };
    let created_at: Timestamp = match parse_rfc3339(record.created_at.as_str()) {
        Ok(at) => at,
        Err(_) => {
            return Err(AuthServiceError::MalformedTimestamp);
        },
    };
    let last_login: Option<Timestamp> = match &record.last_login {
        Some(text) => match parse_rfc3339(text.as_str()) {
            Ok(at) => Some(at),
            Err(_) => None,
        },
        None => None,
    };
    Ok(
        User {
            id,
            username: record.username.clone(),
            password_hash: record.password_hash.clone(),
            created_at,
            last_login,
            is_admin: record.is_admin,
            must_change_password: record.must_change_password,
        },
    )
}

/// The user that the store holds under an identifier: none where it holds
/// no record, else the user that the record denotes.
pub fn get_user_by_id(found: Option<&UserRecord>) -> (user: Result<Option<User>, AuthServiceError>)
    ensures
        match user {
            Ok(Some(user)) => found is Some && parsed_user(found->0@) == Ok::<
                UserView,
                AuthServiceError,
            >(user@),
            Ok(None) => found is None,
            Err(error) => found is Some && parsed_user(found->0@) == Err::<
                UserView,
                AuthServiceError,
            >(error),
        },
{
    match found {
        Some(record) => match user_from_record(record) {
            Ok(user) => Ok(Some(user)),
            Err(error) => Err(error),
        },
        None => Ok(None),
    }
}

/// Least length of a strong password, in bytes.
pub const MIN_PASSWORD_LEN: usize = 8;

/// The strength policy: at least eight bytes long, with an upper-case
/// letter, a lower-case letter, a digit and a symbol among its characters. A
/// symbol is any character that is neither letter nor digit.
pub open spec fn password_is_strong(password: Seq<char>) -> bool {
    &&& encode_utf8(password).len() >= MIN_PASSWORD_LEN
    &&& exists|i: int| 0 <= i < password.len() && char_is_uppercase(#[trigger] password[i])
    &&& exists|i: int| 0 <= i < password.len() && char_is_lowercase(#[trigger] password[i])
    &&& exists|i: int| 0 <= i < password.len() && char_is_numeric(#[trigger] password[i])
    &&& exists|i: int| 0 <= i < password.len() && !char_is_alphanumeric(#[trigger] password[i])
}

/// Tells whether `password` meets the strength policy.
pub fn is_password_strong(password: &str) -> (strong: bool)
    ensures
        strong == password_is_strong(password@),
{
    broadcast use vstd::string::group_string_axioms;

    let mut upper: bool = false;
    let mut lower: bool = false;
    let mut digit: bool = false;
    let mut symbol: bool = false;
    for c in it: password.chars()
        invariant
            it.seq() == password@,
            upper <==> exists|i: int| 0 <= i < it.index() && char_is_uppercase(#[trigger] password@[i]),
            lower <==> exists|i: int| 0 <= i < it.index() && char_is_lowercase(#[trigger] password@[i]),
            digit <==> exists|i: int| 0 <= i < it.index() && char_is_numeric(#[trigger] password@[i]),
            symbol <==> exists|i: int|
                0 <= i < it.index() && !char_is_alphanumeric(#[trigger] password@[i]),
    {
        let ghost at = it.index();
        assert(c == password@[at]);
        if is_uppercase(c) {
            upper = true;
        }
        if is_lowercase(c) {
            lower = true;
        }
        if is_numeric(c) {
            digit = true;
        }
        if !is_alphanumeric(c) {
            symbol = true;
        }
    }
    password.as_bytes().len() >= MIN_PASSWORD_LEN && upper && lower && digit && symbol
}

/// Hashes a password with Argon2id under a fresh random salt. The hash
/// string carries algorithm, parameters and salt, and differs from call to
/// call; `verify_password` accepts `password` against whatever comes back.
pub fn hash_password(password: &str) -> (hashed: Result<String, AuthServiceError>)
    ensures
        match hashed {
            Ok(hash) => argon2_verdict(password.spec_bytes(), hash@) == Some(true),
            Err(error) => error == AuthServiceError::Hashing,
        },
{
    match argon2_hash(password.as_bytes()) {
        Ok(hash) => Ok(hash),
        Err(_) => Err(AuthServiceError::Hashing),
    }
}

/// What checking `password` against `hash` comes to: an error where `hash`
/// is no hash string, else whether the password is the one that was hashed.
pub open spec fn password_check(password: Seq<u8>, hash: Seq<char>) -> Result<
    bool,
    AuthServiceError,
> {
    match argon2_verdict(password, hash) {
        Some(accepted) => Ok(accepted),
        None => Err(AuthServiceError::MalformedHash),
    }
}

/// Checks a password against a stored hash string.
pub fn verify_password(password: &str, hash: &str) -> (checked: Result<bool, AuthServiceError>)
    ensures
        checked == password_check(password.spec_bytes(), hash@),
{
    match argon2_verify(password.as_bytes(), hash) {
        Ok(accepted) => Ok(accepted),
        Err(_) => Err(AuthServiceError::MalformedHash),
    }
}

/// Length of a generated password, in characters.
pub const GENERATED_PASSWORD_LEN: usize = 18;

/// Number of characters that a generated password is drawn from.
pub const PASSWORD_ALPHABET_LEN: usize = 70;

/// The characters that a generated password is drawn from: upper-case and
/// lower-case letters, digits, and eight symbols.
pub open spec fn spec_password_alphabet() -> Seq<char> {
    "ABCDEFGHIJKLMNOPQRSTUVWXYZabcdefghijklmnopqrstuvwxyz0123456789!@#$%^&*"@
}

/// The characters that a generated password is drawn from.
pub fn password_alphabet() -> (alphabet: &'static str)
    ensures
        alphabet@ == spec_password_alphabet(),
        alphabet@.len() == PASSWORD_ALPHABET_LEN,
{
    proof {
        reveal_strlit("ABCDEFGHIJKLMNOPQRSTUVWXYZabcdefghijklmnopqrstuvwxyz0123456789!@#$%^&*");
    }
    "ABCDEFGHIJKLMNOPQRSTUVWXYZabcdefghijklmnopqrstuvwxyz0123456789!@#$%^&*"
}

/// The password that a run of choices spells: for each choice the character
/// of the alphabet at that place, counted round the alphabet.
pub open spec fn password_of_choices(choices: Seq<usize>) -> Seq<char> {
    Seq::new(
        choices.len(),
        |i: int| spec_password_alphabet()[choices[i] as int % PASSWORD_ALPHABET_LEN as int],
    )
}

/// Spells the password of a run of choices.
pub fn password_from_choices(choices: &Vec<usize>) -> (password: String)
    ensures
        password@ == password_of_choices(choices@),
{
    let alphabet: &'static str = password_alphabet();
    let mut password: String = String::new();
    let mut i: usize = 0;
    while i < choices.len()
        invariant
            0 <= i <= choices.len(),
            alphabet@ == spec_password_alphabet(),
            alphabet@.len() == PASSWORD_ALPHABET_LEN,
            password@ == password_of_choices(choices@.take(i as int)),
        decreases choices.len() - i,
    {
        let place: usize = choices[i] % PASSWORD_ALPHABET_LEN;
        let letter: &str = alphabet.substring_char(place, place + 1);
        password.append(letter);
        proof {
            let before = password_of_choices(choices@.take(i as int));
            let after = password_of_choices(choices@.take(i + 1));
            assert(letter@ =~= seq![alphabet@[place as int]]);
            assert forall|j: int| 0 <= j < after.len() implies (before + letter@)[j] == after[j] by {
                if j < i {
                    assert(choices@.take(i as int)[j] == choices@.take(i + 1)[j]);
                }
            }
            assert(before + letter@ =~= after);
        }
        i += 1;
    }
    assert(choices@.take(i as int) =~= choices@);
    password
}

/// Every character of `password` is of the alphabet.
pub open spec fn drawn_from_alphabet(password: Seq<char>) -> bool {
    forall|i: int| 0 <= i < password.len() ==> spec_password_alphabet().contains(#[trigger] password[i])
}

/// Draws a password of eighteen characters at random from the alphabet,
/// with the thread-local generator of the `rand` crate, which is fit for
/// secrets.
pub fn generate_secure_password() -> (password: String)
    ensures
        password@.len() == GENERATED_PASSWORD_LEN,
        drawn_from_alphabet(password@),
        exists|choices: Seq<usize>| password@ == #[trigger] password_of_choices(choices),
{
    let mut choices: Vec<usize> = Vec::new();
    let mut i: usize = 0;
    while i < GENERATED_PASSWORD_LEN
        invariant
            0 <= i <= GENERATED_PASSWORD_LEN,
            choices@.len() == i,
        decreases GENERATED_PASSWORD_LEN - i,
    {
        choices.push(random_below(PASSWORD_ALPHABET_LEN));
        i += 1;
    }
    let password = password_from_choices(&choices);
    proof {
        reveal_strlit("ABCDEFGHIJKLMNOPQRSTUVWXYZabcdefghijklmnopqrstuvwxyz0123456789!@#$%^&*");
        assert forall|j: int| 0 <= j < password@.len() implies spec_password_alphabet().contains(
            #[trigger] password@[j],
        ) by {
            let place = choices@[j] as int % PASSWORD_ALPHABET_LEN as int;
            assert(password@[j] == spec_password_alphabet()[place]);
        }
    }
    password
}

/// Name of the user that is made where the store is empty.
pub open spec fn spec_default_username() -> Seq<char> {
    "admin"@
}

/// What is answered in place of a password where a user exists already.
pub const EXISTING_USER: &'static str = "Utilisateur existant";

/// What `initialize_default_user` decided. It cannot be printed: it may
/// hold a plain password.
pub enum DefaultUser {
    /// The store already holds a user; nothing is to be written.
    AlreadyExists,
    /// The store is empty. `record` is to be written; `password` is the
    /// plain password of the new user, which is kept nowhere else.
    Created { record: UserRecord, password: String },
}

/// What a new default user looks like: an administrator named `admin` who
/// has never logged in, must change the password, and whose record holds a
/// hash that accepts `password`, and an identifier and a time that can be
/// read back.
pub open spec fn is_default_user(record: UserRecordView, password: Seq<char>) -> bool {
    &&& record.username == spec_default_username()
    &&& record.is_admin
    &&& record.must_change_password
    &&& record.last_login is None
    &&& uuid_parsed(record.id) is Some
    &&& rfc3339_parsed(record.created_at) is Some
    &&& argon2_verdict(encode_utf8(password), record.password_hash) == Some(true)
    &&& password.len() == GENERATED_PASSWORD_LEN
    &&& drawn_from_alphabet(password)
    &&& password != EXISTING_USER@
}

/// The record of a new default user.
pub fn default_user_record(id: u128, password_hash: String, created_at: String) -> (record: UserRecord)
    ensures
        record@ == (UserRecordView {
            id: uuid_text(id),
            username: spec_default_username(),
            password_hash: password_hash@,
            created_at: created_at@,
            last_login: None,
            is_admin: true,
            must_change_password: true,
        }),
        uuid_parsed(record@.id) == Some(id),
{
    UserRecord {
        id: format_uuid(id),
        username: String::from_str("admin"),
        password_hash,
        created_at,
        last_login: None,
        is_admin: true,
        must_change_password: true,
    }
}

/// Decides what to do about the default user, given the number of users in
/// the store. Where there is one already, nothing. Where there is none, an
/// administrator with a fresh random password is to be written; the plain
/// password is handed out here, once. The only failures are those of
/// hashing the password and of writing down the present moment: a clock
/// that reads a time before the Unix epoch, or after the year 9999, gives
/// `MalformedTimestamp`.
pub fn initialize_default_user(user_count: i64) -> (decided: Result<DefaultUser, AuthServiceError>)
    ensures
        user_count > 0 ==> decided matches Ok(DefaultUser::AlreadyExists),
        user_count <= 0 ==> match decided {
            Ok(DefaultUser::Created { record, password }) => is_default_user(record@, password@),
            Ok(DefaultUser::AlreadyExists) => false,
            Err(error) => error == AuthServiceError::Hashing || error
                == AuthServiceError::MalformedTimestamp,
        },
{
    if user_count > 0 {
        return Ok(DefaultUser::AlreadyExists);
    }
    let password: String = generate_secure_password();
    let id: u128 = random_uuid();
    let password_hash: String = match hash_password(password.as_str()) {
        Ok(hash) => hash,
        Err(error) => {
            return Err(error);
        },
    };
    let now: Timestamp = match utc_now() {
        Some(now) => now,
        None => {
            return Err(AuthServiceError::MalformedTimestamp);
        },
    };
    let created_at: String = match timestamp_text(now) {
        Some(text) => text,
        None => {
            return Err(AuthServiceError::MalformedTimestamp);
        },
    };
    let record = default_user_record(id, password_hash, created_at);
    proof {
        reveal_strlit("Utilisateur existant");
    }
    Ok(DefaultUser::Created { record, password })
}

/// What is answered to whoever asked for the default user: the plain
/// password of the user that was made, or `EXISTING_USER`. The two are
/// never the same.
pub fn default_user_answer(decided: &DefaultUser) -> (answer: &str)
    ensures
        match *decided {
            DefaultUser::Created { password, .. } => answer@ == password@,
            DefaultUser::AlreadyExists => answer@ == EXISTING_USER@,
        },
{
    match decided {
        DefaultUser::Created { password, .. } => password.as_str(),
        DefaultUser::AlreadyExists => EXISTING_USER,
    }
}

/// What a login attempt comes to once the password was checked: the user
/// where it was accepted, nobody where it was not, the error where the
/// check failed.
pub fn login_outcome(user: User, checked: Result<bool, AuthServiceError>) -> (outcome: Result<
    Option<User>,
    AuthServiceError,
>)
    ensures
        match checked {
            Ok(true) => outcome matches Ok(Some(found)) && found == user,
            Ok(false) => outcome matches Ok(None),
            Err(error) => outcome matches Err(failure) && failure == error,
        },
{
    match checked {
        Ok(true) => Ok(Some(user)),
        Ok(false) => Ok(None),
        Err(error) => Err(error),
    }
}

/// What stands in the way of a password change once the current password
/// was checked and the new one weighed: `Some` of the answer where the
/// change ends here, `None` where the new password is to be hashed.
pub fn change_obstacle(
    checked: Result<bool, AuthServiceError>,
    new_is_strong: bool,
) -> (obstacle: Option<Result<PasswordChange, AuthServiceError>>)
    ensures
        match checked {
            Err(error) => obstacle matches Some(Err(failure)) && failure == error,
            Ok(false) => obstacle matches Some(Ok(PasswordChange::Refused)),
            Ok(true) => if new_is_strong {
                obstacle is None
            } else {
                obstacle matches Some(Err(AuthServiceError::WeakPassword))
            },
        },
{
    match checked {
        Err(error) => Some(Err(error)),
        Ok(false) => Some(Ok(PasswordChange::Refused)),
        Ok(true) => if new_is_strong {
            None
        } else {
            Some(Err(AuthServiceError::WeakPassword))
        },
    }
}

/// What a login attempt comes to. An unknown name and a wrong password give
/// the same answer, `Ok(None)`.
pub open spec fn authentication(found: Option<UserRecordView>, password: Seq<u8>) -> Result<
    Option<UserView>,
    AuthServiceError,
> {
    match found {
        None => Ok(None),
        Some(record) => match parsed_user(record) {
            Err(error) => Err(error),
            Ok(user) => match argon2_verdict(password, user.password_hash) {
                None => Err(AuthServiceError::MalformedHash),
                Some(true) => Ok(Some(user)),
                Some(false) => Ok(None),
            },
        },
    }
}

/// Decides a login attempt. `found` is the record that the store holds under
/// the exact name given, if any. Where a user comes back, the store is to
/// set that user's last login to the present moment.
pub fn authenticate(found: Option<&UserRecord>, password: &str) -> (outcome: Result<
    Option<User>,
    AuthServiceError,
>)
    ensures
        match outcome {
            Ok(Some(user)) => found is Some && authentication(
                Some(found->0@),
                password.spec_bytes(),
            ) == Ok::<Option<UserView>, AuthServiceError>(Some(user@)),
            Ok(None) => authentication(
                match found {
                    Some(record) => Some(record@),
                    None => None,
                },
                password.spec_bytes(),
            ) == Ok::<Option<UserView>, AuthServiceError>(None),
            Err(error) => found is Some && authentication(Some(found->0@), password.spec_bytes())
                == Err::<Option<UserView>, AuthServiceError>(error),
        },
{
    let record: &UserRecord = match found {
        Some(record) => record,
        None => {
            return Ok(None);
        },
    };
    let user: User = match user_from_record(record) {
        Ok(user) => user,
        Err(error) => {
            return Err(error);
        },
    };
    let checked = verify_password(password, user.password_hash.as_str());
    login_outcome(user, checked)
}

/// The present moment as the store writes it, for the last login of a user
/// who has just logged in; `None` where the moment cannot be written, as
/// where the clock reads a time before the Unix epoch.
pub fn login_time() -> (text: Option<String>)
    ensures
        text matches Some(written) ==> rfc3339_parsed(written@) is Some,
        exists|at: Timestamp|
            match text {
                Some(written) => #[trigger] written_moment(at) == Some(written@),
                None => written_moment(at) is None,
            },
{
    match utc_now() {
        Some(now) => {
            let text = timestamp_text(now);
            assert(match text {
                Some(written) => written_moment(now) == Some(written@),
                None => written_moment(now) is None,
            });
            text
        },
        None => {
            assert(written_moment(Timestamp { secs: END_OF_RFC3339, nanos: 0 }) is None);
            None
        },
    }
}

/// What the store holds for a moment: the RFC 3339 text of a moment between
/// the Unix epoch and the end of the year 9999, and nothing for any other.
pub open spec fn written_moment(at: Timestamp) -> Option<Seq<char>> {
    if 0 <= at.secs < END_OF_RFC3339 {
        rfc3339_text(at.secs, at.nanos)
    } else {
        None
    }
}

/// What `change_password` decided. It cannot be printed: it may hold a
/// password hash.
pub enum PasswordChange {
    /// The user is unknown or the current password is wrong. Nothing is to
    /// be written.
    Refused,
    /// The password changes. The store is to write `password_hash` and to
    /// clear the user's duty to change the password.
    Changed { password_hash: String },
}

/// What stands in the way of a password change, if anything: `Some` of the
/// answer where the change is refused or fails before the new password is
/// hashed, `None` where the new password is to be hashed and stored.
pub open spec fn password_change_obstacle(
    found: Option<UserRecordView>,
    current: Seq<u8>,
    new: Seq<char>,
) -> Option<Result<(), AuthServiceError>> {
    match found {
        None => Some(Ok(())),
        Some(record) => match parsed_user(record) {
            Err(error) => Some(Err(error)),
            Ok(user) => match argon2_verdict(current, user.password_hash) {
                None => Some(Err(AuthServiceError::MalformedHash)),
                Some(false) => Some(Ok(())),
                Some(true) => if password_is_strong(new) {
                    None
                } else {
                    Some(Err(AuthServiceError::WeakPassword))
                },
            },
        },
    }
}

/// Decides a change of password. `found` is the record that the store holds
/// under the user's identifier, if any. The current password is checked
/// first, then the strength of the new one; only then is the new password
/// hashed. Whatever is refused or fails leaves the stored hash as it is: a
/// new hash comes back with `Changed` and in no other case.
pub fn change_password(
    found: Option<&UserRecord>,
    current_password: &str,
    new_password: &str,
) -> (outcome: Result<PasswordChange, AuthServiceError>)
    ensures
        match password_change_obstacle(
            match found {
                Some(record) => Some(record@),
                None => None,
            },
            current_password.spec_bytes(),
            new_password@,
        ) {
            Some(Ok(())) => outcome matches Ok(PasswordChange::Refused),
            Some(Err(error)) => outcome matches Err(failure) && failure == error,
            None => match outcome {
                Ok(PasswordChange::Changed { password_hash }) => argon2_verdict(
                    new_password.spec_bytes(),
                    password_hash@,
                ) == Some(true),
                Ok(PasswordChange::Refused) => false,
                Err(error) => error == AuthServiceError::Hashing,
            },
        },
{
    let record: &UserRecord = match found {
        Some(record) => record,
        None => {
            return Ok(PasswordChange::Refused);
        },
    };
    let user: User = match user_from_record(record) {
        Ok(user) => user,
        Err(error) => {
            return Err(error);
        },
    };
    let checked = verify_password(current_password, user.password_hash.as_str());
    match change_obstacle(checked, is_password_strong(new_password)) {
        Some(answer) => {
            return answer;
        },
        None => {},
    }
    match hash_password(new_password) {
        Ok(password_hash) => Ok(PasswordChange::Changed { password_hash }),
        Err(error) => Err(error),
    }
}

/// The default user can log in. The record of a new default user reads as
/// a user, and the password that was handed out opens it.
pub proof fn lemma_default_user_can_log_in(record: UserRecordView, password: Seq<char>)
    requires
        is_default_user(record, password),
    ensures
        parsed_user(record) is Ok,
        authentication(Some(record), encode_utf8(password)) == Ok::<
            Option<UserView>,
            AuthServiceError,
        >(Some(parsed_user(record)->Ok_0)),
        parsed_user(record)->Ok_0.is_admin,
        parsed_user(record)->Ok_0.must_change_password,
{
}

/// A password of fewer than eight bytes is weak, whatever it is made of.
pub proof fn lemma_short_password_is_weak(password: Seq<char>)
    requires
        encode_utf8(password).len() < MIN_PASSWORD_LEN,
    ensures
        !password_is_strong(password),
{
}

/// A weak new password changes nothing. Where the user is known, the record
/// reads well and the current password is right, a new password that fails
/// the strength policy is answered with `WeakPassword`, before anything is
/// hashed.
pub proof fn lemma_weak_password_changes_nothing(
    record: UserRecordView,
    current: Seq<u8>,
    new: Seq<char>,
)
    requires
        parsed_user(record) is Ok,
        argon2_verdict(current, record.password_hash) == Some(true),
        !password_is_strong(new),
    ensures
        password_change_obstacle(Some(record), current, new) == Some(
            Err::<(), AuthServiceError>(AuthServiceError::WeakPassword),
        ),
{
}

/// Login tells nothing about names. A wrong password for a known user and
/// any password for an unknown one are answered alike.
pub proof fn lemma_login_failures_alike(record: UserRecordView, wrong: Seq<u8>, any: Seq<u8>)
    requires
        parsed_user(record) is Ok,
        argon2_verdict(wrong, record.password_hash) == Some(false),
    ensures
        authentication(Some(record), wrong) == authentication(None, any),
{
}

} // verus!
