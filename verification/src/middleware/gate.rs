//! The access gate: what becomes of one inbound request.
//!
//! A request to a public route passes untouched. A request to a protected
//! route must bring a credential: a session that resolves to a user, or
//! else a bearer token. Without one, a programmatic path is answered with
//! 401 and a page with a redirect to the login page. With one, the request
//! is counted against the caller's budget and answered with 429 where the
//! budget is spent.
//!
//! The two credentials are two levels of trust. A session names a user; a
//! token only proves that the caller holds the shared secret. A handler that
//! needs a user looks for `Credential::Session`.

use vstd::prelude::*;
use vstd::slice::slice_subrange;
use vstd::string::StringSliceAdditionalSpecFns;
use crate::auth::{User, UserView};
use crate::middleware::auth::{
    issued_payload, lemma_issued_token_lifetime, token_verdict, validate_token_bytes_at, AuthError,
    TokenConfig,
};
use crate::encoding::base64_decoding;
use crate::time::unix_time;
use crate::middleware::rate_limiting::{
    after_check, allows, counts_bounded, Entries, RateLimitConfig, RateLimitState,
};

verus! {

/// Whether a route asks for a credential.
#[derive(Clone, Copy, Debug, PartialEq, Eq, Structural)]
pub enum RouteClass {
    Public,
    Protected,
}

/// How a caller proved the right to pass.
#[derive(Clone)]
pub enum Credential {
    /// A session that resolved to this user.
    Session(User),
    /// A valid bearer token: a service that holds the secret, no user.
    ServiceToken,
}

/// A `Credential`, as mathematical values.
pub enum CredentialView {
    Session(UserView),
    ServiceToken,
}

impl View for Credential {
    type V = CredentialView;

    open spec fn view(&self) -> CredentialView {
        match self {
            Credential::Session(user) => CredentialView::Session(user@),
            Credential::ServiceToken => CredentialView::ServiceToken,
        }
    }
}

/// How a request is turned away.
#[derive(Clone, Copy, Debug, PartialEq, Eq, Structural)]
pub enum Rejection {
    /// 401: a programmatic caller without a credential.
    Unauthorized,
    /// 429: the caller's budget is spent.
    TooManyRequests,
    /// A browser without a credential is sent to the login page.
    RedirectToLogin,
}

/// Where a browser without a credential is sent.
pub const LOGIN_PATH: &'static str = "/login";

impl Rejection {
    /// The HTTP status of the answer.
    pub fn status_code(&self) -> (code: u16)
        ensures
            code == match *self {
                Rejection::Unauthorized => 401u16,
                Rejection::TooManyRequests => 429u16,
                Rejection::RedirectToLogin => 303u16,
            },
    {
        match self {
            Rejection::Unauthorized => 401,
            Rejection::TooManyRequests => 429,
            Rejection::RedirectToLogin => 303,
        }
    }

    /// Where the answer sends the caller, if it is a redirect.
    pub fn location(&self) -> (target: Option<&'static str>)
        ensures
            target is Some <==> *self == Rejection::RedirectToLogin,
            target matches Some(path) ==> path@ == LOGIN_PATH@,
    {
        match self {
            Rejection::RedirectToLogin => Some(LOGIN_PATH),
            _ => None,
        }
    }
}

/// Where a request ends.
#[derive(Clone)]
pub enum GateOutcome {
    /// The request goes on to its handler, with the credential it brought;
    /// none on a public route.
    Forwarded(Option<Credential>),
    /// The request is answered here.
    Rejected(Rejection),
}

/// A `GateOutcome`, as mathematical values.
pub enum GateOutcomeView {
    Forwarded(Option<CredentialView>),
    Rejected(Rejection),
}

impl View for GateOutcome {
    type V = GateOutcomeView;

    open spec fn view(&self) -> GateOutcomeView {
        match self {
            GateOutcome::Forwarded(Some(credential)) => GateOutcomeView::Forwarded(
                Some(credential@),
            ),
            GateOutcome::Forwarded(None) => GateOutcomeView::Forwarded(None),
            GateOutcome::Rejected(rejection) => GateOutcomeView::Rejected(*rejection),
        }
    }
}

/// `text` begins with `prefix`.
pub open spec fn has_prefix(text: Seq<u8>, prefix: Seq<u8>) -> bool {
    prefix.len() <= text.len() && text.take(prefix.len() as int) == prefix
}

/// Tells whether `text` begins with `prefix`.
pub fn starts_with(text: &[u8], prefix: &[u8]) -> (answer: bool)
    ensures
        answer == has_prefix(text@, prefix@),
{
    if prefix.len() > text.len() {
        return false;
    }
    let mut i: usize = 0;
    while i < prefix.len()
        invariant
            0 <= i <= prefix.len() <= text.len(),
            forall|j: int| 0 <= j < i ==> text@[j] == prefix@[j],
        decreases prefix.len() - i,
    {
        if text[i] != prefix[i] {
            assert(text@.take(prefix@.len() as int)[i as int] != prefix@[i as int]);
            return false;
        }
        i += 1;
    }
    assert(text@.take(prefix@.len() as int) =~= prefix@);
    true
}

/// Tells whether two runs of bytes are the same.
pub fn same_bytes(left: &[u8], right: &[u8]) -> (answer: bool)
    ensures
        answer == (left@ == right@),
{
    if left.len() != right.len() {
        return false;
    }
    let same = starts_with(left, right);
    assert(left@.take(right@.len() as int) =~= left@);
    same
}

/// The routes that ask for no credential: the health probe, and the pages
/// to log in and out.
pub open spec fn is_public_path(path: Seq<u8>) -> bool {
    path == "/api/health".spec_bytes() || path == "/login".spec_bytes() || path
        == "/logout".spec_bytes()
}

/// The class of the route at `path`.
pub open spec fn spec_classify_route(path: Seq<u8>) -> RouteClass {
    if is_public_path(path) {
        RouteClass::Public
    } else {
        RouteClass::Protected
    }
}

/// Tells the class of the route at `path`.
pub fn classify_route(path: &str) -> (class: RouteClass)
    ensures
        class == spec_classify_route(path.spec_bytes()),
{
    let bytes = path.as_bytes();
    if same_bytes(bytes, "/api/health".as_bytes()) || same_bytes(bytes, "/login".as_bytes())
        || same_bytes(bytes, "/logout".as_bytes()) {
        RouteClass::Public
    } else {
        RouteClass::Protected
    }
}

/// A path for programs, not browsers: it begins with `/api` or `/ws`.
pub open spec fn spec_is_api_path(path: Seq<u8>) -> bool {
    has_prefix(path, "/api".spec_bytes()) || has_prefix(path, "/ws".spec_bytes())
}

/// Tells whether `path` is one for programs.
pub fn is_api_path(path: &str) -> (answer: bool)
    ensures
        answer == spec_is_api_path(path.spec_bytes()),
{
    let bytes = path.as_bytes();
    starts_with(bytes, "/api".as_bytes()) || starts_with(bytes, "/ws".as_bytes())
}

/// How a request without a credential is turned away at `path`.
pub open spec fn spec_rejection_without_credential(path: Seq<u8>) -> Rejection {
    if spec_is_api_path(path) {
        Rejection::Unauthorized
    } else {
        Rejection::RedirectToLogin
    }
}

/// Tells how a request without a credential is turned away at `path`.
pub fn rejection_without_credential(path: &str) -> (rejection: Rejection)
    ensures
        rejection == spec_rejection_without_credential(path.spec_bytes()),
{
    if is_api_path(path) {
        Rejection::Unauthorized
    } else {
        Rejection::RedirectToLogin
    }
}

/// The token that an `Authorization` header carries: what follows
/// `Bearer `. No header means no credential; a header of another shape is
/// malformed.
pub open spec fn spec_bearer_token(authorization: Option<Seq<u8>>) -> Result<Seq<u8>, AuthError> {
    match authorization {
        None => Err(AuthError::MissingToken),
        Some(header) => if has_prefix(header, "Bearer ".spec_bytes()) {
            Ok(header.skip("Bearer ".spec_bytes().len() as int))
        } else {
            Err(AuthError::InvalidFormat)
        },
    }
}

/// Takes the token out of an `Authorization` header.
pub fn bearer_token<'a>(authorization: Option<&'a str>) -> (token: Result<&'a [u8], AuthError>)
    ensures
        match token {
            Ok(bytes) => spec_bearer_token(
                match authorization {
                    Some(header) => Some(header.spec_bytes()),
                    None => None,
                },
            ) == Ok::<Seq<u8>, AuthError>(bytes@),
            Err(error) => spec_bearer_token(
                match authorization {
                    Some(header) => Some(header.spec_bytes()),
                    None => None,
                },
            ) == Err::<Seq<u8>, AuthError>(error),
        },
{
    let header: &[u8] = match authorization {
        Some(header) => header.as_bytes(),
        None => {
            return Err(AuthError::MissingToken);
        },
    };
    let scheme: &[u8] = "Bearer ".as_bytes();
    if !starts_with(header, scheme) {
        return Err(AuthError::InvalidFormat);
    }
    let token = slice_subrange(header, scheme.len(), header.len());
    assert(token@ =~= header@.skip(scheme@.len() as int));
    Ok(token)
}

/// What the bearer token of a request is judged to be at `now`.
pub open spec fn bearer_verdict(
    authorization: Option<Seq<u8>>,
    secret: Seq<u8>,
    ttl_seconds: u64,
    now: u64,
) -> Result<(), AuthError> {
    match spec_bearer_token(authorization) {
        Ok(token) => token_verdict(token, secret, ttl_seconds, now),
        Err(error) => Err(error),
    }
}

/// Checks the credential of a request. The session comes first: where it
/// resolved to a user, that user is the credential. Else the bearer token
/// is judged, and a valid one makes the caller a service.
pub fn check_credential(
    session_user: Option<User>,
    authorization: Option<&str>,
    config: &TokenConfig,
    now: u64,
) -> (checked: Result<Credential, AuthError>)
    ensures
        match session_user {
            Some(user) => checked matches Ok(Credential::Session(found)) && found@ == user@,
            None => match bearer_verdict(
                match authorization {
                    Some(header) => Some(header.spec_bytes()),
                    None => None,
                },
                config.secret_key@,
                config.ttl_seconds,
                now,
            ) {
                Ok(()) => checked matches Ok(Credential::ServiceToken),
                Err(error) => checked matches Err(refusal) && refusal == error,
            },
        },
{
    match session_user {
        Some(user) => Ok(Credential::Session(user)),
        None => {
            let token: &[u8] = match bearer_token(authorization) {
                Ok(token) => token,
                Err(error) => {
                    return Err(error);
                },
            };
            match validate_token_bytes_at(config, token, now) {
                Ok(()) => Ok(Credential::ServiceToken),
                Err(error) => Err(error),
            }
        },
    }
}

/// The request brings a credential: a session user, or a bearer token that
/// is valid at `now`.
pub open spec fn has_credential(
    session_user: Option<UserView>,
    authorization: Option<Seq<u8>>,
    secret: Seq<u8>,
    ttl_seconds: u64,
    now: u64,
) -> bool {
    session_user is Some || bearer_verdict(authorization, secret, ttl_seconds, now) is Ok
}

/// What one request and its moment look like at the access gate.
pub struct RequestFacts {
    pub path: Seq<u8>,
    pub session_user: Option<UserView>,
    pub authorization: Option<Seq<u8>>,
    pub client_key: Seq<char>,
    /// Unix time in seconds, for the token.
    pub now: u64,
    /// Time on the limiter's clock, for the budget.
    pub moment: u128,
}

/// The request reaches the budget check: its route is protected and it
/// brings a credential.
pub open spec fn reaches_limiter(request: RequestFacts, secret: Seq<u8>, ttl_seconds: u64) -> bool {
    spec_classify_route(request.path) == RouteClass::Protected && has_credential(
        request.session_user,
        request.authorization,
        secret,
        ttl_seconds,
        request.now,
    )
}

/// How the request is turned away, if it is.
pub open spec fn gate_rejection(
    request: RequestFacts,
    secret: Seq<u8>,
    ttl_seconds: u64,
    entries: Entries,
    budget: RateLimitConfig,
) -> Option<Rejection> {
    if spec_classify_route(request.path) == RouteClass::Public {
        None
    } else if !has_credential(
        request.session_user,
        request.authorization,
        secret,
        ttl_seconds,
        request.now,
    ) {
        Some(spec_rejection_without_credential(request.path))
    } else if !allows(entries, budget, request.client_key, request.moment) {
        Some(Rejection::TooManyRequests)
    } else {
        None
    }
}

/// The credential with which a request that passes is forwarded.
pub open spec fn forwarded_credential(request: RequestFacts) -> Option<CredentialView> {
    if spec_classify_route(request.path) == RouteClass::Public {
        None
    } else {
        match request.session_user {
            Some(user) => Some(CredentialView::Session(user)),
            None => Some(CredentialView::ServiceToken),
        }
    }
}

/// What the limiter remembers after the request.
pub open spec fn entries_after_gate(
    request: RequestFacts,
    secret: Seq<u8>,
    ttl_seconds: u64,
    entries: Entries,
    budget: RateLimitConfig,
) -> Entries {
    if reaches_limiter(request, secret, ttl_seconds) {
        after_check(entries, budget, request.client_key, request.moment)
    } else {
        entries
    }
}

/// Where the request ends.
pub open spec fn gate_outcome(
    request: RequestFacts,
    secret: Seq<u8>,
    ttl_seconds: u64,
    entries: Entries,
    budget: RateLimitConfig,
) -> GateOutcomeView {
    match gate_rejection(request, secret, ttl_seconds, entries, budget) {
        Some(rejection) => GateOutcomeView::Rejected(rejection),
        None => GateOutcomeView::Forwarded(forwarded_credential(request)),
    }
}

/// The facts of a request, put together.
pub open spec fn request_facts(
    path: Seq<u8>,
    session_user: Option<UserView>,
    authorization: Option<Seq<u8>>,
    client_key: Seq<char>,
    now: u64,
    moment: u128,
) -> RequestFacts {
    RequestFacts { path, session_user, authorization, client_key, now, moment }
}

/// Decides one request. `session_user` is the user that the request's
/// session resolved to, if any; `authorization` is its `Authorization`
/// header, if it has one that is text; `now` is the Unix time in seconds and
/// `moment` the time on the limiter's clock. Only a request that brings a
/// credential to a protected route is counted against `client_key`.
pub fn decide_request_at(
    path: &str,
    session_user: Option<User>,
    authorization: Option<&str>,
    config: &TokenConfig,
    limiter: &mut RateLimitState,
    client_key: &str,
    now: u64,
    moment: u128,
) -> (outcome: GateOutcome)
    ensures
        outcome@ == gate_outcome(
            request_facts(
                path.spec_bytes(),
                match session_user {
                    Some(user) => Some(user@),
                    None => None,
                },
                match authorization {
                    Some(header) => Some(header.spec_bytes()),
                    None => None,
                },
                client_key@,
                now,
                moment,
            ),
            config.secret_key@,
            config.ttl_seconds,
            old(limiter)@,
            old(limiter).spec_config(),
        ),
        final(limiter)@ == entries_after_gate(
            request_facts(
                path.spec_bytes(),
                match session_user {
                    Some(user) => Some(user@),
                    None => None,
                },
                match authorization {
                    Some(header) => Some(header.spec_bytes()),
                    None => None,
                },
                client_key@,
                now,
                moment,
            ),
            config.secret_key@,
            config.ttl_seconds,
            old(limiter)@,
            old(limiter).spec_config(),
        ),
        final(limiter).spec_config() == old(limiter).spec_config(),
        counts_bounded(final(limiter)@, final(limiter).spec_config()),
{
    match classify_route(path) {
        RouteClass::Public => {
            limiter.counts_within_budget();
            GateOutcome::Forwarded(None)
        },
        RouteClass::Protected => {
            match check_credential(session_user, authorization, config, now) {
                Err(_) => {
                    limiter.counts_within_budget();
                    GateOutcome::Rejected(rejection_without_credential(path))
                },
                Ok(credential) => {
                    if limiter.check_rate_limit_at(client_key, moment) {
                        GateOutcome::Forwarded(Some(credential))
                    } else {
                        GateOutcome::Rejected(Rejection::TooManyRequests)
                    }
                },
            }
        },
    }
}

/// Decides one request by the clocks: the system clock for the token, the
/// limiter's own for the budget. Where the system clock reads a time before
/// the Unix epoch a token is judged at the last moment there is, `u64::MAX`,
/// by which every token is as old as it can be.
pub fn decide_request(
    path: &str,
    session_user: Option<User>,
    authorization: Option<&str>,
    config: &TokenConfig,
    limiter: &mut RateLimitState,
    client_key: &str,
) -> (outcome: GateOutcome)
    ensures
        exists|request: RequestFacts|
            {
                &&& request.path == path.spec_bytes()
                &&& request.session_user == match session_user {
                    Some(user) => Some(user@),
                    None => None,
                }
                &&& request.authorization == match authorization {
                    Some(header) => Some(header.spec_bytes()),
                    None => None,
                }
                &&& request.client_key == client_key@
                &&& outcome@ == #[trigger] gate_outcome(
                    request,
                    config.secret_key@,
                    config.ttl_seconds,
                    old(limiter)@,
                    old(limiter).spec_config(),
                )
                &&& final(limiter)@ == entries_after_gate(
                    request,
                    config.secret_key@,
                    config.ttl_seconds,
                    old(limiter)@,
                    old(limiter).spec_config(),
                )
            },
        final(limiter).spec_config() == old(limiter).spec_config(),
        counts_bounded(final(limiter)@, final(limiter).spec_config()),
{
    let moment: u128 = limiter.now();
    let now: u64 = match unix_time() {
        Some((seconds, _)) => seconds,
        None => u64::MAX,
    };
    decide_request_at(path, session_user, authorization, config, limiter, client_key, now, moment)
}

/// A request without a credential never passes a protected route, and is
/// never counted: a programmatic path answers 401, a page sends the browser
/// to the login page.
pub proof fn lemma_no_credential_no_entry(
    request: RequestFacts,
    secret: Seq<u8>,
    ttl_seconds: u64,
    entries: Entries,
    budget: RateLimitConfig,
)
    requires
        spec_classify_route(request.path) == RouteClass::Protected,
        request.session_user is None,
        request.authorization is None,
    ensures
        gate_outcome(request, secret, ttl_seconds, entries, budget) == GateOutcomeView::Rejected(
            if spec_is_api_path(request.path) {
                Rejection::Unauthorized
            } else {
                Rejection::RedirectToLogin
            },
        ),
        entries_after_gate(request, secret, ttl_seconds, entries, budget) == entries,
{
}

/// A public route passes everybody, whatever they bring, and counts
/// nobody.
pub proof fn lemma_public_route_passes(
    request: RequestFacts,
    secret: Seq<u8>,
    ttl_seconds: u64,
    entries: Entries,
    budget: RateLimitConfig,
)
    requires
        spec_classify_route(request.path) == RouteClass::Public,
    ensures
        gate_outcome(request, secret, ttl_seconds, entries, budget) == GateOutcomeView::Forwarded(
            None,
        ),
        entries_after_gate(request, secret, ttl_seconds, entries, budget) == entries,
{
}

/// Whoever passes a protected route brought a credential and had budget
/// left; whoever passes with a session passes as that user, and whoever
/// passes without one passes as a service.
pub proof fn lemma_forwarded_means_entitled(
    request: RequestFacts,
    secret: Seq<u8>,
    ttl_seconds: u64,
    entries: Entries,
    budget: RateLimitConfig,
)
    requires
        spec_classify_route(request.path) == RouteClass::Protected,
        gate_outcome(request, secret, ttl_seconds, entries, budget) is Forwarded,
    ensures
        has_credential(
            request.session_user,
            request.authorization,
            secret,
            ttl_seconds,
            request.now,
        ),
        allows(entries, budget, request.client_key, request.moment),
        gate_outcome(request, secret, ttl_seconds, entries, budget) == GateOutcomeView::Forwarded(
            Some(
                match request.session_user {
                    Some(user) => CredentialView::Session(user),
                    None => CredentialView::ServiceToken,
                },
            ),
        ),
        request.session_user is None ==> token_verdict(
            request.authorization->0.skip("Bearer ".spec_bytes().len() as int),
            secret,
            ttl_seconds,
            request.now,
        ) is Ok,
{
}

/// An issued token opens the access gate for its lifetime. A request
/// without a session that carries a token issued under the secret, no
/// later than its time to live after it was issued, passes a protected route
/// as a service while its caller has budget left.
pub proof fn lemma_issued_token_opens_gate(
    request: RequestFacts,
    token: Seq<u8>,
    issued_at: u64,
    secret: Seq<u8>,
    ttl_seconds: u64,
    entries: Entries,
    budget: RateLimitConfig,
)
    requires
        spec_classify_route(request.path) == RouteClass::Protected,
        request.session_user is None,
        request.authorization == Some("Bearer ".spec_bytes() + token),
        base64_decoding(token) == Some(issued_payload(secret, issued_at)),
        request.now <= issued_at + ttl_seconds,
        allows(entries, budget, request.client_key, request.moment),
    ensures
        gate_outcome(request, secret, ttl_seconds, entries, budget) == GateOutcomeView::Forwarded(
            Some(CredentialView::ServiceToken),
        ),
        entries_after_gate(request, secret, ttl_seconds, entries, budget) == after_check(
            entries,
            budget,
            request.client_key,
            request.moment,
        ),
{
    let scheme = "Bearer ".spec_bytes();
    let header = scheme + token;
    assert(header.take(scheme.len() as int) =~= scheme);
    assert(header.skip(scheme.len() as int) =~= token);
    lemma_issued_token_lifetime(token, secret, ttl_seconds, issued_at, request.now);
}

} // verus!
