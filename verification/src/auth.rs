//! Acquiring a bearer token for a scope.
//!
//! The cache and the identity provider are reached by the caller. This
//! module decides: `token_step` takes the state of one acquisition and the
//! answer to the last action, and gives the next state and the next action.
//! A cached token ends the acquisition at once; a miss leads to one signed
//! assertion, one exchange, one attempt to store what came back.

use vstd::prelude::*;
use vstd::string::{StrSliceExecFns, StringExecFns};
use crate::json::{json_member, json_parsed, json_u64, member, parse_document, u64_of};
use crate::response::{read_text_member, text_member};
use crate::table::cell_view;

verus! {

/// The settings of the service identity and of the warehouse.
#[derive(Clone, Debug, PartialEq, Eq)]
pub struct Settings {
    /// Issuer of the assertion: the service account's email.
    pub issuer_email: String,
    /// The private signing key in PEM, possibly with escaped newlines.
    pub signing_key: String,
    /// Audience of the assertion, and the URL of the token endpoint.
    pub audience: String,
    pub grant_type: String,
    /// The scope that warehouse queries need.
    pub scope: String,
    pub project_id: String,
    pub table_id: String,
}

/// What a token response lacks.
#[derive(Clone, Copy, Debug, PartialEq, Eq, Structural)]
pub enum ExchangeFailure {
    /// The body is not a JSON document.
    NotJson,
    /// No string under `access_token`.
    MissingToken,
    /// No non-negative integer under `expires_in`.
    MissingExpiry,
}

/// Why no token was acquired.
#[derive(Clone, Debug, PartialEq, Eq)]
pub enum AuthError {
    /// The key could not be read or the assertion could not be signed.
    Signing,
    /// The exchange could not be sent.
    Transport,
    /// The identity provider answered with a status that is no success;
    /// its body is kept as it came.
    Rejected(String),
    /// The identity provider's answer cannot be used.
    Response(ExchangeFailure),
    /// An answer arrived that the acquisition was not waiting for.
    OutOfTurn,
}

/// A bearer token and the seconds for which it stays valid.
#[derive(Clone, Debug, PartialEq, Eq)]
pub struct Credential {
    pub token: String,
    pub ttl_secs: u64,
}

/// Where an acquisition stands.
#[derive(Clone, Debug, PartialEq, Eq)]
pub enum TokenState {
    Start,
    AwaitingLookup,
    AwaitingExchange,
    /// The token has been granted and is being stored.
    AwaitingStore(String),
    Finished,
}

/// What the caller reports back.
#[derive(Clone, Debug, PartialEq, Eq)]
pub enum TokenEvent {
    Begin,
    /// The cache's answer; `None` for a miss and for a cache that failed.
    CacheAnswer(Option<String>),
    /// The identity provider's answer.
    ExchangeAnswer { status: u16, body: String },
    /// The exchange could not be sent.
    ExchangeFailed,
    /// Whether the cache took the token.
    StoreAnswer(bool),
}

/// What the caller is to do next.
#[derive(Clone, Debug, PartialEq, Eq)]
pub enum TokenAction {
    /// Look the key up in the cache.
    Lookup { key: Vec<u8> },
    /// Post the form to the token endpoint.
    Exchange { url: String, grant_type: String, assertion: String },
    /// Store the token under the key, to expire after `ttl_secs` seconds.
    Store { key: Vec<u8>, token: String, ttl_secs: u64 },
    /// Done: this is the token.
    Grant(String),
    /// Done: there is no token.
    Fail(AuthError),
}

/// The digest that `hmac_sha256::Hash::hash` gives for the UTF-8 bytes of `scope`.
pub uninterp spec fn scope_digest(scope: Seq<char>) -> Seq<u8>;

/// The length of a digest in bytes.
pub const DIGEST_LEN: usize = 32;

/// Calls `hmac_sha256::Hash::hash` on the bytes of `scope`. Trusted: the
/// result is the digest that `scope_digest` names, and it has 32 bytes.
#[verifier::external_body]
fn fingerprint(scope: &str) -> (key: Vec<u8>)
    ensures
        key@ == scope_digest(scope@),
        key@.len() == DIGEST_LEN,
{
    hmac_sha256::Hash::hash(scope.as_bytes()).to_vec()
}

/// What goes into a signed assertion.
#[derive(Clone, Debug, PartialEq, Eq)]
pub struct AssertionRequest {
    /// The private key in PEM.
    pub key_pem: String,
    pub issuer: String,
    pub audience: String,
    /// The name and the value of the one custom claim.
    pub claim: String,
    pub value: String,
    pub validity_secs: u64,
}

/// Builds claims with `Claims::with_custom_claims`, `with_issuer` and
/// `with_audience`, reads the key with `RS256KeyPair::from_pem` and signs
/// with `RSAKeyPairLike::sign`. The claims hold the time of the call, so
/// nothing is claimed of the token; `None` stands for a key that cannot be
/// read and for a signature that fails. The clock must not stand before 1970.
#[verifier::external_body]
fn sign_assertion(request: &AssertionRequest) -> (token: Option<String>)
    requires
        request.validity_secs <= 3600,
{
    let mut custom = std::collections::BTreeMap::new();
    custom.insert(request.claim.clone(), request.value.clone());
    let valid_for = jwt_simple::prelude::Duration::from_secs(request.validity_secs);
    let claims = jwt_simple::claims::Claims::with_custom_claims(custom, valid_for)
        .with_issuer(&request.issuer)
        .with_audience(&request.audience);
    match jwt_simple::algorithms::RS256KeyPair::from_pem(&request.key_pem) {
        Ok(pair) => jwt_simple::algorithms::RSAKeyPairLike::sign(&pair, claims).ok(),
        Err(_) => None,
    }
}

/// The seconds for which an assertion is valid.
pub const ASSERTION_VALIDITY_SECS: u64 = 3600;

/// A key with every escaped newline, a backslash followed by `n`, turned
/// into a newline.
pub open spec fn unescaped(key: Seq<char>) -> Seq<char>
    decreases key.len(),
{
    if key.len() == 0 {
        Seq::empty()
    } else if key.len() >= 2 && key[key.len() - 2] == '\\' && key[key.len() - 1] == 'n' {
        unescaped(key.take(key.len() - 2)).push('\n')
    } else {
        unescaped(key.drop_last()).push(key.last())
    }
}

/// Turns the escaped newlines of a key into newlines.
pub fn normalize_key(raw: &str) -> (key: String)
    ensures
        key@ == unescaped(raw@),
{
    let n = raw.unicode_len();
    let mut key = String::new();
    let mut i: usize = 0;
    assert(raw@.take(0) =~= Seq::empty());
    assert(key@ =~= Seq::<char>::empty());
    while i < n
        invariant
            n == raw@.len(),
            i <= n,
            key@ == unescaped(raw@.take(i as int)),
            0 < i < n ==> !(raw@[i - 1] == '\\' && raw@[i as int] == 'n'),
        decreases n - i,
    {
        let c = raw.get_char(i);
        let ghost before = raw@.take(i as int);
        if c == '\\' && i + 1 < n && raw.get_char(i + 1) == 'n' {
            proof {
                reveal_strlit("\n");
                let upto = raw@.take(i as int + 2);
                assert(upto.take(upto.len() - 2) =~= before);
                assert("\n"@ =~= seq!['\n']);
            }
            key.append("\n");
            assert(key@ =~= unescaped(before).push('\n'));
            i += 2;
        } else {
            proof {
                let upto = raw@.take(i as int + 1);
                assert(upto.drop_last() =~= before);
                assert(upto.last() == c);
                assert(raw@.subrange(i as int, i as int + 1) =~= seq![c]);
            }
            key.append(raw.substring_char(i, i + 1));
            assert(key@ =~= unescaped(before).push(c));
            i += 1;
        }
    }
    assert(raw@.take(n as int) =~= raw@);
    key
}

/// Whether a request is the one for the assertion of these settings and
/// this scope: the settings' key with its newlines restored, their issuer
/// and audience, the scope as the claim `scope`, valid for one hour.
pub open spec fn is_assertion_request(
    request: AssertionRequest,
    settings: Settings,
    scope: Seq<char>,
) -> bool {
    &&& request.key_pem@ == unescaped(settings.signing_key@)
    &&& request.issuer@ == settings.issuer_email@
    &&& request.audience@ == settings.audience@
    &&& request.claim@ == "scope"@
    &&& request.value@ == scope
    &&& request.validity_secs == ASSERTION_VALIDITY_SECS
}

/// Puts together what goes into the assertion for a scope.
pub fn assertion_request(settings: &Settings, scope: &str) -> (request: AssertionRequest)
    ensures
        is_assertion_request(request, *settings, scope@),
{
    AssertionRequest {
        key_pem: normalize_key(settings.signing_key.as_str()),
        issuer: settings.issuer_email.clone(),
        audience: settings.audience.clone(),
        claim: String::from_str("scope"),
        value: String::from_str(scope),
        validity_secs: ASSERTION_VALIDITY_SECS,
    }
}

/// Whether an HTTP status is a success.
pub open spec fn status_succeeds(status: u16) -> bool {
    200 <= status <= 299
}

/// Whether an HTTP status is a success.
pub fn is_success(status: u16) -> (yes: bool)
    ensures
        yes == status_succeeds(status),
{
    200 <= status && status <= 299
}

/// The number under `key` of an object, if there is one that fits `u64`.
pub open spec fn u64_member(doc: serde_json::Value, key: Seq<char>) -> Option<u64> {
    match json_member(doc, key) {
        Some(found) => json_u64(found),
        None => None,
    }
}

/// The credential that a token response holds: the token and its lifetime
/// in seconds.
pub open spec fn credential_of(body: Seq<char>) -> Result<(Seq<char>, u64), ExchangeFailure> {
    match json_parsed(body) {
        None => Err(ExchangeFailure::NotJson),
        Some(doc) => match text_member(doc, "access_token"@) {
            None => Err(ExchangeFailure::MissingToken),
            Some(token) => match u64_member(doc, "expires_in"@) {
                None => Err(ExchangeFailure::MissingExpiry),
                Some(ttl) => Ok((token, ttl)),
            },
        },
    }
}

/// Reads the credential out of a token response.
pub fn read_credential(body: &str) -> (credential: Result<Credential, ExchangeFailure>)
    ensures
        match credential_of(body@) {
            Ok(model) => credential matches Ok(c) && c.token@ == model.0 && c.ttl_secs == model.1,
            Err(e) => credential matches Err(x) && x == e,
        },
{
    let doc = match parse_document(body) {
        None => { return Err(ExchangeFailure::NotJson); },
        Some(doc) => doc,
    };
    let token = match read_text_member(&doc, "access_token") {
        None => { return Err(ExchangeFailure::MissingToken); },
        Some(token) => token,
    };
    let ttl_secs = match member(&doc, "expires_in") {
        None => { return Err(ExchangeFailure::MissingExpiry); },
        Some(found) => match u64_of(found) {
            None => { return Err(ExchangeFailure::MissingExpiry); },
            Some(ttl) => ttl,
        },
    };
    Ok(Credential { token, ttl_secs })
}

/// Whether the cache's answer is a token that can be used: one that is
/// there and not empty.
pub open spec fn is_hit(cached: Option<String>) -> bool {
    cached matches Some(token) && token@.len() > 0
}

/// Whether an acquisition that stands at `state` and is told `event` may
/// go to `next` and ask for `action`, where signing the assertion, if it
/// comes to that, gives `signed`.
pub open spec fn step_allowed(
    settings: Settings,
    scope: Seq<char>,
    state: TokenState,
    event: TokenEvent,
    signed: Option<Seq<char>>,
    next: TokenState,
    action: TokenAction,
) -> bool {
    match (state, event) {
        (TokenState::Start, TokenEvent::Begin) => {
            &&& next is AwaitingLookup
            &&& action matches TokenAction::Lookup { key }
            &&& key@ == scope_digest(scope)
            &&& key@.len() == DIGEST_LEN
        },
        (TokenState::AwaitingLookup, TokenEvent::CacheAnswer(cached)) => if is_hit(cached) {
            &&& next is Finished
            &&& action matches TokenAction::Grant(token)
            &&& token@ == cached.unwrap()@
        } else {
            match signed {
                None => {
                    &&& next is Finished
                    &&& action matches TokenAction::Fail(e)
                    &&& e is Signing
                },
                Some(text) => {
                    &&& next is AwaitingExchange
                    &&& action matches TokenAction::Exchange { url, grant_type, assertion }
                    &&& url@ == settings.audience@
                    &&& grant_type@ == settings.grant_type@
                    &&& assertion@ == text
                },
            }
        },
        (TokenState::AwaitingExchange, TokenEvent::ExchangeFailed) => {
            &&& next is Finished
            &&& action matches TokenAction::Fail(e)
            &&& e is Transport
        },
        (TokenState::AwaitingExchange, TokenEvent::ExchangeAnswer { status, body }) => if !status_succeeds(status) {
            &&& next is Finished
            &&& action matches TokenAction::Fail(e)
            &&& e matches AuthError::Rejected(kept)
            &&& kept@ == body@
        } else {
            match credential_of(body@) {
                Err(failure) => {
                    &&& next is Finished
                    &&& action matches TokenAction::Fail(e)
                    &&& e matches AuthError::Response(f)
                    &&& f == failure
                },
                Ok(credential) => {
                    &&& next matches TokenState::AwaitingStore(held)
                    &&& held@ == credential.0
                    &&& action matches TokenAction::Store { key, token, ttl_secs }
                    &&& key@ == scope_digest(scope)
                    &&& key@.len() == DIGEST_LEN
                    &&& token@ == credential.0
                    &&& ttl_secs == credential.1
                },
            }
        },
        (TokenState::AwaitingStore(held), TokenEvent::StoreAnswer(_)) => {
            &&& next is Finished
            &&& action matches TokenAction::Grant(token)
            &&& token@ == held@
        },
        _ => {
            &&& next is Finished
            &&& action matches TokenAction::Fail(e)
            &&& e is OutOfTurn
        },
    }
}

/// Whether this step signs an assertion: the cache was asked and had no token.
pub open spec fn needs_signature(state: TokenState, event: TokenEvent) -> bool {
    state is AwaitingLookup && (event matches TokenEvent::CacheAnswer(cached) && !is_hit(cached))
}

/// One step of an acquisition, with the outcome of signing handed in:
/// `signed` is read only where the cache had no token.
pub fn token_step_with(
    settings: &Settings,
    scope: &str,
    state: TokenState,
    event: TokenEvent,
    signed: Option<String>,
) -> (step: (TokenState, TokenAction))
    ensures
        step_allowed(
            *settings,
            scope@,
            state,
            event,
            cell_view(signed),
            step.0,
            step.1,
        ),
{
    match (state, event) {
        (TokenState::Start, TokenEvent::Begin) => (
            TokenState::AwaitingLookup,
            TokenAction::Lookup { key: fingerprint(scope) },
        ),
        (TokenState::AwaitingLookup, TokenEvent::CacheAnswer(cached)) => {
            match cached {
                Some(token) => {
                    if token.as_str().unicode_len() > 0 {
                        return (TokenState::Finished, TokenAction::Grant(token));
                    }
                },
                None => {},
            }
            match signed {
                None => (TokenState::Finished, TokenAction::Fail(AuthError::Signing)),
                Some(assertion) => (
                    TokenState::AwaitingExchange,
                    TokenAction::Exchange {
                        url: settings.audience.clone(),
                        grant_type: settings.grant_type.clone(),
                        assertion,
                    },
                ),
            }
        },
        (TokenState::AwaitingExchange, TokenEvent::ExchangeFailed) => (
            TokenState::Finished,
            TokenAction::Fail(AuthError::Transport),
        ),
        (TokenState::AwaitingExchange, TokenEvent::ExchangeAnswer { status, body }) => {
            if !is_success(status) {
                (TokenState::Finished, TokenAction::Fail(AuthError::Rejected(body)))
            } else {
                match read_credential(body.as_str()) {
                    Err(failure) => (
                        TokenState::Finished,
                        TokenAction::Fail(AuthError::Response(failure)),
                    ),
                    Ok(credential) => {
                        let held = credential.token.clone();
                        (
                            TokenState::AwaitingStore(held),
                            TokenAction::Store {
                                key: fingerprint(scope),
                                token: credential.token,
                                ttl_secs: credential.ttl_secs,
                            },
                        )
                    },
                }
            }
        },
        (TokenState::AwaitingStore(held), TokenEvent::StoreAnswer(_)) => (
            TokenState::Finished,
            TokenAction::Grant(held),
        ),
        _ => (TokenState::Finished, TokenAction::Fail(AuthError::OutOfTurn)),
    }
}

/// Whether the cache's answer is a usable token.
pub fn cache_hit(cached: &Option<String>) -> (hit: bool)
    ensures
        hit == is_hit(*cached),
{
    match cached {
        Some(token) => token.as_str().unicode_len() > 0,
        None => false,
    }
}

/// One step of an acquisition. Where the cache had no token, the assertion
/// that `assertion_request` describes is signed here, and the step is the
/// one that `step_allowed` describes for whatever the signing gave. Every
/// other step signs nothing.
pub fn token_step(settings: &Settings, scope: &str, state: TokenState, event: TokenEvent) -> (step: (
    TokenState,
    TokenAction,
))
    ensures
        !needs_signature(state, event) ==> step_allowed(
            *settings,
            scope@,
            state,
            event,
            None,
            step.0,
            step.1,
        ),
        exists|signed: Option<Seq<char>>|
            step_allowed(*settings, scope@, state, event, signed, step.0, step.1),
{
    let miss = match (&state, &event) {
        (TokenState::AwaitingLookup, TokenEvent::CacheAnswer(cached)) => !cache_hit(cached),
        _ => false,
    };
    let signed = if miss {
        let request = assertion_request(settings, scope);
        sign_assertion(&request)
    } else {
        None
    };
    let ghost model = cell_view(signed);
    let step = token_step_with(settings, scope, state, event, signed);
    assert(step_allowed(*settings, scope@, state, event, model, step.0, step.1));
    step
}

/// How far an acquisition has come.
pub open spec fn progress(state: TokenState) -> nat {
    match state {
        TokenState::Start => 0,
        TokenState::AwaitingLookup => 1,
        TokenState::AwaitingExchange => 2,
        TokenState::AwaitingStore(_) => 3,
        TokenState::Finished => 4,
    }
}

/// A usable cached token ends the acquisition at once: the step grants
/// that token and asks for no exchange, whatever signing would give.
pub proof fn cache_hit_asks_for_no_exchange(
    settings: Settings,
    scope: Seq<char>,
    cached: String,
    signed: Option<Seq<char>>,
    next: TokenState,
    action: TokenAction,
)
    requires
        cached@.len() > 0,
        step_allowed(
            settings,
            scope,
            TokenState::AwaitingLookup,
            TokenEvent::CacheAnswer(Some(cached)),
            signed,
            next,
            action,
        ),
    ensures
        next is Finished,
        action matches TokenAction::Grant(token) && token@ == cached@,
        !(action is Exchange),
{
}

/// An exchange is asked for in one place only: on the cache's answer, when
/// it is no usable token and the assertion was signed. The acquisition
/// then waits for the exchange.
pub proof fn exchange_follows_a_miss(
    settings: Settings,
    scope: Seq<char>,
    state: TokenState,
    event: TokenEvent,
    signed: Option<Seq<char>>,
    next: TokenState,
    action: TokenAction,
)
    requires
        step_allowed(settings, scope, state, event, signed, next, action),
    ensures
        action is Exchange <==> (needs_signature(state, event) && signed.is_some()),
        action is Exchange ==> next is AwaitingExchange,
{
}

/// Every step moves an unfinished acquisition forward, so none asks for
/// an exchange twice.
pub proof fn steps_move_forward(
    settings: Settings,
    scope: Seq<char>,
    state: TokenState,
    event: TokenEvent,
    signed: Option<Seq<char>>,
    next: TokenState,
    action: TokenAction,
)
    requires
        step_allowed(settings, scope, state, event, signed, next, action),
    ensures
        !(state is Finished) ==> progress(next) > progress(state),
        next is Finished <==> (action is Grant || action is Fail),
{
}

/// A successful exchange is stored as it was granted: the step asks to
/// store the response's token under the scope's digest, to expire after
/// the response's `expires_in` seconds, and the step after it grants that
/// token whether or not the cache took it.
pub proof fn granted_token_is_stored(
    settings: Settings,
    scope: Seq<char>,
    status: u16,
    body: String,
    signed: Option<Seq<char>>,
    next: TokenState,
    action: TokenAction,
    stored: bool,
    last: TokenState,
    outcome: TokenAction,
)
    requires
        status_succeeds(status),
        credential_of(body@).is_ok(),
        step_allowed(
            settings,
            scope,
            TokenState::AwaitingExchange,
            TokenEvent::ExchangeAnswer { status, body },
            signed,
            next,
            action,
        ),
        step_allowed(settings, scope, next, TokenEvent::StoreAnswer(stored), signed, last, outcome),
    ensures
        action matches TokenAction::Store { key, token, ttl_secs } && key@ == scope_digest(scope)
            && token@ == credential_of(body@).unwrap().0 && ttl_secs == credential_of(
            body@,
        ).unwrap().1,
        last is Finished,
        outcome matches TokenAction::Grant(token) && token@ == credential_of(body@).unwrap().0,
{
}

} // verus!
