//! Running one query: the job that is posted to the warehouse, and what
//! its answer means.

use vstd::prelude::*;
use vstd::string::StringExecFns;
use crate::auth::{
    is_success, needs_signature, status_succeeds, step_allowed, token_step, AuthError, Settings,
    TokenAction, TokenEvent, TokenState,
};
use crate::json::{json_parsed, parse_document};
use crate::table::DecodeError;

verus! {

/// The body of a query-job request.
#[derive(Clone, Debug, Default, PartialEq, Eq)]
pub struct BqQueryReq {
    pub kind: String,
    pub query: String,
    pub location: String,
    pub use_legacy_sql: bool,
}

/// A request to the warehouse's job endpoint: where it is posted, the
/// value of its `Authorization` header, and its body.
#[derive(Clone, Debug, PartialEq, Eq)]
pub struct QueryRequest {
    pub url: String,
    pub authorization: String,
    pub job: BqQueryReq,
}

/// Why a query gave no document.
#[derive(Clone, Debug, PartialEq, Eq)]
pub enum QueryError {
    /// No token could be acquired.
    Token(AuthError),
    /// The job could not be sent.
    Transport,
    /// The warehouse answered with a status that is no success; its body
    /// is kept as it came.
    UpstreamRejection(String),
    /// The warehouse's answer cannot be decoded.
    Decode(DecodeError),
}

/// The job endpoint of a project.
pub open spec fn job_url(project: Seq<char>) -> Seq<char> {
    "https://bigquery.googleapis.com/bigquery/v2/projects/"@ + project + "/queries"@
}

/// The `Authorization` header for a bearer token.
pub open spec fn bearer(token: Seq<char>) -> Seq<char> {
    "Bearer "@ + token
}

/// Whether a job is the query job for `sql`: a query request, run in the
/// US, in standard SQL.
pub open spec fn is_query_job(job: BqQueryReq, sql: Seq<char>) -> bool {
    &&& job.kind@ == "queryRequest"@
    &&& job.query@ == sql
    &&& job.location@ == "US"@
    &&& !job.use_legacy_sql
}

/// Whether a request is the one that runs `sql` in the settings' project
/// under `token`.
pub open spec fn is_query_request(
    request: QueryRequest,
    settings: Settings,
    token: Seq<char>,
    sql: Seq<char>,
) -> bool {
    &&& request.url@ == job_url(settings.project_id@)
    &&& request.authorization@ == bearer(token)
    &&& is_query_job(request.job, sql)
}

/// Builds the query job for a statement.
pub fn build_query_job(sql: &str) -> (job: BqQueryReq)
    ensures
        is_query_job(job, sql@),
{
    BqQueryReq {
        kind: String::from_str("queryRequest"),
        query: String::from_str(sql),
        location: String::from_str("US"),
        use_legacy_sql: false,
    }
}

/// Builds the request that runs a statement under a bearer token.
pub fn query_request(settings: &Settings, token: &str, sql: &str) -> (request: QueryRequest)
    ensures
        is_query_request(request, *settings, token@, sql@),
{
    let url = String::from_str("https://bigquery.googleapis.com/bigquery/v2/projects/").concat(
        settings.project_id.as_str(),
    ).concat("/queries");
    let authorization = String::from_str("Bearer ").concat(token);
    QueryRequest { url, authorization, job: build_query_job(sql) }
}

/// What the warehouse's answer means: a status that is no success is a
/// rejection that keeps the body; a body that is no JSON document is a
/// decode error; otherwise the body's document.
pub open spec fn is_query_outcome(
    outcome: Result<serde_json::Value, QueryError>,
    status: u16,
    body: Seq<char>,
) -> bool {
    if !status_succeeds(status) {
        outcome matches Err(QueryError::UpstreamRejection(kept)) && kept@ == body
    } else {
        match json_parsed(body) {
            None => outcome matches Err(QueryError::Decode(e)) && e == DecodeError::NotJson,
            Some(doc) => outcome matches Ok(found) && found == doc,
        }
    }
}

/// Reads the warehouse's answer to a job.
pub fn query_outcome(status: u16, body: String) -> (outcome: Result<serde_json::Value, QueryError>)
    ensures
        is_query_outcome(outcome, status, body@),
{
    if !is_success(status) {
        Err(QueryError::UpstreamRejection(body))
    } else {
        match parse_document(body.as_str()) {
            None => Err(QueryError::Decode(DecodeError::NotJson)),
            Some(doc) => Ok(doc),
        }
    }
}

/// Where a query stands.
#[derive(Clone, Debug, PartialEq, Eq)]
pub enum QueryState {
    /// A token for the warehouse's scope is being acquired.
    Authorizing(TokenState),
    AwaitingWarehouse,
    Finished,
}

/// What the caller reports back.
#[derive(Clone, Debug, PartialEq, Eq)]
pub enum QueryEvent {
    /// The answer to an action of the token acquisition.
    Token(TokenEvent),
    /// The warehouse's answer.
    WarehouseAnswer { status: u16, body: String },
    /// The job could not be sent.
    WarehouseFailed,
}

/// What the caller is to do next.
#[derive(Debug)]
pub enum QueryAction {
    /// Perform this action of the token acquisition.
    Token(TokenAction),
    /// Post this request to the warehouse.
    Send(QueryRequest),
    /// Done: this is the warehouse's document.
    Deliver(serde_json::Value),
    /// Done: there is no document.
    Fail(QueryError),
}

/// The state in which a query starts, and the event that starts it.
pub fn start_query() -> (begin: (QueryState, QueryEvent))
    ensures
        begin.0 == QueryState::Authorizing(TokenState::Start),
        begin.1 == QueryEvent::Token(TokenEvent::Begin),
{
    (QueryState::Authorizing(TokenState::Start), QueryEvent::Token(TokenEvent::Begin))
}

/// What a query does with a step of its token acquisition: a granted
/// token sends the job under that token, a failure ends the query with
/// that failure, and any other action is passed on to the caller.
pub open spec fn follows_token_step(
    settings: Settings,
    sql: Seq<char>,
    token_next: TokenState,
    token_action: TokenAction,
    next: QueryState,
    action: QueryAction,
) -> bool {
    match token_action {
        TokenAction::Grant(token) => {
            &&& next is AwaitingWarehouse
            &&& action matches QueryAction::Send(request)
            &&& is_query_request(request, settings, token@, sql)
        },
        TokenAction::Fail(e) => {
            &&& next is Finished
            &&& action matches QueryAction::Fail(QueryError::Token(x))
            &&& x == e
        },
        other => {
            &&& next == QueryState::Authorizing(token_next)
            &&& action matches QueryAction::Token(passed)
            &&& passed == other
        },
    }
}

/// Whether a query for `sql` that stands at `state` and is told `event`
/// may go to `next` and ask for `action`, where signing an assertion, if
/// it comes to that, gives `signed`. The token is acquired for the
/// settings' scope.
pub open spec fn query_step_allowed(
    settings: Settings,
    sql: Seq<char>,
    state: QueryState,
    event: QueryEvent,
    signed: Option<Seq<char>>,
    next: QueryState,
    action: QueryAction,
) -> bool {
    match (state, event) {
        (QueryState::Authorizing(token_state), QueryEvent::Token(token_event)) => exists|
            token_next: TokenState,
            token_action: TokenAction,
        |
            #![auto]
            step_allowed(
                settings,
                settings.scope@,
                token_state,
                token_event,
                signed,
                token_next,
                token_action,
            ) && follows_token_step(settings, sql, token_next, token_action, next, action),
        (QueryState::AwaitingWarehouse, QueryEvent::WarehouseFailed) => {
            &&& next is Finished
            &&& action matches QueryAction::Fail(e)
            &&& e is Transport
        },
        (QueryState::AwaitingWarehouse, QueryEvent::WarehouseAnswer { status, body }) => {
            &&& next is Finished
            &&& match action {
                QueryAction::Deliver(doc) => is_query_outcome(Ok(doc), status, body@),
                QueryAction::Fail(e) => is_query_outcome(Err(e), status, body@),
                _ => false,
            }
        },
        _ => {
            &&& next is Finished
            &&& action matches QueryAction::Fail(QueryError::Token(e))
            &&& e is OutOfTurn
        },
    }
}

/// Whether this step of a query signs an assertion.
pub open spec fn signs_assertion(state: QueryState, event: QueryEvent) -> bool {
    state matches QueryState::Authorizing(token_state) && (event matches QueryEvent::Token(
        token_event,
    ) && needs_signature(token_state, token_event))
}

/// Carries a step of the token acquisition over into the query.
pub fn after_token_step(
    settings: &Settings,
    sql: &str,
    token_next: TokenState,
    token_action: TokenAction,
) -> (step: (QueryState, QueryAction))
    ensures
        follows_token_step(*settings, sql@, token_next, token_action, step.0, step.1),
{
    match token_action {
        TokenAction::Grant(token) => (
            QueryState::AwaitingWarehouse,
            QueryAction::Send(query_request(settings, token.as_str(), sql)),
        ),
        TokenAction::Fail(e) => (QueryState::Finished, QueryAction::Fail(QueryError::Token(e))),
        other => (QueryState::Authorizing(token_next), QueryAction::Token(other)),
    }
}

/// One step of a query: acquire a token, post the job, read the answer.
/// The step is one that `query_step_allowed` describes, for whatever
/// signing gave where an assertion was signed.
pub fn query_step(settings: &Settings, sql: &str, state: QueryState, event: QueryEvent) -> (step: (
    QueryState,
    QueryAction,
))
    ensures
        exists|signed: Option<Seq<char>>|
            query_step_allowed(*settings, sql@, state, event, signed, step.0, step.1),
        !signs_assertion(state, event) ==> query_step_allowed(
            *settings,
            sql@,
            state,
            event,
            None,
            step.0,
            step.1,
        ),
{
    match (state, event) {
        (QueryState::Authorizing(token_state), QueryEvent::Token(token_event)) => {
            let (token_next, token_action) = token_step(
                settings,
                settings.scope.as_str(),
                token_state,
                token_event,
            );
            let ghost signed = choose|s: Option<Seq<char>>|
                step_allowed(
                    *settings,
                    settings.scope@,
                    token_state,
                    token_event,
                    s,
                    token_next,
                    token_action,
                );
            let step = after_token_step(settings, sql, token_next, token_action);
            assert(query_step_allowed(*settings, sql@, state, event, signed, step.0, step.1));
            assert(!needs_signature(token_state, token_event) ==> query_step_allowed(
                *settings,
                sql@,
                state,
                event,
                None,
                step.0,
                step.1,
            ));
            step
        },
        (QueryState::AwaitingWarehouse, QueryEvent::WarehouseFailed) => {
            let step = (QueryState::Finished, QueryAction::Fail(QueryError::Transport));
            assert(query_step_allowed(*settings, sql@, state, event, None, step.0, step.1));
            step
        },
        (QueryState::AwaitingWarehouse, QueryEvent::WarehouseAnswer { status, body }) => {
            let step = match query_outcome(status, body) {
                Ok(doc) => (QueryState::Finished, QueryAction::Deliver(doc)),
                Err(e) => (QueryState::Finished, QueryAction::Fail(e)),
            };
            assert(query_step_allowed(*settings, sql@, state, event, None, step.0, step.1));
            step
        },
        _ => {
            let step = (
                QueryState::Finished,
                QueryAction::Fail(QueryError::Token(AuthError::OutOfTurn)),
            );
            assert(query_step_allowed(*settings, sql@, state, event, None, step.0, step.1));
            step
        },
    }
}

} // verus!
