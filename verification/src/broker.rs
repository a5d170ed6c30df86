//! The identity broker on D-Bus: accounts and tokens, the calls that are
//! made, how their replies are read, and the interactive sign-in as a
//! state machine whose calls the caller performs.

use vstd::prelude::*;
use crate::aad_tool::res_view;
use crate::text::{decimal, decimal_string, trim, trim_ws};

verus! {

/// An account that the broker knows.
#[derive(Clone, Debug)]
pub struct BrokerAccount {
    pub home_account_id: String,
    pub local_account_id: String,
    pub environment: String,
    pub realm: String,
    pub username: String,
    pub name: String,
    pub given_name: String,
}

impl BrokerAccount {
    /// A copy of the account, field by field.
    pub fn duplicate(&self) -> (r: Self)
        ensures
            r == *self,
    {
        BrokerAccount {
            home_account_id: self.home_account_id.clone(),
            local_account_id: self.local_account_id.clone(),
            environment: self.environment.clone(),
            realm: self.realm.clone(),
            username: self.username.clone(),
            name: self.name.clone(),
            given_name: self.given_name.clone(),
        }
    }
}

/// A token that the broker issued.
#[derive(Clone, Debug)]
pub struct BrokerTokenResponse {
    pub access_token: String,
    pub id_token: Option<String>,
    pub expires_on: Option<i64>,
    pub granted_scopes: Option<String>,
}

/// What the dashboard is given after a sign-in.
#[derive(Clone, Debug)]
pub struct TokenInfo {
    pub username: String,
    pub name: String,
    pub access_token: String,
    pub expires_on: Option<i64>,
}

/// The name shown for an account: its name, else its given name, else its
/// user name.
pub open spec fn display_name(name: Seq<char>, given_name: Seq<char>, username: Seq<char>) -> Seq<
    char,
> {
    if name.len() > 0 {
        name
    } else if given_name.len() > 0 {
        given_name
    } else {
        username
    }
}

/// The sign-in result for an account and its token.
pub fn token_info(account: &BrokerAccount, token: BrokerTokenResponse) -> (t: TokenInfo)
    ensures
        t.username@ == account.username@,
        t.name@ == display_name(account.name@, account.given_name@, account.username@),
        t.access_token@ == token.access_token@,
        t.expires_on == token.expires_on,
{
    let display = if !account.name.as_str().is_empty() {
        account.name.clone()
    } else if !account.given_name.as_str().is_empty() {
        account.given_name.clone()
    } else {
        account.username.clone()
    };
    TokenInfo {
        username: account.username.clone(),
        name: display,
        access_token: token.access_token,
        expires_on: token.expires_on,
    }
}

/// The version of the broker protocol that calls announce.
pub open spec fn protocol_version() -> Seq<char> {
    "0.0"@
}

/// The body of a broker call: the protocol version, the call's correlation
/// id and the request. The id is drawn fresh for each call by the caller,
/// as a random (version 4) UUID in its hyphenated text.
pub fn call_body(request_json: String, correlation_id: String) -> (r: (String, String, String))
    ensures
        r.0@ == protocol_version(),
        r.1@ == correlation_id@,
        r.2@ == request_json@,
{
    (String::from_str("0.0"), correlation_id, request_json)
}

/// The broker methods that are called.
#[derive(PartialEq, Eq, Structural, Clone, Copy, Debug)]
pub enum BrokerMethod {
    GetAccounts,
    AcquireTokenSilently,
    AcquireTokenInteractively,
}

/// The D-Bus name of a broker method.
pub open spec fn method_text(m: BrokerMethod) -> Seq<char> {
    match m {
        BrokerMethod::GetAccounts => "getAccounts"@,
        BrokerMethod::AcquireTokenSilently => "acquireTokenSilently"@,
        BrokerMethod::AcquireTokenInteractively => "acquireTokenInteractively"@,
    }
}

impl BrokerMethod {
    /// The D-Bus name of the method.
    pub fn name(&self) -> (r: &'static str)
        ensures
            r@ == method_text(*self),
    {
        match self {
            BrokerMethod::GetAccounts => "getAccounts",
            BrokerMethod::AcquireTokenSilently => "acquireTokenSilently",
            BrokerMethod::AcquireTokenInteractively => "acquireTokenInteractively",
        }
    }
}

/// The client id under which the portal calls the broker.
pub const BROKER_CLIENT_ID: &'static str = "d7b530a4-7680-4c23-a8bf-c52c121d2e87";

/// The scope that every token request asks for: Microsoft Graph.
pub const GRAPH_SCOPE: &'static str = "https://graph.microsoft.com/.default";

/// The request that a call carries: the client id alone, or a token request
/// for the client and one scope, on behalf of an account when there is one.
pub enum BrokerRequest {
    ClientOnly { client_id: &'static str },
    Token { account: Option<BrokerAccount>, client_id: &'static str, scope: &'static str },
}

/// The request that names only the portal's client.
pub open spec fn client_request() -> BrokerRequest {
    BrokerRequest::ClientOnly { client_id: BROKER_CLIENT_ID }
}

/// The portal's token request for Graph, on behalf of the account if any.
pub open spec fn token_request(account: Option<BrokerAccount>) -> BrokerRequest {
    BrokerRequest::Token { account, client_id: BROKER_CLIENT_ID, scope: GRAPH_SCOPE }
}

/// A broker call to make: method, time allowed, request.
pub struct BrokerCall {
    pub method: BrokerMethod,
    pub timeout_secs: u64,
    pub request: BrokerRequest,
}

/// The call that lists the broker's accounts.
pub open spec fn accounts_call_spec() -> BrokerCall {
    BrokerCall {
        method: BrokerMethod::GetAccounts,
        timeout_secs: 15,
        request: client_request(),
    }
}

/// Lists the broker's accounts: `getAccounts`, 15 seconds.
pub fn accounts_call() -> (c: BrokerCall)
    ensures
        c == accounts_call_spec(),
{
    BrokerCall {
        method: BrokerMethod::GetAccounts,
        timeout_secs: 15,
        request: BrokerRequest::ClientOnly { client_id: BROKER_CLIENT_ID },
    }
}

/// Asks for a token for an account without user interaction:
/// `acquireTokenSilently`, 20 seconds.
pub fn silent_call(account: BrokerAccount) -> (c: BrokerCall)
    ensures
        c == (BrokerCall {
            method: BrokerMethod::AcquireTokenSilently,
            timeout_secs: 20,
            request: token_request(Some(account)),
        }),
{
    BrokerCall {
        method: BrokerMethod::AcquireTokenSilently,
        timeout_secs: 20,
        request: BrokerRequest::Token {
            account: Some(account),
            client_id: BROKER_CLIENT_ID,
            scope: GRAPH_SCOPE,
        },
    }
}

/// How a broker call ended.
pub enum BrokerReply {
    /// The time allowed ran out.
    TimedOut,
    /// The D-Bus call failed, with this error.
    CallFailed(String),
    /// The broker answered with this text.
    Replied(String),
}

/// The text of a broker call's outcome, or the error to report.
pub open spec fn broker_reply_text(method: BrokerMethod, timeout_secs: u64, reply: BrokerReply) -> Result<
    Seq<char>,
    Seq<char>,
> {
    match reply {
        BrokerReply::TimedOut => Err(
            method_text(method) + " timed out after "@ + decimal(timeout_secs as nat) + "s"@,
        ),
        BrokerReply::CallFailed(e) => Err(method_text(method) + " D-Bus call failed: "@ + e@),
        BrokerReply::Replied(t) => if trim_ws(t@).len() == 0 {
            Err(
                method_text(method)
                    + " returned empty response (no cached token or broker unavailable)"@,
            )
        } else {
            Ok(t@)
        },
    }
}

/// A broker answer is accepted only when it holds more than white space.
pub proof fn lemma_accepted_reply_not_blank(method: BrokerMethod, timeout_secs: u64, reply: BrokerReply)
    ensures
        broker_reply_text(method, timeout_secs, reply) matches Ok(t) ==> trim_ws(t).len() > 0,
{
}

/// Reads the outcome of a broker call; a blank answer is an error.
pub fn settle_broker_reply(method: BrokerMethod, timeout_secs: u64, reply: BrokerReply) -> (r: Result<
    String,
    String,
>)
    ensures
        res_view(r) == broker_reply_text(method, timeout_secs, reply),
{
    let name = method.name();
    match reply {
        BrokerReply::TimedOut => Err(
            String::from_str(name).concat(" timed out after ").concat(
                decimal_string(timeout_secs).as_str(),
            ).concat("s"),
        ),
        BrokerReply::CallFailed(e) => Err(
            String::from_str(name).concat(" D-Bus call failed: ").concat(e.as_str()),
        ),
        BrokerReply::Replied(t) => {
            let blank = trim(t.as_str()).as_str().is_empty();
            if blank {
                Err(
                    String::from_str(name).concat(
                        " returned empty response (no cached token or broker unavailable)",
                    ),
                )
            } else {
                Ok(t)
            }
        },
    }
}

/// A broker answer after it was read: the call failed (the error is already
/// worded), the answer could not be parsed (the parser's error), or the
/// parsed value.
pub enum Fetched<T> {
    Failed(String),
    Unreadable(String),
    Got(T),
}

/// The accounts of a `getAccounts` answer, or the error to report.
pub fn accounts_outcome(fetched: Fetched<Vec<BrokerAccount>>) -> (r: Result<Vec<BrokerAccount>, String>)
    ensures
        match fetched {
            Fetched::Failed(e) => r matches Err(m) && m@ == e@,
            Fetched::Unreadable(e) => r matches Err(m) && m@ == "Failed to parse accounts: "@ + e@,
            Fetched::Got(v) => r == Ok::<Vec<BrokerAccount>, String>(v),
        },
{
    match fetched {
        Fetched::Failed(e) => Err(e),
        Fetched::Unreadable(e) => Err(String::from_str("Failed to parse accounts: ").concat(e.as_str())),
        Fetched::Got(v) => Ok(v),
    }
}

/// The token of an `acquireTokenSilently` answer, or the error to report.
pub fn silent_token_outcome(fetched: Fetched<Option<BrokerTokenResponse>>) -> (r: Result<
    BrokerTokenResponse,
    String,
>)
    ensures
        match fetched {
            Fetched::Failed(e) => r matches Err(m) && m@ == e@,
            Fetched::Unreadable(e) => r matches Err(m) && m@ == "Failed to parse token response: "@
                + e@,
            Fetched::Got(None) => r matches Err(m) && m@ == "No token in silent response"@,
            Fetched::Got(Some(t)) => r == Ok::<BrokerTokenResponse, String>(t),
        },
{
    match fetched {
        Fetched::Failed(e) => Err(e),
        Fetched::Unreadable(e) => Err(
            String::from_str("Failed to parse token response: ").concat(e.as_str()),
        ),
        Fetched::Got(None) => Err(String::from_str("No token in silent response")),
        Fetched::Got(Some(t)) => Ok(t),
    }
}

/// A silent sign-in for an account, from the answer to its token request.
pub fn finish_silent_sign_in(account: BrokerAccount, fetched: Fetched<Option<BrokerTokenResponse>>) -> (r:
    Result<TokenInfo, String>)
    ensures
        match fetched {
            Fetched::Failed(e) => r matches Err(m) && m@ == e@,
            Fetched::Unreadable(e) => r matches Err(m) && m@ == "Failed to parse token response: "@
                + e@,
            Fetched::Got(None) => r matches Err(m) && m@ == "No token in silent response"@,
            Fetched::Got(Some(t)) => r matches Ok(info) && {
                &&& info.username@ == account.username@
                &&& info.name@ == display_name(
                    account.name@,
                    account.given_name@,
                    account.username@,
                )
                &&& info.access_token@ == t.access_token@
                &&& info.expires_on == t.expires_on
            },
        },
{
    match silent_token_outcome(fetched) {
        Ok(t) => Ok(token_info(&account, t)),
        Err(e) => Err(e),
    }
}


/// Where the interactive sign-in stands.
pub enum InteractiveStage {
    /// Nothing asked yet.
    Start,
    /// The cached accounts were asked for.
    AwaitingAccounts,
    /// A token was asked for; `cached` are the accounts known before.
    AwaitingToken { cached: Vec<BrokerAccount> },
    /// The token came; the accounts are asked for again.
    AwaitingRefresh { cached: Vec<BrokerAccount>, token: BrokerTokenResponse },
    /// The sign-in ended.
    Finished,
}

/// What happened since the last step.
pub enum InteractiveEvent {
    /// The sign-in starts.
    Begin,
    /// The answer to `getAccounts`.
    Accounts(Fetched<Vec<BrokerAccount>>),
    /// The answer to `acquireTokenInteractively`.
    Token(Fetched<Option<BrokerTokenResponse>>),
    /// The accounts after the token came, or nothing when that call or its
    /// parse failed.
    Refreshed(Option<Vec<BrokerAccount>>),
}

/// What the caller does next.
pub enum InteractiveAction {
    /// Make this broker call and report its answer.
    Call(BrokerCall),
    /// The sign-in is over, with this result.
    Finish(Result<(BrokerAccount, BrokerTokenResponse), String>),
}

/// The event that each stage waits for.
pub open spec fn expects(stage: InteractiveStage, event: InteractiveEvent) -> bool {
    match stage {
        InteractiveStage::Start => event is Begin,
        InteractiveStage::AwaitingAccounts => event is Accounts,
        InteractiveStage::AwaitingToken { .. } => event is Token,
        InteractiveStage::AwaitingRefresh { .. } => event is Refreshed,
        InteractiveStage::Finished => false,
    }
}

/// Whether a stage of the interactive sign-in waits for this event.
pub fn interactive_accepts(stage: &InteractiveStage, event: &InteractiveEvent) -> (r: bool)
    ensures
        r == expects(*stage, *event),
{
    match stage {
        InteractiveStage::Start => matches!(event, InteractiveEvent::Begin),
        InteractiveStage::AwaitingAccounts => matches!(event, InteractiveEvent::Accounts(_)),
        InteractiveStage::AwaitingToken { .. } => matches!(event, InteractiveEvent::Token(_)),
        InteractiveStage::AwaitingRefresh { .. } => matches!(event, InteractiveEvent::Refreshed(_)),
        InteractiveStage::Finished => false,
    }
}

/// How far a stage is from the end; every step lowers it.
pub open spec fn stages_left(stage: InteractiveStage) -> nat {
    match stage {
        InteractiveStage::Start => 4,
        InteractiveStage::AwaitingAccounts => 3,
        InteractiveStage::AwaitingToken { .. } => 2,
        InteractiveStage::AwaitingRefresh { .. } => 1,
        InteractiveStage::Finished => 0,
    }
}

/// The first account of a list, if any.
pub open spec fn first_account(v: Seq<BrokerAccount>) -> Option<BrokerAccount> {
    if v.len() > 0 {
        Some(v[0])
    } else {
        None
    }
}

/// The call that asks for a token interactively, for the first cached
/// account if there is one: `acquireTokenInteractively`, 300 seconds.
pub open spec fn interactive_call_spec(cached: Seq<BrokerAccount>) -> BrokerCall {
    BrokerCall {
        method: BrokerMethod::AcquireTokenInteractively,
        timeout_secs: 300,
        request: token_request(first_account(cached)),
    }
}

/// The account that an interactive sign-in ends with: the first of the
/// accounts fetched after the token, else the first of those fetched
/// before.
pub open spec fn signed_in_account(refreshed: Seq<BrokerAccount>, cached: Seq<BrokerAccount>) -> Option<
    BrokerAccount,
> {
    if refreshed.len() > 0 {
        Some(refreshed[0])
    } else {
        first_account(cached)
    }
}

/// Once a token was obtained, the sign-in ends with the first account that
/// the broker lists afterwards, whatever was cached before (even nothing);
/// only when it lists none does the first cached account stand in, and only
/// when both lists are empty is there no account.
pub proof fn lemma_signed_in_account(refreshed: Seq<BrokerAccount>, cached: Seq<BrokerAccount>)
    ensures
        refreshed.len() > 0 ==> signed_in_account(refreshed, cached) == Some(refreshed[0]),
        refreshed.len() == 0 && cached.len() > 0 ==> signed_in_account(refreshed, cached) == Some(
            cached[0],
        ),
        signed_in_account(refreshed, cached) is None <==> (refreshed.len() == 0 && cached.len()
            == 0),
{
}

fn first_of(v: Vec<BrokerAccount>) -> (r: Option<BrokerAccount>)
    ensures
        r == first_account(v@),
{
    let mut v = v;
    if v.len() > 0 {
        Some(v.remove(0))
    } else {
        None
    }
}

fn clone_first(v: &Vec<BrokerAccount>) -> (r: Option<BrokerAccount>)
    ensures
        r == first_account(v@),
{
    if v.len() > 0 {
        Some(v[0].duplicate())
    } else {
        None
    }
}

fn failure(message: String) -> (a: InteractiveAction)
    ensures
        a matches InteractiveAction::Finish(Err(m)) && m@ == message@,
{
    InteractiveAction::Finish(Err(message))
}

/// One step of the interactive sign-in: the cached accounts are fetched,
/// then a token is asked for on behalf of the first of them, then the
/// accounts are fetched again and the sign-in ends with the first of them,
/// or with the first cached account when that list is empty. Any error of
/// the first two calls ends it with that error.
pub fn interactive_step(stage: InteractiveStage, event: InteractiveEvent) -> (r: (
    InteractiveStage,
    InteractiveAction,
))
    requires
        expects(stage, event),
    ensures
        stages_left(r.0) < stages_left(stage),
        r.1 is Finish <==> r.0 is Finished,
        match (stage, event) {
            (InteractiveStage::Start, _) => r.0 is AwaitingAccounts && r.1 == InteractiveAction::Call(
                accounts_call_spec(),
            ),
            (InteractiveStage::AwaitingAccounts, InteractiveEvent::Accounts(f)) => match f {
                Fetched::Failed(e) => r.1 matches InteractiveAction::Finish(Err(m)) && m@ == e@,
                Fetched::Unreadable(e) => r.1 matches InteractiveAction::Finish(Err(m)) && m@
                    == "Failed to parse accounts: "@ + e@,
                Fetched::Got(v) => r.0 == (InteractiveStage::AwaitingToken { cached: v })
                    && r.1 == InteractiveAction::Call(interactive_call_spec(v@)),
            },
            (InteractiveStage::AwaitingToken { cached }, InteractiveEvent::Token(f)) => match f {
                Fetched::Failed(e) => r.1 matches InteractiveAction::Finish(Err(m)) && m@ == e@,
                Fetched::Unreadable(e) => r.1 matches InteractiveAction::Finish(Err(m)) && m@
                    == "Failed to parse token response: "@ + e@,
                Fetched::Got(None) => r.1 matches InteractiveAction::Finish(Err(m)) && m@
                    == "No token in interactive response"@,
                Fetched::Got(Some(t)) => r.0 == (InteractiveStage::AwaitingRefresh {
                    cached,
                    token: t,
                }) && r.1 == InteractiveAction::Call(accounts_call_spec()),
            },
            (
                InteractiveStage::AwaitingRefresh { cached, token },
                InteractiveEvent::Refreshed(o),
            ) => {
                let refreshed = match o {
                    Some(v) => v@,
                    None => Seq::empty(),
                };
                &&& match signed_in_account(refreshed, cached@) {
                    Some(a) => r.1 == InteractiveAction::Finish(Ok((a, token))),
                    None => r.1 matches InteractiveAction::Finish(Err(m)) && m@
                        == "No account found after authentication"@,
                }
                &&& refreshed.len() > 0 ==> r.1 == InteractiveAction::Finish(
                    Ok((refreshed[0], token)),
                )
                &&& refreshed.len() == 0 && cached@.len() > 0 ==> r.1
                    == InteractiveAction::Finish(Ok((cached@[0], token)))
            },
            _ => true,
        },
{
    match stage {
        InteractiveStage::Start => (InteractiveStage::AwaitingAccounts, InteractiveAction::Call(accounts_call())),
        InteractiveStage::AwaitingAccounts => match event {
            InteractiveEvent::Accounts(f) => match accounts_outcome(f) {
                Ok(v) => {
                    let first = clone_first(&v);
                    let call = BrokerCall {
                        method: BrokerMethod::AcquireTokenInteractively,
                        timeout_secs: 300,
                        request: BrokerRequest::Token {
                            account: first,
                            client_id: BROKER_CLIENT_ID,
                            scope: GRAPH_SCOPE,
                        },
                    };
                    (InteractiveStage::AwaitingToken { cached: v }, InteractiveAction::Call(call))
                },
                Err(e) => (InteractiveStage::Finished, failure(e)),
            },
            _ => (InteractiveStage::Finished, failure(String::new())),
        },
        InteractiveStage::AwaitingToken { cached } => match event {
            InteractiveEvent::Token(f) => match f {
                Fetched::Failed(e) => (InteractiveStage::Finished, failure(e)),
                Fetched::Unreadable(e) => (
                    InteractiveStage::Finished,
                    failure(String::from_str("Failed to parse token response: ").concat(e.as_str())),
                ),
                Fetched::Got(None) => (
                    InteractiveStage::Finished,
                    failure(String::from_str("No token in interactive response")),
                ),
                Fetched::Got(Some(t)) => (
                    InteractiveStage::AwaitingRefresh { cached, token: t },
                    InteractiveAction::Call(accounts_call()),
                ),
            },
            _ => (InteractiveStage::Finished, failure(String::new())),
        },
        InteractiveStage::AwaitingRefresh { cached, token } => match event {
            InteractiveEvent::Refreshed(o) => {
                let refreshed = match o {
                    Some(v) => v,
                    None => Vec::new(),
                };
                let chosen = if refreshed.len() > 0 {
                    first_of(refreshed)
                } else {
                    first_of(cached)
                };
                match chosen {
                    Some(a) => (InteractiveStage::Finished, InteractiveAction::Finish(Ok((a, token)))),
                    None => (
                        InteractiveStage::Finished,
                        failure(String::from_str("No account found after authentication")),
                    ),
                }
            },
            _ => (InteractiveStage::Finished, failure(String::new())),
        },
        InteractiveStage::Finished => (InteractiveStage::Finished, failure(String::new())),
    }
}


/// The sign-in result of an interactive sign-in.
pub fn finish_interactive_sign_in(outcome: Result<(BrokerAccount, BrokerTokenResponse), String>) -> (r:
    Result<TokenInfo, String>)
    ensures
        match outcome {
            Err(e) => r matches Err(m) && m@ == e@,
            Ok((a, t)) => r matches Ok(info) && {
                &&& info.username@ == a.username@
                &&& info.name@ == display_name(a.name@, a.given_name@, a.username@)
                &&& info.access_token@ == t.access_token@
                &&& info.expires_on == t.expires_on
            },
        },
{
    match outcome {
        Ok((a, t)) => Ok(token_info(&a, t)),
        Err(e) => Err(e),
    }
}

} // verus!
