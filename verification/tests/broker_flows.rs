use admin_portal::broker::{
    accounts_call, accounts_outcome, call_body, finish_interactive_sign_in, finish_silent_sign_in,
    interactive_accepts, interactive_step, settle_broker_reply, silent_call, silent_token_outcome, token_info,
    BrokerAccount, BrokerMethod, BROKER_CLIENT_ID, GRAPH_SCOPE, BrokerReply, BrokerRequest, BrokerTokenResponse, Fetched,
    InteractiveAction, InteractiveEvent, InteractiveStage,
};

fn account(username: &str, name: &str, given: &str) -> BrokerAccount {
    BrokerAccount {
        home_account_id: format!("home-{username}"),
        local_account_id: format!("local-{username}"),
        environment: "login.microsoftonline.com".into(),
        realm: "tenant".into(),
        username: username.into(),
        name: name.into(),
        given_name: given.into(),
    }
}

fn token(t: &str) -> BrokerTokenResponse {
    BrokerTokenResponse {
        access_token: t.into(),
        id_token: None,
        expires_on: Some(1_700_000_000),
        granted_scopes: Some("https://graph.microsoft.com/.default".into()),
    }
}

#[test]
fn token_info_prefers_name_then_given_name_then_username() {
    let t = token("tok");
    let info = token_info(&account("u@d", "Full Name", "Given"), t.clone());
    assert_eq!(info.name, "Full Name");
    assert_eq!(info.username, "u@d");
    assert_eq!(info.access_token, "tok");
    assert_eq!(info.expires_on, Some(1_700_000_000));
    assert_eq!(token_info(&account("u@d", "", "Given"), t.clone()).name, "Given");
    assert_eq!(token_info(&account("u@d", "", ""), t).name, "u@d");
}

#[test]
fn call_body_carries_version_correlation_id_and_request() {
    let fresh = uuid::Uuid::new_v4().to_string();
    let (version, id, req) = call_body("{\"clientId\":\"x\"}".to_string(), fresh.clone());
    assert_eq!(version, "0.0");
    assert_eq!(req, "{\"clientId\":\"x\"}");
    assert_eq!(id, fresh);
    let (_, other, empty) =
        call_body(String::new(), "67e55044-10b1-426f-9247-bb680e5fe0c8".to_string());
    assert_eq!(other, "67e55044-10b1-426f-9247-bb680e5fe0c8");
    assert_eq!(empty, "");
}

#[test]
fn broker_calls_and_methods() {
    let c = accounts_call();
    assert_eq!(c.method, BrokerMethod::GetAccounts);
    assert_eq!(c.timeout_secs, 15);
    match c.request {
        BrokerRequest::ClientOnly { client_id } => {
            assert_eq!(client_id, "d7b530a4-7680-4c23-a8bf-c52c121d2e87")
        }
        _ => panic!("expected a client-only request"),
    }
    let c = silent_call(account("u@d", "", ""));
    assert_eq!(c.method.name(), "acquireTokenSilently");
    assert_eq!(c.timeout_secs, 20);
    match c.request {
        BrokerRequest::Token { account: Some(a), client_id, scope } => {
            assert_eq!(a.username, "u@d");
            assert_eq!(client_id, BROKER_CLIENT_ID);
            assert_eq!(scope, "https://graph.microsoft.com/.default");
        }
        _ => panic!("expected a token request for the account"),
    }
    assert_eq!(BROKER_CLIENT_ID, "d7b530a4-7680-4c23-a8bf-c52c121d2e87");
    assert_eq!(GRAPH_SCOPE, "https://graph.microsoft.com/.default");
    assert_eq!(BrokerMethod::GetAccounts.name(), "getAccounts");
    assert_eq!(BrokerMethod::AcquireTokenInteractively.name(), "acquireTokenInteractively");
}

#[test]
fn broker_replies_are_settled() {
    assert_eq!(
        settle_broker_reply(BrokerMethod::GetAccounts, 15, BrokerReply::TimedOut),
        Err("getAccounts timed out after 15s".to_string())
    );
    assert_eq!(
        settle_broker_reply(BrokerMethod::AcquireTokenSilently, 20, BrokerReply::CallFailed("no bus".into())),
        Err("acquireTokenSilently D-Bus call failed: no bus".to_string())
    );
    assert_eq!(
        settle_broker_reply(BrokerMethod::AcquireTokenInteractively, 300, BrokerReply::Replied("  \n".into())),
        Err("acquireTokenInteractively returned empty response (no cached token or broker unavailable)".to_string())
    );
    assert_eq!(
        settle_broker_reply(BrokerMethod::GetAccounts, 15, BrokerReply::Replied(" {} ".into())),
        Ok(" {} ".to_string())
    );
}

#[test]
fn answers_are_read_into_results() {
    assert_eq!(accounts_outcome(Fetched::Failed("e".into())).unwrap_err(), "e");
    assert_eq!(
        accounts_outcome(Fetched::Unreadable("bad json".into())).unwrap_err(),
        "Failed to parse accounts: bad json"
    );
    assert_eq!(accounts_outcome(Fetched::Got(vec![account("a", "", "")])).unwrap().len(), 1);
    assert_eq!(
        silent_token_outcome(Fetched::Got(None)).unwrap_err(),
        "No token in silent response"
    );
    assert_eq!(
        silent_token_outcome(Fetched::Unreadable("x".into())).unwrap_err(),
        "Failed to parse token response: x"
    );
    assert_eq!(silent_token_outcome(Fetched::Got(Some(token("t")))).unwrap().access_token, "t");
    let info = finish_silent_sign_in(account("u", "N", ""), Fetched::Got(Some(token("t")))).unwrap();
    assert_eq!((info.name.as_str(), info.access_token.as_str()), ("N", "t"));
    assert_eq!(finish_interactive_sign_in(Err("e".into())).unwrap_err(), "e");
}

fn expect_call(a: &InteractiveAction) -> (BrokerMethod, u64, Option<String>) {
    match a {
        InteractiveAction::Call(c) => (
            c.method,
            c.timeout_secs,
            match &c.request {
                BrokerRequest::Token { account: Some(acc), client_id, scope } => {
                    assert_eq!((*client_id, *scope), (BROKER_CLIENT_ID, GRAPH_SCOPE));
                    Some(acc.username.clone())
                }
                BrokerRequest::Token { account: None, client_id, scope } => {
                    assert_eq!((*client_id, *scope), (BROKER_CLIENT_ID, GRAPH_SCOPE));
                    None
                }
                BrokerRequest::ClientOnly { client_id } => {
                    assert_eq!(*client_id, BROKER_CLIENT_ID);
                    None
                }
            },
        ),
        InteractiveAction::Finish(_) => panic!("expected a call"),
    }
}

#[test]
fn interactive_sign_in_prefers_the_refreshed_account() {
    let (s, a) = interactive_step(InteractiveStage::Start, InteractiveEvent::Begin);
    assert_eq!(expect_call(&a), (BrokerMethod::GetAccounts, 15, None));
    let cached = vec![account("cached@d", "", ""), account("second@d", "", "")];
    let (s, a) = interactive_step(s, InteractiveEvent::Accounts(Fetched::Got(cached)));
    assert_eq!(
        expect_call(&a),
        (BrokerMethod::AcquireTokenInteractively, 300, Some("cached@d".to_string()))
    );
    let (s, a) = interactive_step(s, InteractiveEvent::Token(Fetched::Got(Some(token("tok")))));
    assert_eq!(expect_call(&a), (BrokerMethod::GetAccounts, 15, None));
    let (s, a) = interactive_step(s, InteractiveEvent::Refreshed(Some(vec![account("fresh@d", "F", "")])));
    assert!(matches!(s, InteractiveStage::Finished));
    match a {
        InteractiveAction::Finish(Ok((acc, t))) => {
            assert_eq!(acc.username, "fresh@d");
            assert_eq!(t.access_token, "tok");
        }
        _ => panic!("expected a successful sign-in"),
    }
}

#[test]
fn interactive_sign_in_falls_back_and_fails_cleanly() {
    // No cached account: the token request carries none; the refresh fails;
    // there is no account to end with.
    let (s, _) = interactive_step(InteractiveStage::Start, InteractiveEvent::Begin);
    let (s, a) = interactive_step(s, InteractiveEvent::Accounts(Fetched::Got(vec![])));
    assert_eq!(expect_call(&a), (BrokerMethod::AcquireTokenInteractively, 300, None));
    let (s, _) = interactive_step(s, InteractiveEvent::Token(Fetched::Got(Some(token("tok")))));
    let (_, a) = interactive_step(s, InteractiveEvent::Refreshed(None));
    match a {
        InteractiveAction::Finish(Err(e)) => assert_eq!(e, "No account found after authentication"),
        _ => panic!("expected a failure"),
    }

    // The refresh fails but a cached account exists: it is used.
    let (s, _) = interactive_step(InteractiveStage::Start, InteractiveEvent::Begin);
    let (s, _) = interactive_step(s, InteractiveEvent::Accounts(Fetched::Got(vec![account("c@d", "", "")])));
    let (s, _) = interactive_step(s, InteractiveEvent::Token(Fetched::Got(Some(token("tok")))));
    let (_, a) = interactive_step(s, InteractiveEvent::Refreshed(Some(vec![])));
    match a {
        InteractiveAction::Finish(Ok((acc, _))) => assert_eq!(acc.username, "c@d"),
        _ => panic!("expected the cached account"),
    }

    // Errors of the first two calls end the sign-in.
    let (s, _) = interactive_step(InteractiveStage::Start, InteractiveEvent::Begin);
    let (s, a) = interactive_step(s, InteractiveEvent::Accounts(Fetched::Failed("getAccounts timed out after 15s".into())));
    assert!(matches!(s, InteractiveStage::Finished));
    assert!(matches!(a, InteractiveAction::Finish(Err(ref e)) if e == "getAccounts timed out after 15s"));
    let (s, _) = interactive_step(InteractiveStage::Start, InteractiveEvent::Begin);
    let (s, _) = interactive_step(s, InteractiveEvent::Accounts(Fetched::Got(vec![])));
    let (_, a) = interactive_step(s, InteractiveEvent::Token(Fetched::Got(None)));
    assert!(matches!(a, InteractiveAction::Finish(Err(ref e)) if e == "No token in interactive response"));
}

#[test]
fn each_sign_in_stage_waits_for_its_answer() {
    assert!(interactive_accepts(&InteractiveStage::Start, &InteractiveEvent::Begin));
    assert!(!interactive_accepts(&InteractiveStage::Start, &InteractiveEvent::Refreshed(None)));
    assert!(interactive_accepts(
        &InteractiveStage::AwaitingAccounts,
        &InteractiveEvent::Accounts(Fetched::Failed("x".into()))
    ));
    assert!(!interactive_accepts(&InteractiveStage::AwaitingAccounts, &InteractiveEvent::Begin));
    assert!(interactive_accepts(
        &InteractiveStage::AwaitingToken { cached: vec![] },
        &InteractiveEvent::Token(Fetched::Got(None))
    ));
    assert!(!interactive_accepts(&InteractiveStage::Finished, &InteractiveEvent::Begin));
}
