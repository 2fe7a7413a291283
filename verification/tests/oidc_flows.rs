//! The OpenID Connect flows: start, the anti-forgery gate, and account
//! provisioning.

use galvyn_auth::error::AuthError;
use galvyn_auth::handler::{finish_login_oidc, finish_login_oidc_prepare, login_oidc};
use galvyn_auth::models::{Account, Store};
use galvyn_auth::oidc::{ExchangeOutcome, OidcConfig, OidcRequestState};
use galvyn_auth::session::SessionData;

fn config() -> OidcConfig {
    OidcConfig {
        auth_endpoint: "https://idp.example/authorize".to_string(),
        client_id: "my-client".to_string(),
        redirect_url: "https://rp.example/login/oidc/finish".to_string(),
    }
}

#[test]
fn start_builds_authorization_url_and_stashes_state() {
    let mut session = SessionData::new();
    let url = login_oidc(&config(), &mut session).expect("start should succeed");
    let state = session.login_oidc.as_ref().expect("state should be stashed");
    // The URL is the authorization endpoint plus the query: it must carry
    // the client and the freshly drawn secrets, not echo the base back.
    assert!(url.starts_with("https://idp.example/authorize?"));
    assert!(url.contains("response_type=code"));
    assert!(url.contains("client_id=my-client"));
    assert!(url.contains("code_challenge_method=S256"));
    assert!(url.contains("scope=openid+profile+email") || url.contains("scope=openid%20profile%20email"));
    assert!(url.contains(&format!("state={}", state.csrf_token)));
    assert!(url.contains(&format!("nonce={}", state.nonce)));
    // The verifier itself must not appear in the URL.
    assert!(!url.contains(&state.pkce_code_verifier));
}

#[test]
fn two_starts_draw_different_secrets() {
    let mut s1 = SessionData::new();
    let mut s2 = SessionData::new();
    login_oidc(&config(), &mut s1).expect("start should succeed");
    login_oidc(&config(), &mut s2).expect("start should succeed");
    let a = s1.login_oidc.unwrap();
    let b = s2.login_oidc.unwrap();
    assert_ne!(a.csrf_token, b.csrf_token);
    assert_ne!(a.nonce, b.nonce);
    assert_ne!(a.pkce_code_verifier, b.pkce_code_verifier);
}

#[test]
fn start_with_invalid_endpoint_fails_and_leaves_session_alone() {
    let bad = OidcConfig {
        auth_endpoint: "not a url".to_string(),
        client_id: "my-client".to_string(),
        redirect_url: "https://rp.example/login/oidc/finish".to_string(),
    };
    let mut session = SessionData::new();
    assert_eq!(
        login_oidc(&bad, &mut session),
        Err(AuthError::EngineFailure)
    );
    assert!(session.login_oidc.is_none());
}

#[test]
fn oidc_finish_without_start_reports_no_ongoing_challenge() {
    let mut session = SessionData::new();
    let r = finish_login_oidc_prepare(
        &mut session,
        OidcRequestState {
            code: "any".to_string(),
            state: "any".to_string(),
        },
    );
    assert!(matches!(r, Err(AuthError::NoOngoingChallenge)));
}

#[test]
fn state_mismatch_fails_before_any_exchange_and_consumes_the_state() {
    let mut session = SessionData::new();
    login_oidc(&config(), &mut session).expect("start should succeed");
    let r = finish_login_oidc_prepare(
        &mut session,
        OidcRequestState {
            code: "the-code".to_string(),
            state: "forged".to_string(),
        },
    );
    // No CodeExchange value exists: nothing can be sent to the provider.
    assert!(matches!(r, Err(AuthError::StateMismatch)));
    // The state is consumed: a retry cannot probe again.
    let again = finish_login_oidc_prepare(
        &mut session,
        OidcRequestState {
            code: "the-code".to_string(),
            state: "forged".to_string(),
        },
    );
    assert!(matches!(again, Err(AuthError::NoOngoingChallenge)));
}

#[test]
fn matching_state_yields_the_exchange_once() {
    let mut session = SessionData::new();
    login_oidc(&config(), &mut session).expect("start should succeed");
    let csrf = session.login_oidc.as_ref().unwrap().csrf_token.clone();
    let verifier = session.login_oidc.as_ref().unwrap().pkce_code_verifier.clone();
    let nonce = session.login_oidc.as_ref().unwrap().nonce.clone();
    let exchange = finish_login_oidc_prepare(
        &mut session,
        OidcRequestState {
            code: "the-code".to_string(),
            state: csrf.clone(),
        },
    )
    .expect("matching state should yield the exchange");
    assert_eq!(exchange.code, "the-code");
    assert_eq!(exchange.pkce_verifier, verifier);
    assert_eq!(exchange.nonce, nonce);
    // Only one finish call can obtain it: the slot is gone.
    let second = finish_login_oidc_prepare(
        &mut session,
        OidcRequestState {
            code: "the-code".to_string(),
            state: csrf,
        },
    );
    assert!(matches!(second, Err(AuthError::NoOngoingChallenge)));
}

#[test]
fn rejected_exchange_changes_nothing() {
    let mut store = Store::new();
    let mut session = SessionData::new();
    assert_eq!(
        finish_login_oidc(
            &mut store,
            &mut session,
            ExchangeOutcome::Rejected { server_side: false }
        ),
        Err(AuthError::ExchangeFailed)
    );
    assert_eq!(
        finish_login_oidc(
            &mut store,
            &mut session,
            ExchangeOutcome::Rejected { server_side: true }
        ),
        Err(AuthError::ProviderError)
    );
    assert!(store.accounts.is_empty());
    assert_eq!(session.account, None);
}

#[test]
fn verified_claims_provision_an_account_once_and_reuse_it() {
    let mut store = Store::new();
    let mut session = SessionData::new();
    finish_login_oidc(
        &mut store,
        &mut session,
        ExchangeOutcome::Verified {
            issuer: "https://idp.example".to_string(),
            subject: "carol-sub".to_string(),
        },
    )
    .expect("first finish should provision");
    let first_account = session.account.expect("should be logged in");
    assert_eq!(store.accounts.len(), 1);
    assert_eq!(store.oidc_accounts.len(), 1);
    assert_eq!(
        store.accounts[0].id,
        "carol-sub@.https://idp.example".to_string()
    );

    let mut session2 = SessionData::new();
    finish_login_oidc(
        &mut store,
        &mut session2,
        ExchangeOutcome::Verified {
            issuer: "https://idp.example".to_string(),
            subject: "carol-sub".to_string(),
        },
    )
    .expect("second finish should reuse");
    assert_eq!(session2.account, Some(first_account));
    assert_eq!(store.accounts.len(), 1);
    assert_eq!(store.oidc_accounts.len(), 1);
}

#[test]
fn two_different_pairs_provision_two_distinct_accounts() {
    let mut store = Store::new();
    let mut session = SessionData::new();
    finish_login_oidc(
        &mut store,
        &mut session,
        ExchangeOutcome::Verified {
            issuer: "https://idp.example".to_string(),
            subject: "carol-sub".to_string(),
        },
    )
    .expect("first finish should provision");
    let first = session.account.unwrap();
    finish_login_oidc(
        &mut store,
        &mut session,
        ExchangeOutcome::Verified {
            issuer: "https://idp.example".to_string(),
            subject: "dave-sub".to_string(),
        },
    )
    .expect("second finish should provision");
    let second = session.account.unwrap();
    assert_ne!(first, second);
    assert_eq!(store.accounts.len(), 2);
    assert_eq!(store.oidc_accounts.len(), 2);
}

#[test]
fn ambiguous_claim_pairs_get_distinct_identifiers() {
    // The two pairs read the same under a naive subject-"@"-issuer join;
    // the escaped encoding keeps them apart, so both provision.
    let mut store = Store::new();
    let mut session = SessionData::new();
    finish_login_oidc(
        &mut store,
        &mut session,
        ExchangeOutcome::Verified {
            issuer: "z".to_string(),
            subject: "x@y".to_string(),
        },
    )
    .expect("first pair should provision");
    finish_login_oidc(
        &mut store,
        &mut session,
        ExchangeOutcome::Verified {
            issuer: "y@z".to_string(),
            subject: "x".to_string(),
        },
    )
    .expect("second pair should provision");
    assert_eq!(store.accounts.len(), 2);
    assert_eq!(store.accounts[0].id, "x@@y@.z");
    assert_eq!(store.accounts[1].id, "x@.y@z");
}

#[test]
fn over_long_claims_are_refused() {
    let mut store = Store::new();
    let mut session = SessionData::new();
    let r = finish_login_oidc(
        &mut store,
        &mut session,
        ExchangeOutcome::Verified {
            issuer: "i".repeat(256),
            subject: "s".to_string(),
        },
    );
    assert_eq!(r, Err(AuthError::ValueTooLong));
    assert!(store.accounts.is_empty());
}

#[test]
fn colliding_fresh_ids_are_refused() {
    let mut store = Store::new();
    store.accounts.push(Account {
        uuid: 7,
        id: "taken".to_string(),
    });
    let mut session = SessionData::new();
    let r = galvyn_auth::handler::link_federated_identity(
        &mut store,
        &mut session,
        "https://idp.example".to_string(),
        "sub".to_string(),
        7,
        8,
    );
    assert_eq!(r, Err(AuthError::StoreConflict));
    assert_eq!(store.accounts.len(), 1);
    assert_eq!(session.account, None);
}
