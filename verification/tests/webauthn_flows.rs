//! The WebAuthn login flow: engine construction, eligibility, and the
//! single-use challenge state. A real assertion needs a registered
//! authenticator, so the success path of "finish" is covered by the
//! contracts, not by a test.

use galvyn_auth::error::AuthError;
use galvyn_auth::handler::{
    confirm_webauthn_login, finish_login_local_webauthn, login_local_webauthn,
    LoginLocalWebauthnRequest,
};
use galvyn_auth::models::{
    Account, AttestedPasskeyBlob, LocalAccount, MaybeAttestedPasskey, Store, WebAuthnKey,
};
use galvyn_auth::module::{AuthConfig, AuthModule};
use galvyn_auth::oidc::OidcConfig;
use galvyn_auth::session::SessionData;
use galvyn_auth::webauthn::RelyingParty;
use webauthn_rs::prelude::PublicKeyCredential;

fn engine() -> RelyingParty {
    let module = AuthModule::build(AuthConfig {
        webauthn_id: "rp.example".to_string(),
        webauthn_origin: "https://rp.example".to_string(),
        oidc: OidcConfig {
            auth_endpoint: "https://idp.example/authorize".to_string(),
            client_id: "my-client".to_string(),
            redirect_url: "https://rp.example/login/oidc/finish".to_string(),
        },
    })
    .expect("a matching rp id and origin should build");
    module.webauthn
}

fn assertion_response() -> PublicKeyCredential {
    // Structurally valid, cryptographically meaningless: enough to reach
    // the engine, which must refuse it.
    serde_json::from_str(
        r#"{
            "id": "AQIDBA",
            "rawId": "AQIDBA",
            "response": {
                "authenticatorData": "AQIDBA",
                "clientDataJSON": "e30",
                "signature": "AQIDBA",
                "userHandle": null
            },
            "type": "public-key"
        }"#,
    )
    .expect("the assertion fixture should deserialize")
}

#[test]
fn engine_with_mismatching_origin_is_refused() {
    let r = AuthModule::build(AuthConfig {
        webauthn_id: "rp.example".to_string(),
        webauthn_origin: "https://other.example".to_string(),
        oidc: OidcConfig {
            auth_endpoint: "https://idp.example/authorize".to_string(),
            client_id: "my-client".to_string(),
            redirect_url: "https://rp.example/login/oidc/finish".to_string(),
        },
    });
    assert!(matches!(r, Err(AuthError::EngineFailure)));
}

fn alice_store(attested: bool) -> Store {
    let mut store = Store::new();
    store.accounts.push(Account {
        uuid: 1,
        id: "alice".to_string(),
    });
    store.local_accounts.push(LocalAccount {
        uuid: 10,
        password: Some("s3cret".to_string()),
        account: 1,
    });
    if attested {
        store.webauthn_keys.push(WebAuthnKey {
            uuid: 100,
            local_account: 10,
            label: "yubikey".to_string(),
            key: MaybeAttestedPasskey::Attested(AttestedPasskeyBlob {
                cred_id: vec![1, 2, 3, 4],
                encoded: "not a real credential".to_string(),
            }),
        });
    }
    store
}

#[test]
fn start_for_account_without_attested_key_is_a_client_error() {
    let webauthn = engine();
    let store = alice_store(false);
    let mut session = SessionData::new();
    let r = login_local_webauthn(
        &webauthn,
        &store,
        &mut session,
        LoginLocalWebauthnRequest {
            identifier: "alice".to_string(),
        },
    );
    assert!(matches!(r, Err(AuthError::BadCredentials)));
    assert!(session.login_local_webauthn.is_none());
}

#[test]
fn start_with_undecodable_stored_key_is_a_server_error() {
    let webauthn = engine();
    let store = alice_store(true);
    let mut session = SessionData::new();
    let r = login_local_webauthn(
        &webauthn,
        &store,
        &mut session,
        LoginLocalWebauthnRequest {
            identifier: "alice".to_string(),
        },
    );
    assert!(matches!(r, Err(AuthError::CorruptKey)));
    assert!(session.login_local_webauthn.is_none());
}

#[test]
fn start_for_unknown_identifier_is_a_client_error() {
    let webauthn = engine();
    let store = alice_store(true);
    let mut session = SessionData::new();
    let r = login_local_webauthn(
        &webauthn,
        &store,
        &mut session,
        LoginLocalWebauthnRequest {
            identifier: "bob".to_string(),
        },
    );
    assert!(matches!(r, Err(AuthError::BadCredentials)));
}

#[test]
fn webauthn_finish_without_start_reports_no_ongoing_challenge() {
    let webauthn = engine();
    let store = alice_store(true);
    let mut session = SessionData::new();
    let r = finish_login_local_webauthn(&webauthn, &store, &mut session, &assertion_response());
    assert_eq!(r, Err(AuthError::NoOngoingChallenge));
    assert_eq!(session.account, None);
}

#[test]
fn confirmation_matches_the_signing_credential() {
    let store = alice_store(true);
    // The stored attested key's credential id signs: logged in as alice.
    assert_eq!(
        confirm_webauthn_login(&store, &"alice".to_string(), &vec![1, 2, 3, 4]),
        Ok(1)
    );
    // An unknown credential id — e.g. a key deleted between start and
    // finish — is refused with the uniform client error.
    assert_eq!(
        confirm_webauthn_login(&store, &"alice".to_string(), &vec![9, 9, 9]),
        Err(AuthError::BadCredentials)
    );
    // So is an identifier that no longer resolves.
    assert_eq!(
        confirm_webauthn_login(&store, &"bob".to_string(), &vec![1, 2, 3, 4]),
        Err(AuthError::BadCredentials)
    );
}
