//! End-to-end exercises of the login flows over an in-memory store.

use galvyn_auth::error::AuthError;
use galvyn_auth::handler::{
    delete_local_password, get_login_flow, login_local_password, set_local_password,
    GetLoginFlowsRequest, GetLoginFlowsResponse, LoginLocalPasswordRequest,
};
use galvyn_auth::models::{
    Account, AttestedPasskeyBlob, LocalAccount, MaybeAttestedPasskey, PasskeyBlob, Store,
    WebAuthnKey,
};
use galvyn_auth::session::SessionData;

fn alice_store(with_password: bool, attested: bool) -> Store {
    let mut store = Store::new();
    store.accounts.push(Account {
        uuid: 1,
        id: "alice".to_string(),
    });
    store.local_accounts.push(LocalAccount {
        uuid: 10,
        password: if with_password {
            Some("s3cret".to_string())
        } else {
            None
        },
        account: 1,
    });
    if attested {
        store.webauthn_keys.push(WebAuthnKey {
            uuid: 100,
            local_account: 10,
            label: "yubikey".to_string(),
            key: MaybeAttestedPasskey::Attested(AttestedPasskeyBlob {
                cred_id: vec![1, 2, 3, 4],
                encoded: "not a real credential".to_string(),
            }),
        });
    }
    store
}

#[test]
fn discovery_reports_local_flow_with_password_and_webauthn() {
    let store = alice_store(true, true);
    let r = get_login_flow(
        &store,
        &GetLoginFlowsRequest {
            identifier: "alice".to_string(),
        },
    );
    match r {
        Ok(Some(GetLoginFlowsResponse::Local(flow))) => {
            assert!(flow.password);
            assert!(flow.webauthn);
        }
        other => panic!("expected the local flow, got {:?}", other),
    }
}

#[test]
fn discovery_of_unknown_identifier_is_empty_not_an_error() {
    let store = alice_store(true, true);
    let r = get_login_flow(
        &store,
        &GetLoginFlowsRequest {
            identifier: "nobody".to_string(),
        },
    );
    assert!(matches!(r, Ok(None)));
}

#[test]
fn discovery_ignores_not_attested_keys() {
    let mut store = alice_store(true, false);
    store.webauthn_keys.push(WebAuthnKey {
        uuid: 101,
        local_account: 10,
        label: "self-attested".to_string(),
        key: MaybeAttestedPasskey::NotAttested(PasskeyBlob {
            encoded: "not a real credential".to_string(),
        }),
    });
    let r = get_login_flow(
        &store,
        &GetLoginFlowsRequest {
            identifier: "alice".to_string(),
        },
    );
    match r {
        Ok(Some(GetLoginFlowsResponse::Local(flow))) => {
            assert!(flow.password);
            assert!(!flow.webauthn);
        }
        other => panic!("expected the local flow, got {:?}", other),
    }
}

#[test]
fn password_login_succeeds_and_sets_session_account() {
    let store = alice_store(true, true);
    let mut session = SessionData::new();
    let r = login_local_password(
        &store,
        &mut session,
        &LoginLocalPasswordRequest {
            identifier: "alice".to_string(),
            password: "s3cret".to_string(),
        },
    );
    assert!(r.is_ok());
    assert_eq!(session.account, Some(1));
}

#[test]
fn password_login_failures_are_indistinguishable() {
    let store = alice_store(true, true);
    let unset = alice_store(false, true);
    let mut session = SessionData::new();
    let wrong_password = login_local_password(
        &store,
        &mut session,
        &LoginLocalPasswordRequest {
            identifier: "alice".to_string(),
            password: "wrong".to_string(),
        },
    );
    let unknown_identifier = login_local_password(
        &store,
        &mut session,
        &LoginLocalPasswordRequest {
            identifier: "bob".to_string(),
            password: "s3cret".to_string(),
        },
    );
    let no_password = login_local_password(
        &unset,
        &mut session,
        &LoginLocalPasswordRequest {
            identifier: "alice".to_string(),
            password: "s3cret".to_string(),
        },
    );
    assert_eq!(wrong_password, Err(AuthError::BadCredentials));
    assert_eq!(unknown_identifier, wrong_password);
    assert_eq!(no_password, wrong_password);
    assert_eq!(session.account, None);
}

#[test]
fn delete_password_requires_login() {
    let mut store = alice_store(true, true);
    let session = SessionData::new();
    assert_eq!(
        delete_local_password(&mut store, &session),
        Err(AuthError::NotLoggedIn)
    );
}

#[test]
fn delete_password_with_attested_key_clears_password() {
    let mut store = alice_store(true, true);
    let mut session = SessionData::new();
    session.account = Some(1);
    assert!(delete_local_password(&mut store, &session).is_ok());
    assert_eq!(store.local_accounts[0].password, None);
    // Deleting an already absent password is an accepted no-op: the
    // attested key still counts as the remaining factor.
    assert!(delete_local_password(&mut store, &session).is_ok());
    assert_eq!(store.local_accounts[0].password, None);
}

#[test]
fn delete_password_without_attested_key_fails_and_keeps_password() {
    let mut store = alice_store(true, false);
    store.webauthn_keys.push(WebAuthnKey {
        uuid: 101,
        local_account: 10,
        label: "self-attested".to_string(),
        key: MaybeAttestedPasskey::NotAttested(PasskeyBlob {
            encoded: "not a real credential".to_string(),
        }),
    });
    let mut session = SessionData::new();
    session.account = Some(1);
    assert_eq!(
        delete_local_password(&mut store, &session),
        Err(AuthError::NoOtherLoginMethod)
    );
    assert_eq!(store.local_accounts[0].password, Some("s3cret".to_string()));
}

#[test]
fn set_password_overwrites_and_respects_cap() {
    let mut store = alice_store(false, true);
    let mut session = SessionData::new();
    session.account = Some(1);
    assert!(set_local_password(&mut store, &session, "fresh".to_string()).is_ok());
    assert_eq!(store.local_accounts[0].password, Some("fresh".to_string()));
    let too_long = "x".repeat(1025);
    assert_eq!(
        set_local_password(&mut store, &session, too_long),
        Err(AuthError::PasswordTooLong)
    );
    assert_eq!(store.local_accounts[0].password, Some("fresh".to_string()));
}

#[test]
fn set_password_on_federated_account_is_refused() {
    let mut store = Store::new();
    store.accounts.push(Account {
        uuid: 2,
        id: "carol".to_string(),
    });
    store.oidc_accounts.push(galvyn_auth::models::OidcAccount {
        uuid: 20,
        issuer: "https://idp.example".to_string(),
        subject: "carol-sub".to_string(),
        account: 2,
    });
    let mut session = SessionData::new();
    session.account = Some(2);
    assert_eq!(
        set_local_password(&mut store, &session, "pw".to_string()),
        Err(AuthError::BadCredentials)
    );
}

#[test]
fn discovery_reports_oidc_flow_for_federated_account() {
    let mut store = Store::new();
    store.accounts.push(Account {
        uuid: 2,
        id: "carol".to_string(),
    });
    store.oidc_accounts.push(galvyn_auth::models::OidcAccount {
        uuid: 20,
        issuer: "https://idp.example".to_string(),
        subject: "carol-sub".to_string(),
        account: 2,
    });
    let r = get_login_flow(
        &store,
        &GetLoginFlowsRequest {
            identifier: "carol".to_string(),
        },
    );
    assert!(matches!(r, Ok(Some(GetLoginFlowsResponse::Oidc(_)))));
}

#[test]
fn discovery_of_account_with_both_links_is_a_server_fault() {
    let mut store = alice_store(true, true);
    store.oidc_accounts.push(galvyn_auth::models::OidcAccount {
        uuid: 20,
        issuer: "https://idp.example".to_string(),
        subject: "alice-sub".to_string(),
        account: 1,
    });
    let r = get_login_flow(
        &store,
        &GetLoginFlowsRequest {
            identifier: "alice".to_string(),
        },
    );
    assert_eq!(r, Err(AuthError::InvalidAccount));
}

#[test]
fn logout_clears_only_the_account() {
    let mut session = SessionData::new();
    session.account = Some(1);
    galvyn_auth::handler::logout(&mut session);
    assert_eq!(session.account, None);
}

#[test]
fn end_to_end_alice_deletes_her_password() {
    // alice has a local account with password "s3cret" and one attested
    // WebAuthn key.
    let mut store = alice_store(true, true);

    // Discovery reports the local flow with both factors available.
    let discovery = get_login_flow(
        &store,
        &GetLoginFlowsRequest {
            identifier: "alice".to_string(),
        },
    );
    assert_eq!(
        discovery,
        Ok(Some(GetLoginFlowsResponse::Local(
            galvyn_auth::handler::LocalLoginFlow {
                password: true,
                webauthn: true,
            }
        )))
    );

    // Logged in as alice, deleting the password succeeds: the attested
    // key remains as the sole factor.
    let mut session = SessionData::new();
    let login = login_local_password(
        &store,
        &mut session,
        &LoginLocalPasswordRequest {
            identifier: "alice".to_string(),
            password: "s3cret".to_string(),
        },
    );
    assert!(login.is_ok());
    assert!(delete_local_password(&mut store, &session).is_ok());
    assert_eq!(store.local_accounts[0].password, None);

    // A second delete is an accepted no-op on the already absent
    // password.
    assert!(delete_local_password(&mut store, &session).is_ok());
    assert_eq!(store.local_accounts[0].password, None);

    // Discovery now reports the password factor as gone.
    let after = get_login_flow(
        &store,
        &GetLoginFlowsRequest {
            identifier: "alice".to_string(),
        },
    );
    assert_eq!(
        after,
        Ok(Some(GetLoginFlowsResponse::Local(
            galvyn_auth::handler::LocalLoginFlow {
                password: false,
                webauthn: true,
            }
        )))
    );
}

#[test]
fn byte_vectors_compare_element_wise() {
    assert!(galvyn_auth::models::vec_u8_eq(&vec![1, 2, 3], &vec![1, 2, 3]));
    assert!(!galvyn_auth::models::vec_u8_eq(&vec![1, 2, 3], &vec![1, 2]));
    assert!(!galvyn_auth::models::vec_u8_eq(&vec![1, 2, 3], &vec![1, 2, 4]));
}

#[test]
fn stores_can_be_validated_at_run_time() {
    let mut store = alice_store(true, true);
    assert!(store.check_wf());
    // A duplicated identifier breaks the integrity constraints.
    store.accounts.push(Account {
        uuid: 2,
        id: "alice".to_string(),
    });
    assert!(!store.check_wf());
}
