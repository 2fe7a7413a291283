//! The cross-cutting guarantees of the login service, stated and proved
//! once, over the same outcome functions that the handlers' contracts
//! use.

use vstd::prelude::*;

use crate::error::AuthError;
use crate::handler::{
    delete_password_outcome, login_flow_outcome, oidc_complete_outcome, password_login_outcome,
    GetLoginFlowsResponse,
};
use crate::models::Store;
use crate::oidc::{oidc_prepare_outcome, OidcRequestState, OidcSessionState};
use crate::session::SessionData;

verus! {

/// An account without a local row never has its password or WebAuthn
/// availability reported: discovery answers the federated flow when the
/// account is federated, and a server fault when it is linked to neither
/// table — never the local flow.
pub proof fn lemma_discovery_without_local(store: Store, identifier: Seq<char>)
    requires
        store.has_account_ident(identifier),
        !store.has_local(store.account_uuid(identifier)),
    ensures
        !(login_flow_outcome(store, identifier) matches Ok(Some(GetLoginFlowsResponse::Local(f)))),
        store.has_oidc_link(store.account_uuid(identifier)) ==> login_flow_outcome(
            store,
            identifier,
        ) matches Ok(Some(GetLoginFlowsResponse::Oidc(f))),
        !store.has_oidc_link(store.account_uuid(identifier)) ==> login_flow_outcome(
            store,
            identifier,
        ) == Err::<Option<GetLoginFlowsResponse>, AuthError>(AuthError::InvalidAccount),
{
}

/// Enumeration resistance of password login: every failing case — unknown
/// identifier, an account that is not local, a password that was never
/// set, a wrong password — produces one and the same result value, so no
/// two failures can be told apart.
pub proof fn lemma_password_login_uniform_errors(
    store1: Store,
    identifier1: Seq<char>,
    password1: Seq<char>,
    store2: Store,
    identifier2: Seq<char>,
    password2: Seq<char>,
)
    requires
        password_login_outcome(store1, identifier1, password1) is Err,
        password_login_outcome(store2, identifier2, password2) is Err,
    ensures
        password_login_outcome(store1, identifier1, password1) == password_login_outcome(
            store2,
            identifier2,
            password2,
        ),
{
}

/// The last-factor rule: deleting the password of a logged-in local
/// account succeeds exactly when at least one attested WebAuthn key
/// exists for it — keys without attestation never count. (That a failed
/// deletion leaves the store, and so the password, untouched is part of
/// `delete_local_password`'s contract.)
pub proof fn lemma_delete_password_last_factor(store: Store, session: SessionData)
    requires
        session.account matches Some(account) && store.has_local(account),
    ensures
        delete_password_outcome(store, session) is Ok <==> store.has_attested_key(
            store.local_of(session.account->0).uuid,
        ),
{
}

/// The anti-forgery gate: a finish request yields a code exchange exactly
/// when the echoed state equals the stashed token, and the exchange it
/// yields carries the request's code with the stashed verifier and nonce.
/// On a mismatch no exchange comes into existence at all.
pub proof fn lemma_oidc_state_gates_exchange(state: OidcSessionState, request: OidcRequestState)
    ensures
        oidc_prepare_outcome(state, request) is Ok <==> request.state@ == state.csrf_token@,
        oidc_prepare_outcome(state, request) matches Ok(exchange) ==> exchange.code
            == request.code && exchange.pkce_verifier == state.pkce_code_verifier
            && exchange.nonce == state.nonce,
        request.state@ != state.csrf_token@ ==> oidc_prepare_outcome(state, request) == Err::<
            crate::oidc::CodeExchange,
            AuthError,
        >(AuthError::StateMismatch),
{
}

/// A federated pair is linked to one account: in a well-formed store, two
/// different (issuer, subject) pairs are linked to two different
/// accounts.
pub proof fn lemma_federated_pairs_distinct_accounts(
    store: Store,
    issuer1: Seq<char>,
    subject1: Seq<char>,
    issuer2: Seq<char>,
    subject2: Seq<char>,
)
    requires
        store.wf(),
        store.has_oidc_pair(issuer1, subject1),
        store.has_oidc_pair(issuer2, subject2),
        !(issuer1 == issuer2 && subject1 == subject2),
    ensures
        store.oidc_pair_account(issuer1, subject1) != store.oidc_pair_account(issuer2, subject2),
{
    let i1 = store.oidc_pair_idx(issuer1, subject1);
    let i2 = store.oidc_pair_idx(issuer2, subject2);
    assert(store.oidc_accounts@[i1].issuer@ == issuer1 && store.oidc_accounts@[i1].subject@
        == subject1);
    assert(store.oidc_accounts@[i2].issuer@ == issuer2 && store.oidc_accounts@[i2].subject@
        == subject2);
    assert(i1 != i2);
    if i1 < i2 {
        assert(store.oidc_accounts@[i1].account != store.oidc_accounts@[i2].account);
    } else {
        assert(store.oidc_accounts@[i2].account != store.oidc_accounts@[i1].account);
    }
}

/// A second federated login for an already linked (issuer, subject) pair
/// reuses the linked account: the outcome is that account, not a fresh
/// one, whatever fresh ids were drawn. (That the store stays untouched in
/// this case is part of `link_federated_identity`'s contract: no
/// duplicate row appears.)
pub proof fn lemma_federated_login_reuses_account(
    store: Store,
    issuer: Seq<char>,
    subject: Seq<char>,
    account_uuid: u128,
    oidc_uuid: u128,
)
    requires
        store.has_oidc_pair(issuer, subject),
        crate::handler::federated_lengths_ok(issuer, subject),
    ensures
        oidc_complete_outcome(store, issuer, subject, account_uuid, oidc_uuid) == Ok::<
            u128,
            AuthError,
        >(store.oidc_pair_account(issuer, subject)),
{
}

/// A fresh federated login provisions: when the (issuer, subject) pair is
/// new and the drawn ids and the derived identifier collide with no
/// stored row, the provisioning outcome is the new account — a collision
/// only ever surfaces as a store-conflict error that, by
/// `provision_oidc`'s contract, leaves the store untouched.
pub proof fn lemma_fresh_provision_succeeds(
    store: Store,
    issuer: Seq<char>,
    subject: Seq<char>,
    ident: Seq<char>,
    account_uuid: u128,
    oidc_uuid: u128,
)
    requires
        !store.has_oidc_pair(issuer, subject),
        !store.has_account_uuid(account_uuid),
        !store.has_oidc_uuid(oidc_uuid),
        !store.has_account_ident(ident),
    ensures
        store.provision_outcome(issuer, subject, ident, account_uuid, oidc_uuid) == Ok::<
            u128,
            AuthError,
        >(account_uuid),
{
}

} // verus!
