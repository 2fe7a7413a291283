//! The request handlers of the login service.
//!
//! Each login mechanism is a two-step state machine (password login
//! collapses to one step). Every handler is a pure decision over the
//! credential store, the session and the request; each one's result and
//! effect is pinned down by a spec-level outcome function. All identifier
//! and credential mismatches answer with the one uniform client error
//! [`AuthError::BadCredentials`], so that a caller cannot probe which part
//! of a check failed.

use vstd::prelude::*;

use webauthn_rs::prelude::{PublicKeyCredential, RequestChallengeResponse};

use crate::error::AuthError;
use crate::models::{attested_materials, lemma_attested_materials_len};
use crate::models::{LocalAccount, Store, MAX_IDENT_LEN, MAX_PASSWORD_LEN};
use crate::oidc::{
    begin_login, begin_login_ok, oidc_prepare_outcome, CodeExchange, ExchangeOutcome, OidcConfig,
    OidcRequestState,
};
use crate::session::SessionData;
use crate::webauthn::{
    finish_ceremony, parse_attested_keys, parses_attested, start_ceremony, RelyingParty,
    WebauthnChallengeState,
};

verus! {

use vstd::string::StrSliceExecFns;
use vstd::string::StringExecFns;

/// The query of the login-flow discovery endpoint.
pub struct GetLoginFlowsRequest {
    /// The account's public identifier.
    pub identifier: String,
}

/// The body of a WebAuthn login start request.
pub struct LoginLocalWebauthnRequest {
    /// The account's public identifier.
    pub identifier: String,
}

/// The body of a password login request.
pub struct LoginLocalPasswordRequest {
    /// The account's public identifier.
    pub identifier: String,
    /// The submitted password.
    pub password: String,
}

/// The discovery answer for a federated account.
#[derive(Debug, Clone, Copy, PartialEq, Eq, Structural)]
pub struct OidcLoginFlow {}

/// The discovery answer for a local account.
#[derive(Debug, Clone, Copy, PartialEq, Eq, Structural)]
pub struct LocalLoginFlow {
    /// Whether a password is set.
    pub password: bool,
    /// Whether at least one attested WebAuthn key is registered.
    pub webauthn: bool,
}

/// Which login flows an account offers.
#[derive(Debug, Clone, Copy, PartialEq, Eq, Structural)]
pub enum GetLoginFlowsResponse {
    /// The account logs in at its identity provider.
    Oidc(OidcLoginFlow),
    /// The account logs in locally.
    Local(LocalLoginFlow),
}

/// What discovery answers: nothing for an unknown identifier (so that the
/// answer does not confirm existence), the federated flow for a purely
/// federated account, the local flow with its two availability bits for a
/// purely local account, and a server fault for an account linked to both
/// or neither credential table.
pub open spec fn login_flow_outcome(store: Store, identifier: Seq<char>) -> Result<
    Option<GetLoginFlowsResponse>,
    AuthError,
> {
    if !store.has_account_ident(identifier) {
        Ok(None)
    } else {
        let account = store.account_uuid(identifier);
        let oidc = store.has_oidc_link(account);
        let local = store.has_local(account);
        if oidc && !local {
            Ok(Some(GetLoginFlowsResponse::Oidc(OidcLoginFlow {  })))
        } else if !oidc && local {
            Ok(
                Some(
                    GetLoginFlowsResponse::Local(
                        LocalLoginFlow {
                            password: store.local_of(account).password is Some,
                            webauthn: store.has_attested_key(store.local_of(account).uuid),
                        },
                    ),
                ),
            )
        } else {
            Err(AuthError::InvalidAccount)
        }
    }
}

/// Login-flow discovery: reports which login mechanisms the identifier's
/// account offers.
pub fn get_login_flow(store: &Store, request: &GetLoginFlowsRequest) -> (r: Result<
    Option<GetLoginFlowsResponse>,
    AuthError,
>)
    requires
        store.wf(),
    ensures
        r == login_flow_outcome(*store, request.identifier@),
{
    let account = match store.find_account(&request.identifier) {
        None => {
            return Ok(None);
        },
        Some(account) => account,
    };
    let oidc = store.contains_oidc_link(account);
    match store.find_local_idx(account) {
        None => {
            if oidc {
                Ok(Some(GetLoginFlowsResponse::Oidc(OidcLoginFlow {  })))
            } else {
                Err(AuthError::InvalidAccount)
            }
        },
        Some(local_i) => {
            if oidc {
                Err(AuthError::InvalidAccount)
            } else {
                let local = &store.local_accounts[local_i];
                Ok(
                    Some(
                        GetLoginFlowsResponse::Local(
                            LocalLoginFlow {
                                password: local.password.is_some(),
                                webauthn: store.contains_attested_key(local.uuid),
                            },
                        ),
                    ),
                )
            }
        },
    }
}

/// What a password login decides: the identifier must resolve to an
/// account with a local row whose password is set and equal to the
/// submitted one. Every other case — unknown identifier, no local row, no
/// password set, wrong password — answers with the same error value.
pub open spec fn password_login_outcome(
    store: Store,
    identifier: Seq<char>,
    password: Seq<char>,
) -> Result<u128, AuthError> {
    if !store.has_account_ident(identifier) {
        Err(AuthError::BadCredentials)
    } else {
        let account = store.account_uuid(identifier);
        if !store.has_local(account) {
            Err(AuthError::BadCredentials)
        } else {
            match store.local_of(account).password {
                None => Err(AuthError::BadCredentials),
                Some(stored) => if stored@ == password {
                    Ok(account)
                } else {
                    Err(AuthError::BadCredentials)
                },
            }
        }
    }
}

/// Password login: on the one matching case the session holds the account
/// afterwards; on any mismatch the session is untouched and the uniform
/// client error comes back. The comparison is plain equality on the
/// stored secret — see the note on [`LocalAccount::password`].
pub fn login_local_password(
    store: &Store,
    session: &mut SessionData,
    request: &LoginLocalPasswordRequest,
) -> (r: Result<(), AuthError>)
    requires
        store.wf(),
    ensures
        password_login_outcome(*store, request.identifier@, request.password@) matches Ok(account)
            ==> r is Ok && final(session).account == Some(account) && final(session).login_local_webauthn == old(session).login_local_webauthn && final(session).login_oidc
            == old(session).login_oidc,
        password_login_outcome(*store, request.identifier@, request.password@) matches Err(e) ==> r
            == Err::<(), AuthError>(e) && *final(session) == *old(session),
{
    let account = match store.find_account(&request.identifier) {
        None => {
            return Err(AuthError::BadCredentials);
        },
        Some(account) => account,
    };
    let local_i = match store.find_local_idx(account) {
        None => {
            return Err(AuthError::BadCredentials);
        },
        Some(local_i) => local_i,
    };
    match &store.local_accounts[local_i].password {
        None => Err(AuthError::BadCredentials),
        Some(stored) => {
            if *stored == request.password {
                session.account = Some(account);
                Ok(())
            } else {
                Err(AuthError::BadCredentials)
            }
        },
    }
}

/// What setting the password decides: the session must be logged in, the
/// submitted password must fit the cap, and the logged-in account must be
/// a local one.
pub open spec fn set_password_outcome(store: Store, session: SessionData, password: Seq<char>) -> Result<
    u128,
    AuthError,
> {
    match session.account {
        None => Err(AuthError::NotLoggedIn),
        Some(account) => if password.len() > MAX_PASSWORD_LEN {
            Err(AuthError::PasswordTooLong)
        } else if !store.has_local(account) {
            Err(AuthError::BadCredentials)
        } else {
            Ok(account)
        },
    }
}

/// Overwrites the logged-in account's password. On any failure the store
/// is untouched.
pub fn set_local_password(store: &mut Store, session: &SessionData, request: String) -> (r: Result<
    (),
    AuthError,
>)
    requires
        old(store).wf(),
    ensures
        final(store).wf(),
        set_password_outcome(*old(store), *session, request@) matches Err(e) ==> r == Err::<
            (),
            AuthError,
        >(e) && *final(store) == *old(store),
        set_password_outcome(*old(store), *session, request@) matches Ok(account) ==> r is Ok
            && final(store).local_accounts@ == old(store).local_accounts@.update(
            old(store).local_idx(account),
            LocalAccount {
                uuid: old(store).local_of(account).uuid,
                password: Some(request),
                account: account,
            },
        ) && final(store).accounts == old(store).accounts && final(store).oidc_accounts == old(store).oidc_accounts && final(store).webauthn_keys == old(store).webauthn_keys && final(store).totp_keys == old(store).totp_keys,
{
    let account = match session.account {
        None => {
            return Err(AuthError::NotLoggedIn);
        },
        Some(account) => account,
    };
    if request.as_str().unicode_len() > MAX_PASSWORD_LEN {
        return Err(AuthError::PasswordTooLong);
    }
    if store.set_password(account, Some(request)) {
        Ok(())
    } else {
        Err(AuthError::BadCredentials)
    }
}

/// What deleting the password decides: the session must be logged in, the
/// logged-in account must be local, and at least one attested WebAuthn
/// key must remain as a usable factor — otherwise nothing is deleted.
pub open spec fn delete_password_outcome(store: Store, session: SessionData) -> Result<
    u128,
    AuthError,
> {
    match session.account {
        None => Err(AuthError::NotLoggedIn),
        Some(account) => if !store.has_local(account) {
            Err(AuthError::BadCredentials)
        } else if !store.has_attested_key(store.local_of(account).uuid) {
            Err(AuthError::NoOtherLoginMethod)
        } else {
            Ok(account)
        },
    }
}

/// Deletes the logged-in account's password, unless that would leave the
/// account without any usable login method. On any failure the store is
/// untouched: the password stays exactly as it was. Deleting an already
/// absent password is an accepted no-op, not an error.
pub fn delete_local_password(store: &mut Store, session: &SessionData) -> (r: Result<
    (),
    AuthError,
>)
    requires
        old(store).wf(),
    ensures
        final(store).wf(),
        delete_password_outcome(*old(store), *session) matches Err(e) ==> r == Err::<
            (),
            AuthError,
        >(e) && *final(store) == *old(store),
        delete_password_outcome(*old(store), *session) matches Ok(account) ==> r is Ok && final(store).local_accounts@ == old(store).local_accounts@.update(
            old(store).local_idx(account),
            LocalAccount {
                uuid: old(store).local_of(account).uuid,
                password: None,
                account: account,
            },
        ) && final(store).accounts == old(store).accounts && final(store).oidc_accounts == old(store).oidc_accounts && final(store).webauthn_keys == old(store).webauthn_keys && final(store).totp_keys == old(store).totp_keys,
{
    let account = match session.account {
        None => {
            return Err(AuthError::NotLoggedIn);
        },
        Some(account) => account,
    };
    let local_i = match store.find_local_idx(account) {
        None => {
            return Err(AuthError::BadCredentials);
        },
        Some(local_i) => local_i,
    };
    if !store.contains_attested_key(store.local_accounts[local_i].uuid) {
        return Err(AuthError::NoOtherLoginMethod);
    }
    let had_local = store.set_password(account, None);
    proof {
        assert(had_local);
    }
    Ok(())
}

/// Logout: forgets the logged-in account and nothing else.
pub fn logout(session: &mut SessionData)
    ensures
        final(session).account is None,
        final(session).login_local_webauthn == old(session).login_local_webauthn,
        final(session).login_oidc == old(session).login_oidc,
{
    session.account = None;
}

/// What a WebAuthn login start decides: the identifier must resolve to a
/// local account owning at least one attested key; every mismatch answers
/// with the uniform client error.
pub open spec fn webauthn_start_eligibility(store: Store, identifier: Seq<char>) -> Result<
    u128,
    AuthError,
> {
    if !store.has_account_ident(identifier) {
        Err(AuthError::BadCredentials)
    } else {
        let account = store.account_uuid(identifier);
        if !store.has_local(account) {
            Err(AuthError::BadCredentials)
        } else if !store.has_attested_key(store.local_of(account).uuid) {
            Err(AuthError::BadCredentials)
        } else {
            Ok(account)
        }
    }
}

/// Every stored attested credential of this local account decodes back
/// into the ceremony library's key type.
pub open spec fn stored_keys_decode(store: Store, local_uuid: u128) -> bool {
    forall|i: int|
        0 <= i < attested_materials(store.webauthn_keys@, local_uuid).len() ==> parses_attested(
            #[trigger] attested_materials(store.webauthn_keys@, local_uuid)[i]@,
        )
}

/// WebAuthn login start: resolves the identifier to its attested keys,
/// asks the ceremony library for a fresh challenge and stashes the
/// challenge state, tagged with the identifier, in the session. For an
/// eligible identifier it succeeds exactly when every stored attested
/// credential decodes; only a successful start touches the session.
pub fn login_local_webauthn(
    webauthn: &RelyingParty,
    store: &Store,
    session: &mut SessionData,
    request: LoginLocalWebauthnRequest,
) -> (r: Result<RequestChallengeResponse, AuthError>)
    requires
        store.wf(),
    ensures
        webauthn_start_eligibility(*store, request.identifier@) matches Err(e) ==> r == Err::<
            RequestChallengeResponse,
            AuthError,
        >(e),
        r is Err ==> *final(session) == *old(session),
        webauthn_start_eligibility(*store, request.identifier@) is Ok && r is Err ==> r->Err_0
            == AuthError::CorruptKey,
        webauthn_start_eligibility(*store, request.identifier@) matches Ok(account) ==> (r is Ok
            <==> stored_keys_decode(*store, store.local_of(account).uuid)),
        r is Ok ==> webauthn_start_eligibility(*store, request.identifier@) is Ok && (final(session).login_local_webauthn matches Some(challenge) && challenge.identifier@
            == request.identifier@) && final(session).account == old(session).account && final(session).login_oidc == old(session).login_oidc,
{
    let account = match store.find_account(&request.identifier) {
        None => {
            return Err(AuthError::BadCredentials);
        },
        Some(account) => account,
    };
    let local_i = match store.find_local_idx(account) {
        None => {
            return Err(AuthError::BadCredentials);
        },
        Some(local_i) => local_i,
    };
    let local_uuid = store.local_accounts[local_i].uuid;
    let encodings = store.attested_encodings(local_uuid);
    proof {
        lemma_attested_materials_len(store.webauthn_keys@, local_uuid);
    }
    if encodings.len() == 0 {
        return Err(AuthError::BadCredentials);
    }
    let keys = match parse_attested_keys(&encodings) {
        Err(error) => {
            proof {
                assert(exists|i: int|
                    0 <= i < encodings@.len() && !parses_attested(encodings@[i]@));
                let w = choose|i: int|
                    0 <= i < encodings@.len() && !parses_attested(encodings@[i]@);
                assert(!parses_attested(attested_materials(store.webauthn_keys@, local_uuid)[w]@));
            }
            return Err(error);
        },
        Ok(keys) => keys,
    };
    proof {
        assert forall|i: int|
            0 <= i < attested_materials(store.webauthn_keys@, local_uuid).len()
            implies parses_attested(
            #[trigger] attested_materials(store.webauthn_keys@, local_uuid)[i]@,
        ) by {
            assert(parses_attested(encodings@[i]@));
        }
    }
    let (challenge, state) = start_ceremony(webauthn, &keys);
    session.login_local_webauthn = Some(
        WebauthnChallengeState { identifier: request.identifier, state: state },
    );
    Ok(challenge)
}

/// What the re-resolution after a verified assertion decides: the
/// identifier must still resolve to a local account, and the credential
/// that signed must be one of its attested keys as stored now — a key
/// deleted between start and finish no longer counts.
pub open spec fn webauthn_confirm_outcome(store: Store, identifier: Seq<char>, cred: Seq<u8>) -> Result<
    u128,
    AuthError,
> {
    if !store.has_account_ident(identifier) {
        Err(AuthError::BadCredentials)
    } else {
        let account = store.account_uuid(identifier);
        if !store.has_local(account) {
            Err(AuthError::BadCredentials)
        } else if !store.has_attested_key_with_cred(store.local_of(account).uuid, cred) {
            Err(AuthError::BadCredentials)
        } else {
            Ok(account)
        }
    }
}

/// Correlates a verified credential id back to a stored key: the exact
/// decision a finish call takes once the ceremony library has done its
/// cryptographic part.
pub fn confirm_webauthn_login(store: &Store, identifier: &String, cred: &Vec<u8>) -> (r: Result<
    u128,
    AuthError,
>)
    requires
        store.wf(),
    ensures
        r == webauthn_confirm_outcome(*store, identifier@, cred@),
{
    let account = match store.find_account(identifier) {
        None => {
            return Err(AuthError::BadCredentials);
        },
        Some(account) => account,
    };
    let local_i = match store.find_local_idx(account) {
        None => {
            return Err(AuthError::BadCredentials);
        },
        Some(local_i) => local_i,
    };
    let local_uuid = store.local_accounts[local_i].uuid;
    if !store.contains_attested_cred(local_uuid, cred) {
        return Err(AuthError::BadCredentials);
    }
    Ok(account)
}

/// WebAuthn login finish: consumes the stashed challenge state — whatever
/// else happens, it is gone afterwards — verifies the browser's assertion
/// against it, re-resolves the identifier and logs in only when the
/// credential that signed is an attested key of that account as stored
/// now.
pub fn finish_login_local_webauthn(
    webauthn: &RelyingParty,
    store: &Store,
    session: &mut SessionData,
    request: &PublicKeyCredential,
) -> (r: Result<(), AuthError>)
    requires
        store.wf(),
    ensures
        final(session).login_local_webauthn is None,
        final(session).login_oidc == old(session).login_oidc,
        old(session).login_local_webauthn is None ==> r == Err::<(), AuthError>(
            AuthError::NoOngoingChallenge,
        ),
        old(session).login_local_webauthn is Some && r is Err ==> r->Err_0
            == AuthError::EngineFailure || r->Err_0 == AuthError::BadCredentials,
        r is Err ==> final(session).account == old(session).account,
        r is Ok ==> (old(session).login_local_webauthn matches Some(challenge) && {
            let identifier = challenge.identifier@;
            let account = store.account_uuid(identifier);
            &&& store.has_account_ident(identifier)
            &&& store.has_local(account)
            &&& exists|cred: Seq<u8>|
                store.has_attested_key_with_cred(store.local_of(account).uuid, cred)
            &&& final(session).account == Some(account)
        }),
{
    let challenge = match session.take_webauthn_challenge() {
        None => {
            return Err(AuthError::NoOngoingChallenge);
        },
        Some(challenge) => challenge,
    };
    let cred = match finish_ceremony(webauthn, request, &challenge.state) {
        Err(error) => {
            return Err(error);
        },
        Ok(cred) => cred,
    };
    let account = match confirm_webauthn_login(store, &challenge.identifier, &cred) {
        Err(error) => {
            return Err(error);
        },
        Ok(account) => account,
    };
    proof {
        assert(store.has_attested_key_with_cred(
            store.local_of(store.account_uuid(challenge.identifier@)).uuid,
            cred@,
        ));
    }
    session.account = Some(account);
    Ok(())
}

/// OIDC login start: draws the per-login secrets, stashes them in the
/// session and returns the authorization URL to redirect the browser to.
pub fn login_oidc(config: &OidcConfig, session: &mut SessionData) -> (r: Result<String, AuthError>)
    ensures
        r is Ok <==> crate::oidc::url_parse_ok(config.auth_endpoint@),
        r is Err ==> *final(session) == *old(session) && r->Err_0 == AuthError::EngineFailure,
        r matches Ok(url) ==> (final(session).login_oidc matches Some(state) && begin_login_ok(
            *config,
            url,
            state,
        )) && final(session).account == old(session).account && final(session).login_local_webauthn
            == old(session).login_local_webauthn,
{
    match begin_login(config) {
        Err(error) => Err(error),
        Ok((url, state)) => {
            session.login_oidc = Some(state);
            Ok(url)
        },
    }
}

/// OIDC login finish, first half: consumes the stashed state — it is gone
/// afterwards, whatever else happens — and checks the echoed anti-forgery
/// token against it. Only on a match does any code exchange come into
/// existence; a mismatch or a missing state fails before anything leaves
/// the server.
pub fn finish_login_oidc_prepare(session: &mut SessionData, request: OidcRequestState) -> (r:
    Result<CodeExchange, AuthError>)
    ensures
        final(session).login_oidc is None,
        final(session).account == old(session).account,
        final(session).login_local_webauthn == old(session).login_local_webauthn,
        old(session).login_oidc is None ==> r == Err::<CodeExchange, AuthError>(
            AuthError::NoOngoingChallenge,
        ),
        old(session).login_oidc matches Some(state) ==> r == oidc_prepare_outcome(state, request),
{
    let state = match session.take_oidc_state() {
        None => {
            return Err(AuthError::NoOngoingChallenge);
        },
        Some(state) => state,
    };
    if request.state == state.csrf_token {
        Ok(
            CodeExchange {
                code: request.code,
                pkce_verifier: state.pkce_code_verifier,
                nonce: state.nonce,
            },
        )
    } else {
        Err(AuthError::StateMismatch)
    }
}

/// A subject with every at sign doubled, so that the separator of
/// [`federated_identifier`] — one at sign followed by a dot — cannot
/// occur inside it.
pub open spec fn escaped_subject(subject: Seq<char>) -> Seq<char>
    decreases subject.len(),
{
    if subject.len() == 0 {
        Seq::empty()
    } else {
        let head: Seq<char> = if subject[0] == '@' {
            seq!['@', '@']
        } else {
            seq![subject[0]]
        };
        head + escaped_subject(subject.skip(1))
    }
}

/// The identifier given to an account provisioned from a federated
/// identity: the subject with its at signs doubled, the separator "@.",
/// then the issuer. The doubling makes the encoding injective: inside the
/// escaped subject every run of at signs is even, so the first at sign
/// that ends an odd run and is followed by a dot is the separator, and
/// both parts can be read back.
pub open spec fn federated_identifier(issuer: Seq<char>, subject: Seq<char>) -> Seq<char> {
    escaped_subject(subject) + "@."@ + issuer
}

/// Doubles the at signs of a subject.
fn escape_subject(subject: &String) -> (r: String)
    ensures
        r@ == escaped_subject(subject@),
{
    let n = subject.as_str().unicode_len();
    let mut out = String::new();
    proof {
        assert(subject@.skip(0) =~= subject@);
        assert(out@ + escaped_subject(subject@) =~= escaped_subject(subject@));
    }
    let mut i: usize = 0;
    while i < n
        invariant
            n == subject@.len(),
            0 <= i <= n,
            out@ + escaped_subject(subject@.skip(i as int)) == escaped_subject(subject@),
        decreases n - i,
    {
        let ghost rest = subject@.skip(i as int);
        let ghost before = out@;
        proof {
            assert(rest[0] == subject@[i as int]);
            assert(rest.skip(1) =~= subject@.skip(i + 1 as int));
        }
        let c = subject.as_str().get_char(i);
        if c == '@' {
            out.append("@@");
            proof {
                reveal_strlit("@@");
                assert("@@"@ =~= seq!['@', '@']);
                assert(out@ + escaped_subject(subject@.skip(i + 1 as int)) =~= before
                    + escaped_subject(rest));
            }
        } else {
            let piece = subject.as_str().substring_char(i, i + 1);
            proof {
                assert(piece@ =~= seq![subject@[i as int]]);
            }
            out.append(piece);
            proof {
                assert(out@ + escaped_subject(subject@.skip(i + 1 as int)) =~= before
                    + escaped_subject(rest));
            }
        }
        i = i + 1;
    }
    proof {
        assert(subject@.skip(n as int) =~= Seq::<char>::empty());
        assert(out@ + escaped_subject(Seq::<char>::empty()) =~= out@);
    }
    out
}

/// Whether the verified claims fit the storage caps.
pub open spec fn federated_lengths_ok(issuer: Seq<char>, subject: Seq<char>) -> bool {
    issuer.len() <= MAX_IDENT_LEN && subject.len() <= MAX_IDENT_LEN && federated_identifier(
        issuer,
        subject,
    ).len() <= MAX_IDENT_LEN
}

/// What linking a verified federated identity decides: claims over the
/// caps are refused; otherwise an existing (issuer, subject) row logs
/// into its account, and a new pair provisions a fresh account — unless a
/// fresh id collides with a stored row.
pub open spec fn oidc_complete_outcome(
    store: Store,
    issuer: Seq<char>,
    subject: Seq<char>,
    account_uuid: u128,
    oidc_uuid: u128,
) -> Result<u128, AuthError> {
    if !federated_lengths_ok(issuer, subject) {
        Err(AuthError::ValueTooLong)
    } else {
        store.provision_outcome(
            issuer,
            subject,
            federated_identifier(issuer, subject),
            account_uuid,
            oidc_uuid,
        )
    }
}

/// Links a verified federated identity to an account and logs the session
/// into it. Reuses the account linked to (issuer, subject) if one exists;
/// otherwise inserts the new account and its federated row as one unit.
/// On any failure neither the store nor the session changes.
pub fn link_federated_identity(
    store: &mut Store,
    session: &mut SessionData,
    issuer: String,
    subject: String,
    account_uuid: u128,
    oidc_uuid: u128,
) -> (r: Result<(), AuthError>)
    requires
        old(store).wf(),
    ensures
        final(store).wf(),
        oidc_complete_outcome(*old(store), issuer@, subject@, account_uuid, oidc_uuid) matches Err(
            e,
        ) ==> r == Err::<(), AuthError>(e) && *final(store) == *old(store) && *final(session)
            == *old(session),
        oidc_complete_outcome(*old(store), issuer@, subject@, account_uuid, oidc_uuid) matches Ok(
            account,
        ) ==> {
            &&& r is Ok
            &&& final(session).account == Some(account)
            &&& final(session).login_local_webauthn == old(session).login_local_webauthn
            &&& final(session).login_oidc == old(session).login_oidc
            &&& old(store).has_oidc_pair(issuer@, subject@) ==> *final(store) == *old(store)
            &&& !old(store).has_oidc_pair(issuer@, subject@) ==> {
                &&& final(store).accounts@.len() == old(store).accounts@.len() + 1
                &&& final(store).accounts@.subrange(0, old(store).accounts@.len() as int) == old(store).accounts@
                &&& final(store).accounts@.last().uuid == account_uuid
                &&& final(store).accounts@.last().id@ == federated_identifier(issuer@, subject@)
                &&& final(store).oidc_accounts@ == old(store).oidc_accounts@.push(
                    crate::models::OidcAccount {
                        uuid: oidc_uuid,
                        issuer: issuer,
                        subject: subject,
                        account: account_uuid,
                    },
                )
                &&& final(store).local_accounts == old(store).local_accounts
                &&& final(store).webauthn_keys == old(store).webauthn_keys
                &&& final(store).totp_keys == old(store).totp_keys
            }
        },
{
    if issuer.as_str().unicode_len() > MAX_IDENT_LEN {
        return Err(AuthError::ValueTooLong);
    }
    if subject.as_str().unicode_len() > MAX_IDENT_LEN {
        return Err(AuthError::ValueTooLong);
    }
    let mut identifier = escape_subject(&subject);
    identifier.append("@.");
    identifier.append(issuer.as_str());
    proof {
        assert(identifier@ == federated_identifier(issuer@, subject@));
    }
    if identifier.as_str().unicode_len() > MAX_IDENT_LEN {
        return Err(AuthError::ValueTooLong);
    }
    match store.provision_oidc(issuer, subject, identifier, account_uuid, oidc_uuid) {
        Err(error) => Err(error),
        Ok(account) => {
            session.account = Some(account);
            Ok(())
        },
    }
}

/// Relies on uuid::Uuid::new_v4: a fresh random 128-bit id. Nothing holds
/// of the value: two calls differ with overwhelming probability, and the
/// store checks freshness before trusting it.
#[verifier::external_body]
fn fresh_uuid() -> (r: u128) {
    uuid::Uuid::new_v4().as_u128()
}

/// OIDC login finish, second half: takes what the code exchange brought
/// back. A rejected exchange changes nothing; verified claims log the
/// session into the linked account, provisioning it first if the (issuer,
/// subject) pair is new.
pub fn finish_login_oidc(store: &mut Store, session: &mut SessionData, outcome: ExchangeOutcome) -> (r:
    Result<(), AuthError>)
    requires
        old(store).wf(),
    ensures
        final(store).wf(),
        outcome matches ExchangeOutcome::Rejected { server_side } ==> *final(store) == *old(store)
            && *final(session) == *old(session) && r == Err::<(), AuthError>(
            if server_side {
                AuthError::ProviderError
            } else {
                AuthError::ExchangeFailed
            },
        ),
        outcome matches ExchangeOutcome::Verified { issuer, subject } ==> {
            &&& !federated_lengths_ok(issuer@, subject@) ==> r == Err::<(), AuthError>(
                AuthError::ValueTooLong,
            )
            &&& r is Err ==> *final(store) == *old(store) && *final(session) == *old(session) && (
            r->Err_0 == AuthError::ValueTooLong || r->Err_0 == AuthError::StoreConflict)
            &&& r is Ok ==> (final(session).account matches Some(account) && final(store).has_oidc_pair(issuer@, subject@) && final(store).oidc_pair_account(issuer@, subject@)
                == account) && final(session).login_local_webauthn == old(session).login_local_webauthn && final(session).login_oidc == old(session).login_oidc
            &&& r is Ok && old(store).has_oidc_pair(issuer@, subject@) ==> *final(store) == *old(store)
            &&& federated_lengths_ok(issuer@, subject@) && old(store).has_oidc_pair(
                issuer@,
                subject@,
            ) ==> r is Ok
            &&& federated_lengths_ok(issuer@, subject@) ==> r != Err::<(), AuthError>(
                AuthError::ValueTooLong,
            )
        },
{
    match outcome {
        ExchangeOutcome::Rejected { server_side } => {
            if server_side {
                Err(AuthError::ProviderError)
            } else {
                Err(AuthError::ExchangeFailed)
            }
        },
        ExchangeOutcome::Verified { issuer, subject } => {
            let ghost s0 = *store;
            let ghost issuer_view = issuer@;
            let ghost subject_view = subject@;
            let account_uuid = fresh_uuid();
            let oidc_uuid = fresh_uuid();
            let r = link_federated_identity(
                store,
                session,
                issuer,
                subject,
                account_uuid,
                oidc_uuid,
            );
            proof {
                if r is Ok && !s0.has_oidc_pair(issuer_view, subject_view) {
                    let no = store.oidc_accounts@;
                    assert(no.last().issuer@ == issuer_view && no.last().subject@ == subject_view);
                    assert(store.has_oidc_pair(issuer_view, subject_view));
                    let k = store.oidc_pair_idx(issuer_view, subject_view);
                    assert(no[k].issuer@ == issuer_view && no[k].subject@ == subject_view);
                    assert forall|p: int| 0 <= p < no.len() - 1 implies !(no[p].issuer@
                        == issuer_view && no[p].subject@ == subject_view) by {
                        assert(no[p] == s0.oidc_accounts@[p]);
                        assert(!s0.has_oidc_pair(issuer_view, subject_view));
                    }
                    assert(k == no.len() - 1);
                }
                if r is Ok && s0.has_oidc_pair(issuer_view, subject_view) {
                    assert(store.has_oidc_pair(issuer_view, subject_view));
                }
            }
            r
        },
    }
}

} // verus!
