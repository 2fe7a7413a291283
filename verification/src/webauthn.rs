//! Trusted boundary to the WebAuthn ceremony library.
//!
//! The library produces and verifies the cryptographic challenges; what it
//! computes is not re-stated here. The store keeps each attested
//! credential in its serialized form together with its plain credential
//! id; this module parses the serialized form back and runs the ceremony.

use vstd::prelude::*;

use webauthn_rs::prelude::{
    AttestedPasskey, AttestedPasskeyAuthentication, AuthenticationResult, PublicKeyCredential,
    RequestChallengeResponse, Url, WebauthnError,
};
use webauthn_rs::{Webauthn, WebauthnBuilder};

use crate::error::AuthError;

verus! {

#[verifier::external_type_specification]
#[verifier::external_body]
pub struct ExWebauthn(Webauthn);

#[verifier::external_type_specification]
#[verifier::external_body]
pub struct ExAttestedPasskey(AttestedPasskey);

#[verifier::external_type_specification]
#[verifier::external_body]
pub struct ExAttestedPasskeyAuthentication(AttestedPasskeyAuthentication);

#[verifier::external_type_specification]
#[verifier::external_body]
pub struct ExAuthenticationResult(AuthenticationResult);

#[verifier::external_type_specification]
#[verifier::external_body]
pub struct ExPublicKeyCredential(PublicKeyCredential);

#[verifier::external_type_specification]
#[verifier::external_body]
pub struct ExRequestChallengeResponse(RequestChallengeResponse);

#[verifier::external_type_specification]
#[verifier::external_body]
pub struct ExWebauthnError(WebauthnError);

#[verifier::external_type_specification]
#[verifier::external_body]
pub struct ExUrlParseError(url::ParseError);

#[verifier::external_type_specification]
#[verifier::external_body]
pub struct ExSerdeJsonError(serde_json::Error);

/// The relying-party engine, held behind the library's own type. Its one
/// constructor is [`new_engine`], so every value was built by the
/// ceremony library's builder with its default authenticator timeout —
/// the configuration under which challenge generation has no failure
/// path and the timeout always fits the wire format.
pub struct RelyingParty {
    webauthn: Webauthn,
}

/// The per-session state bridging a WebAuthn "start" to its "finish":
/// which identifier asked for the challenge, and the ceremony library's
/// opaque server-side state.
pub struct WebauthnChallengeState {
    /// The identifier the challenge was started for.
    pub identifier: String,
    /// The ceremony library's server-side state; must stay on the server.
    pub state: AttestedPasskeyAuthentication,
}

/// Whether the ceremony library accepts this (rp id, origin) pair: the
/// origin must parse as an absolute URL whose effective domain is the rp
/// id or a subdomain of it. A function of the two strings alone.
pub uninterp spec fn rp_config_ok(rp_id: Seq<char>, origin: Seq<char>) -> bool;

/// Whether this string decodes as a stored attested credential: a
/// function of the string alone.
pub uninterp spec fn parses_attested(encoded: Seq<char>) -> bool;

/// Relies on url::Url::parse, WebauthnBuilder::new and
/// WebauthnBuilder::build: parses the origin and constructs the
/// relying-party engine. Succeeds for exactly the (rp id, origin) pairs
/// the library accepts; `build` itself cannot fail, and an origin that
/// fails to parse is the same unusable configuration as a mismatching rp
/// id, so plain absence reports both.
#[verifier::external_body]
fn build_engine(rp_id: &String, origin: &String) -> (r: Option<Webauthn>)
    ensures
        r is Some <==> rp_config_ok(rp_id@, origin@),
{
    match Url::parse(origin.as_str()) {
        Ok(url) => match WebauthnBuilder::new(rp_id.as_str(), &url) {
            Ok(builder) => builder.build().ok(),
            Err(_) => None,
        },
        Err(_) => None,
    }
}

/// Relies on serde_json::from_str for AttestedPasskey: decodes one stored
/// credential from its serialized form; the decode is a function of the
/// string alone.
#[verifier::external_body]
fn parse_attested_passkey(encoded: &String) -> (r: Result<AttestedPasskey, serde_json::Error>)
    ensures
        r is Ok <==> parses_attested(encoded@),
{
    serde_json::from_str(encoded.as_str())
}

/// Relies on Webauthn::start_attested_passkey_authentication: draws a
/// fresh random challenge for the given credentials and returns it with
/// the matching server-side state. The challenge is random: two calls on
/// the same keys differ. It always returns the pair: with the fixed
/// verification policy the challenge builder has no error path, and a
/// [`RelyingParty`] engine carries the default authenticator timeout, so
/// the timeout conversion inside challenge generation cannot fail.
#[verifier::external_body]
fn engine_start(party: &RelyingParty, keys: &Vec<AttestedPasskey>) -> (r: Result<
    (RequestChallengeResponse, AttestedPasskeyAuthentication),
    WebauthnError,
>)
    ensures
        r is Ok,
{
    party.webauthn.start_attested_passkey_authentication(keys.as_slice())
}

/// Relies on Webauthn::finish_attested_passkey_authentication: verifies
/// the signed assertion against the state's challenge and the known
/// public keys; fails on any mismatch.
#[verifier::external_body]
fn engine_finish(
    party: &RelyingParty,
    response: &PublicKeyCredential,
    state: &AttestedPasskeyAuthentication,
) -> (r: Result<AuthenticationResult, WebauthnError>) {
    party.webauthn.finish_attested_passkey_authentication(response, state)
}

/// Relies on AuthenticationResult::cred_id: reads the credential id that
/// was used to authenticate, as plain bytes.
#[verifier::external_body]
fn auth_result_cred_id(result: &AuthenticationResult) -> (r: Vec<u8>) {
    result.cred_id().as_ref().to_vec()
}

/// Constructs the relying-party engine from its plain configuration:
/// succeeds for exactly the (rp id, origin) pairs the ceremony library
/// accepts.
pub fn new_engine(rp_id: &String, origin: &String) -> (r: Result<RelyingParty, AuthError>)
    ensures
        r is Ok <==> rp_config_ok(rp_id@, origin@),
        r is Err ==> r->Err_0 == AuthError::EngineFailure,
{
    match build_engine(rp_id, origin) {
        Some(webauthn) => Ok(RelyingParty { webauthn: webauthn }),
        None => Err(AuthError::EngineFailure),
    }
}

/// Decodes a whole list of stored credentials: succeeds exactly when
/// every row decodes; one bad row spoils the batch.
pub fn parse_attested_keys(encodings: &Vec<String>) -> (r: Result<Vec<AttestedPasskey>, AuthError>)
    ensures
        r is Ok <==> (forall|i: int|
            0 <= i < encodings@.len() ==> parses_attested(#[trigger] encodings@[i]@)),
        r matches Ok(keys) ==> keys@.len() == encodings@.len(),
        r is Err ==> r->Err_0 == AuthError::CorruptKey,
{
    let n = encodings.len();
    let mut keys: Vec<AttestedPasskey> = Vec::new();
    let mut i: usize = 0;
    while i < n
        invariant
            n == encodings@.len(),
            0 <= i <= n,
            keys@.len() == i,
            forall|j: int| 0 <= j < i ==> parses_attested(#[trigger] encodings@[j]@),
        decreases n - i,
    {
        match parse_attested_passkey(&encodings[i]) {
            Ok(key) => keys.push(key),
            Err(_) => {
                proof {
                    assert(!parses_attested(encodings@[i as int]@));
                }
                return Err(AuthError::CorruptKey);
            },
        }
        i = i + 1;
    }
    Ok(keys)
}

/// Starts the ceremony over the given credentials: the challenge goes to
/// the browser, the state into the session. For an engine of this
/// library, starting cannot fail.
pub fn start_ceremony(party: &RelyingParty, keys: &Vec<AttestedPasskey>) -> (r: (
    RequestChallengeResponse,
    AttestedPasskeyAuthentication,
)) {
    match engine_start(party, keys) {
        Ok(pair) => pair,
        Err(_) => vstd::pervasive::unreached(),
    }
}

/// Verifies the browser's assertion against the stored state and returns
/// the credential id that signed it.
pub fn finish_ceremony(
    party: &RelyingParty,
    response: &PublicKeyCredential,
    state: &AttestedPasskeyAuthentication,
) -> (r: Result<Vec<u8>, AuthError>)
    ensures
        r is Err ==> r->Err_0 == AuthError::EngineFailure,
{
    match engine_finish(party, response, state) {
        Ok(result) => Ok(auth_result_cred_id(&result)),
        Err(_) => Err(AuthError::EngineFailure),
    }
}

} // verus!
