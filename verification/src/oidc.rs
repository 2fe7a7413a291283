//! The OpenID Connect client side of the login service.
//!
//! "Start" draws the three per-login secrets (PKCE verifier, anti-forgery
//! state, nonce), stashes them in the session and builds the provider's
//! authorization URL. "Finish" first checks the returned state against the
//! stashed one — only then may the authorization code be exchanged — and
//! hands the exchange to the unverified boundary as one explicit action.
//! Provider discovery and the exchange itself are outbound HTTP and live
//! outside this crate; their verified outcome comes back as a plain event.

use vstd::prelude::*;

use openidconnect::{CsrfToken, Nonce, PkceCodeChallenge};
use url::Url;

use crate::error::AuthError;

verus! {

/// The client configuration left over from provider discovery: where to
/// send the browser, and how this relying party identifies itself.
#[derive(Debug)]
pub struct OidcConfig {
    /// The provider's authorization endpoint.
    pub auth_endpoint: String,
    /// This relying party's client id at the provider.
    pub client_id: String,
    /// Where the provider sends the browser back to.
    pub redirect_url: String,
}

/// The three per-login secrets stashed in the session at "start" and
/// consumed at "finish".
#[derive(Debug)]
pub struct OidcSessionState {
    /// Anti-forgery token; the provider echoes it back via the browser.
    pub csrf_token: String,
    /// The PKCE code verifier; sent with the code exchange only.
    pub pkce_code_verifier: String,
    /// Bound into the identity token by the provider.
    pub nonce: String,
}

/// What the browser brings back from the provider.
#[derive(Debug)]
pub struct OidcRequestState {
    /// The authorization code to exchange.
    pub code: String,
    /// The echoed anti-forgery token.
    pub state: String,
}

/// The one action the unverified boundary may perform for a finish call:
/// exchange this code, bound to this verifier, and verify the identity
/// token against this nonce.
#[derive(Debug)]
pub struct CodeExchange {
    /// The authorization code.
    pub code: String,
    /// The PKCE code verifier drawn at start.
    pub pkce_verifier: String,
    /// The nonce drawn at start.
    pub nonce: String,
}

/// What came back from performing a [`CodeExchange`].
#[derive(Debug)]
pub enum ExchangeOutcome {
    /// The token endpoint answered and every check on the identity token
    /// passed: these are the verified issuer and subject claims.
    Verified {
        /// The issuer claim.
        issuer: String,
        /// The subject claim.
        subject: String,
    },
    /// The exchange or a token check failed. `server_side` tells a fault
    /// of the provider from a rejected or tampered flow.
    Rejected {
        /// True when the provider itself answered with a server fault.
        server_side: bool,
    },
}

/// What URL the `url` crate builds from a base and a list of query pairs:
/// a function of the two arguments alone.
pub uninterp spec fn url_with_params(base: Seq<char>, params: Seq<(Seq<char>, Seq<char>)>) -> Seq<
    char,
>;

/// Whether the `url` crate parses this string as an absolute URL: a
/// function of the string alone, and exactly the condition under which a
/// query can be appended to it.
pub uninterp spec fn url_parse_ok(base: Seq<char>) -> bool;

/// The SHA-256 PKCE challenge the `oauth2` crate derives from a code
/// verifier: a function of the verifier alone.
pub uninterp spec fn pkce_challenge_of(verifier: Seq<char>) -> Seq<char>;

/// The views of a list of query pairs.
pub open spec fn params_view(params: Seq<(String, String)>) -> Seq<(Seq<char>, Seq<char>)> {
    params.map_values(|p: (String, String)| (p.0@, p.1@))
}

/// The query pairs of an authorization request, in order.
pub open spec fn oidc_auth_params(
    client_id: Seq<char>,
    redirect_url: Seq<char>,
    challenge: Seq<char>,
    csrf: Seq<char>,
    nonce: Seq<char>,
) -> Seq<(Seq<char>, Seq<char>)> {
    seq![
        ("response_type"@, "code"@),
        ("client_id"@, client_id),
        ("redirect_uri"@, redirect_url),
        ("scope"@, "openid profile email"@),
        ("code_challenge"@, challenge),
        ("code_challenge_method"@, "S256"@),
        ("state"@, csrf),
        ("nonce"@, nonce),
    ]
}

/// Relies on Url::parse_with_params: parses the base URL and appends each
/// pair to its query. It fails exactly when the base fails to parse —
/// appending encoded pairs cannot fail — and the result depends on the
/// arguments alone.
#[verifier::external_body]
fn url_query(base: &String, params: &Vec<(String, String)>) -> (r: Result<
    String,
    url::ParseError,
>)
    ensures
        r is Ok <==> url_parse_ok(base@),
        r matches Ok(url) ==> url@ == url_with_params(base@, params_view(params@)),
{
    match Url::parse_with_params(base.as_str(), params) {
        Ok(url) => Ok(String::from(url)),
        Err(error) => Err(error),
    }
}

/// Relies on CsrfToken::new_random: a fresh random anti-forgery token.
/// Nothing holds of the value: two calls differ.
#[verifier::external_body]
fn new_csrf_token() -> (r: String) {
    CsrfToken::new_random().secret().clone()
}

/// Relies on Nonce::new_random: a fresh random nonce. Nothing holds of
/// the value: two calls differ.
#[verifier::external_body]
fn new_nonce() -> (r: String) {
    Nonce::new_random().secret().clone()
}

/// Relies on PkceCodeChallenge::new_random_sha256: a fresh random code
/// verifier and its hashed challenge, as (challenge, verifier). The
/// verifier is random — two calls differ — but the challenge is the
/// SHA-256 derivation from that verifier and nothing else.
#[verifier::external_body]
fn new_pkce_pair() -> (r: (String, String))
    ensures
        r.0@ == pkce_challenge_of(r.1@),
{
    let (challenge, verifier) = PkceCodeChallenge::new_random_sha256();
    (challenge.as_str().to_string(), verifier.secret().clone())
}

/// A started login: the URL is the authorization query of this client,
/// carrying the challenge derived from the very code verifier the session
/// state holds — never the verifier itself — together with exactly the
/// state's anti-forgery token and nonce.
pub open spec fn begin_login_ok(config: OidcConfig, url: String, state: OidcSessionState) -> bool {
    url@ == url_with_params(
        config.auth_endpoint@,
        oidc_auth_params(
            config.client_id@,
            config.redirect_url@,
            pkce_challenge_of(state.pkce_code_verifier@),
            state.csrf_token@,
            state.nonce@,
        ),
    )
}

/// Draws the three per-login secrets and builds the authorization URL to
/// redirect the browser to. The URL carries exactly the authorization
/// query of this client with the fresh challenge, state and nonce; the
/// returned session state holds the matching secrets.
pub fn begin_login(config: &OidcConfig) -> (r: Result<(String, OidcSessionState), AuthError>)
    ensures
        r is Ok <==> url_parse_ok(config.auth_endpoint@),
        r is Ok ==> begin_login_ok(*config, r->Ok_0.0, r->Ok_0.1),
        r is Err ==> r->Err_0 == AuthError::EngineFailure,
{
    let (challenge, verifier) = new_pkce_pair();
    let csrf = new_csrf_token();
    let nonce = new_nonce();
    let mut params: Vec<(String, String)> = Vec::new();
    params.push(("response_type".to_owned(), "code".to_owned()));
    params.push(("client_id".to_owned(), config.client_id.clone()));
    params.push(("redirect_uri".to_owned(), config.redirect_url.clone()));
    params.push(("scope".to_owned(), "openid profile email".to_owned()));
    params.push(("code_challenge".to_owned(), challenge.clone()));
    params.push(("code_challenge_method".to_owned(), "S256".to_owned()));
    params.push(("state".to_owned(), csrf.clone()));
    params.push(("nonce".to_owned(), nonce.clone()));
    let url = match url_query(&config.auth_endpoint, &params) {
        Ok(url) => url,
        Err(_) => {
            return Err(AuthError::EngineFailure);
        },
    };
    let state = OidcSessionState { csrf_token: csrf, pkce_code_verifier: verifier, nonce: nonce };
    proof {
        let view = params_view(params@);
        let want = oidc_auth_params(
            config.client_id@,
            config.redirect_url@,
            pkce_challenge_of(state.pkce_code_verifier@),
            state.csrf_token@,
            state.nonce@,
        );
        assert(challenge@ == pkce_challenge_of(state.pkce_code_verifier@));
        assert(view.len() == 8);
        assert(view =~= want);
        assert(url@ == url_with_params(config.auth_endpoint@, want));
        assert(begin_login_ok(*config, url, state));
    }
    Ok((url, state))
}

/// What a finish request decides before anything leaves the server: a
/// missing (or consumed) session state fails; a state echo that differs
/// from the stashed token fails; only a matching echo yields the code
/// exchange to perform.
pub open spec fn oidc_prepare_outcome(session: OidcSessionState, request: OidcRequestState) -> Result<
    CodeExchange,
    AuthError,
> {
    if request.state@ != session.csrf_token@ {
        Err(AuthError::StateMismatch)
    } else {
        Ok(
            CodeExchange {
                code: request.code,
                pkce_verifier: session.pkce_code_verifier,
                nonce: session.nonce,
            },
        )
    }
}

} // verus!
