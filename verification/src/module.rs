//! The authentication module: the state the handlers need, built once at
//! startup and passed into the request-handling layer explicitly.

use vstd::prelude::*;

use crate::error::AuthError;
use crate::oidc::OidcConfig;
use crate::router::{GalvynRouter, HandlerMeta, HttpMethod};
use crate::webauthn::{new_engine, rp_config_ok, RelyingParty};

verus! {

/// The setup options of the authentication module. There are none yet.
#[derive(Debug, Default)]
pub struct AuthSetup {}

/// The handler set of the authentication module; turns into the route
/// table below.
pub struct AuthHandler {}

/// The plain configuration the module is built from.
pub struct AuthConfig {
    /// The WebAuthn relying-party id (the effective domain).
    pub webauthn_id: String,
    /// The WebAuthn origin (the full url the browser sees).
    pub webauthn_origin: String,
    /// The OpenID Connect client configuration, as left by discovery.
    pub oidc: OidcConfig,
}

/// The state required by the authentication handlers: the ceremony
/// engine and the federated client configuration, both read-only after
/// construction.
pub struct AuthModule {
    /// The handler set, for building the route table.
    pub handler: AuthHandler,
    /// The WebAuthn relying-party engine.
    pub webauthn: RelyingParty,
    /// The OpenID Connect client configuration.
    pub oidc: OidcConfig,
}

impl AuthModule {
    /// Builds the module from its configuration: succeeds exactly when
    /// the ceremony library accepts the relying-party id and origin.
    pub fn build(config: AuthConfig) -> (r: Result<AuthModule, AuthError>)
        ensures
            r is Ok <==> rp_config_ok(config.webauthn_id@, config.webauthn_origin@),
            r matches Ok(module) ==> module.oidc == config.oidc,
            r is Err ==> r->Err_0 == AuthError::EngineFailure,
    {
        let webauthn = match new_engine(&config.webauthn_id, &config.webauthn_origin) {
            Ok(webauthn) => webauthn,
            Err(error) => {
                return Err(error);
            },
        };
        Ok(AuthModule { handler: AuthHandler {  }, webauthn: webauthn, oidc: config.oidc })
    }
}

impl AuthHandler {
    /// The route table of the authentication handlers: every endpoint of
    /// the module, each with its method and path.
    pub fn as_router(&self) -> (router: GalvynRouter)
        ensures
            router.routes@.len() == 9,
            router.routes@[0].handler.method == HttpMethod::Get && router.routes@[0].path@
                == "/login"@,
            router.routes@[1].handler.method == HttpMethod::Post && router.routes@[1].path@
                == "/login/oidc/start"@,
            router.routes@[2].handler.method == HttpMethod::Post && router.routes@[2].path@
                == "/login/oidc/finish"@,
            router.routes@[3].handler.method == HttpMethod::Post && router.routes@[3].path@
                == "/login/local/start-webauthn"@,
            router.routes@[4].handler.method == HttpMethod::Post && router.routes@[4].path@
                == "/login/local/finish-webauthn"@,
            router.routes@[5].handler.method == HttpMethod::Post && router.routes@[5].path@
                == "/login/local/password"@,
            router.routes@[6].handler.method == HttpMethod::Put && router.routes@[6].path@
                == "/local/password"@,
            router.routes@[7].handler.method == HttpMethod::Delete && router.routes@[7].path@
                == "/local/password"@,
            router.routes@[8].handler.method == HttpMethod::Post && router.routes@[8].path@
                == "/logout"@,
    {
        GalvynRouter::new().handler(
            HandlerMeta { method: HttpMethod::Get, path: "/login".to_owned() },
        ).handler(
            HandlerMeta { method: HttpMethod::Post, path: "/login/oidc/start".to_owned() },
        ).handler(
            HandlerMeta { method: HttpMethod::Post, path: "/login/oidc/finish".to_owned() },
        ).handler(
            HandlerMeta { method: HttpMethod::Post, path: "/login/local/start-webauthn".to_owned() },
        ).handler(
            HandlerMeta {
                method: HttpMethod::Post,
                path: "/login/local/finish-webauthn".to_owned(),
            },
        ).handler(
            HandlerMeta { method: HttpMethod::Post, path: "/login/local/password".to_owned() },
        ).handler(HandlerMeta { method: HttpMethod::Put, path: "/local/password".to_owned() },).handler(
            HandlerMeta { method: HttpMethod::Delete, path: "/local/password".to_owned() },
        ).handler(HandlerMeta { method: HttpMethod::Post, path: "/logout".to_owned() })
    }
}

} // verus!
