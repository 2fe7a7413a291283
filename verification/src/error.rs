//! Error taxonomy of the login service.
//!
//! Failures fall into three classes: client errors (bad or stale input,
//! safe to show to the caller), unauthorized (no logged-in session) and
//! server errors (infrastructure or configuration faults, surfaced
//! uniformly so that no implementation detail leaks).

use vstd::prelude::*;

verus! {

/// Http status codes available to a handler error.
#[derive(Debug, Copy, Clone, PartialEq, Eq, Structural)]
pub enum ApiErrorStatusCode {
    BadRequest,
    ServerError,
    Unauthorized,
}

impl ApiErrorStatusCode {
    /// Converts the status code into the numeric code that http uses.
    pub fn to_http(&self) -> (code: u16)
        ensures
            code == self.spec_http(),
    {
        match self {
            ApiErrorStatusCode::BadRequest => 400,
            ApiErrorStatusCode::ServerError => 500,
            ApiErrorStatusCode::Unauthorized => 401,
        }
    }

    /// The numeric http code of each status.
    pub open spec fn spec_http(self) -> u16 {
        match self {
            ApiErrorStatusCode::BadRequest => 400u16,
            ApiErrorStatusCode::ServerError => 500u16,
            ApiErrorStatusCode::Unauthorized => 401u16,
        }
    }

    /// All available status codes, each exactly once.
    pub fn all() -> (codes: Vec<ApiErrorStatusCode>)
        ensures
            codes@ == seq![
                ApiErrorStatusCode::BadRequest,
                ApiErrorStatusCode::ServerError,
                ApiErrorStatusCode::Unauthorized,
            ],
    {
        let mut codes: Vec<ApiErrorStatusCode> = Vec::new();
        codes.push(ApiErrorStatusCode::BadRequest);
        codes.push(ApiErrorStatusCode::ServerError);
        codes.push(ApiErrorStatusCode::Unauthorized);
        proof {
            assert(codes@ =~= seq![
                ApiErrorStatusCode::BadRequest,
                ApiErrorStatusCode::ServerError,
                ApiErrorStatusCode::Unauthorized,
            ]);
        }
        codes
    }
}

/// Every failure an authentication flow can report.
///
/// All identifier and credential mismatches share the single variant
/// `BadCredentials`: the flows deliberately answer "account not found",
/// "not a local account", "no password set" and "wrong password" with one
/// and the same value, so that a caller cannot probe which part of the
/// check failed (enumeration resistance).
#[derive(Debug, Copy, Clone, PartialEq, Eq, Structural)]
pub enum AuthError {
    /// Unknown identifier, account of the wrong kind, or a credential that
    /// does not match. One uniform value for all of them.
    BadCredentials,
    /// A finish call arrived with no (or an already consumed) challenge
    /// state in the session.
    NoOngoingChallenge,
    /// The anti-forgery state returned by the browser differs from the one
    /// stored at the start of the flow.
    StateMismatch,
    /// The session carries no logged-in account.
    NotLoggedIn,
    /// Removing the password would leave the account without any usable
    /// login method.
    NoOtherLoginMethod,
    /// An account is linked to both, or to neither, of the local and
    /// federated credential tables.
    InvalidAccount,
    /// A submitted password exceeds the stored-password cap.
    PasswordTooLong,
    /// A value from the identity provider exceeds a storage cap.
    ValueTooLong,
    /// A stored credential could not be decoded.
    CorruptKey,
    /// An outside library refused the relying-party configuration, the
    /// authorization endpoint, or the ceremony response.
    EngineFailure,
    /// The identity provider rejected the code exchange or the token
    /// failed verification.
    ExchangeFailed,
    /// The identity provider answered with a server-side fault.
    ProviderError,
    /// A freshly drawn id or identifier collided with a stored row.
    StoreConflict,
}

impl AuthError {
    /// The status class of each failure: mismatched or stale input is a
    /// client error, a missing login is unauthorized, infrastructure and
    /// configuration faults are server errors.
    pub open spec fn spec_status_code(self) -> ApiErrorStatusCode {
        match self {
            AuthError::BadCredentials => ApiErrorStatusCode::BadRequest,
            AuthError::NoOngoingChallenge => ApiErrorStatusCode::BadRequest,
            AuthError::StateMismatch => ApiErrorStatusCode::Unauthorized,
            AuthError::NotLoggedIn => ApiErrorStatusCode::Unauthorized,
            AuthError::NoOtherLoginMethod => ApiErrorStatusCode::BadRequest,
            AuthError::InvalidAccount => ApiErrorStatusCode::ServerError,
            AuthError::PasswordTooLong => ApiErrorStatusCode::BadRequest,
            AuthError::ValueTooLong => ApiErrorStatusCode::ServerError,
            AuthError::CorruptKey => ApiErrorStatusCode::ServerError,
            AuthError::EngineFailure => ApiErrorStatusCode::ServerError,
            AuthError::ExchangeFailed => ApiErrorStatusCode::Unauthorized,
            AuthError::ProviderError => ApiErrorStatusCode::ServerError,
            AuthError::StoreConflict => ApiErrorStatusCode::ServerError,
        }
    }

    /// Maps the failure to its status class.
    pub fn status_code(&self) -> (code: ApiErrorStatusCode)
        ensures
            code == self.spec_status_code(),
    {
        match self {
            AuthError::BadCredentials => ApiErrorStatusCode::BadRequest,
            AuthError::NoOngoingChallenge => ApiErrorStatusCode::BadRequest,
            AuthError::StateMismatch => ApiErrorStatusCode::Unauthorized,
            AuthError::NotLoggedIn => ApiErrorStatusCode::Unauthorized,
            AuthError::NoOtherLoginMethod => ApiErrorStatusCode::BadRequest,
            AuthError::InvalidAccount => ApiErrorStatusCode::ServerError,
            AuthError::PasswordTooLong => ApiErrorStatusCode::BadRequest,
            AuthError::ValueTooLong => ApiErrorStatusCode::ServerError,
            AuthError::CorruptKey => ApiErrorStatusCode::ServerError,
            AuthError::EngineFailure => ApiErrorStatusCode::ServerError,
            AuthError::ExchangeFailed => ApiErrorStatusCode::Unauthorized,
            AuthError::ProviderError => ApiErrorStatusCode::ServerError,
            AuthError::StoreConflict => ApiErrorStatusCode::ServerError,
        }
    }

    /// The machine-readable tag of each failure.
    pub open spec fn spec_tag(self) -> Seq<char> {
        match self {
            AuthError::BadCredentials => "bad_credentials"@,
            AuthError::NoOngoingChallenge => "no_ongoing_challenge"@,
            AuthError::StateMismatch => "state_mismatch"@,
            AuthError::NotLoggedIn => "not_logged_in"@,
            AuthError::NoOtherLoginMethod => "no_other_login_method"@,
            AuthError::InvalidAccount => "invalid_account"@,
            AuthError::PasswordTooLong => "password_too_long"@,
            AuthError::ValueTooLong => "value_too_long"@,
            AuthError::CorruptKey => "corrupt_key"@,
            AuthError::EngineFailure => "engine_failure"@,
            AuthError::ExchangeFailed => "exchange_failed"@,
            AuthError::ProviderError => "provider_error"@,
            AuthError::StoreConflict => "store_conflict"@,
        }
    }

    /// A short machine-readable tag for the failure, for response bodies.
    pub fn tag(&self) -> (tag: &'static str)
        ensures
            tag@ == self.spec_tag(),
    {
        match self {
            AuthError::BadCredentials => "bad_credentials",
            AuthError::NoOngoingChallenge => "no_ongoing_challenge",
            AuthError::StateMismatch => "state_mismatch",
            AuthError::NotLoggedIn => "not_logged_in",
            AuthError::NoOtherLoginMethod => "no_other_login_method",
            AuthError::InvalidAccount => "invalid_account",
            AuthError::PasswordTooLong => "password_too_long",
            AuthError::ValueTooLong => "value_too_long",
            AuthError::CorruptKey => "corrupt_key",
            AuthError::EngineFailure => "engine_failure",
            AuthError::ExchangeFailed => "exchange_failed",
            AuthError::ProviderError => "provider_error",
            AuthError::StoreConflict => "store_conflict",
        }
    }
}

/// Top-level error of the server's start-up and serving path.
#[derive(Debug, Copy, Clone, PartialEq, Eq, Structural)]
pub enum GalvynError {
    /// A socket or file operation failed.
    Io,
    /// A module failed to initialize.
    Init,
}

/// Tracks whether any field of some form error `E` has been set.
pub struct FormErrors<E> {
    /// The wrapped form error.
    inner: E,
    /// Has any field been set? I.e., do we have an error to return?
    modified: bool,
}

impl<E: Default> FormErrors<E> {
    /// Constructs a new `FormErrors` with no field set yet.
    pub fn new() -> (errors: Self)
        ensures
            !errors.spec_modified(),
    {
        FormErrors { inner: E::default(), modified: false }
    }
}

impl<E> FormErrors<E> {
    /// Whether any field has been set.
    pub closed spec fn spec_modified(self) -> bool {
        self.modified
    }

    /// The wrapped form error.
    pub closed spec fn spec_inner(self) -> E {
        self.inner
    }

    /// Grants write access to the wrapped error and records that a field
    /// may have been set.
    pub fn modify(&mut self) -> (inner: &mut E)
        ensures
            final(self).spec_modified(),
            *inner == old(self).spec_inner(),
            final(self).spec_inner() == *final(inner),
    {
        self.modified = true;
        &mut self.inner
    }

    /// Checks whether any field has been set and returns the error if so.
    pub fn check(self) -> (r: Result<(), E>)
        ensures
            r is Err <==> self.spec_modified(),
            r is Err ==> r->Err_0 == self.spec_inner(),
    {
        if self.modified {
            Err(self.inner)
        } else {
            Ok(())
        }
    }

    /// Returns the wrapped error unconditionally.
    pub fn fail(self) -> (r: Result<(), E>)
        ensures
            r == Result::<(), E>::Err(self.spec_inner()),
    {
        Err(self.inner)
    }
}

} // verus!
