//! The framework-side pieces: errors, the route table, the session-row
//! store, settings, the module builder and the api-document helpers.

use galvyn_auth::error::{ApiErrorStatusCode, AuthError, FormErrors};
use galvyn_auth::galvyn::{send, GalvynSetup, ModuleBuilder};
use galvyn_auth::module::AuthHandler;
use galvyn_auth::openapi::{OpenapiBuilder, OpenapiMetadata};
use galvyn_auth::router::{GalvynRoute, GalvynRouter, HandlerMeta, HttpMethod};
use galvyn_auth::session::{RormStore, SessionData, SessionRecord};
use galvyn_auth::settings::{RegisterError, SetError, SettingsStore};
use galvyn_auth::timers::TimersState;

#[test]
fn status_codes_cover_the_three_classes() {
    let all = ApiErrorStatusCode::all();
    assert_eq!(all.len(), 3);
    assert_eq!(all[0].to_http(), 400);
    assert_eq!(all[1].to_http(), 500);
    assert_eq!(all[2].to_http(), 401);
}

#[test]
fn auth_errors_map_to_their_status_class() {
    assert_eq!(
        AuthError::BadCredentials.status_code(),
        ApiErrorStatusCode::BadRequest
    );
    assert_eq!(
        AuthError::NotLoggedIn.status_code(),
        ApiErrorStatusCode::Unauthorized
    );
    assert_eq!(
        AuthError::StateMismatch.status_code(),
        ApiErrorStatusCode::Unauthorized
    );
    assert_eq!(
        AuthError::NoOtherLoginMethod.status_code(),
        ApiErrorStatusCode::BadRequest
    );
    assert_eq!(
        AuthError::ProviderError.status_code(),
        ApiErrorStatusCode::ServerError
    );
    assert_eq!(AuthError::CorruptKey.tag(), "corrupt_key");
}

#[derive(Default, PartialEq, Debug)]
struct ProfileFormError {
    name: Option<String>,
}

#[test]
fn form_errors_track_modification() {
    let untouched: FormErrors<ProfileFormError> = FormErrors::new();
    assert_eq!(untouched.check(), Ok(()));

    let mut touched: FormErrors<ProfileFormError> = FormErrors::new();
    touched.modify().name = Some("missing".to_string());
    assert_eq!(
        touched.check(),
        Err(ProfileFormError {
            name: Some("missing".to_string())
        })
    );

    let failed: FormErrors<ProfileFormError> = FormErrors::new();
    assert!(failed.fail().is_err());
}

#[test]
fn route_table_lists_every_endpoint() {
    let router = AuthHandler {}.as_router();
    let routes = &router.routes;
    assert_eq!(routes.len(), 9);
    assert_eq!(routes[0].handler.method, HttpMethod::Get);
    assert_eq!(routes[0].path, "/login");
    assert_eq!(routes[6].handler.method, HttpMethod::Put);
    assert_eq!(routes[6].path, "/local/password");
    assert_eq!(routes[7].handler.method, HttpMethod::Delete);
    assert_eq!(routes[7].path, "/local/password");
    assert_eq!(routes[8].path, "/logout");
}

#[test]
fn routers_merge_in_order() {
    let a = GalvynRouter::new().handler(HandlerMeta {
        method: HttpMethod::Get,
        path: "/a".to_string(),
    });
    let b = GalvynRouter::new().handler(HandlerMeta {
        method: HttpMethod::Post,
        path: "/b".to_string(),
    });
    let merged = a.merge(b);
    assert_eq!(merged.routes.len(), 2);
    assert_eq!(merged.routes[0].path, "/a");
    assert_eq!(merged.routes[1].path, "/b");
}

#[test]
fn route_copies_its_handler_path() {
    let route = GalvynRoute::new(HandlerMeta {
        method: HttpMethod::Get,
        path: "/x".to_string(),
    });
    assert_eq!(route.path, "/x");
    assert_eq!(route.handler.path, "/x");
}

#[test]
fn session_store_create_save_load_delete() {
    let mut store = RormStore::new();
    let record = SessionRecord {
        id: 42,
        expires_at: 100,
        data: SessionData::new(),
    };
    assert!(store.create(record));
    // A second create under the same id is refused; the caller draws a
    // new id.
    let duplicate = SessionRecord {
        id: 42,
        expires_at: 200,
        data: SessionData::new(),
    };
    assert!(!store.create(duplicate));
    // Live before expiry, dead at and after it.
    assert!(store.load(42, 99).is_some());
    assert!(store.load(42, 100).is_none());
    assert!(store.load(7, 0).is_none());
    // Save overwrites in place.
    store.save(SessionRecord {
        id: 42,
        expires_at: 300,
        data: SessionData::new(),
    });
    assert_eq!(store.load(42, 250).unwrap().expires_at, 300);
    store.delete(42);
    assert!(store.load(42, 0).is_none());
}

#[test]
fn session_store_drops_expired_rows() {
    let mut store = RormStore::new();
    store.save(SessionRecord {
        id: 1,
        expires_at: 50,
        data: SessionData::new(),
    });
    store.save(SessionRecord {
        id: 2,
        expires_at: 150,
        data: SessionData::new(),
    });
    store.delete_expired(100);
    assert!(store.load(1, 0).is_none());
    assert!(store.load(2, 100).is_some());
}

#[test]
fn challenge_slots_are_single_use() {
    let mut session = SessionData::new();
    assert!(session.take_webauthn_challenge().is_none());
    assert!(session.take_oidc_state().is_none());
}

#[test]
fn settings_register_and_set() {
    let mut store = SettingsStore::new();
    let value = store
        .register("app.origin".to_string(), "\"https://rp.example\"".to_string())
        .expect("first registration should succeed");
    assert_eq!(value, "\"https://rp.example\"");
    assert_eq!(
        store.register("app.origin".to_string(), "\"other\"".to_string()),
        Err(RegisterError::DuplicateKey)
    );
    assert_eq!(
        store.register("k".repeat(256), "0".to_string()),
        Err(RegisterError::InvalidKey)
    );
    assert_eq!(
        store.set(&"app.origin".to_string(), "\"https://new.example\"".to_string()),
        Ok(())
    );
    assert_eq!(
        store.set(&"unknown".to_string(), "0".to_string()),
        Err(SetError::UnknownKey)
    );
}

#[test]
fn module_builder_keeps_registration_order() {
    let mut builder = ModuleBuilder::new(GalvynSetup::default());
    builder.register_module(3).register_module(1).register_module(2);
    assert_eq!(builder.modules, vec![3, 1, 2]);
    assert!(!builder.setup.disable_sessions);
    send(builder);
}

#[test]
fn openapi_metadata_merges_tags_without_duplicates() {
    let mut metadata = OpenapiMetadata::new();
    metadata.tags.push("auth".to_string());
    let mut other = OpenapiMetadata::new();
    other.tags.push("auth".to_string());
    other.tags.push("admin".to_string());
    metadata.merge(&other);
    assert_eq!(metadata.tags, vec!["auth".to_string(), "admin".to_string()]);
}

#[test]
fn openapi_builder_collects_pages() {
    let mut builder = OpenapiBuilder::new();
    assert!(builder.pages.is_none());
    builder.page(1).page(2);
    assert_eq!(builder.pages, Some(vec![1, 2]));
}

#[test]
fn timers_report_the_earliest_due_time() {
    let mut timers = TimersState::new();
    assert!(timers.next_time().is_none());
    timers.schedule_every(1, 60, 1000);
    timers.schedule_every(2, 10, 1000);
    timers.schedule_every(3, 3600, 1000);
    assert_eq!(timers.next_time(), Some(1010));
}

#[test]
fn nest_prefixes_routes() {
    let inner = GalvynRouter::new()
        .handler(HandlerMeta {
            method: HttpMethod::Get,
            path: "/list".to_string(),
        })
        .handler(HandlerMeta {
            method: HttpMethod::Get,
            path: "/".to_string(),
        });
    let outer = GalvynRouter::new()
        .handler(HandlerMeta {
            method: HttpMethod::Get,
            path: "/health".to_string(),
        })
        .nest(&"/api".to_string(), inner);
    assert_eq!(outer.routes.len(), 3);
    assert_eq!(outer.routes[0].path, "/health");
    assert_eq!(outer.routes[1].path, "/api/list");
    // The bare root route takes the prefix itself.
    assert_eq!(outer.routes[2].path, "/api");

    // A prefix ending in a slash swallows the route's leading slashes.
    let inner = GalvynRouter::new().handler(HandlerMeta {
        method: HttpMethod::Get,
        path: "//list".to_string(),
    });
    let outer = GalvynRouter::new().nest(&"/api/".to_string(), inner);
    assert_eq!(outer.routes[0].path, "/api/list");
}
