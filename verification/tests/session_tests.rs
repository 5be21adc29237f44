use std::collections::HashMap;

use salvo_extra::cookie_out::{SameSitePolicy, SessionCookie};
use salvo_extra::handler::{EndAction, HandlerBuilder, SessionHandler, DEFAULT_TTL_SECS};
use salvo_extra::session::{Session, SessionDepot};

const SECRET: &[u8] = b"secretabsecretabsecretabsecretabsecretabsecretabsecretabsecretab";
const OLD_SECRET: &[u8] = b"previouspreviouspreviouspreviouspreviouspreviouspreviousprevious";

#[test]
fn test_session_data() {
    let handler = SessionHandler::builder(
        b"secretabsecretabsecretabsecretabsecretabsecretabsecretabsecretab",
    )
    .cookie_domain("test.domain")
    .cookie_name("test_cookie")
    .cookie_path("/abc")
    .same_site_policy(SameSitePolicy::Strict)
    .session_ttl(Some(30))
    .build()
    .unwrap();
    assert_eq!(handler.cookie_domain(), Some(&"test.domain".to_string()));
    assert_eq!(handler.cookie_name(), "test_cookie");
    assert_eq!(handler.cookie_path(), "/abc");
    assert_eq!(handler.same_site_policy(), SameSitePolicy::Strict);
    assert_eq!(handler.session_ttl(), Some(30));
}

#[test]
fn test_builder_defaults() {
    let handler = HandlerBuilder::new(SECRET).build().unwrap();
    assert_eq!(handler.cookie_name(), "salvo.sid");
    assert_eq!(handler.cookie_path(), "/");
    assert_eq!(handler.cookie_domain(), None);
    assert_eq!(handler.session_ttl(), Some(DEFAULT_TTL_SECS));
    assert!(handler.save_unchanged());
    assert_eq!(handler.same_site_policy(), SameSitePolicy::Lax);
}

#[test]
fn test_builder_rejects_short_secrets() {
    assert!(HandlerBuilder::new(b"too short").build().is_err());
    assert!(HandlerBuilder::new(SECRET).add_fallback_key(b"short").build().is_err());
    assert!(HandlerBuilder::new(SECRET).add_fallback_key(OLD_SECRET).build().is_ok());
}

#[test]
fn test_session_data_operations() {
    let mut s = Session::new(b"sid-1".to_vec());
    assert_eq!(s.id(), b"sid-1");
    assert!(!s.data_changed());
    assert_eq!(s.get("username"), None);

    s.insert("username".to_string(), "salvo".to_string());
    assert!(s.data_changed());
    assert_eq!(s.get("username"), Some("salvo".to_string()));
    assert_eq!(s.get("other"), None);

    s.insert("username".to_string(), "other".to_string());
    assert_eq!(s.get("username"), Some("other".to_string()));

    s.remove("username");
    assert_eq!(s.get("username"), None);
    assert!(s.data_changed());
}

#[test]
fn test_insert_same_value_not_a_change() {
    let mut s = Session::new(b"sid-2".to_vec());
    s.insert("k".to_string(), "v".to_string());
    assert!(s.data_changed());

    // a loaded session starts unchanged; rebinding the same value keeps it so
    s.reset_data_changed();
    s.insert("k".to_string(), "v".to_string());
    assert!(!s.data_changed());
    s.insert("k".to_string(), "w".to_string());
    assert!(s.data_changed());

    let mut fresh = Session::new(b"sid-5".to_vec());
    fresh.remove("absent");
    assert!(!fresh.data_changed(), "removing an absent key is not a change");
}

#[test]
fn test_expiry_validation() {
    let mut s = Session::new(b"sid-6".to_vec());
    s.expire_in(1000, 30);
    assert!(!s.is_expired(1030));
    assert!(s.is_expired(1031));
    let handler = HandlerBuilder::new(SECRET).build().unwrap();
    let expired = {
        let mut e = Session::new(b"old".to_vec());
        e.expire_in(0, 10);
        e
    };
    let replacement = handler.load_or_create(Some(expired), b"fresh".to_vec(), 100);
    assert_eq!(replacement.id(), b"fresh");
    let kept = {
        let mut k = Session::new(b"live".to_vec());
        k.expire_in(90, 20);
        k
    };
    let survived = handler.load_or_create(Some(kept), b"unused".to_vec(), 100);
    assert_eq!(survived.id(), b"live");
}

#[test]
fn test_destroy_wins_over_change() {
    let handler = HandlerBuilder::new(SECRET).build().unwrap();
    let mut s = Session::new(b"sid-7".to_vec());
    s.insert("k".to_string(), "v".to_string());
    s.destroy();
    assert!(s.is_destroyed());
    assert_eq!(handler.end_decision(&s, false), EndAction::Destroy);
    assert_eq!(handler.end_decision(&s, true), EndAction::Skipped);
}

#[test]
fn test_end_decision_policies() {
    let saving = HandlerBuilder::new(SECRET).build().unwrap();
    let sparing = HandlerBuilder::new(SECRET).save_unchanged(false).build().unwrap();
    let untouched = Session::new(b"sid-8".to_vec());
    assert_eq!(saving.end_decision(&untouched, false), EndAction::Persist);
    assert_eq!(sparing.end_decision(&untouched, false), EndAction::Unchanged);
    let mut touched = Session::new(b"sid-9".to_vec());
    touched.insert("k".to_string(), "v".to_string());
    assert_eq!(sparing.end_decision(&touched, false), EndAction::Persist);
}

#[test]
fn test_depot_slot() {
    let mut depot = SessionDepot::new();
    assert!(depot.session().is_none());
    depot.set_session(Session::new(b"sid-10".to_vec()));
    assert!(depot.session().is_some());
    let taken = depot.take_session().unwrap();
    assert_eq!(taken.id(), b"sid-10");
    assert!(depot.session().is_none());
    assert!(depot.take_session().is_none());
}

// One request through the decision functions, as the transport layer
// would drive them. The store is a plain map from identifier to the
// session's data, as a stand-in for any backing store.
struct TinyStore {
    rows: HashMap<Vec<u8>, Vec<(String, String)>>,
}

impl TinyStore {
    fn new() -> TinyStore {
        TinyStore { rows: HashMap::new() }
    }

    fn load(&self, id: &[u8]) -> Option<Session> {
        self.rows.get(id).map(|data| {
            let mut s = Session::new(id.to_vec());
            for (k, v) in data {
                s.insert(k.clone(), v.clone());
            }
            s.reset_data_changed();
            s
        })
    }

    fn store(&mut self, session: &Session, keys: &[&str]) -> Option<Vec<u8>> {
        let mut data = Vec::new();
        for k in keys {
            if let Some(v) = session.get(k) {
                data.push((k.to_string(), v));
            }
        }
        self.rows.insert(session.id().to_vec(), data);
        Some(session.id().to_vec())
    }

    fn destroy(&mut self, session: &Session) {
        self.rows.remove(session.id());
    }
}

fn run_request(
    handler: &SessionHandler,
    store: &mut TinyStore,
    cookie: Option<&Vec<u8>>,
    fresh_id: &[u8],
    now: u64,
    mutate: impl FnOnce(&mut Session),
) -> Option<SessionCookie> {
    // begin: authenticate, load, fall back to a fresh session
    let identifier = handler.verified_identifier(cookie);
    let loaded = identifier.as_ref().and_then(|id| store.load(id));
    let mut session = handler.load_or_create(loaded, fresh_id.to_vec(), now);
    handler.refresh_expiry(&mut session, now);
    let mut depot = SessionDepot::new();
    depot.set_session(session);

    // the handler chain runs
    let mut session = depot.take_session().expect("session should exist in depot");
    mutate(&mut session);
    depot.set_session(session);

    // end: decide, then act on the store
    let session = depot.take_session().expect("session should exist in depot");
    match handler.end_decision(&session, false) {
        EndAction::Destroy => {
            store.destroy(&session);
            None
        }
        EndAction::Persist => store
            .store(&session, &["username"])
            .map(|token| handler.build_cookie(true, token, now)),
        EndAction::Skipped | EndAction::Unchanged => None,
    }
}

// A first request with no cookie gets a freshly signed session cookie
// under the default save-unchanged policy, and none when that policy is
// off and nothing changed.
#[test]
fn test_fresh_request_cookie_issue() {
    let handler = HandlerBuilder::new(SECRET).build().unwrap();
    let mut store = TinyStore::new();
    let cookie = run_request(&handler, &mut store, None, b"id-1", 1000, |_| {});
    let cookie = cookie.expect("save_unchanged issues a cookie");
    assert_eq!(cookie.name, "salvo.sid");
    assert!(cookie.http_only);
    assert!(cookie.secure);
    assert_eq!(cookie.expires, Some(1000 + DEFAULT_TTL_SECS));
    assert_eq!(handler.verify_signature(&cookie.value).unwrap(), b"id-1".to_vec());

    let sparing = HandlerBuilder::new(SECRET).save_unchanged(false).build().unwrap();
    let mut store2 = TinyStore::new();
    let none = run_request(&sparing, &mut store2, None, b"id-2", 1000, |_| {});
    assert!(none.is_none(), "unchanged session under save_unchanged = false sets no cookie");
}

// Data written by one request is observed by the next request that
// presents the issued cookie; destruction then yields a fresh session.
#[test]
fn test_session_login() {
    let handler = HandlerBuilder::new(SECRET).build().unwrap();
    let mut store = TinyStore::new();

    // log in: write the username
    let cookie = run_request(&handler, &mut store, None, b"id-a", 10, |s| {
        s.insert("username".to_string(), "salvo".to_string());
    })
    .unwrap();

    // revisit: the username is there
    let mut seen = None;
    let cookie2 = run_request(&handler, &mut store, Some(&cookie.value), b"id-b", 20, |s| {
        seen = s.get("username");
    })
    .unwrap();
    assert_eq!(seen, Some("salvo".to_string()));

    // log out: destroy the session
    let gone = run_request(&handler, &mut store, Some(&cookie2.value), b"id-c", 30, |s| {
        s.destroy();
    });
    assert!(gone.is_none(), "a destroyed session gets no replacement cookie here");

    // the next request with the stale cookie sees an empty, new session
    let mut seen_after = Some("sentinel".to_string());
    let mut observed_id = Vec::new();
    run_request(&handler, &mut store, Some(&cookie2.value), b"id-d", 40, |s| {
        seen_after = s.get("username");
        observed_id = s.id().to_vec();
    });
    assert_eq!(seen_after, None);
    assert_eq!(observed_id, b"id-d".to_vec(), "the store row is gone, so a fresh session runs");
}

// A cookie signed under a key that was rotated out entirely behaves
// exactly like no cookie at all.
#[test]
fn test_removed_key_like_no_cookie() {
    let old_handler = HandlerBuilder::new(OLD_SECRET).build().unwrap();
    let mut store = TinyStore::new();
    let old_cookie = run_request(&old_handler, &mut store, None, b"id-old", 5, |s| {
        s.insert("username".to_string(), "salvo".to_string());
    })
    .unwrap();

    // while the old key is a fallback, the session is still found
    let rotated = HandlerBuilder::new(SECRET).add_fallback_key(OLD_SECRET).build().unwrap();
    assert_eq!(
        rotated.verified_identifier(Some(&old_cookie.value)),
        Some(b"id-old".to_vec())
    );

    // once it is removed, the cookie counts for nothing
    let strict = HandlerBuilder::new(SECRET).build().unwrap();
    assert_eq!(strict.verified_identifier(Some(&old_cookie.value)), None);
    let mut observed_id = Vec::new();
    run_request(&strict, &mut store, Some(&old_cookie.value), b"id-new", 6, |s| {
        observed_id = s.id().to_vec();
    });
    assert_eq!(observed_id, b"id-new".to_vec());
}

// The cookie built for a store token carries the configured attributes.
#[test]
fn test_build_cookie_attributes() {
    let handler = SessionHandler::builder(SECRET)
        .cookie_name("app.sid")
        .cookie_path("/app")
        .cookie_domain("example.org")
        .same_site_policy(SameSitePolicy::NoRestriction)
        .session_ttl(None)
        .build()
        .unwrap();
    let cookie = handler.build_cookie(false, b"token-1".to_vec(), 777);
    assert_eq!(cookie.name, "app.sid");
    assert_eq!(cookie.path, "/app");
    assert_eq!(cookie.domain, Some("example.org".to_string()));
    assert_eq!(cookie.same_site, SameSitePolicy::NoRestriction);
    assert!(!cookie.secure);
    assert!(cookie.http_only);
    assert_eq!(cookie.expires, None, "no time-to-live, no cookie expiry");
    assert_eq!(handler.verify_signature(&cookie.value).unwrap(), b"token-1".to_vec());
}
