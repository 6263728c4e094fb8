use tower_sesh::middleware::{
    record_update, response_set_cookie, session_id_from_cookie_headers, split_semicolons,
    SessionCookie,
};
use tower_sesh::{
    Config, DateTime, Duration, Expires, Expiry, Id, MemoryStore, SameSite, Session, SessionUpdate,
};

#[derive(Debug, Clone)]
struct Record {
    foo: i32,
}

impl Expires for Record {}

type Store = MemoryStore<Record>;

/// One request through the session middleware: the session id is read from the `Cookie`
/// header, the handler runs and reports the update pending for the cookie, and the
/// response's `Set-Cookie` header is returned.
fn request(
    config: Config<'static>,
    cookie_header: Option<String>,
    store: Store,
    handler: fn(Session<Store>) -> (Store, Option<SessionUpdate>),
) -> (Option<String>, Store) {
    let headers: Vec<String> = cookie_header.into_iter().collect();
    let id = session_id_from_cookie_headers(&headers, config.name);
    let (store, recorded) = handler(Session::new(id, store));
    (response_set_cookie(config, recorded, id), store)
}

fn handler(session: Session<Store>) -> (Store, Option<SessionUpdate>) {
    let loaded = session.clone().load::<Record>();
    let pending = record_update(None, loaded.update);
    match loaded.result.unwrap() {
        Some(state) => {
            let saved = state.update(|data| data.foo += 1);
            let pending = record_update(pending, saved.update);
            match saved.result.unwrap() {
                Some(state) => (state.into_store(), pending),
                None => (Store::default(), pending),
            }
        },
        None => {
            let created = session.create(Record { foo: 42 });
            let pending = record_update(pending, created.update);
            (created.result.unwrap().into_store(), pending)
        },
    }
}

fn noop_handler(_session: Session<Store>) -> (Store, Option<SessionUpdate>) {
    (Store::default(), None)
}

#[test]
fn middleware_basic_service_test() {
    let (set_cookie, store) = request(Config::default(), None, Store::default(), handler);
    assert!(set_cookie.is_some());
    let (set_cookie, _) = request(Config::default(), set_cookie, store, noop_handler);
    assert!(set_cookie.is_none());
}

#[test]
fn middleware_bogus_cookie_test() {
    let (set_cookie, store) = request(Config::default(), None, Store::default(), handler);
    assert!(set_cookie.is_some());
    let (set_cookie, _) = request(Config::default(), Some("id=bogus".to_string()), store, handler);
    assert!(set_cookie.is_some());
}

#[test]
fn middleware_no_set_cookie_test() {
    let (set_cookie, _) = request(Config::default(), None, Store::default(), noop_handler);
    assert!(set_cookie.is_none());
}

#[test]
fn custom_config() {
    let config = Config {
        name: "my.sid",
        http_only: false,
        same_site: SameSite::Lax,
        secure: false,
        path: "/foo/bar",
        domain: Some("example.com"),
        always_set_expiry: Some(Expiry::OnInactivity(Duration::hours(2))),
    };
    let (set_cookie, store) = request(config, None, Store::default(), handler);
    let s = set_cookie.clone().unwrap();
    assert!(s.contains("my.sid="));
    assert!(s.contains("SameSite=Lax"));
    assert!(!s.contains("Secure"));
    assert!(s.contains("Path=/foo/bar"));
    assert!(s.contains("Domain=example.com"));
    assert!(!s.contains("HttpOnly"));

    let (set_cookie, _) = request(config, set_cookie, store, noop_handler);
    let s = set_cookie.unwrap();
    assert!(s.contains("Max-Age=7200"));
}

#[test]
fn default_config() {
    let default = Config {
        name: "id",
        http_only: true,
        same_site: SameSite::Strict,
        secure: true,
        path: "/",
        domain: None,
        always_set_expiry: None,
    };
    assert_eq!(default, Config::default());
}

#[test]
fn set_cookie_of_a_created_session_carries_its_id() {
    let (set_cookie, mut store) = request(Config::default(), None, Store::default(), handler);
    let s = set_cookie.unwrap();
    assert!(s.starts_with("id="));
    let id_text = s["id=".len()..].split(';').next().unwrap();
    let id = Id::from_str(id_text).unwrap();
    assert_eq!(tower_sesh::SessionStore::load(&mut store, &id).unwrap().unwrap().foo, 42);
    assert_eq!(s, format!("id={}; HttpOnly; SameSite=Strict; Secure; Path=/", id_text));
    // The next request with that cookie finds the session and updates it.
    let (set_cookie, mut store) = request(Config::default(), Some(s.clone()), store, handler);
    assert_eq!(set_cookie.unwrap(), s);
    assert_eq!(tower_sesh::SessionStore::load(&mut store, &id).unwrap().unwrap().foo, 43);
}

#[test]
fn unknown_session_cookie_is_removed() {
    let cookie = format!("id={}", Id(77).to_string());
    let (set_cookie, _) = request(Config::default(), Some(cookie), Store::default(), |session| {
        let loaded = session.load::<Record>();
        assert!(loaded.result.unwrap().is_none());
        (Store::default(), loaded.update)
    });
    let s = set_cookie.unwrap();
    assert!(s.starts_with(&format!("id={};", Id(77).to_string())));
    let max_age: i64 = s.split("Max-Age=").nth(1).unwrap().parse().unwrap();
    assert!(max_age < 0);
}

#[test]
fn cookie_lookup_takes_the_first_cookie_of_the_name() {
    let a = Id(1).to_string();
    let b = Id(2).to_string();
    let headers = vec![format!("other=x; id={}; id={}", a, b), format!("id={}", b)];
    assert_eq!(session_id_from_cookie_headers(&headers, "id"), Some(Id(1)));
    let headers = vec!["other=x".to_string(), format!(" id = {} ", b)];
    assert_eq!(session_id_from_cookie_headers(&headers, "id"), Some(Id(2)));
    let headers = vec![format!("id=bogus; id={}", a)];
    assert_eq!(session_id_from_cookie_headers(&headers, "id"), None);
    let headers: Vec<String> = vec![];
    assert_eq!(session_id_from_cookie_headers(&headers, "id"), None);
}

#[test]
fn split_keeps_empty_pieces() {
    assert_eq!(split_semicolons("a;;b;"), vec!["a", "", "b", ""]);
    assert_eq!(split_semicolons(""), vec![""]);
    assert_eq!(split_semicolons("é;ü"), vec!["é", "ü"]);
}

#[test]
fn max_age_of_each_expiry() {
    let config = Config::default();
    let now = DateTime::from_unix_timestamp(1_000_000).unwrap();
    let cookie = config.build_cookie_at(Some(Id(0)), Expiry::OnSessionEnd, now);
    assert_eq!(cookie.max_age, None);
    let cookie = config.build_cookie_at(None, Expiry::OnInactivity(Duration::minutes(5)), now);
    assert_eq!(cookie.max_age, Some(Duration::seconds(300)));
    assert_eq!(cookie.value, "");
    let later = DateTime::from_unix_timestamp(1_000_090).unwrap();
    let cookie = config.build_cookie_at(None, Expiry::AtDateTime(later), now);
    assert_eq!(cookie.max_age.unwrap().whole_seconds(), 90);
    assert!(cookie.header_value().ends_with("; Max-Age=90"));
}

#[test]
fn header_value_formats_every_attribute() {
    let cookie = SessionCookie {
        name: "sid",
        value: "v".to_string(),
        http_only: true,
        same_site: SameSite::Unrestricted,
        secure: false,
        path: "/p",
        domain: Some(".example.com"),
        max_age: Some(Duration::seconds(-5)),
    };
    assert_eq!(
        cookie.header_value(),
        "sid=v; HttpOnly; SameSite=None; Path=/p; Domain=example.com; Max-Age=-5"
    );
}

#[test]
fn session_cookie_sent_back_is_read_as_the_session() {
    let config = Config { name: "my.sid", ..Config::default() };
    let id = Id(-123_456_789_000_000_000_000);
    let now = DateTime::from_unix_timestamp(1_700_000_000).unwrap();
    let header = config
        .build_cookie_at(Some(id), Expiry::OnInactivity(Duration::hours(1)), now)
        .header_value();
    let pair = header.split(';').next().unwrap().to_string();
    assert_eq!(pair, format!("my.sid={}", id.to_string()));
    assert_eq!(session_id_from_cookie_headers(&vec![header.clone()], "my.sid"), Some(id));
    assert_eq!(session_id_from_cookie_headers(&vec![format!("  {}", pair)], "my.sid"), Some(id));
    assert_eq!(session_id_from_cookie_headers(&vec![pair], "sid"), None);
}
