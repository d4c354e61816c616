use std::path::PathBuf;

use serde_json::Value;

use sessions::{
    decode_data, encode_data, generate_sid, load_session, session_from, verify_sid, CookieOptions, Data,
    FilesystemStore, MemoryStorage, Options, RedisStorage, RedisStore, Session, SessionError, Storage,
    Store, CHANGED, PURGED, RENEWED, UNCHANGED,
};

const TTL: u64 = 60;

fn open_store() -> Store<MemoryStorage, impl Fn() -> String, impl Fn(&str) -> bool> {
    Store::new(MemoryStorage::new(), generate_sid, |_: &str| true)
}

fn data_of(pairs: &[(&str, Value)]) -> Data {
    let mut d = Data::new();
    for (k, v) in pairs {
        d.insert(k.to_string(), v.clone());
    }
    d
}

#[test]
fn fresh_session_saved_and_loaded() {
    let mut store = open_store();
    let mut session = Session::load("abc".to_string(), Data::new());
    assert_eq!(session.set("count", 1).unwrap(), None);
    assert_eq!(session.get::<i32>("count"), Some(1));
    assert!(session.save(&mut store, TTL).is_ok());

    let loaded = store.get("abc").unwrap();
    assert_eq!(loaded.id(), "abc");
    assert_eq!(loaded.get::<i32>("count"), Some(1));
    assert_eq!(loaded.status(), UNCHANGED);

    let record = store.storage.get("abc").unwrap().unwrap();
    assert_eq!(record.get("count"), Some(&Value::from(1)));
}

#[test]
fn destroy_removes_the_record() {
    let mut store = open_store();
    let mut session = Session::load("abc".to_string(), Data::new());
    session.set("count", 1).unwrap();
    assert_eq!(session.status(), CHANGED);
    session.save(&mut store, TTL).unwrap();

    assert!(session.destroy(&mut store).is_ok());
    assert_eq!(session.status(), PURGED);
    assert!(session.data().is_empty());
    assert!(store.storage.get("abc").unwrap().is_none());

    let reloaded = store.get("abc").unwrap();
    assert_eq!(reloaded.id(), "");
    assert!(reloaded.data().is_empty());
}

#[test]
fn reads_see_the_last_write() {
    let mut s = Session::new(Data::new());
    s.set_value("a", Value::from(1));
    s.set_value("b", Value::from(2));
    s.set_value("a", Value::from(3));
    assert_eq!(s.get_value("a"), Some(Value::from(3)));
    s.remove("a");
    assert_eq!(s.get_value("a"), None);
    assert_eq!(s.get_value("b"), Some(Value::from(2)));
    s.set_value("a", Value::from(4));
    s.clear();
    assert_eq!(s.get_value("a"), None);
    assert_eq!(s.get_value("b"), None);
    s.set_value("b", Value::from(5));
    assert_eq!(s.get_value("b"), Some(Value::from(5)));
}

#[test]
fn purged_session_ignores_mutations() {
    let mut s = Session::new(Data::new());
    s.set_value("a", Value::from(1));
    s.purge();
    assert_eq!(s.status(), PURGED);
    assert_eq!(s.get_value("a"), None);
    assert_eq!(s.set_value("a", Value::from(2)), None);
    assert_eq!(s.set("b", 3).unwrap(), None);
    assert_eq!(s.remove("a"), None);
    s.clear();
    assert_eq!(s.get_value("a"), None);
    assert_eq!(s.get_value("b"), None);
    assert!(s.data().is_empty());
    assert_eq!(s.status(), PURGED);
    assert!(!s.needs_save());
}

#[test]
fn renew_twice_keeps_the_first_new_id() {
    let mut store = open_store();
    let mut s = Session::load("old-id".to_string(), data_of(&[("k", Value::from(1))]));
    s.save(&mut store, TTL).unwrap();
    store.storage.set("old-id", data_of(&[("k", Value::from(1))]), TTL).unwrap();

    assert!(s.renew(&mut store, TTL).is_ok());
    assert_eq!(s.status(), RENEWED);
    let first = s.id();
    assert_ne!(first, "old-id");
    assert!(s.data().is_empty());
    assert!(s.renew(&mut store, TTL).is_ok());
    assert_eq!(s.id(), first);
    assert!(store.storage.get("old-id").unwrap().is_none());
    assert!(store.storage.get(&first).unwrap().unwrap().is_empty());
}

#[test]
fn second_save_writes_nothing() {
    let mut store = open_store();
    let mut s = Session::load("abc".to_string(), Data::new());
    s.set("count", 1).unwrap();
    assert!(s.needs_save());
    s.save(&mut store, TTL).unwrap();
    assert!(!s.needs_save());
    // drop the record behind the session's back: a second save must not bring it back
    store.storage.remove("abc").unwrap();
    s.save(&mut store, TTL).unwrap();
    assert!(store.storage.get("abc").unwrap().is_none());
    // a mutation makes the next save write again
    s.set("count", 2).unwrap();
    s.save(&mut store, TTL).unwrap();
    assert_eq!(store.storage.get("abc").unwrap().unwrap().get("count"), Some(&Value::from(2)));
}

#[test]
fn save_assigns_an_id_when_there_is_none() {
    let mut store = open_store();
    let mut s = Session::new(Data::new());
    s.save(&mut store, TTL).unwrap();
    assert_eq!(s.id(), "");
    s.set("x", true).unwrap();
    s.save(&mut store, TTL).unwrap();
    assert!(verify_sid(&s.id()));
    assert!(store.storage.get(&s.id()).unwrap().is_some());
}

#[test]
fn renew_draws_an_id_other_than_the_current_one() {
    let mut store = Store::new(MemoryStorage::new(), || "same".to_string(), |_: &str| true);
    let mut s = Session::load("same".to_string(), data_of(&[("k", Value::from(1))]));
    s.set("k", 2).unwrap();
    match s.renew(&mut store, TTL) {
        Err(SessionError::RepeatedId) => {}
        _ => panic!("the generator only ever gives the current id"),
    }
    assert_eq!(s.status(), CHANGED);
    assert_eq!(s.id(), "same");
    assert_eq!(s.get_value("k"), Some(Value::from(2)));

    let mut fresh = Session::new(Data::new());
    assert!(fresh.renew(&mut store, TTL).is_ok());
    assert_eq!(fresh.id(), "same");
    assert_eq!(fresh.status(), RENEWED);
}

#[test]
fn set_on_a_purged_session_is_silently_dropped() {
    let mut s = Session::new(Data::new());
    s.purge();
    let mut m = std::collections::BTreeMap::new();
    m.insert((1, 2), 3);
    assert_eq!(s.set("bad", m).unwrap(), None);
    assert_eq!(s.get_value("bad"), None);
    s.purge();
    assert!(s.data().is_empty());
}

#[test]
fn default_close_succeeds_repeatedly() {
    let mut m = MemoryStorage::new();
    m.set("a", Data::new(), TTL).unwrap();
    assert!(m.close().is_ok());
    assert!(m.close().is_ok());
    assert!(m.get("a").unwrap().is_some());
}

#[test]
fn set_then_get_round_trips() {
    let mut s = Session::new(Data::new());
    assert_eq!(s.set("name", "Kobe".to_string()).unwrap(), None);
    assert_eq!(s.get::<String>("name"), Some("Kobe".to_string()));
    assert_eq!(s.set("list", vec![1u8, 2, 3]).unwrap(), None);
    assert_eq!(s.get::<Vec<u8>>("list"), Some(vec![1, 2, 3]));
    assert_eq!(s.set("name", "Jordan".to_string()).unwrap(), Some("Kobe".to_string()));
    // a value of another type reads as absent
    assert_eq!(s.get::<u32>("name"), None);
}

#[test]
fn set_of_an_unencodable_value_fails() {
    let mut s = Session::new(Data::new());
    let mut m = std::collections::BTreeMap::new();
    m.insert((1, 2), 3);
    match s.set("bad", m) {
        Err(e) => assert!(e.is_serialization() && !e.is_storage()),
        Ok(_) => panic!("a map with tuple keys has no JSON form"),
    }
    assert_eq!(s.status(), UNCHANGED);
    assert_eq!(s.get_value("bad"), None);
    let e = SessionError::Storage("down".to_string());
    assert!(e.is_storage());
}

#[test]
fn expired_record_reads_absent() {
    let mut m = MemoryStorage::new();
    m.set_at("k", data_of(&[("a", Value::from(1))]), 0, 1000);
    assert!(m.get_at("k", 1000).is_some());
    assert!(m.get_at("k", 1001).is_none());
    // dropped: no later read brings it back
    assert!(m.get_at("k", 1000).is_none());

    m.set_at("k", Data::new(), 2, 1000);
    assert!(m.get_at("k", 3000).is_some());
    assert!(m.get_at("k", 3001).is_none());
}

#[test]
fn memory_storage_operations() {
    let mut m = MemoryStorage::new();
    m.set("a", data_of(&[("x", Value::from(1))]), TTL).unwrap();
    m.set("b", Data::new(), TTL).unwrap();
    assert_eq!(m.get("a").unwrap().unwrap().get("x"), Some(&Value::from(1)));
    m.remove("a").unwrap();
    assert!(m.get("a").unwrap().is_none());
    m.remove("a").unwrap();
    assert!(m.get("b").unwrap().is_some());
    m.reset().unwrap();
    assert!(m.get("b").unwrap().is_none());
    m.close().unwrap();
}

#[test]
fn store_rejects_ill_formed_ids() {
    let mut store = Store::new(MemoryStorage::new(), generate_sid, verify_sid);
    store.storage.set("abc", data_of(&[("a", Value::from(1))]), TTL).unwrap();
    let s = store.get("abc").unwrap();
    assert_eq!(s.id(), "");
    assert!(s.data().is_empty());
    // the record is still there
    assert!(store.storage.get("abc").unwrap().is_some());
}

#[test]
fn data_map_operations() {
    let mut d = Data::new();
    assert!(d.is_empty());
    assert_eq!(d.insert("a".to_string(), Value::from(1)), None);
    assert_eq!(d.insert("b".to_string(), Value::from(2)), None);
    assert_eq!(d.insert("a".to_string(), Value::from(3)), Some(Value::from(1)));
    assert_eq!(d.len(), 2);
    assert!(d.contains_key("b"));
    assert_eq!(d.remove("b"), Some(Value::from(2)));
    assert_eq!(d.remove("b"), None);
    assert_eq!(d.len(), 1);
    let copy = d.snapshot();
    d.clear();
    assert!(d.is_empty());
    assert_eq!(copy.get("a"), Some(&Value::from(3)));
    let mut m = serde_json::Map::new();
    m.insert("k".to_string(), Value::from(1));
    m.insert("k".to_string(), Value::from(2));
    let built = Data::from_map(m);
    assert_eq!(built.len(), 1);
    assert_eq!(built.get("k"), Some(&Value::from(2)));
    assert_eq!(built.as_map().get("k"), Some(&Value::from(2)));
}

#[test]
fn codec_round_trip() {
    let d = data_of(&[("b", Value::from(2)), ("a", Value::from("x"))]);
    let bytes = encode_data(&d).unwrap();
    assert_eq!(bytes, br#"{"a":"x","b":2}"#.to_vec());
    let back = decode_data(&bytes).unwrap();
    assert_eq!(back.len(), 2);
    assert_eq!(back.get("a"), Some(&Value::from("x")));
    assert!(decode_data(b"[1,2]").is_none());
    assert!(decode_data(b"not json").is_none());
    assert!(decode_data(b"{}").unwrap().is_empty());
}

#[test]
fn load_session_from_bytes() {
    let sid = generate_sid();
    let s = load_session(&sid, Some(br#"{"n":1}"#));
    assert_eq!(s.id(), sid);
    assert_eq!(s.get::<i32>("n"), Some(1));
    assert_eq!(s.status(), UNCHANGED);

    let short = load_session(&sid, Some(b"{"));
    assert_eq!(short.id(), "");
    let bad = load_session(&sid, Some(b"[]"));
    assert_eq!(bad.id(), "");
    let none = load_session(&sid, None);
    assert_eq!(none.id(), "");
    let ill_formed = load_session("abc", Some(br#"{"n":1}"#));
    assert_eq!(ill_formed.id(), "");
    assert!(ill_formed.data().is_empty());

    let found = session_from("abc", Some(data_of(&[("n", Value::from(1))])));
    assert_eq!(found.id(), "abc");
    let missing = session_from("abc", None);
    assert_eq!(missing.id(), "");
}

#[test]
fn session_ids() {
    let id = generate_sid();
    assert_eq!(id.len(), 32);
    assert!(verify_sid(&id));
    assert_ne!(generate_sid(), id);
    assert!(verify_sid("abcdefghijklmnopqrstuvwxyz_-0129"));
    assert!(!verify_sid("abcdefghijklmnopqrstuvwxyz_-012"));
    assert!(!verify_sid("abcdefghijklmnopqrstuvwxyz_-01234"));
    assert!(!verify_sid("abcdefghijklmnopqrstuvwxyz_-01!3"));
    assert!(!verify_sid("abcdefghijklmnopqrstuvwxyz_-01é"));
    assert!(!verify_sid(""));
}

#[test]
fn backend_handles() {
    let fs = FilesystemStore::new(PathBuf::from("target/sessions"));
    assert_eq!(fs.path(), &PathBuf::from("target/sessions"));

    let redis = RedisStorage::new(7u8);
    assert_eq!(*redis.get_ref(), 7);

    let store = RedisStore::new("client", "session:id:", 60);
    assert_eq!(store.prefix(), "session:id:");
    assert_eq!(store.max_age(), 60);
    assert_eq!(*store.client(), "client");
    assert_eq!(store.key("abc"), "session:id:abc");
    assert_eq!(store.expiry(), Some(60));
    assert_eq!(RedisStore::new((), "", 0).expiry(), None);
}

#[test]
fn option_defaults() {
    let c = CookieOptions::new();
    assert_eq!(c.name, "viz.sid");
    assert_eq!(c.path, "/");
    assert_eq!(c.max_age, 86400);
    assert!(c.domain.is_none() && c.secure.is_none() && c.http_only.is_none() && c.same_site.is_none());
    let c = CookieOptions::default()
        .with_name("sid".to_string())
        .with_path("/app".to_string())
        .with_domain("example.com".to_string())
        .with_max_age(10)
        .with_secure(true)
        .with_http_only(false)
        .with_same_site(cookie::SameSite::Lax);
    assert_eq!(c.name, "sid");
    assert_eq!(c.path, "/app");
    assert_eq!(c.domain.as_deref(), Some("example.com"));
    assert_eq!(c.max_age, 10);
    assert_eq!(c.secure, Some(true));
    assert_eq!(c.http_only, Some(false));
    assert_eq!(c.same_site, Some(cookie::SameSite::Lax));

    let o = Options::default();
    assert_eq!(o.prefix, "");
    assert_eq!(o.name, "session.id");
    assert_eq!(o.path, "/");
    assert_eq!(o.domain, "");
    assert_eq!(o.max_age, 60 * 60 * 24 * 7 * 2);
    assert!(o.secure && o.http_only);
}
