use serde_json::Value;

use sessions::{
    encode_data, generate_sid, verify_sid, CookieOptions, Data, MemoryStorage, Session, Store, CHANGED,
    PURGED, RENEWED, UNCHANGED,
};

fn memory_store() -> Store<MemoryStorage, fn() -> String, fn(&str) -> bool> {
    Store::new(MemoryStorage::new(), generate_sid as fn() -> String, verify_sid as fn(&str) -> bool)
}

fn state_json(session: &Session) -> String {
    String::from_utf8(encode_data(&session.data()).unwrap()).unwrap()
}

fn user(name: &str, no: u32) -> Value {
    let mut m = serde_json::Map::new();
    m.insert("name".to_owned(), Value::from(name));
    m.insert("no".to_owned(), Value::from(no));
    Value::Object(m)
}

#[test]
fn memory() {
    let mut config = Store::new(MemoryStorage::new(), generate_sid, |sid: &str| sid.len() == 32);

    let id = (config.generate)();

    assert!(id.len() == 32);
    assert!((config.verify)(&id));

    let mut session = Session::new(Data::new());
    assert!(session.status() == UNCHANGED);

    assert!(session.set::<String>("crate", "sessions".to_string()).is_ok());
    assert!(session.status() == CHANGED);

    assert_eq!(session.get::<String>("crate"), Some("sessions".to_string()));

    assert_eq!(session.remove("crate"), Some("sessions".into()));
    assert!(session.status() == CHANGED);

    assert_eq!(session.remove_as::<String>("crate"), None);
    assert!(session.status() == CHANGED);

    assert_eq!(session.get::<String>("crate"), None);

    session.clear();
    assert!(session.status() == CHANGED);
    session.clear();
    assert!(session.status() == CHANGED);

    let mut session = Session::new(Data::new());
    assert!(session.status() == UNCHANGED);

    let ttl = CookieOptions::new().max_age;
    assert!(session.renew(&mut config, ttl).is_ok());
    assert!(session.status() == RENEWED);

    session.purge();
    assert!(session.status() == PURGED);
}

#[test]
fn memory_session_in_memory() {
    let mut store = memory_store();
    let ttl = CookieOptions::new().max_age;
    let mut sids = Vec::new();

    for i in 0..10usize {
        let id = format!("trek-{}", i);
        let mut session = store.get(&id).unwrap();

        assert_eq!(session.id(), "".to_owned());
        assert_eq!(session.status(), UNCHANGED);

        assert_eq!(session.set::<usize>("counter", i).unwrap(), None);
        assert_eq!(session.set("number", 233).unwrap(), None);
        assert_eq!(session.get::<usize>("counter"), Some(i));
        assert_eq!(session.get::<u32>("number"), Some(233));
        assert_eq!(session.set("user", user("Jordan", 23)).unwrap(), None);
        assert_eq!(session.set("user", user("Kobe", 24)).unwrap(), Some(user("Jordan", 23)));
        assert_eq!(session.get::<Value>("user"), Some(user("Kobe", 24)));

        assert_eq!(
            state_json(&session),
            format!(r#"{{"counter":{},"number":233,"user":{{"name":"Kobe","no":24}}}}"#, i)
        );

        assert_eq!(session.remove("number"), Some(Value::from(233)));
        assert_eq!(session.remove_as::<f32>("counter"), Some(i as f32));
        assert_eq!(session.get::<u32>("counter"), None);
        assert_eq!(session.remove_as::<usize>("counter"), None);
        assert_eq!(state_json(&session), r#"{"user":{"name":"Kobe","no":24}}"#);

        session.clear();
        assert!(session.data().is_empty());
        assert_eq!(state_json(&session), "{}");

        assert_eq!(session.set::<usize>("counter", i).unwrap(), None);
        assert_eq!(session.set("number", 233).unwrap(), None);
        assert_eq!(session.set("user", user("Kobe", 24)).unwrap(), None);
        assert_eq!(
            state_json(&session),
            format!(r#"{{"counter":{},"number":233,"user":{{"name":"Kobe","no":24}}}}"#, i)
        );

        assert!(session.save(&mut store, ttl).is_ok());

        assert_eq!(session.id().len(), 32);

        sids.push((i, session.id()));
    }

    for (i, sid) in &sids {
        let mut session = store.get(sid).unwrap();

        assert_eq!(session.status(), UNCHANGED);
        assert_eq!(&session.id(), sid);

        let mut count = session.get::<usize>("counter").unwrap();

        assert_eq!(count, *i);

        count += 1;

        assert_eq!(session.set("index", count).unwrap(), None);

        assert_eq!(session.remove_as::<Value>("user").is_some(), true);
        assert_eq!(session.remove_as::<i32>("number"), Some(233));

        assert_eq!(state_json(&session), format!(r#"{{"counter":{},"index":{}}}"#, count - 1, count));

        assert!(session.save(&mut store, ttl).is_ok());

        assert!(session.destroy(&mut store).is_ok());

        assert_eq!(session.status(), PURGED);
    }

    for (_, sid) in &sids {
        let session = store.get(sid).unwrap();
        assert_eq!(session.id(), "");
        assert!(session.data().is_empty());
    }
}
