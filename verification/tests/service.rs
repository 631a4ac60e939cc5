use go_urls::decode::{into_iter_objects, into_surreal_object, DecodeError};
use go_urls::links::{
    create_link, create_query, find_link_by_key, list_links, list_query, select_query,
    CreateError, LookupError,
};
use go_urls::raw::{Object, QueryFault, RawQueryResult, Reference, Value};
use go_urls::resolve::{resolve, RedirectOutcome};
use go_urls::store::Store;

fn text(s: &str) -> Value {
    Value::Text(s.to_string())
}

fn record(fields: Vec<(&str, Value)>) -> Value {
    Value::Object(Object {
        fields: fields.into_iter().map(|(k, v)| (k.to_string(), v)).collect(),
    })
}

fn response(v: Value) -> RawQueryResult {
    RawQueryResult { statements: vec![Ok(v)] }
}

fn link_reference(ident: &str) -> Value {
    Value::Reference(Reference { table: "link".to_string(), ident: ident.to_string() })
}

#[test]
fn decodes_list_of_records_in_order() {
    let raw = response(Value::Array(vec![
        record(vec![("key", text("a")), ("url", text("https://a.example"))]),
        record(vec![("key", text("b")), ("url", text("https://b.example"))]),
    ]));
    let decoded = into_iter_objects(raw).unwrap();
    assert_eq!(decoded.len(), 2);
    let first = decoded[0].as_ref().unwrap();
    assert_eq!(first.fields[0], ("key".to_string(), text("a")));
    let second = decoded[1].as_ref().unwrap();
    assert_eq!(second.fields[0], ("key".to_string(), text("b")));
}

#[test]
fn list_decode_rejects_non_array() {
    let raw = response(text("not an array"));
    assert_eq!(into_iter_objects(raw), Err(DecodeError::Shape));
}

#[test]
fn single_decode_rejects_non_array() {
    let raw = response(Value::Number(7));
    assert_eq!(into_surreal_object(raw), Err(DecodeError::Shape));
}

#[test]
fn decode_rejects_empty_response() {
    let raw = RawQueryResult { statements: vec![] };
    assert_eq!(into_surreal_object(raw), Err(DecodeError::Query));
    let raw = RawQueryResult { statements: vec![] };
    assert_eq!(into_iter_objects(raw), Err(DecodeError::Query));
}

#[test]
fn decode_rejects_failed_statement() {
    let raw = RawQueryResult { statements: vec![Err(QueryFault)] };
    assert_eq!(into_surreal_object(raw), Err(DecodeError::Query));
    let raw = RawQueryResult { statements: vec![Err(QueryFault)] };
    assert_eq!(into_iter_objects(raw), Err(DecodeError::Query));
}

#[test]
fn single_decode_rejects_empty_array() {
    let raw = response(Value::Array(vec![]));
    assert_eq!(into_surreal_object(raw), Err(DecodeError::Shape));
}

#[test]
fn list_decode_flags_non_record_element() {
    let raw = response(Value::Array(vec![
        record(vec![("key", text("a"))]),
        Value::Number(3),
    ]));
    let decoded = into_iter_objects(raw).unwrap();
    assert_eq!(decoded.len(), 2);
    assert!(decoded[0].is_ok());
    assert_eq!(decoded[1], Err(DecodeError::Shape));
}

#[test]
fn create_link_returns_canonical_id() {
    let raw = response(Value::Array(vec![record(vec![
        ("id", link_reference("abc")),
        ("key", text("abc")),
        ("url", text("https://example.com")),
    ])]));
    assert_eq!(create_link(raw), Ok("link:abc".to_string()));
}

#[test]
fn create_link_rejects_missing_id() {
    let raw = response(Value::Array(vec![record(vec![
        ("key", text("abc")),
        ("url", text("https://example.com")),
    ])]));
    assert_eq!(create_link(raw), Err(CreateError));
}

#[test]
fn create_link_rejects_non_reference_id() {
    let raw = response(Value::Array(vec![record(vec![
        ("id", text("link:abc")),
        ("key", text("abc")),
    ])]));
    assert_eq!(create_link(raw), Err(CreateError));
}

#[test]
fn find_link_returns_url() {
    let raw = response(Value::Array(vec![record(vec![
        ("id", link_reference("abc")),
        ("key", text("abc")),
        ("url", text("https://example.com")),
    ])]));
    assert_eq!(find_link_by_key(raw), Ok("https://example.com".to_string()));
}

#[test]
fn find_link_rejects_non_text_url() {
    let raw = response(Value::Array(vec![record(vec![
        ("key", text("abc")),
        ("url", Value::Number(4)),
    ])]));
    assert_eq!(find_link_by_key(raw), Err(LookupError));
}

#[test]
fn find_link_rejects_empty_result() {
    let raw = response(Value::Array(vec![]));
    assert_eq!(find_link_by_key(raw), Err(LookupError));
}

#[test]
fn resolve_redirects_to_stored_url() {
    let raw = response(Value::Array(vec![record(vec![
        ("url", text("https://example.com")),
    ])]));
    assert_eq!(
        resolve(raw),
        RedirectOutcome::Redirect("https://example.com".to_string())
    );
}

#[test]
fn resolve_misses_on_lookup_failure() {
    let raw = response(Value::Array(vec![]));
    assert_eq!(resolve(raw), RedirectOutcome::NoSuchKey);
}

#[test]
fn store_round_trip() {
    let mut store = Store::new();
    let created = store.create("abc".to_string(), "https://example.com".to_string());
    let id = create_link(created).unwrap();
    assert!(!id.is_empty());
    assert_eq!(id, "link:abc");
    let raw = store.select_by_key("abc");
    assert_eq!(find_link_by_key(raw), Ok("https://example.com".to_string()));
    let raw = store.select_by_key("abc");
    assert_eq!(
        resolve(raw),
        RedirectOutcome::Redirect("https://example.com".to_string())
    );
}

#[test]
fn unknown_key_misses() {
    let mut store = Store::new();
    store.create("abc".to_string(), "https://example.com".to_string());
    let raw = store.select_by_key("never-created");
    assert_eq!(find_link_by_key(raw), Err(LookupError));
    let raw = store.select_by_key("xyz");
    assert_eq!(resolve(raw), RedirectOutcome::NoSuchKey);
}

#[test]
fn listing_shows_created_links() {
    let mut store = Store::new();
    store.create("abc".to_string(), "https://example.com".to_string());
    let listed = list_links(store.select_all());
    assert_eq!(listed.len(), 1);
    let entry = listed.into_iter().next().unwrap();
    let mut saw_key = false;
    let mut saw_url = false;
    for (name, value) in entry.fields {
        if name == "key" {
            assert_eq!(value, text("abc"));
            saw_key = true;
        }
        if name == "url" {
            assert_eq!(value, text("https://example.com"));
            saw_url = true;
        }
    }
    assert!(saw_key && saw_url);
}

#[test]
fn listing_is_empty_on_decode_failure() {
    assert_eq!(list_links(response(text("bad"))).len(), 0);
    let raw = RawQueryResult { statements: vec![] };
    assert_eq!(list_links(raw).len(), 0);
}

#[test]
fn duplicate_keys_keep_first() {
    let mut store = Store::new();
    store.create("abc".to_string(), "https://first.example".to_string());
    store.create("abc".to_string(), "https://second.example".to_string());
    let raw = store.select_by_key("abc");
    assert_eq!(find_link_by_key(raw), Ok("https://first.example".to_string()));
}

#[test]
fn queries_bind_parameters() {
    let (sql, vars) = create_query("abc".to_string(), "https://example.com".to_string());
    assert_eq!(sql, "CREATE link CONTENT $data");
    assert_eq!(vars.fields.len(), 1);
    let (name, payload) = vars.fields.into_iter().next().unwrap();
    assert_eq!(name, "data");
    assert_eq!(
        payload,
        record(vec![("key", text("abc")), ("url", text("https://example.com"))])
    );

    let (sql, vars) = select_query("abc".to_string());
    assert_eq!(sql, "SELECT * FROM link WHERE key = $key");
    assert_eq!(vars.fields, vec![("key".to_string(), text("abc"))]);

    assert_eq!(list_query(), "SELECT * FROM link");
}
