//! The link repository: the statements the service issues, and the extraction
//! of typed link data from decoded records.
//!
//! The engine call itself is I/O and lives with the caller; each operation
//! here takes the engine's raw response and is verified end to end.

use vstd::prelude::*;
use vstd::string::StringExecFns;

use crate::decode::{
    decoded_record, decoded_records, into_iter_objects, into_surreal_object, DecodeError,
};
use crate::raw::{field_lookup, Object, RawQueryResult, Reference, Value};

verus! {

/// Creation failed: the engine call failed, the response did not decode, or
/// the created record carries no identifier.
#[derive(Debug, Clone, Copy, PartialEq, Eq, Structural)]
pub struct CreateError;

/// Lookup failed: no record for the key, or a malformed record without a
/// string `url` field.
#[derive(Debug, Clone, Copy, PartialEq, Eq, Structural)]
pub struct LookupError;

/// The canonical external form of a record identifier: `table:ident`.
pub open spec fn reference_raw(r: Reference) -> Seq<char> {
    r.table@ + ":"@ + r.ident@
}

/// What creating a link returns for a given raw response: the created
/// record's identifier in canonical form, or a creation failure.
pub open spec fn created_id(raw: RawQueryResult) -> Result<Seq<char>, CreateError> {
    match decoded_record(raw) {
        Result::Ok(o) => match field_lookup(o.fields@, "id"@) {
            Option::Some(Value::Reference(r)) => Ok(reference_raw(r)),
            _ => Err(CreateError),
        },
        Result::Err(_) => Err(CreateError),
    }
}

/// What looking a key up returns for a given raw response: the string `url`
/// field of the single decoded record, or a lookup failure.
pub open spec fn found_url(raw: RawQueryResult) -> Result<Seq<char>, LookupError> {
    match decoded_record(raw) {
        Result::Ok(o) => match field_lookup(o.fields@, "url"@) {
            Option::Some(Value::Text(u)) => Ok(u@),
            _ => Err(LookupError),
        },
        Result::Err(_) => Err(LookupError),
    }
}

/// The record, if any, that one listed element yields: an element that is not
/// a record poisons the whole listing.
pub open spec fn listed_element(x: Result<Object, DecodeError>) -> Object
    recommends
        x is Ok,
{
    x->Ok_0
}

/// What listing links returns for a given raw response: every record of the
/// first statement's array, in order, or the empty sequence when the response
/// does not decode as a list of records. Listing is best effort: no failure
/// is propagated.
pub open spec fn listed_records(raw: RawQueryResult) -> Seq<Object> {
    match decoded_records(raw) {
        Result::Ok(items) => if forall|i: int| 0 <= i < items.len() ==> (#[trigger] items[i]) is Ok {
            items.map_values(|x: Result<Object, DecodeError>| listed_element(x))
        } else {
            Seq::empty()
        },
        Result::Err(_) => Seq::empty(),
    }
}

/// Extracts the created record's identifier from the raw response to a create
/// statement, formatted in its canonical external form `table:ident`.
pub fn create_link(raw: RawQueryResult) -> (r: Result<String, CreateError>)
    ensures
        (r matches Ok(s) ==> created_id(raw) matches Ok(t) && s@ == t),
        (r is Err <==> created_id(raw) is Err),
{
    match into_surreal_object(raw) {
        Result::Ok(o) => match o.get("id") {
            Option::Some(Value::Reference(rf)) => {
                let mut s = rf.table;
                s.append(":");
                s.append(rf.ident.as_str());
                Ok(s)
            },
            _ => Err(CreateError),
        },
        Result::Err(_) => Err(CreateError),
    }
}

/// Extracts the stored url from the raw response to a select-by-key
/// statement: the single decoded record must carry a string `url` field.
pub fn find_link_by_key(raw: RawQueryResult) -> (r: Result<String, LookupError>)
    ensures
        (r matches Ok(s) ==> found_url(raw) matches Ok(t) && s@ == t),
        (r is Err <==> found_url(raw) is Err),
{
    match into_surreal_object(raw) {
        Result::Ok(o) => match o.get("url") {
            Option::Some(Value::Text(u)) => Ok(u),
            _ => Err(LookupError),
        },
        Result::Err(_) => Err(LookupError),
    }
}

/// Lists every record of the raw response to a list-all statement, in order;
/// best effort: any decode failure yields the empty listing instead of an
/// error.
pub fn list_links(raw: RawQueryResult) -> (r: Vec<Object>)
    ensures
        r@ == listed_records(raw),
{
    match into_iter_objects(raw) {
        Result::Err(_) => Vec::new(),
        Result::Ok(mut items) => {
            let ghost all = items@;
            proof {
                assert(decoded_records(raw) is Ok);
                assert(all == decoded_records(raw)->Ok_0);
            }
            let mut out: Vec<Object> = Vec::new();
            while items.len() > 0
                invariant
                    decoded_records(raw) is Ok,
                    all == decoded_records(raw)->Ok_0,
                    out@.len() + items@.len() == all.len(),
                    items@ == all.skip(out@.len() as int),
                    forall|i: int| 0 <= i < out@.len() ==> (#[trigger] all[i]) is Ok,
                    out@ == all.take(out@.len() as int).map_values(
                        |x: Result<Object, DecodeError>| listed_element(x),
                    ),
                decreases items@.len(),
            {
                let ghost n = out@.len() as int;
                let ghost pre = items@;
                let x = items.remove(0);
                proof {
                    assert(pre[0] == all[n]);
                    assert(items@ =~= all.skip(n + 1));
                }
                match x {
                    Result::Ok(o) => {
                        out.push(o);
                        proof {
                            assert(out@ =~= all.take(n + 1).map_values(
                                |x: Result<Object, DecodeError>| listed_element(x),
                            ));
                        }
                    },
                    Result::Err(_) => {
                        proof {
                            let s = decoded_records(raw)->Ok_0;
                            assert(s == all);
                            assert(0 <= n < s.len() && !((s[n]) is Ok));
                            assert(!(forall|i: int|
                                0 <= i < s.len() ==> (#[trigger] s[i]) is Ok));
                            assert(listed_records(raw) =~= Seq::<Object>::empty());
                        }
                        return Vec::new();
                    },
                }
            }
            proof {
                assert(all.take(all.len() as int) =~= all);
            }
            out
        },
    }
}

/// The parameterized create statement and its bound payload: the record
/// `{key, url}` travels as the single bound variable `data`, never spliced
/// into the statement text.
pub fn create_query(key: String, url: String) -> (q: (String, Object))
    ensures
        q.0@ == "CREATE link CONTENT $data"@,
        q.1.fields@.len() == 1,
        q.1.fields@[0].0@ == "data"@,
        (q.1.fields@[0].1 matches Value::Object(data) && data.fields@.len() == 2
            && data.fields@[0].0@ == "key"@
            && (data.fields@[0].1 matches Value::Text(k) && k@ == key@)
            && data.fields@[1].0@ == "url"@
            && (data.fields@[1].1 matches Value::Text(u) && u@ == url@)),
{
    let mut inner: Vec<(String, Value)> = Vec::new();
    inner.push(("key".to_owned(), Value::Text(key)));
    inner.push(("url".to_owned(), Value::Text(url)));
    let mut vars: Vec<(String, Value)> = Vec::new();
    vars.push(("data".to_owned(), Value::Object(Object { fields: inner })));
    ("CREATE link CONTENT $data".to_owned(), Object { fields: vars })
}

/// The parameterized select-by-key statement and its bound variable: the
/// client-supplied key travels as the bound variable `key`.
pub fn select_query(key: String) -> (q: (String, Object))
    ensures
        q.0@ == "SELECT * FROM link WHERE key = $key"@,
        q.1.fields@.len() == 1,
        q.1.fields@[0].0@ == "key"@,
        (q.1.fields@[0].1 matches Value::Text(k) && k@ == key@),
{
    let mut vars: Vec<(String, Value)> = Vec::new();
    vars.push(("key".to_owned(), Value::Text(key)));
    ("SELECT * FROM link WHERE key = $key".to_owned(), Object { fields: vars })
}

/// The list-all statement; it binds no variables.
pub fn list_query() -> (q: String)
    ensures
        q@ == "SELECT * FROM link"@,
{
    "SELECT * FROM link".to_owned()
}

} // verus!
