//! An in-memory storage engine for links.
//!
//! It answers the same statements the service issues — create, select by
//! key, list all — with raw responses of the very shape a real engine sends,
//! so the decoder and the repository are exercised end to end. Against its
//! model (a sequence of key/url pairs) the round-trip, unknown-key and
//! duplicate-key laws are stated and proved.

use vstd::prelude::*;

use crate::decode::DecodeError;
use crate::links::{
    created_id, found_url, listed_records, CreateError, LookupError,
};
use crate::raw::{field_lookup, Object, QueryFault, RawQueryResult, Reference, Value};

verus! {

/// One persisted link: the client-supplied key and the url it redirects to.
pub struct StoredLink {
    key: String,
    url: String,
}

/// An in-memory store of links. No uniqueness is enforced on keys:
/// duplicates are stored as given, and a select answers with every match in
/// insertion order.
pub struct Store {
    links: Vec<StoredLink>,
}

impl View for Store {
    type V = Seq<(Seq<char>, Seq<char>)>;

    closed spec fn view(&self) -> Seq<(Seq<char>, Seq<char>)> {
        self.links@.map_values(|l: StoredLink| (l.key@, l.url@))
    }
}

/// The url of the first stored link whose key matches, if any.
pub open spec fn lookup(links: Seq<(Seq<char>, Seq<char>)>, key: Seq<char>) -> Option<Seq<char>>
    decreases links.len(),
{
    if links.len() == 0 {
        None
    } else if links[0].0 == key {
        Some(links[0].1)
    } else {
        lookup(links.skip(1), key)
    }
}

/// What a select-by-key answer yields through the repository: the url of the
/// first matching link, or the lookup failure.
pub open spec fn lookup_result(links: Seq<(Seq<char>, Seq<char>)>, key: Seq<char>) -> Result<
    Seq<char>,
    LookupError,
> {
    match lookup(links, key) {
        Option::Some(u) => Ok(u),
        Option::None => Err(LookupError),
    }
}

/// The key and url fields of a decoded record, when both are present as
/// text.
pub open spec fn record_fields(o: Object) -> Option<(Seq<char>, Seq<char>)> {
    match (field_lookup(o.fields@, "key"@), field_lookup(o.fields@, "url"@)) {
        (Option::Some(Value::Text(k)), Option::Some(Value::Text(u))) => Some((k@, u@)),
        _ => None,
    }
}

/// Appending a link leaves the answer for a key untouched when the key
/// already finds a link, and a key found by no earlier link finds exactly
/// the appended one.
pub proof fn lemma_lookup_push(
    links: Seq<(Seq<char>, Seq<char>)>,
    x: (Seq<char>, Seq<char>),
    key: Seq<char>,
)
    ensures
        lookup(links.push(x), key) == (if lookup(links, key) is Some {
            lookup(links, key)
        } else if x.0 == key {
            Some(x.1)
        } else {
            None::<Seq<char>>
        }),
    decreases links.len(),
{
    if links.len() == 0 {
        assert(links.push(x)[0] == x);
        if x.0 != key {
            assert(links.push(x).skip(1) =~= links);
        }
    } else {
        assert(links.push(x)[0] == links[0]);
        assert(links.push(x).skip(1) =~= links.skip(1).push(x));
        lemma_lookup_push(links.skip(1), x, key);
    }
}

/// Unknown-key law: the lookup yields nothing exactly when no stored link
/// carries the key.
pub proof fn lemma_lookup_none_iff(links: Seq<(Seq<char>, Seq<char>)>, key: Seq<char>)
    ensures
        lookup(links, key) is None <==> (forall|i: int|
            0 <= i < links.len() ==> (#[trigger] links[i]).0 != key),
    decreases links.len(),
{
    if links.len() > 0 {
        lemma_lookup_none_iff(links.skip(1), key);
        if links[0].0 == key {
            assert(!(lookup(links, key) is None));
        } else {
            if lookup(links, key) is None {
                assert forall|i: int| 0 <= i < links.len() implies (#[trigger] links[i]).0
                    != key by {
                    if i > 0 {
                        assert(links[i] == links.skip(1)[i - 1]);
                    }
                }
            } else {
                let j = choose|j: int|
                    0 <= j < links.skip(1).len() && !((#[trigger] links.skip(1)[j]).0 != key);
                assert(links[j + 1] == links.skip(1)[j]);
            }
        }
    }
}

/// Resolver-outcome law: through the repository, a select answer yields a
/// redirect url exactly when some stored link carries the key; on every
/// other input the lookup fails and the resolver answers not-found.
pub proof fn lemma_resolver_outcome(links: Seq<(Seq<char>, Seq<char>)>, key: Seq<char>)
    ensures
        lookup_result(links, key) is Ok <==> (exists|i: int|
            0 <= i < links.len() && (#[trigger] links[i]).0 == key),
{
    lemma_lookup_none_iff(links, key);
}

/// Round-trip law: after storing a link under a key the store does not yet
/// hold, looking that key up yields exactly the url just stored.
pub proof fn lemma_round_trip(links: Seq<(Seq<char>, Seq<char>)>, key: Seq<char>, url: Seq<char>)
    requires
        lookup(links, key) is None,
    ensures
        lookup(links.push((key, url)), key) == Some(url),
{
    lemma_lookup_push(links, (key, url), key);
}

/// Duplicate-key law: the store accepts a second link under an existing key,
/// and the lookup answer does not change — the first stored link wins.
pub proof fn lemma_duplicate_key_first_wins(
    links: Seq<(Seq<char>, Seq<char>)>,
    key: Seq<char>,
    url1: Seq<char>,
    url2: Seq<char>,
)
    ensures
        lookup(links.push((key, url1)).push((key, url2)), key) == lookup(
            links.push((key, url1)),
            key,
        ),
{
    lemma_lookup_push(links, (key, url1), key);
    lemma_lookup_push(links.push((key, url1)), (key, url2), key);
}

/// Builds one raw record for a stored link, shaped as the engine sends it:
/// an `id` reference `link:<key>`, the key, and the url.
fn link_record(key: &String, url: &String) -> (v: Value)
    ensures
        v is Object,
        (field_lookup(v->Object_0.fields@, "id"@) matches Some(Value::Reference(rf))
            && rf.table@ == "link"@ && rf.ident@ == key@),
        (field_lookup(v->Object_0.fields@, "url"@) matches Some(Value::Text(u)) && u@ == url@),
        record_fields(v->Object_0) == Some((key@, url@)),
{
    let rf = Reference { table: "link".to_owned(), ident: key.clone() };
    let mut fields: Vec<(String, Value)> = Vec::new();
    fields.push(("id".to_owned(), Value::Reference(rf)));
    fields.push(("key".to_owned(), Value::Text(key.clone())));
    fields.push(("url".to_owned(), Value::Text(url.clone())));
    let o = Object { fields };
    proof {
        reveal_strlit("id");
        reveal_strlit("key");
        reveal_strlit("url");
        let fs = o.fields@;
        // The three suffixes field_lookup walks, and the three field names.
        assert(fs.len() == 3);
        assert(fs.skip(1).len() == 2 && fs.skip(1)[0] == fs[1] && fs.skip(1)[1] == fs[2]);
        assert(fs.skip(1).skip(1) =~= fs.skip(2));
        assert(fs.skip(2).len() == 1 && fs.skip(2)[0] == fs[2]);
        assert(fs[0].0@ == "id"@ && fs[1].0@ == "key"@ && fs[2].0@ == "url"@);
        // The names are pairwise distinct: "id" is shorter, "key" and "url"
        // differ in their first character.
        assert("id"@.len() == 2 && "key"@.len() == 3 && "url"@.len() == 3);
        assert("key"@[0] == 'k' && "url"@[0] == 'u');
        assert("id"@ != "key"@ && "id"@ != "url"@ && "key"@ != "url"@);
        // Walk the record once per name.
        assert(field_lookup(fs.skip(2), "url"@) == Some(fs[2].1));
        assert(field_lookup(fs.skip(1), "url"@) == Some(fs[2].1));
        assert(field_lookup(fs.skip(1), "key"@) == Some(fs[1].1));
        assert(field_lookup(fs, "id"@) == Some(fs[0].1));
        assert(field_lookup(fs, "key"@) == Some(fs[1].1));
        assert(field_lookup(fs, "url"@) == Some(fs[2].1));
    }
    Value::Object(o)
}

impl Store {
    /// A store holding no links.
    pub fn new() -> (s: Store)
        ensures
            s@ == Seq::<(Seq<char>, Seq<char>)>::empty(),
    {
        let s = Store { links: Vec::new() };
        proof {
            assert(s@ =~= Seq::<(Seq<char>, Seq<char>)>::empty());
        }
        s
    }

    /// Runs the create statement: stores the link as given — duplicates
    /// included — and answers with the engine's response, one statement
    /// whose array holds the one created record, identifier included.
    pub fn create(&mut self, key: String, url: String) -> (raw: RawQueryResult)
        ensures
            final(self)@ == old(self)@.push((key@, url@)),
            created_id(raw) == Ok::<Seq<char>, CreateError>("link"@ + ":"@ + key@),
            found_url(raw) == Ok::<Seq<char>, LookupError>(url@),
    {
        let record = link_record(&key, &url);
        let mut items: Vec<Value> = Vec::new();
        items.push(record);
        let mut statements: Vec<Result<Value, QueryFault>> = Vec::new();
        statements.push(Ok(Value::Array(items)));
        let raw = RawQueryResult { statements };
        self.links.push(StoredLink { key, url });
        proof {
            assert(self@ =~= old(self)@.push((key@, url@)));
            assert(raw.statements@.len() == 1);
            assert(items@[0] == record);
        }
        raw
    }

    /// Runs the select-by-key statement: answers with one statement whose
    /// array holds one record for every stored link whose key matches, in
    /// insertion order. Through the repository the answer yields exactly the
    /// first match, so the oldest link under a duplicated key wins.
    pub fn select_by_key(&self, key: &str) -> (raw: RawQueryResult)
        ensures
            found_url(raw) == lookup_result(self@, key@),
    {
        let wanted: String = key.to_owned();
        let mut items: Vec<Value> = Vec::new();
        let mut i: usize = 0;
        while i < self.links.len()
            invariant
                wanted@ == key@,
                i <= self.links.len(),
                self@.len() == self.links@.len(),
                (lookup(self@.take(i as int), key@) is None ==> items@.len() == 0),
                (lookup(self@.take(i as int), key@) matches Some(u) ==> items@.len() > 0
                    && items@[0] is Object && (field_lookup(
                    items@[0]->Object_0.fields@,
                    "url"@,
                ) matches Some(Value::Text(t)) && t@ == u)),
            decreases self.links.len() - i,
        {
            let ghost prefix = self@.take(i as int);
            let l = &self.links[i];
            proof {
                assert(self@[i as int] == (l.key@, l.url@));
                assert(self@.take(i as int + 1) =~= prefix.push(self@[i as int]));
                lemma_lookup_push(prefix, self@[i as int], key@);
            }
            if l.key == wanted {
                let rec = link_record(&l.key, &l.url);
                items.push(rec);
            }
            i = i + 1;
        }
        proof {
            assert(self@.take(self.links@.len() as int) =~= self@);
        }
        let mut statements: Vec<Result<Value, QueryFault>> = Vec::new();
        statements.push(Ok(Value::Array(items)));
        let raw = RawQueryResult { statements };
        proof {
            assert(raw.statements@.len() == 1);
        }
        raw
    }

    /// Runs the list-all statement: answers with one statement whose array
    /// holds one record per stored link, in insertion order.
    pub fn select_all(&self) -> (raw: RawQueryResult)
        ensures
            listed_records(raw).len() == self@.len(),
            forall|i: int|
                0 <= i < self@.len() ==> record_fields(#[trigger] listed_records(raw)[i])
                    == Some((self@[i].0, self@[i].1)),
    {
        let mut items: Vec<Value> = Vec::new();
        let mut i: usize = 0;
        while i < self.links.len()
            invariant
                i <= self.links.len(),
                self@.len() == self.links@.len(),
                items@.len() == i,
                forall|j: int|
                    0 <= j < i ==> (#[trigger] items@[j]) is Object && record_fields(
                        items@[j]->Object_0,
                    ) == Some((self@[j].0, self@[j].1)),
            decreases self.links.len() - i,
        {
            let l = &self.links[i];
            let rec = link_record(&l.key, &l.url);
            items.push(rec);
            proof {
                assert(self@[i as int] == (l.key@, l.url@));
            }
            i = i + 1;
        }
        let mut statements: Vec<Result<Value, QueryFault>> = Vec::new();
        statements.push(Ok(Value::Array(items)));
        let raw = RawQueryResult { statements };
        proof {
            let decoded = items@.map_values(|e: Value| crate::decode::decode_element(e));
            assert forall|k: int| 0 <= k < decoded.len() implies (#[trigger] decoded[k]) is Ok by {
                assert(items@[k] is Object);
            }
            let listed = decoded.map_values(
                |x: Result<Object, DecodeError>| crate::links::listed_element(x),
            );
            assert(listed_records(raw) == listed);
            assert forall|k: int| 0 <= k < self@.len() implies record_fields(
                #[trigger] listed_records(raw)[k],
            ) == Some((self@[k].0, self@[k].1)) by {
                assert(listed[k] == crate::links::listed_element(decoded[k]));
                assert(decoded[k] == crate::decode::decode_element(items@[k]));
                assert(items@[k] is Object);
            }
        }
        raw
    }
}

} // verus!
