//! The storage engine's untyped response shape: dynamically typed values,
//! records with named fields, and the per-statement outcomes of one call.

use vstd::prelude::*;

verus! {

/// A dynamically typed value as the storage engine returns it.
#[derive(Debug, PartialEq)]
pub enum Value {
    /// A string value.
    Text(String),
    /// An integer value.
    Number(i64),
    /// An array of values.
    Array(Vec<Value>),
    /// A record with named fields.
    Object(Object),
    /// A record identifier assigned by the engine.
    Reference(Reference),
}

/// A record identifier: the table the record lives in and the identifier
/// within that table. Its canonical external form is `table:ident`.
#[derive(Debug, PartialEq)]
pub struct Reference {
    pub table: String,
    pub ident: String,
}

/// A record: named fields in the order the engine sent them.
#[derive(Debug, PartialEq)]
pub struct Object {
    pub fields: Vec<(String, Value)>,
}

/// An engine-side failure of one statement; its detail is opaque at this layer.
#[derive(Debug, Clone, Copy, PartialEq, Eq, Structural)]
pub struct QueryFault;

/// The engine's raw response to one call: one outcome per executed statement.
#[derive(Debug, PartialEq)]
pub struct RawQueryResult {
    pub statements: Vec<Result<Value, QueryFault>>,
}

/// The value of the first field named `name`, if the record has one.
pub open spec fn field_lookup(fields: Seq<(String, Value)>, name: Seq<char>) -> Option<Value>
    decreases fields.len(),
{
    if fields.len() == 0 {
        None
    } else if fields[0].0@ == name {
        Some(fields[0].1)
    } else {
        field_lookup(fields.skip(1), name)
    }
}

impl Object {
    /// Takes the value of the first field named `name` out of the record.
    pub fn get(self, name: &str) -> (r: Option<Value>)
        ensures
            r == field_lookup(self.fields@, name@),
    {
        let wanted: String = name.to_owned();
        let mut fields = self.fields;
        loop
            invariant
                wanted@ == name@,
                field_lookup(self.fields@, name@) == field_lookup(fields@, name@),
            decreases fields.len(),
        {
            if fields.len() == 0 {
                return None;
            }
            let ghost pre = fields@;
            let f = fields.remove(0);
            if f.0 == wanted {
                return Some(f.1);
            }
            proof {
                assert(fields@ =~= pre.skip(1));
            }
        }
    }
}

} // verus!
