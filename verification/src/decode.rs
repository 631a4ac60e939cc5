//! The record decoder: turns a raw engine response into typed records.
//!
//! Only the first statement's outcome is consumed: the service issues exactly
//! one statement per call, and any further statements are ignored.

use vstd::prelude::*;

use crate::raw::{Object, RawQueryResult, Value};

verus! {

/// How decoding a raw response fails.
#[derive(Debug, Clone, Copy, PartialEq, Eq, Structural)]
pub enum DecodeError {
    /// The statement itself failed, or the response held no statements at all.
    Query,
    /// The response was shaped otherwise than expected: the first statement's
    /// value was not an array, or an element that had to be a record was not.
    Shape,
}

/// One element of the first statement's array, decoded: a record, or a
/// shape failure for an element that is not a record.
pub open spec fn decode_element(v: Value) -> Result<Object, DecodeError> {
    match v {
        Value::Object(o) => Ok(o),
        _ => Err(DecodeError::Shape),
    }
}

/// What decoding the list variant of a raw response yields: one decoded
/// element per array element, in the array's order.
pub open spec fn decoded_records(raw: RawQueryResult) -> Result<
    Seq<Result<Object, DecodeError>>,
    DecodeError,
> {
    if raw.statements@.len() == 0 {
        Err(DecodeError::Query)
    } else {
        match raw.statements@[0] {
            Result::Err(_) => Err(DecodeError::Query),
            Result::Ok(v) => match v {
                Value::Array(items) => Ok(
                    items@.map_values(|e: Value| decode_element(e)),
                ),
                _ => Err(DecodeError::Shape),
            },
        }
    }
}

/// What decoding the single-record variant of a raw response yields: the
/// first element of the first statement's array, which must be a record.
pub open spec fn decoded_record(raw: RawQueryResult) -> Result<Object, DecodeError> {
    if raw.statements@.len() == 0 {
        Err(DecodeError::Query)
    } else {
        match raw.statements@[0] {
            Result::Err(_) => Err(DecodeError::Query),
            Result::Ok(v) => match v {
                Value::Array(items) => if items@.len() == 0 {
                    Err(DecodeError::Shape)
                } else {
                    match items@[0] {
                        Value::Object(o) => Ok(o),
                        _ => Err(DecodeError::Shape),
                    }
                },
                _ => Err(DecodeError::Shape),
            },
        }
    }
}

/// Decodes the list variant: the first statement must have produced an array,
/// and each element decodes to a record or to a per-element shape failure.
pub fn into_iter_objects(raw: RawQueryResult) -> (r: Result<
    Vec<Result<Object, DecodeError>>,
    DecodeError,
>)
    ensures
        (r matches Ok(v) ==> decoded_records(raw) matches Ok(s) && v@ == s),
        (r matches Err(e) ==> decoded_records(raw) matches Err(f) && e == f),
{
    let mut statements = raw.statements;
    if statements.len() == 0 {
        return Err(DecodeError::Query);
    }
    let first = statements.remove(0);
    match first {
        Result::Err(_) => Err(DecodeError::Query),
        Result::Ok(Value::Array(mut items)) => {
            let ghost all = items@;
            let mut out: Vec<Result<Object, DecodeError>> = Vec::new();
            while items.len() > 0
                invariant
                    out@.len() + items@.len() == all.len(),
                    items@ == all.skip(out@.len() as int),
                    out@ == all.take(out@.len() as int).map_values(
                        |e: Value| decode_element(e),
                    ),
                decreases items@.len(),
            {
                let ghost n = out@.len() as int;
                let ghost pre = items@;
                let e = items.remove(0);
                proof {
                    assert(pre[0] == all[n]);
                    assert(items@ =~= all.skip(n + 1));
                }
                let d: Result<Object, DecodeError> = match e {
                    Value::Object(o) => Ok(o),
                    _ => Err(DecodeError::Shape),
                };
                out.push(d);
                proof {
                    assert(out@ =~= all.take(n + 1).map_values(
                        |e: Value| decode_element(e),
                    ));
                }
            }
            proof {
                assert(all.take(all.len() as int) =~= all);
            }
            Ok(out)
        },
        Result::Ok(_) => Err(DecodeError::Shape),
    }
}

/// Decodes the single-record variant: the first statement must have produced
/// an array whose first element is a record.
pub fn into_surreal_object(raw: RawQueryResult) -> (r: Result<Object, DecodeError>)
    ensures
        r == decoded_record(raw),
{
    let mut statements = raw.statements;
    if statements.len() == 0 {
        return Err(DecodeError::Query);
    }
    let first = statements.remove(0);
    match first {
        Result::Err(_) => Err(DecodeError::Query),
        Result::Ok(Value::Array(mut items)) => {
            if items.len() == 0 {
                Err(DecodeError::Shape)
            } else {
                let head = items.remove(0);
                match head {
                    Value::Object(o) => Ok(o),
                    _ => Err(DecodeError::Shape),
                }
            }
        },
        Result::Ok(_) => Err(DecodeError::Shape),
    }
}

/// List-shape law: a response whose first statement produced an array decodes,
/// in the list variant, to a sequence of exactly the array's length, whose
/// element at each position is that array element decoded.
pub proof fn lemma_list_shape(raw: RawQueryResult)
    requires
        raw.statements@.len() > 0,
        raw.statements@[0] is Ok,
        raw.statements@[0]->Ok_0 is Array,
    ensures
        decoded_records(raw) is Ok,
        decoded_records(raw)->Ok_0.len() == raw.statements@[0]->Ok_0->Array_0@.len(),
        forall|i: int|
            0 <= i < raw.statements@[0]->Ok_0->Array_0@.len() ==> #[trigger] decoded_records(
                raw,
            )->Ok_0[i] == decode_element(raw.statements@[0]->Ok_0->Array_0@[i]),
{
}

/// Shape-mismatch law: when the first statement's value is not an array, both
/// decode variants yield the shape error.
pub proof fn lemma_shape_mismatch(raw: RawQueryResult)
    requires
        raw.statements@.len() > 0,
        raw.statements@[0] is Ok,
        !(raw.statements@[0]->Ok_0 is Array),
    ensures
        decoded_records(raw) == Err::<Seq<Result<Object, DecodeError>>, DecodeError>(
            DecodeError::Shape,
        ),
        decoded_record(raw) == Err::<Object, DecodeError>(DecodeError::Shape),
{
}

} // verus!
