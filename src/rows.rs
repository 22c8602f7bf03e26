//! The dynamic row decoder: one store row, whose column types the host does not
//! know, becomes an ordered list of tagged values by probing each field's raw
//! wire bytes in a fixed order.
use vstd::prelude::*;
use vstd::utf8::{decode_utf8, valid_utf8};
use crate::json::{JsonNumber, JsonValue};

verus! {

/// A decoded field.
#[derive(Debug, PartialEq)]
pub enum DecodedValue {
    Null,
    Integer(i64),
    /// A double-precision number, as serde_json holds it.
    Floating(serde_json::Number),
    Boolean(bool),
    Text(String),
}

/// A decoded row: column names and values in the order in which the store gave them.
#[derive(Debug)]
pub struct DynamicRow {
    pub columns: Vec<(String, DecodedValue)>,
}

/// Four bytes in network order read as a 32-bit two's-complement integer.
pub open spec fn be_i32_value(b: Seq<u8>) -> int {
    let u = b[0] as int * 0x1000000 + b[1] as int * 0x10000 + b[2] as int * 0x100 + b[3] as int;
    if u >= 0x80000000 { u - 0x100000000 } else { u }
}

/// Eight bytes in network order read as a 64-bit two's-complement integer.
pub open spec fn be_i64_value(b: Seq<u8>) -> int {
    let u = b[0] as int * 0x100000000000000 + b[1] as int * 0x1000000000000 + b[2] as int
        * 0x10000000000 + b[3] as int * 0x100000000 + b[4] as int * 0x1000000 + b[5] as int
        * 0x10000 + b[6] as int * 0x100 + b[7] as int;
    if u >= 0x8000000000000000 { u - 0x10000000000000000 } else { u }
}

/// What a field decodes to. Null is null whatever its type. Otherwise the probes
/// run in this order and the first that accepts the bytes decides: a 32-bit
/// integer (exactly 4 bytes), text (valid UTF-8), a 64-bit integer (exactly 8
/// bytes), a double (exactly 8 bytes), a boolean (at least one byte; true unless
/// the first byte is 0), and last UTF-8 text or a placeholder naming the length.
/// The double probe wants the same 8 bytes as the 64-bit probe before it, and
/// empty bytes are valid UTF-8, so the double probe and the last step never decide.
pub open spec fn decodes_to(raw: Option<Seq<u8>>, v: DecodedValue) -> bool {
    match raw {
        None => v is Null,
        Some(b) => if b.len() == 4 {
            v == DecodedValue::Integer(be_i32_value(b) as i64)
        } else if valid_utf8(b) {
            v matches DecodedValue::Text(s) && s@ == decode_utf8(b)
        } else if b.len() == 8 {
            v == DecodedValue::Integer(be_i64_value(b) as i64)
        } else {
            v == DecodedValue::Boolean(b[0] != 0)
        },
    }
}

/// Relies on std::str::from_utf8: it accepts exactly the valid UTF-8 sequences
/// and yields the characters they encode.
#[verifier::external_body]
fn utf8_text(b: &[u8]) -> (r: Option<String>)
    ensures
        r is Some <==> valid_utf8(b@),
        r is Some ==> r->Some_0@ == decode_utf8(b@),
{
    std::str::from_utf8(b).ok().map(String::from)
}

fn read_i32(b: &[u8]) -> (r: i64)
    requires
        b@.len() == 4,
    ensures
        r == be_i32_value(b@),
{
    let u: u64 = (b[0] as u64) * 0x1000000 + (b[1] as u64) * 0x10000 + (b[2] as u64) * 0x100
        + (b[3] as u64);
    if u >= 0x80000000 {
        (u as i64) - 0x100000000
    } else {
        u as i64
    }
}

fn read_i64(b: &[u8]) -> (r: i64)
    requires
        b@.len() == 8,
    ensures
        r == be_i64_value(b@),
{
    let u: u64 = (b[0] as u64) * 0x100000000000000 + (b[1] as u64) * 0x1000000000000 + (b[2] as u64)
        * 0x10000000000 + (b[3] as u64) * 0x100000000 + (b[4] as u64) * 0x1000000 + (b[5] as u64)
        * 0x10000 + (b[6] as u64) * 0x100 + (b[7] as u64);
    if u >= 0x8000000000000000 {
        ((u - 0x8000000000000000) as i64) - 0x7fffffffffffffff - 1
    } else {
        u as i64
    }
}

/// Decodes one field; `None` is a null field.
pub fn decode_field(raw: Option<&[u8]>) -> (r: DecodedValue)
    ensures
        decodes_to(
            match raw {
                Some(b) => Some(b@),
                None => None,
            },
            r,
        ),
{
    match raw {
        None => DecodedValue::Null,
        Some(b) => {
            if b.len() == 4 {
                return DecodedValue::Integer(read_i32(b));
            }
            match utf8_text(b) {
                Some(s) => {
                    return DecodedValue::Text(s);
                },
                None => {},
            }
            if b.len() == 8 {
                return DecodedValue::Integer(read_i64(b));
            }
            assert(b@.len() > 0);
            DecodedValue::Boolean(b[0] != 0)
        },
    }
}

/// The bytes of a raw field, `None` for null.
pub open spec fn raw_view(raw: Option<Vec<u8>>) -> Option<Seq<u8>> {
    match raw {
        Some(b) => Some(b@),
        None => None,
    }
}

/// `row` decodes `fields`: every column, in order, under its own name.
pub open spec fn decodes_row(fields: Seq<(String, Option<Vec<u8>>)>, row: DynamicRow) -> bool {
    &&& row.columns@.len() == fields.len()
    &&& forall|i: int| 0 <= i < fields.len() ==> (#[trigger] row.columns@[i]).0 == fields[i].0
        && decodes_to(raw_view(fields[i].1), row.columns@[i].1)
}

impl DynamicRow {
    /// Decodes a row given as column names with raw field bytes.
    pub fn decode(fields: Vec<(String, Option<Vec<u8>>)>) -> (r: DynamicRow)
        ensures
            decodes_row(fields@, r),
    {
        let ghost all = fields@;
        let mut rest = fields;
        let mut columns: Vec<(String, DecodedValue)> = Vec::new();
        while rest.len() > 0
            invariant
                columns@.len() + rest@.len() == all.len(),
                rest@ == all.subrange(columns@.len() as int, all.len() as int),
                forall|i: int| 0 <= i < columns@.len() ==> (#[trigger] columns@[i]).0 == all[i].0
                    && decodes_to(raw_view(all[i].1), columns@[i].1),
            decreases rest@.len(),
        {
            let (name, raw) = rest.remove(0);
            let value = match &raw {
                Some(b) => decode_field(Some(b.as_slice())),
                None => decode_field(None),
            };
            columns.push((name, value));
            assert(rest@ =~= all.subrange(columns@.len() as int, all.len() as int));
        }
        DynamicRow { columns }
    }
}


/// A decoded value written as JSON: an integer as a JSON integer, a boolean as a
/// JSON boolean, text as a JSON string.
pub open spec fn value_json(v: DecodedValue) -> JsonValue {
    match v {
        DecodedValue::Null => JsonValue::Null,
        DecodedValue::Integer(i) => JsonValue::Number(
            if i >= 0 {
                JsonNumber::PosInt(i as u64)
            } else {
                JsonNumber::NegInt(i)
            },
        ),
        DecodedValue::Floating(n) => JsonValue::Number(JsonNumber::Float(n)),
        DecodedValue::Boolean(b) => JsonValue::Bool(b),
        DecodedValue::Text(s) => JsonValue::Str(s),
    }
}

/// A JSON value read back as a decoded value; arrays, objects and integers beyond
/// 64 signed bits are none.
pub open spec fn value_from_json(j: JsonValue) -> Option<DecodedValue> {
    match j {
        JsonValue::Null => Some(DecodedValue::Null),
        JsonValue::Bool(b) => Some(DecodedValue::Boolean(b)),
        JsonValue::Number(JsonNumber::PosInt(u)) => if u <= i64::MAX as u64 {
            Some(DecodedValue::Integer(u as i64))
        } else {
            None
        },
        JsonValue::Number(JsonNumber::NegInt(i)) => Some(DecodedValue::Integer(i)),
        JsonValue::Number(JsonNumber::Float(n)) => Some(DecodedValue::Floating(n)),
        JsonValue::Str(s) => Some(DecodedValue::Text(s)),
        _ => None,
    }
}

/// `j` is the JSON object of `row`: one member per column, in order.
pub open spec fn encodes_row(row: DynamicRow, j: JsonValue) -> bool {
    &&& j is Object
    &&& j->Object_0@.len() == row.columns@.len()
    &&& forall|i: int| 0 <= i < row.columns@.len() ==> (#[trigger] j->Object_0@[i]).0 == row.columns@[i].0
        && j->Object_0@[i].1 == value_json(row.columns@[i].1)
}

/// `row` is what the JSON object `j` reads as.
pub open spec fn reads_row(j: JsonValue, row: DynamicRow) -> bool {
    &&& j is Object
    &&& j->Object_0@.len() == row.columns@.len()
    &&& forall|i: int| 0 <= i < row.columns@.len() ==> (#[trigger] row.columns@[i]).0 == j->Object_0@[i].0
        && value_from_json(j->Object_0@[i].1) == Some(row.columns@[i].1)
}

impl DecodedValue {
    /// The value as JSON.
    pub fn into_json(self) -> (r: JsonValue)
        ensures
            r == value_json(self),
    {
        match self {
            DecodedValue::Null => JsonValue::Null,
            DecodedValue::Integer(i) => JsonValue::Number(
                if i >= 0 {
                    JsonNumber::PosInt(i as u64)
                } else {
                    JsonNumber::NegInt(i)
                },
            ),
            DecodedValue::Floating(n) => JsonValue::Number(JsonNumber::Float(n)),
            DecodedValue::Boolean(b) => JsonValue::Bool(b),
            DecodedValue::Text(s) => JsonValue::Str(s),
        }
    }

    /// A JSON value read as a decoded value.
    pub fn from_json(j: JsonValue) -> (r: Option<DecodedValue>)
        ensures
            r == value_from_json(j),
    {
        match j {
            JsonValue::Null => Some(DecodedValue::Null),
            JsonValue::Bool(b) => Some(DecodedValue::Boolean(b)),
            JsonValue::Number(JsonNumber::PosInt(u)) => if u <= i64::MAX as u64 {
                Some(DecodedValue::Integer(u as i64))
            } else {
                None
            },
            JsonValue::Number(JsonNumber::NegInt(i)) => Some(DecodedValue::Integer(i)),
            JsonValue::Number(JsonNumber::Float(n)) => Some(DecodedValue::Floating(n)),
            JsonValue::Str(s) => Some(DecodedValue::Text(s)),
            _ => None,
        }
    }
}

impl DynamicRow {
    /// The row as a JSON object, columns in order.
    pub fn into_json(self) -> (r: JsonValue)
        ensures
            encodes_row(self, r),
    {
        let ghost all = self.columns@;
        let mut rest = self.columns;
        let mut members: Vec<(String, JsonValue)> = Vec::new();
        while rest.len() > 0
            invariant
                members@.len() + rest@.len() == all.len(),
                rest@ == all.subrange(members@.len() as int, all.len() as int),
                forall|i: int| 0 <= i < members@.len() ==> (#[trigger] members@[i]).0 == all[i].0
                    && members@[i].1 == value_json(all[i].1),
            decreases rest@.len(),
        {
            let (name, value) = rest.remove(0);
            members.push((name, value.into_json()));
            assert(rest@ =~= all.subrange(members@.len() as int, all.len() as int));
        }
        JsonValue::Object(members)
    }

    /// A JSON object read as a row; `None` where `j` is not an object or a member
    /// is not a field value.
    pub fn from_json(j: JsonValue) -> (r: Option<DynamicRow>)
        ensures
            r is Some <==> (j is Object && forall|i: int| 0 <= i < j->Object_0@.len() ==>
                (#[trigger] value_from_json(j->Object_0@[i].1)) is Some),
            r is Some ==> reads_row(j, r->Some_0),
    {
        match j {
            JsonValue::Object(members) => {
                let ghost all = members@;
                assert(j matches JsonValue::Object(m) && m@ == all);
                let mut rest = members;
                let mut columns: Vec<(String, DecodedValue)> = Vec::new();
                while rest.len() > 0
                    invariant
                        j matches JsonValue::Object(m) && m@ == all,
                        columns@.len() + rest@.len() == all.len(),
                        rest@ == all.subrange(columns@.len() as int, all.len() as int),
                        forall|i: int| 0 <= i < columns@.len() ==> (#[trigger] columns@[i]).0 == all[i].0
                            && value_from_json(all[i].1) == Some(columns@[i].1),
                    decreases rest@.len(),
                {
                    let (name, value) = rest.remove(0);
                    assert(value == all[columns@.len() as int].1);
                    match DecodedValue::from_json(value) {
                        Some(v) => {
                            columns.push((name, v));
                        },
                        None => {
                            assert(value_from_json(all[columns@.len() as int].1) is None);
                            return None;
                        },
                    }
                    assert(rest@ =~= all.subrange(columns@.len() as int, all.len() as int));
                }
                assert forall|i: int| 0 <= i < all.len() implies (#[trigger] value_from_json(all[i].1)) is Some by {
                    assert(columns@[i].0 == all[i].0);
                }
                Some(DynamicRow { columns })
            },
            _ => None,
        }
    }
}

/// A decoded value written as JSON reads back as the same value: an integer stays
/// an integer and a boolean a boolean.
pub proof fn lemma_value_json_round_trip(v: DecodedValue)
    ensures
        value_from_json(value_json(v)) == Some(v),
{
}

/// A row written as JSON and read back is the same row, column for column.
pub proof fn lemma_row_json_round_trip(row: DynamicRow, j: JsonValue, back: DynamicRow)
    requires
        encodes_row(row, j),
        reads_row(j, back),
    ensures
        back.columns@ == row.columns@,
{
    assert forall|i: int| 0 <= i < row.columns@.len() implies back.columns@[i] == row.columns@[i] by {
        lemma_value_json_round_trip(row.columns@[i].1);
        assert(back.columns@[i].0 == j->Object_0@[i].0);
    }
    assert(back.columns@ =~= row.columns@);
}

/// Text that is valid UTF-8 decodes to the string it spells, never to a number or
/// a boolean, unless it is exactly 4 bytes long (the 32-bit probe comes first).
pub proof fn lemma_text_field_stays_text(b: Seq<u8>, v: DecodedValue)
    requires
        valid_utf8(b),
        b.len() != 4,
        decodes_to(Some(b), v),
    ensures
        v matches DecodedValue::Text(s) && s@ == decode_utf8(b),
{
}

} // verus!
