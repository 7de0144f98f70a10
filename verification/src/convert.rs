//! The field conversion engine: per-field, type-directed rules that turn a
//! declared value into a wire-ready value. The engine never fails; anything
//! it cannot improve it passes through, and the encoder decides later.

use vstd::prelude::*;
use vstd::string::StrSliceExecFns;
use vstd::utf8::encode_utf8;
use crate::ident::{parse_identifier_or_zero, parsed_or_zero};
use crate::values::{copy_bytes, copy_ints, Value, ValueV};

verus! {

/// A per-field conversion rule.
#[derive(Clone, Copy, Debug)]
pub enum Conversion {
    /// Pass the value through unchanged.
    Identity,
    /// Reinterpret text as its raw byte sequence, without validation.
    StringToBytes,
    /// Present a list as a contiguous view of its elements.
    ListToBorrowedView,
    /// Parse identifier-token text; on failure substitute the all-zero
    /// identifier rather than failing.
    ParseIdentifierWithZeroDefault,
    /// Wrap one text field's byte sequence as a single-element list of byte
    /// sequences. No splitting of the text takes place.
    WrapAsSingleArgToken,
}

/// A wire-ready field value.
#[derive(Debug, PartialEq)]
pub enum WireValue {
    /// A signed integer.
    Int(i32),
    /// A byte sequence.
    Bytes(Vec<u8>),
    /// A list of byte sequences.
    BytesList(Vec<Vec<u8>>),
    /// A list of signed integers.
    IntList(Vec<i32>),
    /// A 128-bit identifier token.
    Token(u128),
    /// Text that no conversion rewrote; accepted by no wire field, so the
    /// encoder rejects it later.
    Text(String),
}

/// Mathematical view of a [`WireValue`].
pub enum WireValueV {
    Int(i32),
    Bytes(Seq<u8>),
    BytesList(Seq<Seq<u8>>),
    IntList(Seq<i32>),
    Token(u128),
    Text(Seq<char>),
}

impl View for WireValue {
    type V = WireValueV;

    open spec fn view(&self) -> WireValueV {
        match self {
            WireValue::Int(i) => WireValueV::Int(*i),
            WireValue::Bytes(b) => WireValueV::Bytes(b@),
            WireValue::BytesList(l) => WireValueV::BytesList(l.deep_view()),
            WireValue::IntList(l) => WireValueV::IntList(l@),
            WireValue::Token(t) => WireValueV::Token(*t),
            WireValue::Text(s) => WireValueV::Text(s@),
        }
    }
}

/// A declared value passed through unchanged, as a wire value.
pub open spec fn passthrough(v: ValueV) -> WireValueV {
    match v {
        ValueV::Int(i) => WireValueV::Int(i),
        ValueV::Text(s) => WireValueV::Text(s),
        ValueV::Bytes(b) => WireValueV::Bytes(b),
        ValueV::IntList(l) => WireValueV::IntList(l),
    }
}

/// What the conversion engine yields for a value under a rule. Rules that
/// speak of text act only on text values; every other pairing passes the
/// value through, and the encoder decides later whether it fits its wire
/// field.
pub open spec fn convert_spec(v: ValueV, c: Conversion) -> WireValueV {
    match c {
        Conversion::Identity => passthrough(v),
        Conversion::StringToBytes => match v {
            ValueV::Text(s) => WireValueV::Bytes(encode_utf8(s)),
            _ => passthrough(v),
        },
        Conversion::ListToBorrowedView => passthrough(v),
        Conversion::ParseIdentifierWithZeroDefault => match v {
            ValueV::Text(s) => WireValueV::Token(parsed_or_zero(s)),
            _ => passthrough(v),
        },
        Conversion::WrapAsSingleArgToken => match v {
            ValueV::Text(s) => WireValueV::BytesList(seq![encode_utf8(s)]),
            _ => passthrough(v),
        },
    }
}

/// A pass-through copy of a declared value as a wire value.
fn passthrough_exec(v: &Value) -> (r: WireValue)
    ensures
        r@ == passthrough(v@),
{
    match v {
        Value::Int(i) => WireValue::Int(*i),
        Value::Text(s) => WireValue::Text(s.clone()),
        Value::Bytes(b) => WireValue::Bytes(copy_bytes(b)),
        Value::IntList(l) => WireValue::IntList(copy_ints(l)),
    }
}

/// Applies one conversion rule to one declared value. Total: the engine
/// never fails, whatever the pairing of rule and value.
pub fn convert(v: &Value, c: Conversion) -> (r: WireValue)
    ensures
        r@ == convert_spec(v@, c),
{
    match c {
        Conversion::Identity => passthrough_exec(v),
        Conversion::StringToBytes => match v {
            Value::Text(s) => WireValue::Bytes(s.as_str().as_bytes_vec()),
            _ => passthrough_exec(v),
        },
        Conversion::ListToBorrowedView => passthrough_exec(v),
        Conversion::ParseIdentifierWithZeroDefault => match v {
            Value::Text(s) => WireValue::Token(parse_identifier_or_zero(s.as_str())),
            _ => passthrough_exec(v),
        },
        Conversion::WrapAsSingleArgToken => match v {
            Value::Text(s) => {
                let bytes = s.as_str().as_bytes_vec();
                let mut wrapped: Vec<Vec<u8>> = Vec::new();
                wrapped.push(bytes);
                proof {
                    assert(wrapped.deep_view() =~~= seq![encode_utf8(s@)]);
                }
                WireValue::BytesList(wrapped)
            },
            _ => passthrough_exec(v),
        },
    }
}

/// The compile-time bound on a bounded-integer-list field.
pub const INPUT_FIELD_BOUND: usize = 10;

/// A list clamped to the bound: excess elements are dropped, missing
/// elements default to zero.
pub open spec fn clamped(l: Seq<i32>) -> Seq<i32> {
    Seq::new(INPUT_FIELD_BOUND as nat, |i: int| if i < l.len() { l[i] } else { 0i32 })
}

/// Clamps a bounded-integer-list value to its fixed bound: the first
/// [`INPUT_FIELD_BOUND`] supplied elements are kept, excess elements are
/// silently dropped, and missing elements default to zero.
pub fn clamp_to_bound(l: &Vec<i32>) -> (r: Vec<i32>)
    ensures
        r@ == clamped(l@),
        r@.len() == INPUT_FIELD_BOUND,
{
    let mut out: Vec<i32> = Vec::new();
    let mut k: usize = 0;
    while k < INPUT_FIELD_BOUND
        invariant
            k <= INPUT_FIELD_BOUND,
            out@.len() == k,
            forall|i: int|
                0 <= i < k ==> out@[i] == (if i < l@.len() {
                    l@[i]
                } else {
                    0i32
                }),
        decreases INPUT_FIELD_BOUND - k,
    {
        if k < l.len() {
            out.push(l[k]);
        } else {
            out.push(0);
        }
        k += 1;
    }
    proof {
        assert(out@ =~= clamped(l@));
    }
    out
}

} // verus!
