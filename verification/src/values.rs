//! Plain field values of record instances.

use vstd::prelude::*;
use crate::text::{dec_of_int, push_char, push_i32};

verus! {

/// A declared field value of a record instance.
#[derive(Debug, PartialEq)]
pub enum Value {
    /// A signed integer.
    Int(i32),
    /// Text.
    Text(String),
    /// A raw byte sequence.
    Bytes(Vec<u8>),
    /// A list of signed integers.
    IntList(Vec<i32>),
}

/// Mathematical view of a [`Value`].
pub enum ValueV {
    Int(i32),
    Text(Seq<char>),
    Bytes(Seq<u8>),
    IntList(Seq<i32>),
}

impl View for Value {
    type V = ValueV;

    open spec fn view(&self) -> ValueV {
        match self {
            Value::Int(i) => ValueV::Int(*i),
            Value::Text(s) => ValueV::Text(s@),
            Value::Bytes(b) => ValueV::Bytes(b@),
            Value::IntList(l) => ValueV::IntList(l@),
        }
    }
}

/// A copy of a byte vector with the same view.
pub fn copy_bytes(b: &Vec<u8>) -> (r: Vec<u8>)
    ensures
        r@ == b@,
{
    let mut copy: Vec<u8> = Vec::new();
    let mut k: usize = 0;
    while k < b.len()
        invariant
            k <= b.len(),
            copy@ == b@.subrange(0, k as int),
        decreases b.len() - k,
    {
        copy.push(b[k]);
        k += 1;
        proof {
            assert(copy@ =~= b@.subrange(0, k as int));
        }
    }
    proof {
        assert(copy@ =~= b@);
    }
    copy
}

/// A copy of an integer vector with the same view.
pub fn copy_ints(l: &Vec<i32>) -> (r: Vec<i32>)
    ensures
        r@ == l@,
{
    let mut copy: Vec<i32> = Vec::new();
    let mut k: usize = 0;
    while k < l.len()
        invariant
            k <= l.len(),
            copy@ == l@.subrange(0, k as int),
        decreases l.len() - k,
    {
        copy.push(l[k]);
        k += 1;
        proof {
            assert(copy@ =~= l@.subrange(0, k as int));
        }
    }
    proof {
        assert(copy@ =~= l@);
    }
    copy
}

/// A copy of a list of byte vectors with the same deep view.
pub fn copy_bytes_list(l: &Vec<Vec<u8>>) -> (r: Vec<Vec<u8>>)
    ensures
        r.deep_view() == l.deep_view(),
{
    let mut copy: Vec<Vec<u8>> = Vec::new();
    let mut k: usize = 0;
    while k < l.len()
        invariant
            k <= l.len(),
            copy@.len() == k,
            forall|i: int| 0 <= i < k ==> copy.deep_view()[i] == l.deep_view()[i],
        decreases l.len() - k,
    {
        copy.push(copy_bytes(&l[k]));
        k += 1;
    }
    proof {
        assert(copy.deep_view() =~~= l.deep_view());
    }
    copy
}

impl Value {
    /// A copy of the value with the same view.
    pub fn duplicate(&self) -> (r: Value)
        ensures
            r@ == self@,
    {
        match self {
            Value::Int(i) => Value::Int(*i),
            Value::Text(s) => Value::Text(s.clone()),
            Value::Bytes(b) => Value::Bytes(copy_bytes(b)),
            Value::IntList(l) => Value::IntList(copy_ints(l)),
        }
    }
}

/// Debug rendering of the first `k` elements of an integer list: decimal
/// elements separated by comma and space.
pub open spec fn int_list_repr_upto(l: Seq<i32>, k: int) -> Seq<char>
    decreases k,
{
    if k <= 0 {
        Seq::empty()
    } else if k == 1 {
        dec_of_int(l[0] as int)
    } else {
        int_list_repr_upto(l, k - 1) + ", "@ + dec_of_int(l[k - 1] as int)
    }
}

/// Debug rendering of the first `k` elements of a byte list, in decimal.
pub open spec fn byte_list_repr_upto(l: Seq<u8>, k: int) -> Seq<char>
    decreases k,
{
    if k <= 0 {
        Seq::empty()
    } else if k == 1 {
        dec_of_int(l[0] as int)
    } else {
        byte_list_repr_upto(l, k - 1) + ", "@ + dec_of_int(l[k - 1] as int)
    }
}

/// Debug rendering of a value: integers in decimal, text in double quotes,
/// byte sequences and integer lists as bracketed decimal element lists.
pub open spec fn value_repr(v: ValueV) -> Seq<char> {
    match v {
        ValueV::Int(i) => dec_of_int(i as int),
        ValueV::Text(s) => seq!['"'] + s + seq!['"'],
        ValueV::Bytes(b) => seq!['['] + byte_list_repr_upto(b, b.len() as int) + seq![']'],
        ValueV::IntList(l) => seq!['['] + int_list_repr_upto(l, l.len() as int) + seq![']'],
    }
}

/// Appends the debug rendering of `v` to `s`.
pub fn push_value_repr(s: &mut String, v: &Value)
    ensures
        final(s)@ == old(s)@ + value_repr(v@),
{
    match v {
        Value::Int(i) => {
            push_i32(s, *i);
        },
        Value::Text(t) => {
            push_char(s, '"');
            s.append(t.as_str());
            push_char(s, '"');
            proof {
                assert(final(s)@ =~= old(s)@ + value_repr(v@));
            }
        },
        Value::Bytes(b) => {
            push_char(s, '[');
            let n = b.len();
            let mut k: usize = 0;
            while k < n
                invariant
                    n == b@.len(),
                    k <= n,
                    s@ == old(s)@ + seq!['['] + byte_list_repr_upto(b@, k as int),
                decreases n - k,
            {
                if k > 0 {
                    push_char(s, ',');
                    push_char(s, ' ');
                }
                push_i32(s, b[k] as i32);
                k += 1;
                proof {
                    if k == 1 {
                        assert(byte_list_repr_upto(b@, 1) == dec_of_int(b@[0] as int));
                    }
                    assert(", "@ =~= seq![',', ' ']) by {
                        reveal_strlit(", ");
                    }
                    assert(s@ =~= old(s)@ + seq!['['] + byte_list_repr_upto(b@, k as int));
                }
            }
            push_char(s, ']');
            proof {
                assert(final(s)@ =~= old(s)@ + value_repr(v@));
            }
        },
        Value::IntList(l) => {
            push_char(s, '[');
            let n = l.len();
            let mut k: usize = 0;
            while k < n
                invariant
                    n == l@.len(),
                    k <= n,
                    s@ == old(s)@ + seq!['['] + int_list_repr_upto(l@, k as int),
                decreases n - k,
            {
                if k > 0 {
                    push_char(s, ',');
                    push_char(s, ' ');
                }
                push_i32(s, l[k]);
                k += 1;
                proof {
                    if k == 1 {
                        assert(int_list_repr_upto(l@, 1) == dec_of_int(l@[0] as int));
                    }
                    assert(", "@ =~= seq![',', ' ']) by {
                        reveal_strlit(", ");
                    }
                    assert(s@ =~= old(s)@ + seq!['['] + int_list_repr_upto(l@, k as int));
                }
            }
            push_char(s, ']');
            proof {
                assert(final(s)@ =~= old(s)@ + value_repr(v@));
            }
        },
    }
}

} // verus!
