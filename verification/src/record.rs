//! Record instances: immutable value objects produced by the schema compiler
//! from one declaration and an ordered list of field values.

use vstd::prelude::*;
use crate::decl::{ChunkDeclaration, DeclV};
use crate::text::push_char;
use crate::values::{value_repr, push_value_repr, Value, ValueV};

verus! {

/// An instance of a compiled record type: the surface name it was built
/// from, and its named field values in declaration order. Category is
/// generation-time metadata and is never stored on the instance.
pub struct Record {
    /// The surface name of the record's type.
    pub surface_name: String,
    /// The named field values, in declaration order.
    pub fields: Vec<(String, Value)>,
}

/// Mathematical view of a [`Record`].
pub struct RecordV {
    pub surface_name: Seq<char>,
    pub fields: Seq<(Seq<char>, ValueV)>,
}

impl View for Record {
    type V = RecordV;

    open spec fn view(&self) -> RecordV {
        RecordV {
            surface_name: self.surface_name@,
            fields: field_views(self.fields@),
        }
    }
}

/// The views of a list of plain values.
pub open spec fn value_views(vals: Seq<Value>) -> Seq<ValueV> {
    vals.map_values(|v: Value| v@)
}

/// The views of a list of named field values.
pub open spec fn field_views(fields: Seq<(String, Value)>) -> Seq<(Seq<char>, ValueV)> {
    fields.map_values(|p: (String, Value)| (p.0@, p.1@))
}

/// The record that constructing a declared type from ordered field values
/// yields: the declaration's surface name, and the declared field names
/// paired with the supplied values, in declaration order.
pub open spec fn constructed(d: DeclV, vals: Seq<ValueV>) -> RecordV {
    RecordV {
        surface_name: d.name,
        fields: Seq::new(vals.len(), |i: int| (d.fields[i].name, vals[i])),
    }
}

/// Constructs a record instance from a declaration and ordered field values.
/// No value validation takes place here; it is deferred to encoding.
pub fn construct(decl: &ChunkDeclaration, values: Vec<Value>) -> (r: Record)
    requires
        values@.len() == decl.fields@.len(),
    ensures
        r@ == constructed(decl@, value_views(values@)),
{
    let mut fields: Vec<(String, Value)> = Vec::new();
    let n = decl.fields.len();
    let mut k: usize = 0;
    while k < n
        invariant
            n == decl.fields@.len(),
            n == values@.len(),
            k <= n,
            field_views(fields@) == Seq::new(
                k as nat,
                |i: int| (decl@.fields[i].name, values@[i]@),
            ),
        decreases n - k,
    {
        let name = decl.fields[k].name.clone();
        let value = values[k].duplicate();
        let ghost prior = fields@;
        fields.push((name, value));
        k += 1;
        proof {
            let ghost target = Seq::new(k as nat, |i: int| (decl@.fields[i].name, values@[i]@));
            assert(fields@ == prior.push((name, value)));
            assert(field_views(prior).len() == prior.len());
            assert(prior.len() == k - 1);
            assert(fields@.len() == k);
            assert(field_views(fields@).len() == k);
            assert forall|i: int| 0 <= i < k implies field_views(fields@)[i] == target[i] by {
                if i < k - 1 {
                    assert(fields@[i] == prior[i]);
                    assert(field_views(prior)[i] == (prior[i].0@, prior[i].1@));
                } else {
                    assert(fields@[i] == (name, value));
                }
            }
            assert(field_views(fields@) =~= target);
        }
    }
    let r = Record { surface_name: decl.name.clone(), fields };
    proof {
        assert(r@.fields =~= constructed(decl@, value_views(values@)).fields);
    }
    r
}

/// The ordered map view of a record: a `type` entry carrying the surface
/// name first, then every field in declaration order.
pub open spec fn map_view(rec: RecordV) -> Seq<(Seq<char>, ValueV)> {
    seq![("type"@, ValueV::Text(rec.surface_name))] + rec.fields
}

impl Record {
    /// The record's type tag: its surface name.
    pub fn type_tag(&self) -> (r: &String)
        ensures
            r@ == self@.surface_name,
    {
        &self.surface_name
    }

    /// The ordered map view of the record: the `type` key mapped to the
    /// surface name, followed by the declared fields in declaration order.
    pub fn to_map(&self) -> (r: Vec<(String, Value)>)
        ensures
            field_views(r@) == map_view(self@),
    {
        let mut out: Vec<(String, Value)> = Vec::new();
        out.push(("type".to_owned(), Value::Text(self.surface_name.clone())));
        let n = self.fields.len();
        let mut k: usize = 0;
        while k < n
            invariant
                n == self.fields@.len(),
                k <= n,
                field_views(out@) =~= map_view(self@).subrange(
                    0,
                    k + 1,
                ),
            decreases n - k,
        {
            let name = self.fields[k].0.clone();
            let value = self.fields[k].1.duplicate();
            let ghost prior = out@;
            out.push((name, value));
            k += 1;
            proof {
                let ghost target = map_view(self@).subrange(0, k + 1);
                assert(out@ == prior.push((name, value)));
                assert(field_views(prior).len() == prior.len());
                assert forall|i: int| 0 <= i < k + 1 implies field_views(out@)[i] == target[i] by {
                    if i < k {
                        assert(out@[i] == prior[i]);
                        assert(field_views(prior)[i] == (prior[i].0@, prior[i].1@));
                        assert(field_views(prior)[i] == map_view(self@).subrange(0, k as int)[i]);
                    } else {
                        assert(out@[i] == (name, value));
                        assert(target[i] == map_view(self@)[k as int]);
                        assert(map_view(self@)[k as int] == self@.fields[k - 1]);
                    }
                }
                assert(field_views(out@) =~= target);
            }
        }
        proof {
            assert(field_views(out@) =~= map_view(self@));
        }
        out
    }
}

/// Debug rendering of the first `k` fields: `name=value`, separated by comma
/// and space.
pub open spec fn fields_repr_upto(fields: Seq<(Seq<char>, ValueV)>, k: int) -> Seq<char>
    decreases k,
{
    if k <= 0 {
        Seq::empty()
    } else if k == 1 {
        fields[0].0 + seq!['='] + value_repr(fields[0].1)
    } else {
        fields_repr_upto(fields, k - 1) + ", "@ + fields[k - 1].0 + seq!['='] + value_repr(
            fields[k - 1].1,
        )
    }
}

/// Debug rendering of a record: the type name, then the fields between
/// parentheses. A record without fields renders as `Name()`.
pub open spec fn record_repr(rec: RecordV) -> Seq<char> {
    rec.surface_name + seq!['('] + fields_repr_upto(rec.fields, rec.fields.len() as int) + seq![')']
}

impl Record {
    /// Renders the record as debug text: its type name and its field values.
    pub fn repr_text(&self) -> (r: String)
        ensures
            r@ == record_repr(self@),
    {
        let mut s = self.surface_name.clone();
        push_char(&mut s, '(');
        let n = self.fields.len();
        let mut k: usize = 0;
        while k < n
            invariant
                n == self.fields@.len(),
                k <= n,
                s@ == self@.surface_name + seq!['('] + fields_repr_upto(self@.fields, k as int),
            decreases n - k,
        {
            if k > 0 {
                push_char(&mut s, ',');
                push_char(&mut s, ' ');
            }
            s.append(self.fields[k].0.as_str());
            push_char(&mut s, '=');
            push_value_repr(&mut s, &self.fields[k].1);
            k += 1;
            proof {
                assert(", "@ =~= seq![',', ' ']) by {
                    reveal_strlit(", ");
                }
                assert(s@ =~= self@.surface_name + seq!['('] + fields_repr_upto(
                    self@.fields,
                    k as int,
                ));
            }
        }
        push_char(&mut s, ')');
        proof {
            assert(s@ =~= record_repr(self@));
        }
        s
    }
}

/// Constructing a record and taking its map view yields exactly a `type`
/// entry carrying the surface name, followed by each declared field name
/// paired with the value supplied for it, in declaration order.
pub proof fn lemma_construct_to_map(d: DeclV, vals: Seq<ValueV>, m: Seq<(Seq<char>, ValueV)>)
    requires
        vals.len() == d.fields.len(),
        m == map_view(constructed(d, vals)),
    ensures
        m.len() == 1 + vals.len(),
        m[0] == ("type"@, ValueV::Text(d.name)),
        forall|i: int| 0 <= i < vals.len() ==> m[i + 1] == (d.fields[i].name, vals[i]),
{
}

} // verus!
