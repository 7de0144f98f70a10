//! The schema compiler's encoding path: converting a record's declared field
//! values into wire-ready values, binding them to the wire record the
//! declaration's shape names, and encoding the result through the codec.

use vstd::prelude::*;
use crate::convert::{clamp_to_bound, clamped, convert, convert_spec, WireValue, WireValueV};
use crate::decl::{ChunkDeclaration, DeclV, WireShape, WireShapeV};
use crate::errors::EncodeError;
use crate::record::{Record, RecordV};
use crate::values::{copy_bytes, copy_bytes_list};
use crate::wire::{encode_wire, wire_bytes, WireChunk, WireForm};

verus! {

/// The views of a list of wire values.
pub open spec fn wire_value_views(vals: Seq<WireValue>) -> Seq<WireValueV> {
    vals.map_values(|w: WireValue| w@)
}

/// Decides whether a surface string equals a literal tag.
fn tag_is(tag: &String, lit: &str) -> (r: bool)
    ensures
        r == (tag@ == lit@),
{
    let owned = lit.to_owned();
    *tag == owned
}

/// The wire record that a tag and a list of wire-ready values bind to, if
/// the catalog knows the tag and the values fit its wire fields in arity and
/// kind. A bounded-integer-list wire field clamps its value to the fixed
/// bound.
pub open spec fn bind_spec(tag: Seq<char>, vals: Seq<WireValueV>) -> Option<WireForm> {
    if tag == "Join"@ {
        if vals.len() == 1 {
            match vals[0] {
                WireValueV::Int(cid) => Some(WireForm::Join { cid }),
                _ => None,
            }
        } else {
            None
        }
    } else if tag == "JoinVer6"@ {
        if vals.len() == 1 {
            match vals[0] {
                WireValueV::Int(cid) => Some(WireForm::JoinVer6 { cid }),
                _ => None,
            }
        } else {
            None
        }
    } else if tag == "Drop"@ {
        if vals.len() == 2 {
            match (vals[0], vals[1]) {
                (WireValueV::Int(cid), WireValueV::Bytes(reason)) => Some(
                    WireForm::Drop { cid, reason },
                ),
                _ => None,
            }
        } else {
            None
        }
    } else if tag == "PlayerNew"@ {
        if vals.len() == 3 {
            match (vals[0], vals[1], vals[2]) {
                (WireValueV::Int(cid), WireValueV::Int(x), WireValueV::Int(y)) => Some(
                    WireForm::PlayerNew { cid, x, y },
                ),
                _ => None,
            }
        } else {
            None
        }
    } else if tag == "PlayerOld"@ {
        if vals.len() == 1 {
            match vals[0] {
                WireValueV::Int(cid) => Some(WireForm::PlayerOld { cid }),
                _ => None,
            }
        } else {
            None
        }
    } else if tag == "PlayerName"@ {
        if vals.len() == 2 {
            match (vals[0], vals[1]) {
                (WireValueV::Int(cid), WireValueV::Bytes(name)) => Some(
                    WireForm::PlayerName { cid, name },
                ),
                _ => None,
            }
        } else {
            None
        }
    } else if tag == "PlayerDiff"@ {
        if vals.len() == 3 {
            match (vals[0], vals[1], vals[2]) {
                (WireValueV::Int(cid), WireValueV::Int(dx), WireValueV::Int(dy)) => Some(
                    WireForm::PlayerDiff { cid, dx, dy },
                ),
                _ => None,
            }
        } else {
            None
        }
    } else if tag == "InputNew"@ {
        if vals.len() == 2 {
            match (vals[0], vals[1]) {
                (WireValueV::Int(cid), WireValueV::IntList(l)) => Some(
                    WireForm::InputNew { cid, input: clamped(l) },
                ),
                _ => None,
            }
        } else {
            None
        }
    } else if tag == "InputDiff"@ {
        if vals.len() == 2 {
            match (vals[0], vals[1]) {
                (WireValueV::Int(cid), WireValueV::IntList(l)) => Some(
                    WireForm::InputDiff { cid, dinput: clamped(l) },
                ),
                _ => None,
            }
        } else {
            None
        }
    } else if tag == "NetMessage"@ {
        if vals.len() == 2 {
            match (vals[0], vals[1]) {
                (WireValueV::Int(cid), WireValueV::Bytes(msg)) => Some(
                    WireForm::NetMessage { cid, msg },
                ),
                _ => None,
            }
        } else {
            None
        }
    } else if tag == "ConsoleCommand"@ {
        if vals.len() == 4 {
            match (vals[0], vals[1], vals[2], vals[3]) {
                (
                    WireValueV::Int(cid),
                    WireValueV::Int(flags),
                    WireValueV::Bytes(cmd),
                    WireValueV::BytesList(args),
                ) => Some(WireForm::ConsoleCommand { cid, flags, cmd, args }),
                _ => None,
            }
        } else {
            None
        }
    } else if tag == "AuthLogin"@ {
        if vals.len() == 3 {
            match (vals[0], vals[1], vals[2]) {
                (WireValueV::Int(cid), WireValueV::Int(level), WireValueV::Bytes(auth_name)) => {
                    Some(WireForm::AuthLogin { cid, level, auth_name })
                },
                _ => None,
            }
        } else {
            None
        }
    } else if tag == "DdnetVersion"@ {
        if vals.len() == 4 {
            match (vals[0], vals[1], vals[2], vals[3]) {
                (
                    WireValueV::Int(cid),
                    WireValueV::Token(connection_id),
                    WireValueV::Int(version),
                    WireValueV::Bytes(version_str),
                ) => Some(WireForm::DdnetVersion { cid, connection_id, version, version_str }),
                _ => None,
            }
        } else {
            None
        }
    } else if tag == "TickSkip"@ {
        if vals.len() == 1 {
            match vals[0] {
                WireValueV::Int(dt) => Some(WireForm::TickSkip { dt }),
                _ => None,
            }
        } else {
            None
        }
    } else if tag == "TeamLoadSuccess"@ {
        if vals.len() == 3 {
            match (vals[0], vals[1], vals[2]) {
                (WireValueV::Int(team), WireValueV::Token(save_id), WireValueV::Bytes(save)) => {
                    Some(WireForm::TeamLoadSuccess { team, save_id, save })
                },
                _ => None,
            }
        } else {
            None
        }
    } else if tag == "TeamLoadFailure"@ {
        if vals.len() == 1 {
            match vals[0] {
                WireValueV::Int(team) => Some(WireForm::TeamLoadFailure { team }),
                _ => None,
            }
        } else {
            None
        }
    } else if tag == "Antibot"@ {
        if vals.len() == 1 {
            match vals[0] {
                WireValueV::Bytes(data) => Some(WireForm::Antibot { data }),
                _ => None,
            }
        } else {
            None
        }
    } else if tag == "Eos"@ {
        if vals.len() == 0 {
            Some(WireForm::Eos)
        } else {
            None
        }
    } else {
        None
    }
}

/// Binds a tag and wire-ready values to a wire record, or nothing when the
/// tag is unknown or the values do not fit its wire fields. A successful
/// binding is structurally well formed.
pub fn bind_wire(tag: &String, vals: &Vec<WireValue>) -> (r: Option<WireChunk>)
    ensures
        bind_spec(tag@, wire_value_views(vals@)) matches Some(f) ==> (r matches Some(c) && c@ == f
            && c.wf()),
        bind_spec(tag@, wire_value_views(vals@)) is None ==> r is None,
{
    proof {
        assert(wire_value_views(vals@).len() == vals@.len());
        assert(forall|i: int|
            0 <= i < vals@.len() ==> wire_value_views(vals@)[i] == vals@[i]@);
    }
    if tag_is(tag, "Join") {
        if vals.len() == 1 {
            match &vals[0] {
                WireValue::Int(cid) => Some(WireChunk::Join { cid: *cid }),
                _ => None,
            }
        } else {
            None
        }
    } else if tag_is(tag, "JoinVer6") {
        if vals.len() == 1 {
            match &vals[0] {
                WireValue::Int(cid) => Some(WireChunk::JoinVer6 { cid: *cid }),
                _ => None,
            }
        } else {
            None
        }
    } else if tag_is(tag, "Drop") {
        if vals.len() == 2 {
            match (&vals[0], &vals[1]) {
                (WireValue::Int(cid), WireValue::Bytes(reason)) => Some(
                    WireChunk::Drop { cid: *cid, reason: copy_bytes(reason) },
                ),
                _ => None,
            }
        } else {
            None
        }
    } else if tag_is(tag, "PlayerNew") {
        if vals.len() == 3 {
            match (&vals[0], &vals[1], &vals[2]) {
                (WireValue::Int(cid), WireValue::Int(x), WireValue::Int(y)) => Some(
                    WireChunk::PlayerNew { cid: *cid, x: *x, y: *y },
                ),
                _ => None,
            }
        } else {
            None
        }
    } else if tag_is(tag, "PlayerOld") {
        if vals.len() == 1 {
            match &vals[0] {
                WireValue::Int(cid) => Some(WireChunk::PlayerOld { cid: *cid }),
                _ => None,
            }
        } else {
            None
        }
    } else if tag_is(tag, "PlayerName") {
        if vals.len() == 2 {
            match (&vals[0], &vals[1]) {
                (WireValue::Int(cid), WireValue::Bytes(name)) => Some(
                    WireChunk::PlayerName { cid: *cid, name: copy_bytes(name) },
                ),
                _ => None,
            }
        } else {
            None
        }
    } else if tag_is(tag, "PlayerDiff") {
        if vals.len() == 3 {
            match (&vals[0], &vals[1], &vals[2]) {
                (WireValue::Int(cid), WireValue::Int(dx), WireValue::Int(dy)) => Some(
                    WireChunk::PlayerDiff { cid: *cid, dx: *dx, dy: *dy },
                ),
                _ => None,
            }
        } else {
            None
        }
    } else if tag_is(tag, "InputNew") {
        if vals.len() == 2 {
            match (&vals[0], &vals[1]) {
                (WireValue::Int(cid), WireValue::IntList(l)) => Some(
                    WireChunk::InputNew { cid: *cid, input: clamp_to_bound(l) },
                ),
                _ => None,
            }
        } else {
            None
        }
    } else if tag_is(tag, "InputDiff") {
        if vals.len() == 2 {
            match (&vals[0], &vals[1]) {
                (WireValue::Int(cid), WireValue::IntList(l)) => Some(
                    WireChunk::InputDiff { cid: *cid, dinput: clamp_to_bound(l) },
                ),
                _ => None,
            }
        } else {
            None
        }
    } else if tag_is(tag, "NetMessage") {
        if vals.len() == 2 {
            match (&vals[0], &vals[1]) {
                (WireValue::Int(cid), WireValue::Bytes(msg)) => Some(
                    WireChunk::NetMessage { cid: *cid, msg: copy_bytes(msg) },
                ),
                _ => None,
            }
        } else {
            None
        }
    } else if tag_is(tag, "ConsoleCommand") {
        if vals.len() == 4 {
            match (&vals[0], &vals[1], &vals[2], &vals[3]) {
                (
                    WireValue::Int(cid),
                    WireValue::Int(flags),
                    WireValue::Bytes(cmd),
                    WireValue::BytesList(args),
                ) => Some(
                    WireChunk::ConsoleCommand {
                        cid: *cid,
                        flags: *flags,
                        cmd: copy_bytes(cmd),
                        args: copy_bytes_list(args),
                    },
                ),
                _ => None,
            }
        } else {
            None
        }
    } else if tag_is(tag, "AuthLogin") {
        if vals.len() == 3 {
            match (&vals[0], &vals[1], &vals[2]) {
                (WireValue::Int(cid), WireValue::Int(level), WireValue::Bytes(auth_name)) => Some(
                    WireChunk::AuthLogin {
                        cid: *cid,
                        level: *level,
                        auth_name: copy_bytes(auth_name),
                    },
                ),
                _ => None,
            }
        } else {
            None
        }
    } else if tag_is(tag, "DdnetVersion") {
        if vals.len() == 4 {
            match (&vals[0], &vals[1], &vals[2], &vals[3]) {
                (
                    WireValue::Int(cid),
                    WireValue::Token(connection_id),
                    WireValue::Int(version),
                    WireValue::Bytes(version_str),
                ) => Some(
                    WireChunk::DdnetVersion {
                        cid: *cid,
                        connection_id: *connection_id,
                        version: *version,
                        version_str: copy_bytes(version_str),
                    },
                ),
                _ => None,
            }
        } else {
            None
        }
    } else if tag_is(tag, "TickSkip") {
        if vals.len() == 1 {
            match &vals[0] {
                WireValue::Int(dt) => Some(WireChunk::TickSkip { dt: *dt }),
                _ => None,
            }
        } else {
            None
        }
    } else if tag_is(tag, "TeamLoadSuccess") {
        if vals.len() == 3 {
            match (&vals[0], &vals[1], &vals[2]) {
                (WireValue::Int(team), WireValue::Token(save_id), WireValue::Bytes(save)) => Some(
                    WireChunk::TeamLoadSuccess {
                        team: *team,
                        save_id: *save_id,
                        save: copy_bytes(save),
                    },
                ),
                _ => None,
            }
        } else {
            None
        }
    } else if tag_is(tag, "TeamLoadFailure") {
        if vals.len() == 1 {
            match &vals[0] {
                WireValue::Int(team) => Some(WireChunk::TeamLoadFailure { team: *team }),
                _ => None,
            }
        } else {
            None
        }
    } else if tag_is(tag, "Antibot") {
        if vals.len() == 1 {
            match &vals[0] {
                WireValue::Bytes(data) => Some(WireChunk::Antibot { data: copy_bytes(data) }),
                _ => None,
            }
        } else {
            None
        }
    } else if tag_is(tag, "Eos") {
        if vals.len() == 0 {
            Some(WireChunk::Eos)
        } else {
            None
        }
    } else {
        None
    }
}

/// The wire tag a shape encodes under, if the shape has one.
pub open spec fn shape_tag(s: WireShapeV) -> Option<Seq<char>> {
    match s {
        WireShapeV::TupleVariant { tag } => Some(tag),
        WireShapeV::TupleVariantNamedStruct { tag, .. } => Some(tag),
        WireShapeV::InlineStruct { tag } => Some(tag),
        WireShapeV::UnitVariant { tag } => Some(tag),
        WireShapeV::Manual => None,
    }
}

/// The wire-ready values of a record's fields under a declaration's
/// conversions, in declaration order.
pub open spec fn converted_values(d: DeclV, rec: RecordV) -> Seq<WireValueV> {
    Seq::new(rec.fields.len(), |i: int| convert_spec(rec.fields[i].1, d.fields[i].conversion))
}

/// The wire record a declaration and a record instance encode as, if any:
/// the instance's values, converted field by field, bound under the shape's
/// wire tag.
pub open spec fn record_wire_form(d: DeclV, rec: RecordV) -> Option<WireForm> {
    match shape_tag(d.shape) {
        Some(tag) => bind_spec(tag, converted_values(d, rec)),
        None => None,
    }
}

/// Encodes a record instance under its declaration: converts every field
/// value, binds the results to the declared wire record, and encodes it.
///
/// Returns the error kind for a value the codec rejects, for a declaration
/// without a wire mapping (a manual shape), and for values that do not fit
/// the declared wire record. Success is owed whenever the bound wire record
/// is one the codec accepts; the bytes of every successful encoding are
/// exactly [`wire_bytes`] of the bound form.
pub fn encode_record(decl: &ChunkDeclaration, rec: &Record) -> (r: Result<Vec<u8>, EncodeError>)
    requires
        rec@.fields.len() == decl@.fields.len(),
    ensures
        record_wire_form(decl@, rec@) is None ==> r is Err,
        (record_wire_form(decl@, rec@) matches Some(f) && f.fits()) ==> r is Ok,
        r matches Ok(b) ==> (record_wire_form(decl@, rec@) matches Some(f) && b@ == wire_bytes(f)),
{
    let tag: &String = match &decl.shape {
        WireShape::TupleVariant { tag } => tag,
        WireShape::TupleVariantNamedStruct { tag, .. } => tag,
        WireShape::InlineStruct { tag } => tag,
        WireShape::UnitVariant { tag } => tag,
        WireShape::Manual => {
            return Err(
                EncodeError {
                    cause: "the declaration has a hand-specified wire mapping, not a shape the compiler encodes".to_owned(),
                },
            );
        },
    };
    let n = rec.fields.len();
    let mut wvals: Vec<WireValue> = Vec::new();
    let mut k: usize = 0;
    while k < n
        invariant
            n == rec.fields@.len(),
            n == decl.fields@.len(),
            k <= n,
            wire_value_views(wvals@) == converted_values(decl@, rec@).subrange(0, k as int),
        decreases n - k,
    {
        let ghost prior = wvals@;
        let w = convert(&rec.fields[k].1, decl.fields[k].conversion);
        wvals.push(w);
        k += 1;
        proof {
            assert(wvals@ == prior.push(w));
            assert(wire_value_views(prior).len() == prior.len());
            assert(wire_value_views(wvals@) =~= converted_values(decl@, rec@).subrange(
                0,
                k as int,
            ));
        }
    }
    proof {
        assert(wire_value_views(wvals@) =~= converted_values(decl@, rec@));
    }
    match bind_wire(tag, &wvals) {
        Some(chunk) => encode_wire(&chunk),
        None => Err(
            EncodeError {
                cause: "the converted values do not fit the declared wire record".to_owned(),
            },
        ),
    }
}

/// Encoding a record is deterministic: any two successful encodings of one
/// record under one declaration are byte-identical.
pub proof fn lemma_encode_record_deterministic(
    d: DeclV,
    rec: RecordV,
    b1: Seq<u8>,
    b2: Seq<u8>,
)
    requires
        record_wire_form(d, rec) matches Some(f) && b1 == wire_bytes(f),
        record_wire_form(d, rec) matches Some(f) && b2 == wire_bytes(f),
    ensures
        b1 == b2,
{
}

} // verus!
