//! The hand-specified records of the chunk catalog: the value types whose
//! wire mapping lies outside the schema compiler's four shape patterns, each
//! an immutable value object with a constructor, map view, textual rendering
//! and encoder.

use vstd::prelude::*;
use crate::convert::clamped;
use crate::convert::clamp_to_bound;
use crate::errors::{EncodeError, HostError};
use crate::ident::parse_identifier_or_zero;
use crate::ident::parsed_or_zero;
use crate::record::{field_views, map_view, record_repr, Record, RecordV};
use crate::text::{dec_of, hex_of_byte, push_char, push_hex_byte, push_u64};
use crate::values::{copy_bytes, Value, ValueV};
use crate::wire::{encode_wire, wire_bytes, WireChunk, WireForm};

verus! {

/// Base trait for all chunk types that can be written to the teehistorian
/// wire format.
pub trait TeehistorianChunk {
    /// The wire form this chunk encodes as.
    spec fn wire_form(&self) -> WireForm;

    /// The record view of this chunk: its surface name and named fields.
    spec fn record_view(&self) -> RecordV;

    /// Converts this chunk to its wire value tree.
    fn to_teehistorian_chunk(&self) -> (r: WireChunk)
        ensures
            r@ == self.wire_form(),
            r.wf(),
    ;

    /// The chunk's type tag: its surface name.
    fn chunk_type(&self) -> (r: String)
        ensures
            r@ == self.record_view().surface_name,
    ;

    /// The ordered map view: the `type` key first, then every field in
    /// declaration order.
    fn to_dict(&self) -> (r: Vec<(String, Value)>)
        ensures
            field_views(r@) == map_view(self.record_view()),
    ;

    /// The textual rendering: the surface name and the field values.
    fn repr_text(&self) -> (r: String)
        ensures
            r@ == record_repr(self.record_view()),
    ;

    /// Serializes this chunk to bytes through the wire codec. Success is
    /// owed for every wire form the codec accepts; successful encodings are
    /// exactly the named bytes of the wire form, so encoding is
    /// deterministic.
    fn write_to_buffer(&self) -> (r: Result<Vec<u8>, EncodeError>)
        ensures
            self.wire_form().fits() ==> r is Ok,
            r matches Ok(b) ==> b@ == wire_bytes(self.wire_form()),
    ;
}

/// The host-facing methods every chunk offers: rendering, the type tag, and
/// serialization with errors mapped onto the host's exception model.
pub trait PyChunkMethods {
    /// The wire form this chunk encodes as.
    spec fn py_wire_form(&self) -> WireForm;

    /// The record view of this chunk.
    spec fn py_record_view(&self) -> RecordV;

    /// The textual rendering of the chunk.
    fn py_repr(&self) -> (r: String)
        ensures
            r@ == record_repr(self.py_record_view()),
    ;

    /// The chunk's type tag.
    fn py_chunk_type(&self) -> (r: String)
        ensures
            r@ == self.py_record_view().surface_name,
    ;

    /// Serializes the chunk, mapping an encoding failure onto the host's
    /// genuine-error kind (never the end-of-iteration signal).
    fn py_write_to_buffer(&self) -> (r: Result<Vec<u8>, HostError>)
        ensures
            self.py_wire_form().fits() ==> r is Ok,
            r matches Ok(b) ==> b@ == wire_bytes(self.py_wire_form()),
            r matches Err(h) ==> h is Error,
    ;
}

impl<T: TeehistorianChunk> PyChunkMethods for T {
    open spec fn py_wire_form(&self) -> WireForm {
        self.wire_form()
    }

    open spec fn py_record_view(&self) -> RecordV {
        self.record_view()
    }

    fn py_repr(&self) -> (r: String) {
        self.repr_text()
    }

    fn py_chunk_type(&self) -> (r: String) {
        self.chunk_type()
    }

    fn py_write_to_buffer(&self) -> (r: Result<Vec<u8>, HostError>) {
        match self.write_to_buffer() {
            Ok(b) => Ok(b),
            Err(e) => Err(HostError::Error(e.message())),
        }
    }
}

/// The hex preview of the first `k` bytes: two lower-case digits per byte,
/// separated by single spaces.
pub open spec fn hex_join_upto(b: Seq<u8>, k: int) -> Seq<char>
    decreases k,
{
    if k <= 0 {
        Seq::empty()
    } else if k == 1 {
        hex_of_byte(b[0])
    } else {
        hex_join_upto(b, k - 1) + seq![' '] + hex_of_byte(b[k - 1])
    }
}

/// The preview text of a byte payload: the hex of at most the first 32
/// bytes, then the total length — with an ellipsis when bytes were cut.
pub open spec fn preview_text(data: Seq<u8>) -> Seq<char> {
    if data.len() > 32 {
        hex_join_upto(data, 32) + "... ("@ + dec_of(data.len()) + " bytes total)"@
    } else {
        hex_join_upto(data, data.len() as int) + " ("@ + dec_of(data.len()) + " bytes)"@
    }
}

/// Renders the preview text of a byte payload.
fn render_preview(data: &Vec<u8>) -> (r: String)
    ensures
        r@ == preview_text(data@),
{
    let mut s = String::new();
    let n = data.len();
    let shown: usize = if n < 32 {
        n
    } else {
        32
    };
    let mut k: usize = 0;
    while k < shown
        invariant
            n == data@.len(),
            shown <= n,
            k <= shown,
            s@ == hex_join_upto(data@, k as int),
        decreases shown - k,
    {
        if k > 0 {
            push_char(&mut s, ' ');
        }
        push_hex_byte(&mut s, data[k]);
        k += 1;
        proof {
            if k == 1 {
                assert(hex_join_upto(data@, 1) == hex_of_byte(data@[0]));
            }
            assert(s@ =~= hex_join_upto(data@, k as int));
        }
    }
    if n > 32 {
        s.append("... (");
        push_u64(&mut s, n as u64);
        s.append(" bytes total)");
    } else {
        s.append(" (");
        push_u64(&mut s, n as u64);
        s.append(" bytes)");
    }
    proof {
        assert(s@ =~= preview_text(data@));
    }
    s
}

/// Player becomes ready to play. Has no wire record of its own; it encodes
/// as a player-name record with an empty name.
pub struct PyPlayerReady {
    /// The client id.
    pub client_id: i32,
}

impl PyPlayerReady {
    /// A new chunk from its field values.
    pub fn new(client_id: i32) -> (r: Self)
        ensures
            r.client_id == client_id,
    {
        PyPlayerReady { client_id }
    }
}

impl TeehistorianChunk for PyPlayerReady {
    open spec fn wire_form(&self) -> WireForm {
        WireForm::PlayerName { cid: self.client_id, name: Seq::empty() }
    }

    open spec fn record_view(&self) -> RecordV {
        RecordV {
            surface_name: "PlayerReady"@,
            fields: seq![("client_id"@, ValueV::Int(self.client_id))],
        }
    }

    fn to_teehistorian_chunk(&self) -> (r: WireChunk) {
        let r = WireChunk::PlayerName { cid: self.client_id, name: Vec::new() };
        proof {
            assert(r@ =~~= self.wire_form());
        }
        r
    }

    fn chunk_type(&self) -> (r: String) {
        "PlayerReady".to_owned()
    }

    fn to_dict(&self) -> (r: Vec<(String, Value)>) {
        let mut out: Vec<(String, Value)> = Vec::new();
        out.push(("type".to_owned(), Value::Text("PlayerReady".to_owned())));
        out.push(("client_id".to_owned(), Value::Int(self.client_id)));
        proof {
            assert(field_views(out@) =~= map_view(self.record_view()));
        }
        out
    }

    fn repr_text(&self) -> (r: String) {
        let rec = Record {
            surface_name: "PlayerReady".to_owned(),
            fields: vec![("client_id".to_owned(), Value::Int(self.client_id))],
        };
        proof {
            assert(rec@.fields =~= self.record_view().fields);
        }
        rec.repr_text()
    }

    fn write_to_buffer(&self) -> (r: Result<Vec<u8>, EncodeError>) {
        encode_wire(&self.to_teehistorian_chunk())
    }
}

/// Player changes team. Has no wire record of its own; it encodes as a
/// player-name record with an empty name.
pub struct PyPlayerTeam {
    /// The client id.
    pub client_id: i32,
    /// The team joined.
    pub team: i32,
}

impl PyPlayerTeam {
    /// A new chunk from its field values.
    pub fn new(client_id: i32, team: i32) -> (r: Self)
        ensures
            r.client_id == client_id,
            r.team == team,
    {
        PyPlayerTeam { client_id, team }
    }
}

impl TeehistorianChunk for PyPlayerTeam {
    open spec fn wire_form(&self) -> WireForm {
        WireForm::PlayerName { cid: self.client_id, name: Seq::empty() }
    }

    open spec fn record_view(&self) -> RecordV {
        RecordV {
            surface_name: "PlayerTeam"@,
            fields: seq![
                ("client_id"@, ValueV::Int(self.client_id)),
                ("team"@, ValueV::Int(self.team)),
            ],
        }
    }

    fn to_teehistorian_chunk(&self) -> (r: WireChunk) {
        let r = WireChunk::PlayerName { cid: self.client_id, name: Vec::new() };
        proof {
            assert(r@ =~~= self.wire_form());
        }
        r
    }

    fn chunk_type(&self) -> (r: String) {
        "PlayerTeam".to_owned()
    }

    fn to_dict(&self) -> (r: Vec<(String, Value)>) {
        let mut out: Vec<(String, Value)> = Vec::new();
        out.push(("type".to_owned(), Value::Text("PlayerTeam".to_owned())));
        out.push(("client_id".to_owned(), Value::Int(self.client_id)));
        out.push(("team".to_owned(), Value::Int(self.team)));
        proof {
            assert(field_views(out@) =~= map_view(self.record_view()));
        }
        out
    }

    fn repr_text(&self) -> (r: String) {
        let rec = Record {
            surface_name: "PlayerTeam".to_owned(),
            fields: vec![
                ("client_id".to_owned(), Value::Int(self.client_id)),
                ("team".to_owned(), Value::Int(self.team)),
            ],
        };
        proof {
            assert(rec@.fields =~= self.record_view().fields);
        }
        rec.repr_text()
    }

    fn write_to_buffer(&self) -> (r: Result<Vec<u8>, EncodeError>) {
        encode_wire(&self.to_teehistorian_chunk())
    }
}

/// New player input state; the input list is clamped to the wire bound.
pub struct PyInputNew {
    /// The client id.
    pub client_id: i32,
    /// The input values; the wire keeps the first ten, padding with zeros.
    pub input: Vec<i32>,
}

impl PyInputNew {
    /// A new chunk from its field values.
    pub fn new(client_id: i32, input: Vec<i32>) -> (r: Self)
        ensures
            r.client_id == client_id,
            r.input@ == input@,
    {
        PyInputNew { client_id, input }
    }
}

impl TeehistorianChunk for PyInputNew {
    open spec fn wire_form(&self) -> WireForm {
        WireForm::InputNew { cid: self.client_id, input: clamped(self.input@) }
    }

    open spec fn record_view(&self) -> RecordV {
        RecordV {
            surface_name: "InputNew"@,
            fields: seq![
                ("client_id"@, ValueV::Int(self.client_id)),
                ("input"@, ValueV::IntList(self.input@)),
            ],
        }
    }

    fn to_teehistorian_chunk(&self) -> (r: WireChunk) {
        WireChunk::InputNew { cid: self.client_id, input: clamp_to_bound(&self.input) }
    }

    fn chunk_type(&self) -> (r: String) {
        "InputNew".to_owned()
    }

    fn to_dict(&self) -> (r: Vec<(String, Value)>) {
        let mut out: Vec<(String, Value)> = Vec::new();
        out.push(("type".to_owned(), Value::Text("InputNew".to_owned())));
        out.push(("client_id".to_owned(), Value::Int(self.client_id)));
        out.push(("input".to_owned(), Value::IntList(crate::values::copy_ints(&self.input))));
        proof {
            assert(field_views(out@) =~= map_view(self.record_view()));
        }
        out
    }

    fn repr_text(&self) -> (r: String) {
        let rec = Record {
            surface_name: "InputNew".to_owned(),
            fields: vec![
                ("client_id".to_owned(), Value::Int(self.client_id)),
                ("input".to_owned(), Value::IntList(crate::values::copy_ints(&self.input))),
            ],
        };
        proof {
            assert(rec@.fields =~= self.record_view().fields);
        }
        rec.repr_text()
    }

    fn write_to_buffer(&self) -> (r: Result<Vec<u8>, EncodeError>) {
        encode_wire(&self.to_teehistorian_chunk())
    }
}

/// Player input difference from the previous state; the input list is
/// clamped to the wire bound.
pub struct PyInputDiff {
    /// The client id.
    pub client_id: i32,
    /// The input difference values; the wire keeps the first ten, padding
    /// with zeros.
    pub input: Vec<i32>,
}

impl PyInputDiff {
    /// A new chunk from its field values.
    pub fn new(client_id: i32, input: Vec<i32>) -> (r: Self)
        ensures
            r.client_id == client_id,
            r.input@ == input@,
    {
        PyInputDiff { client_id, input }
    }
}

impl TeehistorianChunk for PyInputDiff {
    open spec fn wire_form(&self) -> WireForm {
        WireForm::InputDiff { cid: self.client_id, dinput: clamped(self.input@) }
    }

    open spec fn record_view(&self) -> RecordV {
        RecordV {
            surface_name: "InputDiff"@,
            fields: seq![
                ("client_id"@, ValueV::Int(self.client_id)),
                ("input"@, ValueV::IntList(self.input@)),
            ],
        }
    }

    fn to_teehistorian_chunk(&self) -> (r: WireChunk) {
        WireChunk::InputDiff { cid: self.client_id, dinput: clamp_to_bound(&self.input) }
    }

    fn chunk_type(&self) -> (r: String) {
        "InputDiff".to_owned()
    }

    fn to_dict(&self) -> (r: Vec<(String, Value)>) {
        let mut out: Vec<(String, Value)> = Vec::new();
        out.push(("type".to_owned(), Value::Text("InputDiff".to_owned())));
        out.push(("client_id".to_owned(), Value::Int(self.client_id)));
        out.push(("input".to_owned(), Value::IntList(crate::values::copy_ints(&self.input))));
        proof {
            assert(field_views(out@) =~= map_view(self.record_view()));
        }
        out
    }

    fn repr_text(&self) -> (r: String) {
        let rec = Record {
            surface_name: "InputDiff".to_owned(),
            fields: vec![
                ("client_id".to_owned(), Value::Int(self.client_id)),
                ("input".to_owned(), Value::IntList(crate::values::copy_ints(&self.input))),
            ],
        };
        proof {
            assert(rec@.fields =~= self.record_view().fields);
        }
        rec.repr_text()
    }

    fn write_to_buffer(&self) -> (r: Result<Vec<u8>, EncodeError>) {
        encode_wire(&self.to_teehistorian_chunk())
    }
}

/// Unknown chunk carrying an unregistered identifier and raw bytes. It
/// encodes as an extension-tag entry with the parsed — or zero-default —
/// identifier and the bytes.
pub struct PyUnknown {
    /// The identifier token text.
    pub uuid: String,
    /// The raw payload bytes.
    pub data: Vec<u8>,
}

impl PyUnknown {
    /// A new chunk from its field values.
    pub fn new(uuid: String, data: Vec<u8>) -> (r: Self)
        ensures
            r.uuid@ == uuid@,
            r.data@ == data@,
    {
        PyUnknown { uuid, data }
    }

    /// A short hex preview of the payload: at most the first 32 bytes, and
    /// the total length.
    pub fn data_preview(&self) -> (r: String)
        ensures
            r@ == preview_text(self.data@),
    {
        render_preview(&self.data)
    }
}

impl TeehistorianChunk for PyUnknown {
    open spec fn wire_form(&self) -> WireForm {
        WireForm::UnknownEx { uuid: parsed_or_zero(self.uuid@), data: self.data@ }
    }

    open spec fn record_view(&self) -> RecordV {
        RecordV {
            surface_name: "Unknown"@,
            fields: seq![
                ("uuid"@, ValueV::Text(self.uuid@)),
                ("data"@, ValueV::Bytes(self.data@)),
            ],
        }
    }

    fn to_teehistorian_chunk(&self) -> (r: WireChunk) {
        let token = parse_identifier_or_zero(self.uuid.as_str());
        WireChunk::UnknownEx { uuid: token, data: copy_bytes(&self.data) }
    }

    fn chunk_type(&self) -> (r: String) {
        "Unknown".to_owned()
    }

    fn to_dict(&self) -> (r: Vec<(String, Value)>) {
        let mut out: Vec<(String, Value)> = Vec::new();
        out.push(("type".to_owned(), Value::Text("Unknown".to_owned())));
        out.push(("uuid".to_owned(), Value::Text(self.uuid.clone())));
        out.push(("data".to_owned(), Value::Bytes(copy_bytes(&self.data))));
        proof {
            assert(field_views(out@) =~= map_view(self.record_view()));
        }
        out
    }

    fn repr_text(&self) -> (r: String) {
        let rec = Record {
            surface_name: "Unknown".to_owned(),
            fields: vec![
                ("uuid".to_owned(), Value::Text(self.uuid.clone())),
                ("data".to_owned(), Value::Bytes(copy_bytes(&self.data))),
            ],
        };
        proof {
            assert(rec@.fields =~= self.record_view().fields);
        }
        rec.repr_text()
    }

    fn write_to_buffer(&self) -> (r: Result<Vec<u8>, EncodeError>) {
        encode_wire(&self.to_teehistorian_chunk())
    }
}

/// Custom chunk with a registered handler. It wire-encodes exactly as an
/// unknown chunk; the handler name exists only in the map view, since
/// decoding cannot recover it.
pub struct PyCustomChunk {
    /// The identifier token text.
    pub uuid: String,
    /// The raw payload bytes.
    pub data: Vec<u8>,
    /// The registered handler's name; map-view metadata only.
    pub handler_name: String,
}

impl PyCustomChunk {
    /// A new chunk from its field values.
    pub fn new(uuid: String, data: Vec<u8>, handler_name: String) -> (r: Self)
        ensures
            r.uuid@ == uuid@,
            r.data@ == data@,
            r.handler_name@ == handler_name@,
    {
        PyCustomChunk { uuid, data, handler_name }
    }

    /// A short hex preview of the payload: at most the first 32 bytes, and
    /// the total length.
    pub fn data_preview(&self) -> (r: String)
        ensures
            r@ == preview_text(self.data@),
    {
        render_preview(&self.data)
    }
}

impl TeehistorianChunk for PyCustomChunk {
    open spec fn wire_form(&self) -> WireForm {
        WireForm::UnknownEx { uuid: parsed_or_zero(self.uuid@), data: self.data@ }
    }

    open spec fn record_view(&self) -> RecordV {
        RecordV {
            surface_name: "CustomChunk"@,
            fields: seq![
                ("uuid"@, ValueV::Text(self.uuid@)),
                ("data"@, ValueV::Bytes(self.data@)),
                ("handler_name"@, ValueV::Text(self.handler_name@)),
            ],
        }
    }

    fn to_teehistorian_chunk(&self) -> (r: WireChunk) {
        let token = parse_identifier_or_zero(self.uuid.as_str());
        WireChunk::UnknownEx { uuid: token, data: copy_bytes(&self.data) }
    }

    fn chunk_type(&self) -> (r: String) {
        "CustomChunk".to_owned()
    }

    fn to_dict(&self) -> (r: Vec<(String, Value)>) {
        let mut out: Vec<(String, Value)> = Vec::new();
        out.push(("type".to_owned(), Value::Text("CustomChunk".to_owned())));
        out.push(("uuid".to_owned(), Value::Text(self.uuid.clone())));
        out.push(("data".to_owned(), Value::Bytes(copy_bytes(&self.data))));
        out.push(("handler_name".to_owned(), Value::Text(self.handler_name.clone())));
        proof {
            assert(field_views(out@) =~= map_view(self.record_view()));
        }
        out
    }

    fn repr_text(&self) -> (r: String) {
        let rec = Record {
            surface_name: "CustomChunk".to_owned(),
            fields: vec![
                ("uuid".to_owned(), Value::Text(self.uuid.clone())),
                ("data".to_owned(), Value::Bytes(copy_bytes(&self.data))),
                ("handler_name".to_owned(), Value::Text(self.handler_name.clone())),
            ],
        };
        proof {
            assert(rec@.fields =~= self.record_view().fields);
        }
        rec.repr_text()
    }

    fn write_to_buffer(&self) -> (r: Result<Vec<u8>, EncodeError>) {
        encode_wire(&self.to_teehistorian_chunk())
    }
}

/// Generic fallback chunk. It has no dedicated wire mapping and borrows the
/// shape of a network message with the sentinel recipient id `-1`.
pub struct PyGeneric {
    /// The payload text.
    pub data: String,
}

impl PyGeneric {
    /// A new chunk from its field value.
    pub fn new(data: String) -> (r: Self)
        ensures
            r.data@ == data@,
    {
        PyGeneric { data }
    }
}

impl TeehistorianChunk for PyGeneric {
    open spec fn wire_form(&self) -> WireForm {
        WireForm::NetMessage { cid: -1i32, msg: vstd::utf8::encode_utf8(self.data@) }
    }

    open spec fn record_view(&self) -> RecordV {
        RecordV {
            surface_name: "Generic"@,
            fields: seq![("data"@, ValueV::Text(self.data@))],
        }
    }

    fn to_teehistorian_chunk(&self) -> (r: WireChunk) {
        let msg = vstd::string::StrSliceExecFns::as_bytes_vec(self.data.as_str());
        WireChunk::NetMessage { cid: -1, msg }
    }

    fn chunk_type(&self) -> (r: String) {
        "Generic".to_owned()
    }

    fn to_dict(&self) -> (r: Vec<(String, Value)>) {
        let mut out: Vec<(String, Value)> = Vec::new();
        out.push(("type".to_owned(), Value::Text("Generic".to_owned())));
        out.push(("data".to_owned(), Value::Text(self.data.clone())));
        proof {
            assert(field_views(out@) =~= map_view(self.record_view()));
        }
        out
    }

    fn repr_text(&self) -> (r: String) {
        let rec = Record {
            surface_name: "Generic".to_owned(),
            fields: vec![("data".to_owned(), Value::Text(self.data.clone()))],
        };
        proof {
            assert(rec@.fields =~= self.record_view().fields);
        }
        rec.repr_text()
    }

    fn write_to_buffer(&self) -> (r: Result<Vec<u8>, EncodeError>) {
        encode_wire(&self.to_teehistorian_chunk())
    }
}

} // verus!
