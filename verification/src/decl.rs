//! Chunk declarations: the single authored description of every record in
//! the catalog, consumed independently by the schema compiler (executed) and
//! by the reflector (inspected, never executed).

use vstd::prelude::*;
use crate::convert::Conversion;

verus! {

/// The semantic tag of a declared field's source type.
pub enum SourceType {
    /// An integer of any width.
    Integer,
    /// A floating-point number of any width.
    Float,
    /// A boolean.
    Boolean,
    /// Text.
    Text,
    /// A raw byte sequence.
    ByteSeq,
    /// A homogeneous list of integers.
    IntList,
    /// A list of anything else.
    OtherList,
    /// An optional value of the given source type.
    Optional(Box<SourceType>),
    /// A mapping with unconstrained keys and values.
    MapAny,
    /// An identifier token (UUID-like).
    IdentifierToken,
    /// Anything the mapping does not recognize.
    Unrecognized,
}

/// The structural pattern the wire codec uses to represent a chunk.
pub enum WireShape {
    /// Fields populate a wire record whose variant tag equals the surface
    /// name.
    TupleVariant { tag: String },
    /// Fields populate a wire record whose inner name differs from the
    /// variant tag; the explicit two-name mapping avoids collisions.
    TupleVariantNamedStruct { tag: String, inner: String },
    /// Fields are written directly as the variant's inline fields, with no
    /// intermediate record.
    InlineStruct { tag: String },
    /// No fields at all.
    UnitVariant { tag: String },
    /// The wire mapping is hand-specified outside the four shape patterns.
    Manual,
}

/// Mathematical view of a [`WireShape`].
pub enum WireShapeV {
    TupleVariant { tag: Seq<char> },
    TupleVariantNamedStruct { tag: Seq<char>, inner: Seq<char> },
    InlineStruct { tag: Seq<char> },
    UnitVariant { tag: Seq<char> },
    Manual,
}

impl View for WireShape {
    type V = WireShapeV;

    open spec fn view(&self) -> WireShapeV {
        match self {
            WireShape::TupleVariant { tag } => WireShapeV::TupleVariant { tag: tag@ },
            WireShape::TupleVariantNamedStruct { tag, inner } => {
                WireShapeV::TupleVariantNamedStruct { tag: tag@, inner: inner@ }
            },
            WireShape::InlineStruct { tag } => WireShapeV::InlineStruct { tag: tag@ },
            WireShape::UnitVariant { tag } => WireShapeV::UnitVariant { tag: tag@ },
            WireShape::Manual => WireShapeV::Manual,
        }
    }
}

/// One declared field of a chunk.
pub struct FieldSpec {
    /// The field's local name, as readable on the record.
    pub name: String,
    /// The semantic tag of its source type.
    pub source_type: SourceType,
    /// The name of the wire field it populates.
    pub wire_name: String,
    /// The conversion applied before the value reaches the wire.
    pub conversion: Conversion,
}

/// Mathematical view of a [`FieldSpec`].
pub struct FieldV {
    pub name: Seq<char>,
    pub source_type: SourceType,
    pub wire_name: Seq<char>,
    pub conversion: Conversion,
}

impl View for FieldSpec {
    type V = FieldV;

    open spec fn view(&self) -> FieldV {
        FieldV {
            name: self.name@,
            source_type: self.source_type,
            wire_name: self.wire_name@,
            conversion: self.conversion,
        }
    }
}

/// One chunk declaration: a surface name, a wire shape, the ordered field
/// list, and optional documentation text. A `Category: <Name>` marker inside
/// the documentation assigns the record's category; without one the record
/// falls into the default category.
pub struct ChunkDeclaration {
    /// The surface name, unique across the catalog.
    pub name: String,
    /// The wire shape.
    pub shape: WireShape,
    /// The ordered field list.
    pub fields: Vec<FieldSpec>,
    /// Documentation text, if any.
    pub doc: Option<String>,
}

/// Mathematical view of a [`ChunkDeclaration`].
pub struct DeclV {
    pub name: Seq<char>,
    pub shape: WireShapeV,
    pub fields: Seq<FieldV>,
    pub doc: Option<Seq<char>>,
}

impl View for ChunkDeclaration {
    type V = DeclV;

    open spec fn view(&self) -> DeclV {
        DeclV {
            name: self.name@,
            shape: self.shape@,
            fields: self.fields@.map_values(|f: FieldSpec| f@),
            doc: match &self.doc {
                Some(s) => Some(s@),
                None => None,
            },
        }
    }
}

/// The views of a declaration list.
pub open spec fn decl_views(decls: Seq<ChunkDeclaration>) -> Seq<DeclV> {
    decls.map_values(|d: ChunkDeclaration| d@)
}

/// A declaration is well formed when its tag names agree with its shape: a
/// plain tuple variant's wire tag equals the surface name.
pub open spec fn decl_wf(d: DeclV) -> bool {
    match d.shape {
        WireShapeV::TupleVariant { tag } => tag == d.name,
        _ => true,
    }
}

/// Surface names are pairwise distinct.
pub open spec fn names_unique(ds: Seq<DeclV>) -> bool {
    forall|i: int, j: int| 0 <= i < j < ds.len() ==> ds[i].name != ds[j].name
}

/// Decides whether every surface name in the list is unique.
pub fn surface_names_unique(decls: &Vec<ChunkDeclaration>) -> (r: bool)
    ensures
        r == names_unique(decl_views(decls@)),
{
    let n = decls.len();
    let mut i: usize = 0;
    while i < n
        invariant
            n == decls@.len(),
            i <= n,
            forall|p: int, q: int|
                0 <= p < q < n && p < i ==> decl_views(decls@)[p].name != decl_views(
                    decls@,
                )[q].name,
        decreases n - i,
    {
        let mut j: usize = i + 1;
        while j < n
            invariant
                n == decls@.len(),
                i < n,
                i < j <= n,
                forall|q: int|
                    i < q < j ==> decl_views(decls@)[i as int].name != decl_views(decls@)[q].name,
                forall|p: int, q: int|
                    0 <= p < q < n && p < i ==> decl_views(decls@)[p].name != decl_views(
                        decls@,
                    )[q].name,
            decreases n - j,
        {
            if decls[i].name == decls[j].name {
                proof {
                    assert(decl_views(decls@)[i as int].name == decl_views(decls@)[j as int].name);
                }
                return false;
            }
            j += 1;
        }
        i += 1;
    }
    true
}

/// Decides whether every declaration in the list is well formed
/// ([`decl_wf`]).
pub fn declarations_well_formed(decls: &Vec<ChunkDeclaration>) -> (r: bool)
    ensures
        r == (forall|i: int| 0 <= i < decls@.len() ==> decl_wf(decl_views(decls@)[i])),
{
    let n = decls.len();
    let mut i: usize = 0;
    while i < n
        invariant
            n == decls@.len(),
            i <= n,
            forall|p: int| 0 <= p < i ==> decl_wf(decl_views(decls@)[p]),
        decreases n - i,
    {
        let ok = match &decls[i].shape {
            WireShape::TupleVariant { tag } => *tag == decls[i].name,
            _ => true,
        };
        if !ok {
            proof {
                assert(!decl_wf(decl_views(decls@)[i as int]));
            }
            return false;
        }
        i += 1;
    }
    true
}

/// A field specification from its parts.
fn fs(name: &str, source_type: SourceType, wire_name: &str, conversion: Conversion) -> (r:
    FieldSpec)
    ensures
        r@ == (FieldV { name: name@, source_type, wire_name: wire_name@, conversion }),
{
    FieldSpec { name: name.to_owned(), source_type, wire_name: wire_name.to_owned(), conversion }
}

/// A declaration from its parts.
fn dc(name: &str, shape: WireShape, fields: Vec<FieldSpec>, doc: &str) -> (r: ChunkDeclaration)
    ensures
        r@ == (DeclV {
            name: name@,
            shape: shape@,
            fields: fields@.map_values(|f: FieldSpec| f@),
            doc: Some(doc@),
        }),
{
    ChunkDeclaration {
        name: name.to_owned(),
        shape,
        fields,
        doc: Some(doc.to_owned()),
    }
}

/// A tuple-variant shape whose tag equals the surface name.
fn tuple_shape(tag: &str) -> (r: WireShape)
    ensures
        r@ == (WireShapeV::TupleVariant { tag: tag@ }),
{
    WireShape::TupleVariant { tag: tag.to_owned() }
}

/// A tuple-variant shape with a differently named inner wire record.
fn named_shape(tag: &str, inner: &str) -> (r: WireShape)
    ensures
        r@ == (WireShapeV::TupleVariantNamedStruct { tag: tag@, inner: inner@ }),
{
    WireShape::TupleVariantNamedStruct { tag: tag.to_owned(), inner: inner.to_owned() }
}

/// An inline-struct shape.
fn inline_shape(tag: &str) -> (r: WireShape)
    ensures
        r@ == (WireShapeV::InlineStruct { tag: tag@ }),
{
    WireShape::InlineStruct { tag: tag.to_owned() }
}

/// The surface names of a declaration list, in catalog order.
pub open spec fn decl_names(ds: Seq<DeclV>) -> Seq<Seq<char>> {
    ds.map_values(|d: DeclV| d.name)
}

/// The surface names of the authored catalog, in authoring order.
pub open spec fn catalog_names() -> Seq<Seq<char>> {
    seq![
        "Join"@,
        "JoinVer6"@,
        "Drop"@,
        "PlayerReady"@,
        "PlayerNew"@,
        "PlayerOld"@,
        "PlayerTeam"@,
        "PlayerName"@,
        "PlayerDiff"@,
        "InputNew"@,
        "InputDiff"@,
        "NetMessage"@,
        "ConsoleCommand"@,
        "AuthLogin"@,
        "DdnetVersion"@,
        "TickSkip"@,
        "TeamLoadSuccess"@,
        "TeamLoadFailure"@,
        "AntiBot"@,
        "Eos"@,
        "Unknown"@,
        "CustomChunk"@,
        "Generic"@,
    ]
}

/// The full authored catalog: every record the schema compiler expands, plus
/// the manually specified records whose wire mapping lies outside the four
/// shape patterns. The field lists, conversions, shapes and documentation
/// are authored data, pinned by the catalog tests; the surface names and
/// their order are part of the contract.
pub fn catalog_declarations() -> (r: Vec<ChunkDeclaration>)
    ensures
        r@.len() == 23,
        decl_names(decl_views(r@)) == catalog_names(),
{
    let mut out: Vec<ChunkDeclaration> = Vec::new();

    let mut f: Vec<FieldSpec> = Vec::new();
    f.push(fs("client_id", SourceType::Integer, "cid", Conversion::Identity));
    out.push(dc("Join", inline_shape("Join"), f, "Player joins the server"));

    let mut f: Vec<FieldSpec> = Vec::new();
    f.push(fs("client_id", SourceType::Integer, "cid", Conversion::Identity));
    out.push(dc("JoinVer6", inline_shape("JoinVer6"), f, "Player joins with version 6 protocol"));

    let mut f: Vec<FieldSpec> = Vec::new();
    f.push(fs("client_id", SourceType::Integer, "cid", Conversion::Identity));
    f.push(fs("reason", SourceType::Text, "reason", Conversion::StringToBytes));
    out.push(dc("Drop", tuple_shape("Drop"), f, "Player disconnects from server"));

    let mut f: Vec<FieldSpec> = Vec::new();
    f.push(fs("client_id", SourceType::Integer, "cid", Conversion::Identity));
    out.push(
        dc(
            "PlayerReady",
            WireShape::Manual,
            f,
            "Player becomes ready to play\nCategory: PlayerLifecycle",
        ),
    );

    let mut f: Vec<FieldSpec> = Vec::new();
    f.push(fs("client_id", SourceType::Integer, "cid", Conversion::Identity));
    f.push(fs("x", SourceType::Integer, "x", Conversion::Identity));
    f.push(fs("y", SourceType::Integer, "y", Conversion::Identity));
    out.push(dc("PlayerNew", tuple_shape("PlayerNew"), f, "New player spawn position"));

    let mut f: Vec<FieldSpec> = Vec::new();
    f.push(fs("client_id", SourceType::Integer, "cid", Conversion::Identity));
    out.push(dc("PlayerOld", inline_shape("PlayerOld"), f, "Player leaves game (but not server)"));

    let mut f: Vec<FieldSpec> = Vec::new();
    f.push(fs("client_id", SourceType::Integer, "cid", Conversion::Identity));
    f.push(fs("team", SourceType::Integer, "team", Conversion::Identity));
    out.push(
        dc("PlayerTeam", WireShape::Manual, f, "Player changes team\nCategory: PlayerState"),
    );

    let mut f: Vec<FieldSpec> = Vec::new();
    f.push(fs("client_id", SourceType::Integer, "cid", Conversion::Identity));
    f.push(fs("name", SourceType::Text, "name", Conversion::StringToBytes));
    out.push(dc("PlayerName", tuple_shape("PlayerName"), f, "Player changes name"));

    let mut f: Vec<FieldSpec> = Vec::new();
    f.push(fs("client_id", SourceType::Integer, "cid", Conversion::Identity));
    f.push(fs("dx", SourceType::Integer, "dx", Conversion::Identity));
    f.push(fs("dy", SourceType::Integer, "dy", Conversion::Identity));
    out.push(dc("PlayerDiff", tuple_shape("PlayerDiff"), f, "Player position difference/update"));

    let mut f: Vec<FieldSpec> = Vec::new();
    f.push(fs("client_id", SourceType::Integer, "cid", Conversion::Identity));
    f.push(fs("input", SourceType::IntList, "input", Conversion::Identity));
    out.push(
        dc("InputNew", tuple_shape("InputNew"), f, "New player input state\nCategory: Input"),
    );

    let mut f: Vec<FieldSpec> = Vec::new();
    f.push(fs("client_id", SourceType::Integer, "cid", Conversion::Identity));
    f.push(fs("input", SourceType::IntList, "dinput", Conversion::Identity));
    out.push(
        dc(
            "InputDiff",
            tuple_shape("InputDiff"),
            f,
            "Player input difference from previous state\nCategory: Input",
        ),
    );

    let mut f: Vec<FieldSpec> = Vec::new();
    f.push(fs("client_id", SourceType::Integer, "cid", Conversion::Identity));
    f.push(fs("msg", SourceType::Text, "msg", Conversion::StringToBytes));
    out.push(dc("NetMessage", tuple_shape("NetMessage"), f, "Network message from/to player"));

    let mut f: Vec<FieldSpec> = Vec::new();
    f.push(fs("client_id", SourceType::Integer, "cid", Conversion::Identity));
    f.push(fs("flags", SourceType::Integer, "flags", Conversion::Identity));
    f.push(fs("cmd", SourceType::Text, "cmd", Conversion::StringToBytes));
    f.push(fs("args", SourceType::Text, "args", Conversion::WrapAsSingleArgToken));
    out.push(
        dc(
            "ConsoleCommand",
            tuple_shape("ConsoleCommand"),
            f,
            "Console command executed by player",
        ),
    );

    let mut f: Vec<FieldSpec> = Vec::new();
    f.push(fs("client_id", SourceType::Integer, "cid", Conversion::Identity));
    f.push(fs("level", SourceType::Integer, "level", Conversion::Identity));
    f.push(fs("auth_name", SourceType::Text, "auth_name", Conversion::StringToBytes));
    out.push(
        dc("AuthLogin", named_shape("AuthLogin", "Auth"), f, "Player authentication/login"),
    );

    let mut f: Vec<FieldSpec> = Vec::new();
    f.push(fs("client_id", SourceType::Integer, "cid", Conversion::Identity));
    f.push(
        fs(
            "connection_id",
            SourceType::Text,
            "connection_id",
            Conversion::ParseIdentifierWithZeroDefault,
        ),
    );
    f.push(fs("version", SourceType::Integer, "version", Conversion::Identity));
    f.push(fs("version_str", SourceType::ByteSeq, "version_str", Conversion::ListToBorrowedView));
    out.push(
        dc("DdnetVersion", tuple_shape("DdnetVersion"), f, "DDNet client version information"),
    );

    let mut f: Vec<FieldSpec> = Vec::new();
    f.push(fs("dt", SourceType::Integer, "dt", Conversion::Identity));
    out.push(dc("TickSkip", inline_shape("TickSkip"), f, "Server tick skip (time advancement)"));

    let mut f: Vec<FieldSpec> = Vec::new();
    f.push(fs("team", SourceType::Integer, "team", Conversion::Identity));
    f.push(fs("save_id", SourceType::Text, "save_id", Conversion::ParseIdentifierWithZeroDefault));
    f.push(fs("save", SourceType::Text, "save", Conversion::StringToBytes));
    out.push(
        dc(
            "TeamLoadSuccess",
            named_shape("TeamLoadSuccess", "TeamSave"),
            f,
            "Team save loaded successfully",
        ),
    );

    let mut f: Vec<FieldSpec> = Vec::new();
    f.push(fs("team", SourceType::Integer, "team", Conversion::Identity));
    out.push(dc("TeamLoadFailure", inline_shape("TeamLoadFailure"), f, "Team save load failed"));

    let mut f: Vec<FieldSpec> = Vec::new();
    f.push(fs("data", SourceType::Text, "data", Conversion::StringToBytes));
    out.push(dc("AntiBot", named_shape("AntiBot", "Antibot"), f, "Anti-bot system event"));

    let f: Vec<FieldSpec> = Vec::new();
    out.push(
        dc("Eos", WireShape::UnitVariant { tag: "Eos".to_owned() }, f, "End of stream marker"),
    );

    let mut f: Vec<FieldSpec> = Vec::new();
    f.push(fs("uuid", SourceType::Text, "uuid", Conversion::ParseIdentifierWithZeroDefault));
    f.push(fs("data", SourceType::ByteSeq, "data", Conversion::ListToBorrowedView));
    out.push(dc("Unknown", WireShape::Manual, f, "Unknown chunk with UUID (not registered)"));

    let mut f: Vec<FieldSpec> = Vec::new();
    f.push(fs("uuid", SourceType::Text, "uuid", Conversion::ParseIdentifierWithZeroDefault));
    f.push(fs("data", SourceType::ByteSeq, "data", Conversion::ListToBorrowedView));
    f.push(fs("handler_name", SourceType::Text, "handler_name", Conversion::Identity));
    out.push(dc("CustomChunk", WireShape::Manual, f, "Custom chunk with registered handler"));

    let mut f: Vec<FieldSpec> = Vec::new();
    f.push(fs("data", SourceType::Text, "data", Conversion::StringToBytes));
    out.push(dc("Generic", WireShape::Manual, f, "Generic/fallback chunk type"));

    proof {
        assert(decl_names(decl_views(out@)) =~~= catalog_names());
    }
    out
}

} // verus!
