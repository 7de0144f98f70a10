//! The stub emitter: renders the reflector's output into one category-grouped
//! type-declaration document — a base type, one stub per record, one union
//! alias per category, and one grand union of the full catalog.
//!
//! The document is a pure function of the reflected catalog, so regenerating
//! it from unchanged declarations is byte-identical.

use vstd::prelude::*;
use crate::decl::{decl_views, ChunkDeclaration, DeclV};
use crate::reflect::{
    group_by_category, groups_spec, info_views, reflect_declarations, reflect_spec, ChunkInfo,
    ChunkInfoV,
};
use crate::text::push_char;

verus! {

/// The fixed document header: a title comment and the imports the stubs use.
pub open spec fn header_text() -> Seq<char> {
    "# Type stubs for the teehistorian chunk catalog\n\n"@ + "from typing import (\n"@
        + "    Any,\n"@ + "    Dict,\n"@ + "    List,\n"@ + "    Optional,\n"@ + "    Union,\n"@
        + ")\n\n"@
}

/// The base type every record stub extends, with the common operations: the
/// type-tag accessor, textual rendering, and map conversion.
pub open spec fn base_stub() -> Seq<char> {
    "class Chunk:\n"@ + "    \"\"\"Base class for all teehistorian chunk types.\"\"\"\n\n"@
        + "    def chunk_type(self) -> str: ...\n"@ + "    def __repr__(self) -> str: ...\n"@
        + "    def __str__(self) -> str: ...\n"@
        + "    def to_dict(self) -> Dict[str, Any]: ...\n\n"@
}

/// The annotation lines of the first `k` fields.
pub open spec fn field_lines_upto(fields: Seq<(Seq<char>, Seq<char>)>, k: int) -> Seq<char>
    decreases k,
{
    if k <= 0 {
        Seq::empty()
    } else {
        field_lines_upto(fields, k - 1) + "    "@ + fields[k - 1].0 + ": "@ + fields[k - 1].1
            + "\n"@
    }
}

/// The constructor parameters of the first `k` fields, mirroring declaration
/// order.
pub open spec fn init_params_upto(fields: Seq<(Seq<char>, Seq<char>)>, k: int) -> Seq<char>
    decreases k,
{
    if k <= 0 {
        Seq::empty()
    } else {
        init_params_upto(fields, k - 1) + ", "@ + fields[k - 1].0 + ": "@ + fields[k - 1].1
    }
}

/// The documentation line of a record stub: the record's own documentation,
/// or a placeholder naming the record.
pub open spec fn doc_line(info: ChunkInfoV) -> Seq<char> {
    match info.doc {
        Some(d) => "    \"\"\""@ + d + "\"\"\"\n\n"@,
        None => "    \"\"\"Chunk type: "@ + info.name + "\"\"\"\n\n"@,
    }
}

/// One record's stub: class line, documentation, field annotations, a
/// constructor signature mirroring declaration order, and the common
/// operations.
pub open spec fn class_stub(info: ChunkInfoV) -> Seq<char> {
    "class "@ + info.name + "(Chunk):\n"@ + doc_line(info) + field_lines_upto(
        info.fields,
        info.fields.len() as int,
    ) + (if info.fields.len() > 0 {
        "\n"@
    } else {
        Seq::empty()
    }) + "    def __init__(self"@ + init_params_upto(info.fields, info.fields.len() as int)
        + ") -> None: ...\n\n"@ + "    def __repr__(self) -> str: ...\n"@
        + "    def __str__(self) -> str: ...\n"@
        + "    def to_dict(self) -> Dict[str, Any]: ...\n\n"@
}

/// The stubs of the first `k` records of a group.
pub open spec fn class_stubs_upto(members: Seq<ChunkInfoV>, k: int) -> Seq<char>
    decreases k,
{
    if k <= 0 {
        Seq::empty()
    } else {
        class_stubs_upto(members, k - 1) + class_stub(members[k - 1])
    }
}

/// One category's section: a heading comment and the stubs of its records.
pub open spec fn section_text(group: (Seq<char>, Seq<ChunkInfoV>)) -> Seq<char> {
    "# "@ + group.0 + " Chunks\n"@ + class_stubs_upto(group.1, group.1.len() as int)
}

/// The sections of the first `k` groups.
pub open spec fn sections_upto(groups: Seq<(Seq<char>, Seq<ChunkInfoV>)>, k: int) -> Seq<char>
    decreases k,
{
    if k <= 0 {
        Seq::empty()
    } else {
        sections_upto(groups, k - 1) + section_text(groups[k - 1])
    }
}

/// The member lines of a union alias: each name on its own line, a trailing
/// comma on every line but the last.
pub open spec fn union_lines_upto(members: Seq<ChunkInfoV>, k: int) -> Seq<char>
    decreases k,
{
    if k <= 0 {
        Seq::empty()
    } else {
        union_lines_upto(members, k - 1) + "    "@ + members[k - 1].name + (if k
            < members.len() {
            ",\n"@
        } else {
            "\n"@
        })
    }
}

/// One category's union alias, covering exactly that category's records.
pub open spec fn alias_text(group: (Seq<char>, Seq<ChunkInfoV>)) -> Seq<char> {
    group.0 + "Chunk = Union[\n"@ + union_lines_upto(group.1, group.1.len() as int) + "]\n\n"@
}

/// The union aliases of the first `k` groups.
pub open spec fn aliases_upto(groups: Seq<(Seq<char>, Seq<ChunkInfoV>)>, k: int) -> Seq<char>
    decreases k,
{
    if k <= 0 {
        Seq::empty()
    } else {
        aliases_upto(groups, k - 1) + alias_text(groups[k - 1])
    }
}

/// The grand union covering the full catalog.
pub open spec fn all_union_text(infos: Seq<ChunkInfoV>) -> Seq<char> {
    "AllChunks = Union[\n"@ + union_lines_upto(infos, infos.len() as int) + "]\n\n"@
}

/// The whole stub document of a reflected catalog: header, base type, the
/// category-sorted sections, the per-category union aliases, and the grand
/// union.
pub open spec fn stub_text(infos: Seq<ChunkInfoV>) -> Seq<char> {
    header_text() + base_stub() + sections_upto(
        groups_spec(infos),
        groups_spec(infos).len() as int,
    ) + aliases_upto(groups_spec(infos), groups_spec(infos).len() as int) + all_union_text(infos)
}

/// Appends the union member lines of a record list.
fn push_union_lines(s: &mut String, members: &Vec<ChunkInfo>)
    ensures
        final(s)@ == old(s)@ + union_lines_upto(
            info_views(members@),
            info_views(members@).len() as int,
        ),
{
    let ghost mv = info_views(members@);
    let n = members.len();
    let mut k: usize = 0;
    proof {
        assert(mv.len() == n);
    }
    while k < n
        invariant
            mv == info_views(members@),
            mv.len() == n,
            n == members@.len(),
            k <= n,
            s@ == old(s)@ + union_lines_upto(mv, k as int),
        decreases n - k,
    {
        s.append("    ");
        s.append(members[k].name.as_str());
        if k + 1 < n {
            s.append(",\n");
        } else {
            s.append("\n");
        }
        k += 1;
        proof {
            assert(mv[k - 1].name == members@[k - 1]@.name);
            assert(s@ =~= old(s)@ + union_lines_upto(mv, k as int));
        }
    }
}

/// Appends one record's stub.
fn push_class_stub(s: &mut String, info: &ChunkInfo)
    ensures
        final(s)@ == old(s)@ + class_stub(info@),
{
    s.append("class ");
    s.append(info.name.as_str());
    s.append("(Chunk):\n");
    match &info.doc {
        Some(d) => {
            s.append("    \"\"\"");
            s.append(d.as_str());
            s.append("\"\"\"\n\n");
        },
        None => {
            s.append("    \"\"\"Chunk type: ");
            s.append(info.name.as_str());
            s.append("\"\"\"\n\n");
        },
    }
    proof {
        assert(s@ =~= old(s)@ + "class "@ + info@.name + "(Chunk):\n"@ + doc_line(info@));
    }
    let ghost mid = s@;
    let n = info.fields.len();
    let mut k: usize = 0;
    while k < n
        invariant
            n == info.fields@.len(),
            k <= n,
            s@ == mid + field_lines_upto(info@.fields, k as int),
        decreases n - k,
    {
        s.append("    ");
        s.append(info.fields[k].0.as_str());
        s.append(": ");
        s.append(info.fields[k].1.as_str());
        s.append("\n");
        k += 1;
        proof {
            assert(info@.fields[k - 1] == (info.fields@[k - 1].0@, info.fields@[k - 1].1@));
            assert(s@ =~= mid + field_lines_upto(info@.fields, k as int));
        }
    }
    if n > 0 {
        s.append("\n");
    }
    s.append("    def __init__(self");
    let ghost mid2 = s@;
    let mut k: usize = 0;
    while k < n
        invariant
            n == info.fields@.len(),
            k <= n,
            s@ == mid2 + init_params_upto(info@.fields, k as int),
        decreases n - k,
    {
        s.append(", ");
        s.append(info.fields[k].0.as_str());
        s.append(": ");
        s.append(info.fields[k].1.as_str());
        k += 1;
        proof {
            assert(info@.fields[k - 1] == (info.fields@[k - 1].0@, info.fields@[k - 1].1@));
            assert(s@ =~= mid2 + init_params_upto(info@.fields, k as int));
        }
    }
    s.append(") -> None: ...\n\n");
    s.append("    def __repr__(self) -> str: ...\n");
    s.append("    def __str__(self) -> str: ...\n");
    s.append("    def to_dict(self) -> Dict[str, Any]: ...\n\n");
    proof {
        assert(s@ =~= old(s)@ + class_stub(info@));
    }
}

/// Renders the stub document of a reflected catalog.
pub fn emit_stub_document(infos: &Vec<ChunkInfo>) -> (r: String)
    ensures
        r@ == stub_text(info_views(infos@)),
{
    let ghost iv = info_views(infos@);
    let groups = group_by_category(infos);
    let ghost gv = crate::reflect::group_views(groups@);
    let mut s = String::new();
    s.append("# Type stubs for the teehistorian chunk catalog\n\n");
    s.append("from typing import (\n");
    s.append("    Any,\n");
    s.append("    Dict,\n");
    s.append("    List,\n");
    s.append("    Optional,\n");
    s.append("    Union,\n");
    s.append(")\n\n");
    proof {
        assert(s@ =~= header_text());
    }
    s.append("class Chunk:\n");
    s.append("    \"\"\"Base class for all teehistorian chunk types.\"\"\"\n\n");
    s.append("    def chunk_type(self) -> str: ...\n");
    s.append("    def __repr__(self) -> str: ...\n");
    s.append("    def __str__(self) -> str: ...\n");
    s.append("    def to_dict(self) -> Dict[str, Any]: ...\n\n");
    proof {
        assert(s@ =~= header_text() + base_stub());
    }
    let ghost mid = s@;
    let gn = groups.len();
    let mut g: usize = 0;
    proof {
        assert(gv.len() == gn);
    }
    while g < gn
        invariant
            gv == crate::reflect::group_views(groups@),
            gv == groups_spec(iv),
            iv == info_views(infos@),
            gv.len() == gn,
            gn == groups@.len(),
            g <= gn,
            s@ == mid + sections_upto(gv, g as int),
        decreases gn - g,
    {
        s.append("# ");
        s.append(groups[g].0.as_str());
        s.append(" Chunks\n");
        let ghost mid_g = s@;
        let members = &groups[g].1;
        let ghost mv = info_views(members@);
        let mn = members.len();
        let mut k: usize = 0;
        proof {
            assert(gv[g as int] == (groups@[g as int].0@, info_views(groups@[g as int].1@)));
            assert(mv.len() == mn);
        }
        while k < mn
            invariant
                mv == info_views(members@),
                mv.len() == mn,
                mn == members@.len(),
                k <= mn,
                s@ == mid_g + class_stubs_upto(mv, k as int),
            decreases mn - k,
        {
            push_class_stub(&mut s, &members[k]);
            k += 1;
            proof {
                assert(mv[k - 1] == members@[k - 1]@);
                assert(s@ =~= mid_g + class_stubs_upto(mv, k as int));
            }
        }
        g += 1;
        proof {
            assert(gv[g - 1] == (groups@[g - 1].0@, info_views(groups@[g - 1].1@)));
            assert(s@ =~= mid + sections_upto(gv, g as int));
        }
    }
    let ghost mid3 = s@;
    let mut g: usize = 0;
    while g < gn
        invariant
            gv == crate::reflect::group_views(groups@),
            gv.len() == gn,
            gn == groups@.len(),
            g <= gn,
            s@ == mid3 + aliases_upto(gv, g as int),
        decreases gn - g,
    {
        s.append(groups[g].0.as_str());
        s.append("Chunk = Union[\n");
        push_union_lines(&mut s, &groups[g].1);
        s.append("]\n\n");
        g += 1;
        proof {
            assert(gv[g - 1] == (groups@[g - 1].0@, info_views(groups@[g - 1].1@)));
            assert(s@ =~= mid3 + aliases_upto(gv, g as int));
        }
    }
    s.append("AllChunks = Union[\n");
    push_union_lines(&mut s, infos);
    s.append("]\n\n");
    proof {
        assert(s@ =~= stub_text(iv));
    }
    s
}

/// Reflects a declaration list and renders its stub document in one step.
pub fn generate_stubs(decls: &Vec<ChunkDeclaration>) -> (r: String)
    ensures
        r@ == stub_text(reflect_spec(decl_views(decls@))),
{
    let infos = reflect_declarations(decls);
    emit_stub_document(&infos)
}

/// Emission is deterministic: running the stub emitter twice on unchanged
/// declarations produces byte-identical documents.
pub proof fn lemma_stub_emission_deterministic(ds: Seq<DeclV>, d1: Seq<char>, d2: Seq<char>)
    requires
        d1 == stub_text(reflect_spec(ds)),
        d2 == stub_text(reflect_spec(ds)),
    ensures
        d1 == d2,
{
}

} // verus!
