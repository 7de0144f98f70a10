//! The source reflector: an independent static pass over the declarations
//! that reconstructs, per record, its surface name, documentation text,
//! category and field metadata — without running the schema compiler.

use vstd::prelude::*;
use vstd::string::StrSliceExecFns;
use crate::decl::{ChunkDeclaration, DeclV, FieldV, SourceType};

verus! {

/// The default category for a record whose documentation carries no
/// category marker.
pub open spec fn default_category() -> Seq<char> {
    "Other"@
}

/// The target type text an optional's inner source type maps to: scalar-like
/// tags map to their plain target, everything nested falls back to `Any`.
pub open spec fn inner_target_type(st: SourceType) -> Seq<char> {
    match st {
        SourceType::Integer => "int"@,
        SourceType::Float => "float"@,
        SourceType::Boolean => "bool"@,
        SourceType::Text => "str"@,
        SourceType::ByteSeq => "bytes"@,
        SourceType::IdentifierToken => "str"@,
        _ => "Any"@,
    }
}

/// The target type text a source type maps to. The mapping is conservative:
/// anything it does not recognize becomes `Any`, so emission never fails
/// over an unmapped type.
pub open spec fn target_type(st: SourceType) -> Seq<char> {
    match st {
        SourceType::Integer => "int"@,
        SourceType::Float => "float"@,
        SourceType::Boolean => "bool"@,
        SourceType::Text => "str"@,
        SourceType::ByteSeq => "bytes"@,
        SourceType::IntList => "List[int]"@,
        SourceType::OtherList => "List[Any]"@,
        SourceType::Optional(inner) => "Optional["@ + inner_target_type(*inner) + "]"@,
        SourceType::MapAny => "Dict[Any, Any]"@,
        SourceType::IdentifierToken => "str"@,
        SourceType::Unrecognized => "Any"@,
    }
}

/// Renders the target type text of an optional's inner source type.
fn inner_target_type_text(st: &SourceType) -> (r: String)
    ensures
        r@ == inner_target_type(*st),
{
    match st {
        SourceType::Integer => "int".to_owned(),
        SourceType::Float => "float".to_owned(),
        SourceType::Boolean => "bool".to_owned(),
        SourceType::Text => "str".to_owned(),
        SourceType::ByteSeq => "bytes".to_owned(),
        SourceType::IdentifierToken => "str".to_owned(),
        _ => "Any".to_owned(),
    }
}

/// Renders the target type text of a source type.
pub fn target_type_text(st: &SourceType) -> (r: String)
    ensures
        r@ == target_type(*st),
{
    match st {
        SourceType::Integer => "int".to_owned(),
        SourceType::Float => "float".to_owned(),
        SourceType::Boolean => "bool".to_owned(),
        SourceType::Text => "str".to_owned(),
        SourceType::ByteSeq => "bytes".to_owned(),
        SourceType::IntList => "List[int]".to_owned(),
        SourceType::OtherList => "List[Any]".to_owned(),
        SourceType::Optional(inner) => {
            let mut s = "Optional[".to_owned();
            s.append(inner_target_type_text(inner).as_str());
            s.append("]");
            proof {
                assert(s@ =~= target_type(*st));
            }
            s
        },
        SourceType::MapAny => "Dict[Any, Any]".to_owned(),
        SourceType::IdentifierToken => "str".to_owned(),
        SourceType::Unrecognized => "Any".to_owned(),
    }
}

/// The pattern occurs in `t` starting at position `i`.
pub open spec fn match_at(t: Seq<char>, pat: Seq<char>, i: int) -> bool {
    0 <= i && i + pat.len() <= t.len() && t.subrange(i, i + pat.len()) == pat
}

/// The first position at or after `i` where the pattern occurs, if any.
pub open spec fn first_match_from(t: Seq<char>, pat: Seq<char>, i: int) -> Option<int>
    decreases t.len() - i + 1,
{
    if i < 0 || i + pat.len() > t.len() {
        None
    } else if match_at(t, pat, i) {
        Some(i)
    } else {
        first_match_from(t, pat, i + 1)
    }
}

/// A whitespace character: space, newline, tab or carriage return.
pub open spec fn is_space(c: char) -> bool {
    c == ' ' || c == '\n' || c == '\t' || c == '\r'
}

/// The first position at or after `i` holding a non-whitespace character.
pub open spec fn skip_spaces_from(t: Seq<char>, i: int) -> int
    decreases t.len() - i,
{
    if i < 0 || i >= t.len() {
        i
    } else if is_space(t[i]) {
        skip_spaces_from(t, i + 1)
    } else {
        i
    }
}

/// The end of the whitespace-delimited token starting at `i`.
pub open spec fn token_end_from(t: Seq<char>, i: int) -> int
    decreases t.len() - i,
{
    if i < 0 || i >= t.len() {
        i
    } else if is_space(t[i]) {
        i
    } else {
        token_end_from(t, i + 1)
    }
}

/// The category a record's documentation assigns: the whitespace-delimited
/// token after the first `Category:` marker, or the default category when
/// there is no documentation, no marker, or no token after the marker.
pub open spec fn category_of(doc: Option<Seq<char>>) -> Seq<char> {
    match doc {
        None => default_category(),
        Some(t) => match first_match_from(t, "Category:"@, 0) {
            None => default_category(),
            Some(p) => {
                let s = skip_spaces_from(t, p + "Category:"@.len());
                let e = token_end_from(t, s);
                if s == e {
                    default_category()
                } else {
                    t.subrange(s, e)
                }
            },
        },
    }
}

/// Finds the first occurrence of a pattern in a text.
fn first_match(t: &str, pat: &str) -> (r: Option<usize>)
    ensures
        match first_match_from(t@, pat@, 0) {
            Some(p) => r matches Some(rp) && rp == p,
            None => r is None,
        },
        r matches Some(rp) ==> match_at(t@, pat@, rp as int),
{
    let n = t.unicode_len();
    let m = pat.unicode_len();
    let mut i: usize = 0;
    if m > n {
        proof {
            assert(first_match_from(t@, pat@, 0) is None);
        }
        return None;
    }
    if m == 0 {
        proof {
            assert(t@.subrange(0, 0) =~= pat@);
            assert(match_at(t@, pat@, 0));
        }
        return Some(0);
    }
    while i <= n - m
        invariant
            n == t@.len(),
            m == pat@.len(),
            1 <= m <= n,
            i <= n,
            first_match_from(t@, pat@, 0) == first_match_from(t@, pat@, i as int),
        decreases n - i,
    {
        let mut j: usize = 0;
        let mut matched = true;
        while j < m
            invariant
                n == t@.len(),
                m == pat@.len(),
                i + m <= n,
                j <= m,
                matched ==> forall|q: int| 0 <= q < j ==> t@[i + q] == pat@[q],
                !matched ==> !match_at(t@, pat@, i as int),
            decreases m - j,
        {
            if t.get_char(i + j) != pat.get_char(j) {
                proof {
                    if match_at(t@, pat@, i as int) {
                        assert(t@.subrange(i as int, i + m)[j as int] == pat@[j as int]);
                    }
                }
                matched = false;
                j = m;
            } else {
                j += 1;
            }
        }
        if matched {
            proof {
                assert(t@.subrange(i as int, i + m) =~= pat@);
                assert(match_at(t@, pat@, i as int));
            }
            return Some(i);
        }
        i += 1;
    }
    proof {
        assert(first_match_from(t@, pat@, i as int) is None);
    }
    None
}

/// Whether a character is whitespace.
fn is_space_char(c: char) -> (r: bool)
    ensures
        r == is_space(c),
{
    c == ' ' || c == '\n' || c == '\t' || c == '\r'
}

/// Extracts the category a documentation text assigns, or the default.
pub fn category_from_doc(doc: &Option<String>) -> (r: String)
    ensures
        r@ == category_of(
            match doc {
                Some(t) => Some(t@),
                None => None,
            },
        ),
{
    let t: &String = match doc {
        Some(t) => t,
        None => {
            return "Other".to_owned();
        },
    };
    let marker = "Category:";
    let p = match first_match(t.as_str(), marker) {
        Some(p) => p,
        None => {
            return "Other".to_owned();
        },
    };
    proof {
        reveal_strlit("Category:");
        assert(marker@.len() == 9);
    }
    let n = t.as_str().unicode_len();
    let mut s: usize = p + 9;
    while s < n && is_space_char(t.as_str().get_char(s))
        invariant
            n == t@.len(),
            s <= n,
            skip_spaces_from(t@, p + 9) == skip_spaces_from(t@, s as int),
        decreases n - s,
    {
        s += 1;
    }
    proof {
        assert(skip_spaces_from(t@, s as int) == s as int);
    }
    let mut e: usize = s;
    while e < n && !is_space_char(t.as_str().get_char(e))
        invariant
            n == t@.len(),
            s <= e <= n,
            token_end_from(t@, s as int) == token_end_from(t@, e as int),
        decreases n - e,
    {
        e += 1;
    }
    proof {
        assert(token_end_from(t@, e as int) == e as int);
    }
    if s == e {
        "Other".to_owned()
    } else {
        let token = t.as_str().substring_char(s, e);
        let r = token.to_owned();
        proof {
            assert(r@ == t@.subrange(s as int, e as int));
        }
        r
    }
}


/// The reflected metadata of one record: surface name, documentation,
/// category, and the readable fields with their target type texts.
pub struct ChunkInfo {
    /// The record's surface name.
    pub name: String,
    /// Its documentation text, if any.
    pub doc: Option<String>,
    /// The readable fields: each local name with its target type text.
    pub fields: Vec<(String, String)>,
    /// The category its documentation assigns, or the default.
    pub category: String,
}

/// Mathematical view of a [`ChunkInfo`].
pub struct ChunkInfoV {
    pub name: Seq<char>,
    pub doc: Option<Seq<char>>,
    pub fields: Seq<(Seq<char>, Seq<char>)>,
    pub category: Seq<char>,
}

/// The views of a list of field metadata pairs.
pub open spec fn pair_views(s: Seq<(String, String)>) -> Seq<(Seq<char>, Seq<char>)> {
    s.map_values(|p: (String, String)| (p.0@, p.1@))
}

impl View for ChunkInfo {
    type V = ChunkInfoV;

    open spec fn view(&self) -> ChunkInfoV {
        ChunkInfoV {
            name: self.name@,
            doc: match &self.doc {
                Some(d) => Some(d@),
                None => None,
            },
            fields: pair_views(self.fields@),
            category: self.category@,
        }
    }
}

/// The views of a list of names.
pub open spec fn string_views(s: Seq<String>) -> Seq<Seq<char>> {
    s.map_values(|x: String| x@)
}

/// The views of a list of reflected records.
pub open spec fn info_views(s: Seq<ChunkInfo>) -> Seq<ChunkInfoV> {
    s.map_values(|i: ChunkInfo| i@)
}

impl ChunkInfo {
    /// A copy of the reflected record with the same view.
    pub fn duplicate(&self) -> (r: ChunkInfo)
        ensures
            r@ == self@,
    {
        let doc = match &self.doc {
            Some(d) => Some(d.clone()),
            None => None,
        };
        let mut fields: Vec<(String, String)> = Vec::new();
        let mut k: usize = 0;
        while k < self.fields.len()
            invariant
                k <= self.fields@.len(),
                pair_views(fields@) == pair_views(self.fields@).subrange(0, k as int),
            decreases self.fields@.len() - k,
        {
            let ghost prior = fields@;
            fields.push((self.fields[k].0.clone(), self.fields[k].1.clone()));
            k += 1;
            proof {
                assert(fields@ == prior.push((self.fields@[k - 1].0, self.fields@[k - 1].1)));
                assert(pair_views(prior).len() == prior.len());
                assert(pair_views(fields@) =~= pair_views(self.fields@).subrange(0, k as int));
            }
        }
        proof {
            assert(pair_views(fields@) =~= pair_views(self.fields@));
        }
        ChunkInfo { name: self.name.clone(), doc, fields, category: self.category.clone() }
    }
}

/// Lexicographic order on character sequences, by character value; a prefix
/// precedes every extension of it.
pub open spec fn lex_le(a: Seq<char>, b: Seq<char>) -> bool
    decreases a.len(),
{
    if a.len() == 0 {
        true
    } else if b.len() == 0 {
        false
    } else if (a[0] as u32) < (b[0] as u32) {
        true
    } else if (a[0] as u32) > (b[0] as u32) {
        false
    } else {
        lex_le(a.drop_first(), b.drop_first())
    }
}

/// Decides the lexicographic order of two texts.
pub fn str_le(a: &str, b: &str) -> (r: bool)
    ensures
        r == lex_le(a@, b@),
{
    let an = a.unicode_len();
    let bn = b.unicode_len();
    let mut i: usize = 0;
    proof {
        assert(a@.skip(0) =~= a@);
        assert(b@.skip(0) =~= b@);
    }
    while i < an && i < bn
        invariant
            an == a@.len(),
            bn == b@.len(),
            i <= an,
            i <= bn,
            lex_le(a@, b@) == lex_le(a@.skip(i as int), b@.skip(i as int)),
        decreases an - i,
    {
        let ca = a.get_char(i) as u32;
        let cb = b.get_char(i) as u32;
        proof {
            assert(a@.skip(i as int)[0] == a@[i as int]);
            assert(b@.skip(i as int)[0] == b@[i as int]);
        }
        if ca < cb {
            return true;
        }
        if ca > cb {
            return false;
        }
        i += 1;
        proof {
            assert(a@.skip(i - 1).drop_first() =~= a@.skip(i as int));
            assert(b@.skip(i - 1).drop_first() =~= b@.skip(i as int));
        }
    }
    if i == an {
        proof {
            assert(a@.skip(i as int).len() == 0);
        }
        true
    } else {
        proof {
            assert(b@.skip(i as int).len() == 0);
            assert(a@.skip(i as int).len() > 0);
        }
        false
    }
}

/// The views of a list of fields as reflected metadata pairs: each local
/// name with the target type text of its source type.
pub open spec fn field_infos(fs: Seq<FieldV>) -> Seq<(Seq<char>, Seq<char>)> {
    fs.map_values(|f: FieldV| (f.name, target_type(f.source_type)))
}

/// The reflected metadata of one declaration.
pub open spec fn info_of(d: DeclV) -> ChunkInfoV {
    ChunkInfoV {
        name: d.name,
        doc: d.doc,
        fields: field_infos(d.fields),
        category: category_of(d.doc),
    }
}

/// Reflects one declaration into its metadata.
pub fn build_info(d: &ChunkDeclaration) -> (r: ChunkInfo)
    ensures
        r@ == info_of(d@),
{
    let doc = match &d.doc {
        Some(t) => Some(t.clone()),
        None => None,
    };
    let category = category_from_doc(&d.doc);
    let mut fields: Vec<(String, String)> = Vec::new();
    let n = d.fields.len();
    let mut k: usize = 0;
    while k < n
        invariant
            n == d.fields@.len(),
            k <= n,
            pair_views(fields@) == field_infos(d@.fields).subrange(0, k as int),
        decreases n - k,
    {
        let ghost prior = fields@;
        let entry = (d.fields[k].name.clone(), target_type_text(&d.fields[k].source_type));
        fields.push(entry);
        k += 1;
        proof {
            assert(fields@ == prior.push(entry));
            assert(pair_views(prior).len() == prior.len());
            assert(pair_views(fields@) =~= field_infos(d@.fields).subrange(0, k as int));
        }
    }
    let r = ChunkInfo { name: d.name.clone(), doc, fields, category };
    proof {
        assert(pair_views(r.fields@) =~= field_infos(d@.fields));
    }
    r
}

/// Inserts a record into a list ordered by surface name, before the first
/// entry it does not come strictly after.
pub open spec fn insert_sorted(x: ChunkInfoV, s: Seq<ChunkInfoV>) -> Seq<ChunkInfoV>
    decreases s.len(),
{
    if s.len() == 0 {
        seq![x]
    } else if lex_le(x.name, s[0].name) {
        seq![x] + s
    } else {
        seq![s[0]] + insert_sorted(x, s.drop_first())
    }
}

/// Where [`insert_sorted`] puts the new record: at the first position whose
/// entry it precedes.
proof fn lemma_insert_sorted_at(x: ChunkInfoV, s: Seq<ChunkInfoV>, idx: int)
    requires
        0 <= idx <= s.len(),
        forall|k: int| 0 <= k < idx ==> !lex_le(x.name, s[k].name),
        idx < s.len() ==> lex_le(x.name, s[idx].name),
    ensures
        insert_sorted(x, s) == s.insert(idx, x),
    decreases idx,
{
    if s.len() == 0 {
        assert(insert_sorted(x, s) =~= s.insert(idx, x));
    } else if idx == 0 {
        assert(insert_sorted(x, s) =~= s.insert(0, x));
    } else {
        lemma_insert_sorted_at(x, s.drop_first(), idx - 1);
        assert(insert_sorted(x, s) == seq![s[0]] + s.drop_first().insert(idx - 1, x));
        assert(seq![s[0]] + s.drop_first().insert(idx - 1, x) =~= s.insert(idx, x));
    }
}

/// Inserts a reflected record into a list ordered by surface name.
fn insert_info(out: &mut Vec<ChunkInfo>, info: ChunkInfo)
    ensures
        info_views(final(out)@) == insert_sorted(info@, info_views(old(out)@)),
{
    let ghost before = info_views(out@);
    let n = out.len();
    let mut pos: usize = 0;
    proof {
        assert(before.len() == n);
    }
    while pos < n && !str_le(info.name.as_str(), out[pos].name.as_str())
        invariant
            n == out@.len(),
            out@ == old(out)@,
            before == info_views(out@),
            before.len() == n,
            pos <= n,
            forall|k: int| 0 <= k < pos ==> !lex_le(info@.name, before[k].name),
        decreases n - pos,
    {
        proof {
            assert(before[pos as int] == out@[pos as int]@);
        }
        pos += 1;
    }
    proof {
        assert(before.len() == n);
        if pos < n {
            assert(before[pos as int] == out@[pos as int]@);
            assert(lex_le(info@.name, before[pos as int].name));
        }
        lemma_insert_sorted_at(info@, before, pos as int);
    }
    out.insert(pos, info);
    proof {
        assert(info_views(out@) =~= before.insert(pos as int, info@));
    }
}

/// A declaration well formed enough to reflect: it has a surface name.
pub open spec fn reflectable(d: DeclV) -> bool {
    d.name.len() > 0
}

/// What reflecting a declaration list yields: the metadata of every
/// reflectable declaration, ordered by surface name. A declaration that is
/// not well formed is silently skipped, never a failure.
pub open spec fn reflect_spec(ds: Seq<DeclV>) -> Seq<ChunkInfoV>
    decreases ds.len(),
{
    if ds.len() == 0 {
        Seq::empty()
    } else {
        let rest = reflect_spec(ds.drop_last());
        if reflectable(ds.last()) {
            insert_sorted(info_of(ds.last()), rest)
        } else {
            rest
        }
    }
}

/// Reflects a declaration list: collects the metadata of every well-formed
/// declaration and orders the result by surface name. Ill-formed
/// declarations are silently skipped.
pub fn reflect_declarations(decls: &Vec<ChunkDeclaration>) -> (r: Vec<ChunkInfo>)
    ensures
        info_views(r@) == reflect_spec(crate::decl::decl_views(decls@)),
{
    let ghost dv = crate::decl::decl_views(decls@);
    let mut out: Vec<ChunkInfo> = Vec::new();
    let n = decls.len();
    let mut k: usize = 0;
    proof {
        assert(dv.len() == n);
        assert(info_views(out@) =~= reflect_spec(dv.subrange(0, 0)));
    }
    while k < n
        invariant
            n == decls@.len(),
            dv == crate::decl::decl_views(decls@),
            dv.len() == n,
            k <= n,
            info_views(out@) == reflect_spec(dv.subrange(0, k as int)),
        decreases n - k,
    {
        if !decls[k].name.as_str().is_empty() {
            let info = build_info(&decls[k]);
            insert_info(&mut out, info);
        }
        k += 1;
        proof {
            let prefix = dv.subrange(0, k as int);
            assert(prefix.drop_last() =~= dv.subrange(0, k - 1));
            assert(prefix.last() == dv[k - 1]);
            assert(dv[k - 1] == decls@[k - 1]@);
            assert(dv[k - 1].name.len() == decls@[k - 1].name@.len());
        }
    }
    proof {
        assert(dv.subrange(0, n as int) =~= dv);
    }
    out
}

/// The members of one category: the records carrying exactly that category,
/// in catalog order.
pub open spec fn members_of(infos: Seq<ChunkInfoV>, c: Seq<char>) -> Seq<ChunkInfoV>
    decreases infos.len(),
{
    if infos.len() == 0 {
        Seq::empty()
    } else {
        let rest = members_of(infos.drop_last(), c);
        if infos.last().category == c {
            rest.push(infos.last())
        } else {
            rest
        }
    }
}

/// Every record is a member of the group of its own category.
pub proof fn lemma_member_of_own_category(infos: Seq<ChunkInfoV>, i: int)
    requires
        0 <= i < infos.len(),
    ensures
        members_of(infos, infos[i].category).contains(infos[i]),
    decreases infos.len(),
{
    let c = infos[i].category;
    if i == infos.len() - 1 {
        let m = members_of(infos, c);
        assert(m.last() == infos[i]);
        assert(m.contains(infos[i]));
    } else {
        lemma_member_of_own_category(infos.drop_last(), i);
        let rest = members_of(infos.drop_last(), c);
        let m = members_of(infos, c);
        let w = choose|w: int| 0 <= w < rest.len() && rest[w] == infos[i];
        if infos.last().category == c {
            assert(m[w] == infos[i]);
        } else {
            assert(m[w] == infos[i]);
        }
        assert(m.contains(infos[i]));
    }
}

/// Every member of a category's group carries that category and comes from
/// the catalog: a record never appears in another category's group.
pub proof fn lemma_member_only_own_category(infos: Seq<ChunkInfoV>, c: Seq<char>, j: int)
    requires
        0 <= j < members_of(infos, c).len(),
    ensures
        members_of(infos, c)[j].category == c,
        infos.contains(members_of(infos, c)[j]),
    decreases infos.len(),
{
    let m = members_of(infos, c);
    if infos.len() == 0 {
    } else {
        let rest = members_of(infos.drop_last(), c);
        if j < rest.len() {
            lemma_member_only_own_category(infos.drop_last(), c, j);
            let w = choose|w: int|
                0 <= w < infos.drop_last().len() && infos.drop_last()[w] == rest[j];
            assert(infos[w] == m[j]);
            assert(infos.contains(m[j]));
        } else {
            assert(infos.last().category == c);
            assert(m[j] == infos.last());
            assert(infos[infos.len() - 1] == m[j]);
            assert(infos.contains(m[j]));
        }
    }
}

/// The distinct categories of a catalog, in order of first appearance.
pub open spec fn cats_first(infos: Seq<ChunkInfoV>) -> Seq<Seq<char>>
    decreases infos.len(),
{
    if infos.len() == 0 {
        Seq::empty()
    } else {
        let rest = cats_first(infos.drop_last());
        if rest.contains(infos.last().category) {
            rest
        } else {
            rest.push(infos.last().category)
        }
    }
}

/// Inserts a name into a lexicographically ordered list of names.
pub open spec fn insert_name(c: Seq<char>, cs: Seq<Seq<char>>) -> Seq<Seq<char>>
    decreases cs.len(),
{
    if cs.len() == 0 {
        seq![c]
    } else if lex_le(c, cs[0]) {
        seq![c] + cs
    } else {
        seq![cs[0]] + insert_name(c, cs.drop_first())
    }
}

/// Where [`insert_name`] puts the new name.
proof fn lemma_insert_name_at(c: Seq<char>, cs: Seq<Seq<char>>, idx: int)
    requires
        0 <= idx <= cs.len(),
        forall|k: int| 0 <= k < idx ==> !lex_le(c, cs[k]),
        idx < cs.len() ==> lex_le(c, cs[idx]),
    ensures
        insert_name(c, cs) == cs.insert(idx, c),
    decreases idx,
{
    if cs.len() == 0 {
        assert(insert_name(c, cs) =~= cs.insert(idx, c));
    } else if idx == 0 {
        assert(insert_name(c, cs) =~= cs.insert(0, c));
    } else {
        lemma_insert_name_at(c, cs.drop_first(), idx - 1);
        assert(insert_name(c, cs) == seq![cs[0]] + cs.drop_first().insert(idx - 1, c));
        assert(seq![cs[0]] + cs.drop_first().insert(idx - 1, c) =~= cs.insert(idx, c));
    }
}

/// The distinct categories of a catalog, in lexicographic order.
pub open spec fn sorted_names(cs: Seq<Seq<char>>) -> Seq<Seq<char>>
    decreases cs.len(),
{
    if cs.len() == 0 {
        Seq::empty()
    } else {
        insert_name(cs.last(), sorted_names(cs.drop_last()))
    }
}

/// The category groups of a catalog: one group per distinct category, in
/// lexicographic category order, each holding exactly that category's
/// records in catalog order.
pub open spec fn groups_of(cs: Seq<Seq<char>>, infos: Seq<ChunkInfoV>) -> Seq<
    (Seq<char>, Seq<ChunkInfoV>),
> {
    cs.map_values(|c: Seq<char>| (c, members_of(infos, c)))
}

pub open spec fn groups_spec(infos: Seq<ChunkInfoV>) -> Seq<(Seq<char>, Seq<ChunkInfoV>)> {
    groups_of(sorted_names(cats_first(infos)), infos)
}

/// The views of a list of category groups.
pub open spec fn group_views(s: Seq<(String, Vec<ChunkInfo>)>) -> Seq<(Seq<char>, Seq<ChunkInfoV>)> {
    s.map_values(|g: (String, Vec<ChunkInfo>)| (g.0@, info_views(g.1@)))
}

/// Collects the records of one category, in catalog order.
fn collect_members(infos: &Vec<ChunkInfo>, c: &String) -> (r: Vec<ChunkInfo>)
    ensures
        info_views(r@) == members_of(info_views(infos@), c@),
{
    let ghost iv = info_views(infos@);
    let mut out: Vec<ChunkInfo> = Vec::new();
    let n = infos.len();
    let mut k: usize = 0;
    proof {
        assert(iv.len() == n);
        assert(info_views(out@) =~= members_of(iv.subrange(0, 0), c@));
    }
    while k < n
        invariant
            n == infos@.len(),
            iv == info_views(infos@),
            iv.len() == n,
            k <= n,
            info_views(out@) == members_of(iv.subrange(0, k as int), c@),
        decreases n - k,
    {
        let ghost prior = out@;
        if infos[k].category == *c {
            out.push(infos[k].duplicate());
        }
        k += 1;
        proof {
            let prefix = iv.subrange(0, k as int);
            assert(prefix.drop_last() =~= iv.subrange(0, k - 1));
            assert(prefix.last() == iv[k - 1]);
            assert(iv[k - 1] == infos@[k - 1]@);
            if infos@[k - 1]@.category == c@ {
                assert(info_views(out@) =~= members_of(iv.subrange(0, k - 1), c@).push(
                    iv[k - 1],
                ));
            }
        }
    }
    proof {
        assert(iv.subrange(0, n as int) =~= iv);
    }
    out
}

/// Groups a reflected catalog by category: one group per distinct category,
/// category-sorted, each holding exactly that category's records.
///
/// The groups partition the catalog exactly: the group categories are
/// pairwise distinct, every record's category has a group, and each group's
/// members are exactly the records of its category (see
/// [`lemma_member_of_own_category`] and [`lemma_member_only_own_category`]).
pub fn group_by_category(infos: &Vec<ChunkInfo>) -> (r: Vec<(String, Vec<ChunkInfo>)>)
    ensures
        group_views(r@) == groups_spec(info_views(infos@)),
        forall|g: int|
            0 <= g < group_views(r@).len() ==> group_views(r@)[g].1 == members_of(
                info_views(infos@),
                group_views(r@)[g].0,
            ),
        forall|g1: int, g2: int|
            0 <= g1 < g2 < group_views(r@).len() ==> group_views(r@)[g1].0 != group_views(
                r@,
            )[g2].0,
        forall|i: int|
            #![trigger info_views(infos@)[i]]
            0 <= i < info_views(infos@).len() ==> exists|g: int|
                0 <= g < group_views(r@).len() && (#[trigger] group_views(r@)[g]).0 == info_views(
                    infos@,
                )[i].category,
{
    let ghost iv = info_views(infos@);
    let n = infos.len();

    let mut cats: Vec<String> = Vec::new();
    let mut k: usize = 0;
    proof {
        assert(iv.len() == n);
        assert(string_views(cats@) =~= cats_first(iv.subrange(0, 0)));
    }
    while k < n
        invariant
            n == infos@.len(),
            iv == info_views(infos@),
            iv.len() == n,
            k <= n,
            string_views(cats@) == cats_first(iv.subrange(0, k as int)),
        decreases n - k,
    {
        let c = &infos[k].category;
        let mut present = false;
        let mut j: usize = 0;
        while j < cats.len()
            invariant
                j <= cats@.len(),
                present ==> string_views(cats@).contains(c@),
                !present ==> forall|q: int|
                    0 <= q < j ==> (#[trigger] string_views(cats@)[q]) != c@,
            decreases cats@.len() - j,
        {
            if cats[j] == *c {
                present = true;
                proof {
                    assert(string_views(cats@)[j as int] == c@);
                }
                j = cats.len();
            } else {
                j += 1;
            }
        }
        let ghost prior = string_views(cats@);
        if !present {
            proof {
                if prior.contains(c@) {
                    let w = choose|w: int| 0 <= w < prior.len() && prior[w] == c@;
                    assert(false);
                }
            }
            cats.push(c.clone());
        }
        k += 1;
        proof {
            let prefix = iv.subrange(0, k as int);
            assert(prefix.drop_last() =~= iv.subrange(0, k - 1));
            assert(prefix.last() == iv[k - 1]);
            assert(iv[k - 1] == infos@[k - 1]@);
            if !present {
                assert(string_views(cats@) =~= prior.push(c@));
            }
        }
    }
    proof {
        assert(iv.subrange(0, n as int) =~= iv);
    }

    let ghost firsts = cats_first(iv);
    let mut sorted: Vec<String> = Vec::new();
    let mut k: usize = 0;
    proof {
        assert(firsts.len() == cats@.len());
        assert(string_views(sorted@) =~= sorted_names(firsts.subrange(0, 0)));
    }
    while k < cats.len()
        invariant
            string_views(cats@) == firsts,
            firsts.len() == cats@.len(),
            k <= cats@.len(),
            string_views(sorted@) == sorted_names(firsts.subrange(0, k as int)),
        decreases cats@.len() - k,
    {
        let c = cats[k].clone();
        let ghost before = string_views(sorted@);
        let m = sorted.len();
        let mut pos: usize = 0;
        while pos < m && !str_le(c.as_str(), sorted[pos].as_str())
            invariant
                m == sorted@.len(),
                string_views(sorted@) == before,
                pos <= m,
                forall|q: int| 0 <= q < pos ==> !lex_le(c@, before[q]),
            decreases m - pos,
        {
            proof {
                assert(before[pos as int] == sorted@[pos as int]@);
            }
            pos += 1;
        }
        proof {
            assert(before.len() == m);
            if pos < m {
                assert(before[pos as int] == sorted@[pos as int]@);
                assert(lex_le(c@, before[pos as int]));
            }
            lemma_insert_name_at(c@, before, pos as int);
        }
        sorted.insert(pos, c);
        k += 1;
        proof {
            assert(string_views(sorted@) =~= before.insert(pos as int, c@));
            let prefix = firsts.subrange(0, k as int);
            assert(prefix.drop_last() =~= firsts.subrange(0, k - 1));
            assert(prefix.last() == firsts[k - 1]);
            assert(firsts[k - 1] == cats@[k - 1]@);
        }
    }
    proof {
        assert(firsts.subrange(0, cats@.len() as int) =~= firsts);
    }

    let ghost snames = sorted_names(firsts);
    let mut out: Vec<(String, Vec<ChunkInfo>)> = Vec::new();
    let mut k: usize = 0;
    proof {
        assert(snames.len() == sorted@.len());
        assert(group_views(out@) =~= groups_of(snames.subrange(0, 0), iv));
    }
    while k < sorted.len()
        invariant
            iv == info_views(infos@),
            string_views(sorted@) == snames,
            snames.len() == sorted@.len(),
            k <= sorted@.len(),
            group_views(out@) == groups_of(snames.subrange(0, k as int), iv),
        decreases sorted@.len() - k,
    {
        let ghost prior_raw = out@;
        let members = collect_members(infos, &sorted[k]);
        let entry = (sorted[k].clone(), members);
        out.push(entry);
        k += 1;
        proof {
            assert(out@ == prior_raw.push(entry));
            assert(group_views(prior_raw).len() == prior_raw.len());
            assert(snames[k - 1] == sorted@[k - 1]@);
            assert(group_views(out@)[k - 1] == (entry.0@, info_views(entry.1@)));
            assert forall|i: int|
                0 <= i < k implies group_views(out@)[i] == groups_of(
                snames.subrange(0, k as int),
                iv,
            )[i] by {
                if i < k - 1 {
                    assert(out@[i] == prior_raw[i]);
                    assert(group_views(out@)[i] == (prior_raw[i].0@, info_views(
                        prior_raw[i].1@,
                    )));
                    assert(group_views(prior_raw)[i] == (prior_raw[i].0@, info_views(
                        prior_raw[i].1@,
                    )));
                    assert(group_views(prior_raw)[i] == groups_of(
                        snames.subrange(0, k - 1),
                        iv,
                    )[i]);
                    assert(snames.subrange(0, k - 1)[i] == snames.subrange(0, k as int)[i]);
                }
            }
            assert(group_views(out@) =~= groups_of(snames.subrange(0, k as int), iv));
        }
    }
    proof {
        assert(snames.subrange(0, sorted@.len() as int) =~= snames);
        assert(group_views(out@) =~= groups_spec(iv));
        lemma_sorted_names_distinct_complete(iv);
        assert forall|g: int|
            0 <= g < group_views(out@).len() implies group_views(out@)[g].1 == members_of(
            iv,
            group_views(out@)[g].0,
        ) by {
            assert(group_views(out@)[g] == groups_spec(iv)[g]);
        }
        assert forall|i: int| #![trigger info_views(infos@)[i]]
            0 <= i < info_views(infos@).len() implies exists|g: int|
            0 <= g < group_views(out@).len() && (#[trigger] group_views(out@)[g]).0 == info_views(
            infos@,
        )[i].category by {
            assert(snames.contains(iv[i].category));
            let w = choose|w: int| 0 <= w < snames.len() && snames[w] == iv[i].category;
            assert(group_views(out@)[w] == groups_spec(iv)[w]);
            assert((#[trigger] group_views(out@)[w]).0 == iv[i].category);
        }
    }
    out
}

/// Membership in a name list survives [`insert_name`], and the inserted name
/// joins it; distinctness survives when the name was absent.
proof fn lemma_insert_name_facts(c: Seq<char>, cs: Seq<Seq<char>>)
    ensures
        forall|x: Seq<char>| insert_name(c, cs).contains(x) <==> (x == c || cs.contains(x)),
        (!cs.contains(c) && (forall|p: int, q: int|
            0 <= p < q < cs.len() ==> cs[p] != cs[q])) ==> (forall|p: int, q: int|
            0 <= p < q < insert_name(c, cs).len() ==> insert_name(c, cs)[p] != insert_name(
                c,
                cs,
            )[q]),
    decreases cs.len(),
{
    let r = insert_name(c, cs);
    if cs.len() == 0 {
        assert forall|x: Seq<char>| r.contains(x) implies (x == c || cs.contains(x)) by {
            let w = choose|w: int| 0 <= w < r.len() && r[w] == x;
        }
        assert(r[0] == c);
        assert(r.contains(c));
    } else if lex_le(c, cs[0]) {
        assert(r == seq![c] + cs);
        assert forall|x: Seq<char>| r.contains(x) implies (x == c || cs.contains(x)) by {
            let w = choose|w: int| 0 <= w < r.len() && r[w] == x;
            if w > 0 {
                assert(cs[w - 1] == x);
            }
        }
        assert forall|x: Seq<char>| (x == c || cs.contains(x)) implies r.contains(x) by {
            if x == c {
                assert(r[0] == x);
            } else {
                let w = choose|w: int| 0 <= w < cs.len() && cs[w] == x;
                assert(r[w + 1] == x);
            }
        }
    } else {
        lemma_insert_name_facts(c, cs.drop_first());
        let rest = insert_name(c, cs.drop_first());
        assert(r == seq![cs[0]] + rest);
        assert forall|x: Seq<char>| r.contains(x) implies (x == c || cs.contains(x)) by {
            let w = choose|w: int| 0 <= w < r.len() && r[w] == x;
            if w == 0 {
                assert(cs[0] == x);
            } else {
                assert(rest[w - 1] == x);
                assert(rest.contains(x));
                if x != c {
                    assert(cs.drop_first().contains(x));
                    let v = choose|v: int|
                        0 <= v < cs.drop_first().len() && cs.drop_first()[v] == x;
                    assert(cs[v + 1] == x);
                }
            }
        }
        assert forall|x: Seq<char>| (x == c || cs.contains(x)) implies r.contains(x) by {
            if x == cs[0] {
                assert(r[0] == x);
            } else if x == c {
                assert(rest.contains(x));
                let v = choose|v: int| 0 <= v < rest.len() && rest[v] == x;
                assert(r[v + 1] == x);
            } else {
                let w = choose|w: int| 0 <= w < cs.len() && cs[w] == x;
                assert(w > 0);
                assert(cs.drop_first()[w - 1] == x);
                assert(cs.drop_first().contains(x));
                assert(rest.contains(x));
                let v = choose|v: int| 0 <= v < rest.len() && rest[v] == x;
                assert(r[v + 1] == x);
            }
        }
        if !cs.contains(c) && (forall|p: int, q: int| 0 <= p < q < cs.len() ==> cs[p] != cs[q]) {
            assert(!cs.drop_first().contains(c)) by {
                if cs.drop_first().contains(c) {
                    let v = choose|v: int|
                        0 <= v < cs.drop_first().len() && cs.drop_first()[v] == c;
                    assert(cs[v + 1] == c);
                }
            }
            assert(forall|p: int, q: int|
                0 <= p < q < cs.drop_first().len() ==> cs.drop_first()[p] != cs.drop_first()[q])
                by {
                assert forall|p: int, q: int|
                    0 <= p < q < cs.drop_first().len() implies cs.drop_first()[p]
                    != cs.drop_first()[q] by {
                    assert(cs.drop_first()[p] == cs[p + 1]);
                    assert(cs.drop_first()[q] == cs[q + 1]);
                }
            }
            assert(!rest.contains(cs[0])) by {
                if rest.contains(cs[0]) {
                    assert(cs[0] == c || cs.drop_first().contains(cs[0]));
                    if cs.drop_first().contains(cs[0]) {
                        let v = choose|v: int|
                            0 <= v < cs.drop_first().len() && cs.drop_first()[v] == cs[0];
                        assert(cs[v + 1] == cs[0]);
                    }
                }
            }
            assert forall|p: int, q: int| 0 <= p < q < r.len() implies r[p] != r[q] by {
                if p == 0 {
                    assert(r[q] == rest[q - 1]);
                    assert(rest.contains(rest[q - 1]));
                    if r[p] == r[q] {
                        assert(rest.contains(cs[0]));
                    }
                } else {
                    assert(r[p] == rest[p - 1]);
                    assert(r[q] == rest[q - 1]);
                }
            }
        }
    }
}

/// The sorted category list of a catalog holds pairwise distinct names, and
/// every record's category is among them.
pub proof fn lemma_sorted_names_distinct_complete(infos: Seq<ChunkInfoV>)
    ensures
        forall|p: int, q: int|
            0 <= p < q < sorted_names(cats_first(infos)).len() ==> sorted_names(
                cats_first(infos),
            )[p] != sorted_names(cats_first(infos))[q],
        forall|i: int|
            0 <= i < infos.len() ==> sorted_names(cats_first(infos)).contains(infos[i].category),
{
    lemma_cats_first_facts(infos);
    lemma_sorted_names_facts(cats_first(infos));
    assert forall|i: int|
        0 <= i < infos.len() implies sorted_names(cats_first(infos)).contains(
        infos[i].category,
    ) by {
        assert(cats_first(infos).contains(infos[i].category));
    }
}

/// The first-appearance category list is distinct and holds every record's
/// category.
proof fn lemma_cats_first_facts(infos: Seq<ChunkInfoV>)
    ensures
        forall|p: int, q: int|
            0 <= p < q < cats_first(infos).len() ==> cats_first(infos)[p] != cats_first(infos)[q],
        forall|i: int| 0 <= i < infos.len() ==> cats_first(infos).contains(infos[i].category),
    decreases infos.len(),
{
    if infos.len() == 0 {
    } else {
        lemma_cats_first_facts(infos.drop_last());
        let rest = cats_first(infos.drop_last());
        let r = cats_first(infos);
        assert forall|i: int| 0 <= i < infos.len() implies r.contains(infos[i].category) by {
            if i < infos.len() - 1 {
                assert(infos.drop_last()[i] == infos[i]);
                assert(rest.contains(infos[i].category));
                let w = choose|w: int| 0 <= w < rest.len() && rest[w] == infos[i].category;
                assert(r[w] == infos[i].category);
            } else {
                if rest.contains(infos.last().category) {
                    let w = choose|w: int|
                        0 <= w < rest.len() && rest[w] == infos.last().category;
                    assert(r[w] == infos[i].category);
                } else {
                    assert(r.last() == infos[i].category);
                }
            }
        }
        if !rest.contains(infos.last().category) {
            assert forall|p: int, q: int| 0 <= p < q < r.len() implies r[p] != r[q] by {
                if q < r.len() - 1 {
                    assert(r[p] == rest[p] && r[q] == rest[q]);
                } else {
                    assert(r[q] == infos.last().category);
                    assert(r[p] == rest[p]);
                    assert(rest.contains(rest[p]));
                    if r[p] == r[q] {
                        assert(rest.contains(infos.last().category));
                    }
                }
            }
        }
    }
}

/// Sorting a distinct name list keeps it distinct and keeps every member.
proof fn lemma_sorted_names_facts(cs: Seq<Seq<char>>)
    requires
        forall|p: int, q: int| 0 <= p < q < cs.len() ==> cs[p] != cs[q],
    ensures
        forall|p: int, q: int|
            0 <= p < q < sorted_names(cs).len() ==> sorted_names(cs)[p] != sorted_names(cs)[q],
        forall|x: Seq<char>| cs.contains(x) ==> sorted_names(cs).contains(x),
    decreases cs.len(),
{
    if cs.len() == 0 {
    } else {
        let head = cs.drop_last();
        assert forall|p: int, q: int| 0 <= p < q < head.len() implies head[p] != head[q] by {
            assert(head[p] == cs[p] && head[q] == cs[q]);
        }
        lemma_sorted_names_facts(head);
        let rest = sorted_names(head);
        lemma_insert_name_facts(cs.last(), rest);
        assert(!rest.contains(cs.last())) by {
            if rest.contains(cs.last()) {
                assert forall|x: Seq<char>| rest.contains(x) implies head.contains(x) by {
                    lemma_sorted_contains_rev(head, x);
                }
                let w = choose|w: int| 0 <= w < head.len() && head[w] == cs.last();
                assert(cs[w] == cs.last());
                assert(cs[w] == cs[cs.len() - 1]);
            }
        }
        assert forall|x: Seq<char>| cs.contains(x) implies sorted_names(cs).contains(x) by {
            let w = choose|w: int| 0 <= w < cs.len() && cs[w] == x;
            if w < cs.len() - 1 {
                assert(head[w] == x);
                assert(head.contains(x));
                assert(rest.contains(x));
            }
        }
    }
}

/// Every name in a sorted name list came from the unsorted one.
proof fn lemma_sorted_contains_rev(cs: Seq<Seq<char>>, x: Seq<char>)
    requires
        sorted_names(cs).contains(x),
    ensures
        cs.contains(x),
    decreases cs.len(),
{
    if cs.len() == 0 {
    } else {
        let head = cs.drop_last();
        let rest = sorted_names(head);
        lemma_insert_name_facts(cs.last(), rest);
        if x == cs.last() {
            assert(cs[cs.len() - 1] == x);
        } else {
            assert(rest.contains(x));
            lemma_sorted_contains_rev(head, x);
            let w = choose|w: int| 0 <= w < head.len() && head[w] == x;
            assert(cs[w] == x);
        }
    }
}


/// The lexicographic order is total: of any two texts, one precedes the
/// other.
pub proof fn lemma_lex_total(a: Seq<char>, b: Seq<char>)
    ensures
        lex_le(a, b) || lex_le(b, a),
    decreases a.len(),
{
    if a.len() == 0 {
    } else if b.len() == 0 {
    } else if (a[0] as u32) < (b[0] as u32) {
    } else if (a[0] as u32) > (b[0] as u32) {
    } else {
        lemma_lex_total(a.drop_first(), b.drop_first());
    }
}

/// The lexicographic order is transitive.
pub proof fn lemma_lex_trans(a: Seq<char>, b: Seq<char>, c: Seq<char>)
    requires
        lex_le(a, b),
        lex_le(b, c),
    ensures
        lex_le(a, c),
    decreases a.len(),
{
    if a.len() == 0 {
    } else {
        assert(b.len() > 0);
        assert(c.len() > 0);
        if (a[0] as u32) == (b[0] as u32) && (b[0] as u32) == (c[0] as u32) {
            lemma_lex_trans(a.drop_first(), b.drop_first(), c.drop_first());
        }
    }
}

/// A record list ordered by surface name.
pub open spec fn sorted_by_name(s: Seq<ChunkInfoV>) -> bool {
    forall|i: int, j: int| 0 <= i < j < s.len() ==> lex_le(s[i].name, s[j].name)
}

/// Everything in an insertion result is the inserted record or came from
/// the list.
proof fn lemma_insert_sorted_members(x: ChunkInfoV, s: Seq<ChunkInfoV>)
    ensures
        insert_sorted(x, s).len() == s.len() + 1,
        forall|i: int|
            0 <= i < insert_sorted(x, s).len() ==> (insert_sorted(x, s)[i] == x || s.contains(
                insert_sorted(x, s)[i],
            )),
    decreases s.len(),
{
    let r = insert_sorted(x, s);
    if s.len() == 0 {
    } else if lex_le(x.name, s[0].name) {
        assert forall|i: int| 0 <= i < r.len() implies (r[i] == x || s.contains(r[i])) by {
            if i > 0 {
                assert(r[i] == s[i - 1]);
            }
        }
    } else {
        lemma_insert_sorted_members(x, s.drop_first());
        let rest = insert_sorted(x, s.drop_first());
        assert forall|i: int| 0 <= i < r.len() implies (r[i] == x || s.contains(r[i])) by {
            if i == 0 {
                assert(r[0] == s[0]);
            } else {
                assert(r[i] == rest[i - 1]);
                if rest[i - 1] != x {
                    assert(s.drop_first().contains(rest[i - 1]));
                    let w = choose|w: int|
                        0 <= w < s.drop_first().len() && s.drop_first()[w] == rest[i - 1];
                    assert(s[w + 1] == rest[i - 1]);
                }
            }
        }
    }
}

/// Inserting into a list ordered by surface name keeps it ordered.
proof fn lemma_insert_sorted_sorted(x: ChunkInfoV, s: Seq<ChunkInfoV>)
    requires
        sorted_by_name(s),
    ensures
        sorted_by_name(insert_sorted(x, s)),
    decreases s.len(),
{
    let r = insert_sorted(x, s);
    if s.len() == 0 {
    } else if lex_le(x.name, s[0].name) {
        assert forall|i: int, j: int| 0 <= i < j < r.len() implies lex_le(
            r[i].name,
            r[j].name,
        ) by {
            if i == 0 {
                assert(r[j] == s[j - 1]);
                if j > 1 {
                    lemma_lex_trans(x.name, s[0].name, s[j - 1].name);
                }
            } else {
                assert(r[i] == s[i - 1] && r[j] == s[j - 1]);
            }
        }
    } else {
        lemma_lex_total(x.name, s[0].name);
        assert forall|i: int, j: int|
            0 <= i < j < s.drop_first().len() implies lex_le(
            s.drop_first()[i].name,
            s.drop_first()[j].name,
        ) by {
            assert(s.drop_first()[i] == s[i + 1] && s.drop_first()[j] == s[j + 1]);
        }
        lemma_insert_sorted_sorted(x, s.drop_first());
        lemma_insert_sorted_members(x, s.drop_first());
        let rest = insert_sorted(x, s.drop_first());
        assert forall|i: int, j: int| 0 <= i < j < r.len() implies lex_le(
            r[i].name,
            r[j].name,
        ) by {
            if i == 0 {
                assert(r[j] == rest[j - 1]);
                if rest[j - 1] == x {
                    assert(lex_le(s[0].name, x.name));
                } else {
                    assert(s.drop_first().contains(rest[j - 1]));
                    let w = choose|w: int|
                        0 <= w < s.drop_first().len() && s.drop_first()[w] == rest[j - 1];
                    assert(s[w + 1] == rest[j - 1]);
                    assert(lex_le(s[0].name, s[w + 1].name));
                }
            } else {
                assert(r[i] == rest[i - 1] && r[j] == rest[j - 1]);
            }
        }
    }
}

/// The reflected catalog is ordered by surface name.
pub proof fn lemma_reflect_sorted(ds: Seq<DeclV>)
    ensures
        sorted_by_name(reflect_spec(ds)),
    decreases ds.len(),
{
    if ds.len() == 0 {
    } else {
        lemma_reflect_sorted(ds.drop_last());
        if reflectable(ds.last()) {
            lemma_insert_sorted_sorted(info_of(ds.last()), reflect_spec(ds.drop_last()));
        }
    }
}

/// A name list in lexicographic order.
pub open spec fn names_sorted(cs: Seq<Seq<char>>) -> bool {
    forall|i: int, j: int| 0 <= i < j < cs.len() ==> lex_le(cs[i], cs[j])
}

/// Inserting into an ordered name list keeps it ordered.
proof fn lemma_insert_name_sorted(c: Seq<char>, cs: Seq<Seq<char>>)
    requires
        names_sorted(cs),
    ensures
        names_sorted(insert_name(c, cs)),
    decreases cs.len(),
{
    let r = insert_name(c, cs);
    if cs.len() == 0 {
    } else if lex_le(c, cs[0]) {
        assert forall|i: int, j: int| 0 <= i < j < r.len() implies lex_le(r[i], r[j]) by {
            if i == 0 {
                assert(r[j] == cs[j - 1]);
                if j > 1 {
                    lemma_lex_trans(c, cs[0], cs[j - 1]);
                }
            } else {
                assert(r[i] == cs[i - 1] && r[j] == cs[j - 1]);
            }
        }
    } else {
        lemma_lex_total(c, cs[0]);
        assert forall|i: int, j: int|
            0 <= i < j < cs.drop_first().len() implies lex_le(
            cs.drop_first()[i],
            cs.drop_first()[j],
        ) by {
            assert(cs.drop_first()[i] == cs[i + 1] && cs.drop_first()[j] == cs[j + 1]);
        }
        lemma_insert_name_sorted(c, cs.drop_first());
        lemma_insert_name_facts(c, cs.drop_first());
        let rest = insert_name(c, cs.drop_first());
        assert forall|i: int, j: int| 0 <= i < j < r.len() implies lex_le(r[i], r[j]) by {
            if i == 0 {
                assert(r[j] == rest[j - 1]);
                if rest[j - 1] == c {
                    assert(lex_le(cs[0], c));
                } else {
                    assert(cs.drop_first().contains(rest[j - 1]));
                    let w = choose|w: int|
                        0 <= w < cs.drop_first().len() && cs.drop_first()[w] == rest[j - 1];
                    assert(cs[w + 1] == rest[j - 1]);
                    assert(lex_le(cs[0], cs[w + 1]));
                }
            } else {
                assert(r[i] == rest[i - 1] && r[j] == rest[j - 1]);
            }
        }
    }
}

/// Sorting a name list yields lexicographic order.
proof fn lemma_sorted_names_sorted(cs: Seq<Seq<char>>)
    ensures
        names_sorted(sorted_names(cs)),
    decreases cs.len(),
{
    if cs.len() == 0 {
    } else {
        lemma_sorted_names_sorted(cs.drop_last());
        lemma_insert_name_sorted(cs.last(), sorted_names(cs.drop_last()));
    }
}

/// The category groups come in lexicographic category order.
pub proof fn lemma_groups_sorted(infos: Seq<ChunkInfoV>)
    ensures
        forall|g1: int, g2: int|
            0 <= g1 < g2 < groups_spec(infos).len() ==> lex_le(
                groups_spec(infos)[g1].0,
                groups_spec(infos)[g2].0,
            ),
{
    lemma_sorted_names_sorted(cats_first(infos));
    let snames = sorted_names(cats_first(infos));
    assert forall|g1: int, g2: int|
        0 <= g1 < g2 < groups_spec(infos).len() implies lex_le(
        groups_spec(infos)[g1].0,
        groups_spec(infos)[g2].0,
    ) by {
        assert(groups_spec(infos)[g1].0 == snames[g1]);
        assert(groups_spec(infos)[g2].0 == snames[g2]);
    }
}


/// The inserted record is in the insertion result, and so is everything
/// that was in the list.
proof fn lemma_insert_sorted_keeps(x: ChunkInfoV, s: Seq<ChunkInfoV>)
    ensures
        insert_sorted(x, s).contains(x),
        forall|y: ChunkInfoV| s.contains(y) ==> insert_sorted(x, s).contains(y),
    decreases s.len(),
{
    let r = insert_sorted(x, s);
    if s.len() == 0 {
        assert(r[0] == x);
    } else if lex_le(x.name, s[0].name) {
        assert(r[0] == x);
        assert forall|y: ChunkInfoV| s.contains(y) implies r.contains(y) by {
            let w = choose|w: int| 0 <= w < s.len() && s[w] == y;
            assert(r[w + 1] == y);
        }
    } else {
        lemma_insert_sorted_keeps(x, s.drop_first());
        let rest = insert_sorted(x, s.drop_first());
        let wx = choose|w: int| 0 <= w < rest.len() && rest[w] == x;
        assert(r[wx + 1] == x);
        assert forall|y: ChunkInfoV| s.contains(y) implies r.contains(y) by {
            let w = choose|w: int| 0 <= w < s.len() && s[w] == y;
            if w == 0 {
                assert(r[0] == y);
            } else {
                assert(s.drop_first()[w - 1] == y);
                assert(s.drop_first().contains(y));
                let v = choose|v: int| 0 <= v < rest.len() && rest[v] == y;
                assert(r[v + 1] == y);
            }
        }
    }
}

/// Reflection loses nothing: every well-formed declaration's metadata is in
/// the reflected catalog.
pub proof fn lemma_reflect_complete(ds: Seq<DeclV>, i: int)
    requires
        0 <= i < ds.len(),
        reflectable(ds[i]),
    ensures
        reflect_spec(ds).contains(info_of(ds[i])),
    decreases ds.len(),
{
    let rest = reflect_spec(ds.drop_last());
    if i == ds.len() - 1 {
        lemma_insert_sorted_keeps(info_of(ds.last()), rest);
    } else {
        assert(ds.drop_last()[i] == ds[i]);
        lemma_reflect_complete(ds.drop_last(), i);
        if reflectable(ds.last()) {
            lemma_insert_sorted_keeps(info_of(ds.last()), rest);
        }
    }
}

/// Reflection invents nothing: everything in the reflected catalog is the
/// metadata of some well-formed declaration.
pub proof fn lemma_reflect_sound(ds: Seq<DeclV>, x: ChunkInfoV)
    requires
        reflect_spec(ds).contains(x),
    ensures
        exists|i: int| 0 <= i < ds.len() && reflectable(#[trigger] ds[i]) && info_of(ds[i]) == x,
    decreases ds.len(),
{
    let rest = reflect_spec(ds.drop_last());
    if reflectable(ds.last()) && x == info_of(ds.last()) {
        assert(reflectable(ds[ds.len() - 1]) && info_of(ds[ds.len() - 1]) == x);
    } else {
        if reflectable(ds.last()) {
            let w = choose|w: int|
                0 <= w < reflect_spec(ds).len() && reflect_spec(ds)[w] == x;
            lemma_insert_sorted_members(info_of(ds.last()), rest);
            assert(rest.contains(x));
        }
        lemma_reflect_sound(ds.drop_last(), x);
        let i = choose|i: int|
            0 <= i < ds.drop_last().len() && reflectable(#[trigger] ds.drop_last()[i]) && info_of(
                ds.drop_last()[i],
            ) == x;
        assert(ds[i] == ds.drop_last()[i]);
        assert(reflectable(ds[i]) && info_of(ds[i]) == x);
    }
}

} // verus!
