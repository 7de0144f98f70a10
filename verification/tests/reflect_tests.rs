//! The reflector and the stub emitter: category parsing, name ordering,
//! grouping, target type mapping, and deterministic emission.

use teehistorian_py::decl::catalog_declarations;
use teehistorian_py::decl::SourceType;
use teehistorian_py::reflect::category_from_doc;
use teehistorian_py::reflect::group_by_category;
use teehistorian_py::reflect::reflect_declarations;
use teehistorian_py::reflect::str_le;
use teehistorian_py::reflect::target_type_text;
use teehistorian_py::stubs::emit_stub_document;
use teehistorian_py::stubs::generate_stubs;

#[test]
fn test_category_marker_parsing() {
    assert_eq!(category_from_doc(&None), "Other");
    assert_eq!(category_from_doc(&Some("no marker here".to_string())), "Other");
    assert_eq!(category_from_doc(&Some("Line one\nCategory: Input".to_string())), "Input");
    assert_eq!(category_from_doc(&Some("Category:   Spaced out".to_string())), "Spaced");
    assert_eq!(category_from_doc(&Some("Category:".to_string())), "Other");
    assert_eq!(category_from_doc(&Some("Category: ".to_string())), "Other");
}

#[test]
fn test_reflection_sorts_by_surface_name() {
    let infos = reflect_declarations(&catalog_declarations());
    assert_eq!(infos.len(), 23);
    for w in infos.windows(2) {
        assert!(
            str_le(w[0].name.as_str(), w[1].name.as_str()),
            "reflected records must be ordered by surface name"
        );
    }
    assert_eq!(infos[0].name, "AntiBot");
    assert_eq!(infos[infos.len() - 1].name, "Unknown");
}

#[test]
fn test_reflection_extracts_categories() {
    let infos = reflect_declarations(&catalog_declarations());
    for info in &infos {
        let expected = match info.name.as_str() {
            "PlayerReady" => "PlayerLifecycle",
            "PlayerTeam" => "PlayerState",
            "InputNew" | "InputDiff" => "Input",
            _ => "Other",
        };
        assert_eq!(info.category, expected, "category of {}", info.name);
    }
}

#[test]
fn test_reflection_skips_ill_formed_declarations() {
    let mut decls = catalog_declarations();
    let mut nameless = catalog_declarations().pop().unwrap();
    nameless.name = String::new();
    decls.push(nameless);
    let infos = reflect_declarations(&decls);
    assert_eq!(infos.len(), 23, "a declaration without a name is silently skipped");
}

#[test]
fn test_groups_partition_the_catalog() {
    // Union of all groups' members equals the full catalog, each record
    // exactly once, with categories sorted and distinct.
    let infos = reflect_declarations(&catalog_declarations());
    let groups = group_by_category(&infos);
    let cats: Vec<&str> = groups.iter().map(|g| g.0.as_str()).collect();
    assert_eq!(cats, vec!["Input", "Other", "PlayerLifecycle", "PlayerState"]);

    let mut total = 0;
    let mut seen: Vec<String> = Vec::new();
    for (cat, members) in &groups {
        for m in members {
            assert_eq!(&m.category, cat, "a member belongs to its group's category");
            assert!(!seen.contains(&m.name), "each record appears exactly once");
            seen.push(m.name.clone());
        }
        total += members.len();
    }
    assert_eq!(total, infos.len(), "the groups cover the whole catalog");
}

#[test]
fn test_target_type_mapping() {
    assert_eq!(target_type_text(&SourceType::Integer), "int");
    assert_eq!(target_type_text(&SourceType::Float), "float");
    assert_eq!(target_type_text(&SourceType::Boolean), "bool");
    assert_eq!(target_type_text(&SourceType::Text), "str");
    assert_eq!(target_type_text(&SourceType::ByteSeq), "bytes");
    assert_eq!(target_type_text(&SourceType::IntList), "List[int]");
    assert_eq!(target_type_text(&SourceType::OtherList), "List[Any]");
    assert_eq!(target_type_text(&SourceType::MapAny), "Dict[Any, Any]");
    assert_eq!(target_type_text(&SourceType::IdentifierToken), "str");
    assert_eq!(target_type_text(&SourceType::Unrecognized), "Any");
    assert_eq!(
        target_type_text(&SourceType::Optional(Box::new(SourceType::Integer))),
        "Optional[int]"
    );
    // Nested optionals fall back to Any, one level deep.
    assert_eq!(
        target_type_text(&SourceType::Optional(Box::new(SourceType::Optional(Box::new(
            SourceType::Integer
        ))))),
        "Optional[Any]"
    );
}

#[test]
fn test_stub_emission_is_byte_identical() {
    // Running the emitter twice on unchanged declarations produces
    // byte-identical documents.
    let d1 = generate_stubs(&catalog_declarations());
    let d2 = generate_stubs(&catalog_declarations());
    assert_eq!(d1, d2);
    let d3 = emit_stub_document(&reflect_declarations(&catalog_declarations()));
    assert_eq!(d1, d3);
}

#[test]
fn test_stub_document_structure() {
    let doc = generate_stubs(&catalog_declarations());
    assert!(doc.starts_with("# Type stubs for the teehistorian chunk catalog\n"));
    assert!(doc.contains("class Chunk:\n"));
    assert!(doc.contains("class Join(Chunk):\n"));
    assert!(doc.contains("    \"\"\"Player joins the server\"\"\"\n"));
    assert!(doc.contains("    client_id: int\n"));
    assert!(doc.contains("    def __init__(self, client_id: int) -> None: ...\n"));
    assert!(doc.contains("# Input Chunks\n"));
    assert!(doc.contains("InputChunk = Union[\n    InputDiff,\n    InputNew\n]\n"));
    assert!(doc.contains("PlayerLifecycleChunk = Union[\n    PlayerReady\n]\n"));
    assert!(doc.contains("AllChunks = Union[\n"));
    // The grand union covers the full catalog: 23 member lines.
    let all = doc.split("AllChunks = Union[\n").nth(1).unwrap();
    let members = all.split("]\n").next().unwrap();
    assert_eq!(members.lines().count(), 23);
}

#[test]
fn test_unknown_stub_lists_its_fields() {
    let doc = generate_stubs(&catalog_declarations());
    assert!(doc.contains("class Unknown(Chunk):\n"));
    assert!(doc.contains("    uuid: str\n"));
    assert!(doc.contains("    data: bytes\n"));
    assert!(doc.contains("    def __init__(self, uuid: str, data: bytes) -> None: ...\n"));
}
