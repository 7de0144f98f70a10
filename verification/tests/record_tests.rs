//! Record instances built through the generic constructor: map views and
//! textual renderings, including numeric edge cases.

use teehistorian_py::decl::catalog_declarations;
use teehistorian_py::decl::ChunkDeclaration;
use teehistorian_py::decl::WireShape;
use teehistorian_py::record::construct;
use teehistorian_py::reflect::reflect_declarations;
use teehistorian_py::stubs::emit_stub_document;
use teehistorian_py::values::Value;

fn find_decl(name: &str) -> ChunkDeclaration {
    let mut decls = catalog_declarations();
    while let Some(d) = decls.pop() {
        if d.name == name {
            return d;
        }
    }
    panic!("no declaration named {}", name);
}

#[test]
fn test_repr_of_numeric_edges() {
    let decl = find_decl("PlayerNew");
    let rec = construct(&decl, vec![Value::Int(i32::MIN), Value::Int(-1), Value::Int(0)]);
    assert_eq!(rec.repr_text(), "PlayerNew(client_id=-2147483648, x=-1, y=0)");
}

#[test]
fn test_repr_of_text_and_bytes() {
    let decl = find_decl("DdnetVersion");
    let rec = construct(
        &decl,
        vec![
            Value::Int(1),
            Value::Text("not-a-token".to_string()),
            Value::Int(17),
            Value::Bytes(vec![16, 2]),
        ],
    );
    assert_eq!(
        rec.repr_text(),
        "DdnetVersion(client_id=1, connection_id=\"not-a-token\", version=17, version_str=[16, 2])"
    );
}

#[test]
fn test_repr_of_int_list() {
    let decl = find_decl("InputNew");
    let rec = construct(&decl, vec![Value::Int(2), Value::IntList(vec![1, -2, 3])]);
    assert_eq!(rec.repr_text(), "InputNew(client_id=2, input=[1, -2, 3])");
}

#[test]
fn test_type_tag_and_map_order() {
    let decl = find_decl("ConsoleCommand");
    let rec = construct(
        &decl,
        vec![
            Value::Int(4),
            Value::Int(0),
            Value::Text("say".to_string()),
            Value::Text("hello world".to_string()),
        ],
    );
    assert_eq!(rec.type_tag(), "ConsoleCommand");
    let m = rec.to_map();
    let keys: Vec<&str> = m.iter().map(|p| p.0.as_str()).collect();
    assert_eq!(keys, vec!["type", "client_id", "flags", "cmd", "args"]);
}

#[test]
fn test_stub_placeholder_for_missing_doc() {
    let decls = vec![ChunkDeclaration {
        name: "Bare".to_string(),
        shape: WireShape::Manual,
        fields: Vec::new(),
        doc: None,
    }];
    let doc = emit_stub_document(&reflect_declarations(&decls));
    assert!(doc.contains("class Bare(Chunk):\n    \"\"\"Chunk type: Bare\"\"\"\n"));
    assert!(doc.contains("# Other Chunks\n"), "a record without a marker lands in the default category");
    assert!(doc.contains("OtherChunk = Union[\n    Bare\n]\n"));
}
