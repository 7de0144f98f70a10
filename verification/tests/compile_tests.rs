//! The schema compiler path: declarations, construction, map views, wire
//! binding, conversions, and end-to-end encoding.

use teehistorian_py::compile::bind_wire;
use teehistorian_py::compile::encode_record;
use teehistorian_py::convert::clamp_to_bound;
use teehistorian_py::convert::convert;
use teehistorian_py::convert::Conversion;
use teehistorian_py::convert::WireValue;
use teehistorian_py::decl::catalog_declarations;
use teehistorian_py::decl::declarations_well_formed;
use teehistorian_py::decl::surface_names_unique;
use teehistorian_py::decl::ChunkDeclaration;
use teehistorian_py::ident::parse_identifier_or_zero;
use teehistorian_py::record::construct;
use teehistorian_py::values::Value;
use teehistorian_py::wire::encode_wire;
use teehistorian_py::wire::WireChunk;

fn find_decl(name: &str) -> ChunkDeclaration {
    let mut decls = catalog_declarations();
    while let Some(d) = decls.pop() {
        if d.name == name {
            return d;
        }
    }
    panic!("no declaration named {}", name);
}

#[test]
fn test_catalog_names_unique_and_well_formed() {
    let decls = catalog_declarations();
    assert_eq!(decls.len(), 23);
    assert!(surface_names_unique(&decls));
    assert!(declarations_well_formed(&decls));
}

#[test]
fn test_join_scenario() {
    // Declaring "Join" as an inline struct with client_id mapped to the
    // wire field "cid": the map view leads with the type, and encoding
    // yields the inline "Join" wire variant carrying cid=7.
    let decl = find_decl("Join");
    let rec = construct(&decl, vec![Value::Int(7)]);
    let m = rec.to_map();
    assert_eq!(m.len(), 2);
    assert_eq!(m[0], ("type".to_string(), Value::Text("Join".to_string())));
    assert_eq!(m[1], ("client_id".to_string(), Value::Int(7)));
    let bytes = encode_record(&decl, &rec).unwrap();
    assert_eq!(bytes, vec![0x47, 0x07]);
    assert_eq!(bytes, encode_wire(&WireChunk::Join { cid: 7 }).unwrap());
}

#[test]
fn test_auth_login_scenario() {
    // "AuthLogin" selects the outer tag AuthLogin while its inner wire
    // record is the differently named Auth record.
    let decl = find_decl("AuthLogin");
    match &decl.shape {
        teehistorian_py::decl::WireShape::TupleVariantNamedStruct { tag, inner } => {
            assert_eq!(tag, "AuthLogin");
            assert_eq!(inner, "Auth");
        },
        _ => panic!("AuthLogin must carry the explicit two-name mapping"),
    }
    let rec = construct(
        &decl,
        vec![Value::Int(1), Value::Int(2), Value::Text("admin".to_string())],
    );
    let bytes = encode_record(&decl, &rec).unwrap();
    let mut expected: Vec<u8> = vec![0x4a];
    expected.extend_from_slice(&[
        0x37, 0xec, 0xd3, 0xb8, 0x92, 0x18, 0x3b, 0xb9, 0xa7, 0x1b, 0xa9, 0x35, 0xb8, 0x6f,
        0x6a, 0x81,
    ]);
    expected.extend_from_slice(&[0x08, 0x01, 0x02, b'a', b'd', b'm', b'i', b'n', 0x00]);
    assert_eq!(bytes, expected);
}

#[test]
fn test_eos_scenario() {
    let decl = find_decl("Eos");
    let rec = construct(&decl, vec![]);
    assert_eq!(rec.repr_text(), "Eos()");
    assert_eq!(encode_record(&decl, &rec).unwrap(), vec![0x40]);
}

#[test]
fn test_tick_skip_encoding() {
    let decl = find_decl("TickSkip");
    let rec = construct(&decl, vec![Value::Int(100)]);
    assert_eq!(encode_record(&decl, &rec).unwrap(), vec![0x41, 0xa4, 0x01]);
}

#[test]
fn test_encode_record_twice_is_identical() {
    let decl = find_decl("Drop");
    let rec = construct(&decl, vec![Value::Int(5), Value::Text("bye".to_string())]);
    let b1 = encode_record(&decl, &rec).unwrap();
    let b2 = encode_record(&decl, &rec).unwrap();
    assert_eq!(b1, b2);
}

#[test]
fn test_manual_declaration_has_no_compiled_encoding() {
    let decl = find_decl("Unknown");
    let rec = construct(
        &decl,
        vec![Value::Text("not-a-token".to_string()), Value::Bytes(vec![1])],
    );
    assert!(encode_record(&decl, &rec).is_err());
}

#[test]
fn test_mismatched_value_is_rejected_at_encode() {
    // Construction never validates; a text where the wire wants an integer
    // is rejected only when encoding.
    let decl = find_decl("Join");
    let rec = construct(&decl, vec![Value::Text("seven".to_string())]);
    assert!(encode_record(&decl, &rec).is_err());
}

#[test]
fn test_bind_wire_rejects_unknown_tag() {
    let vals = vec![WireValue::Int(1)];
    assert!(bind_wire(&"NoSuchChunk".to_string(), &vals).is_none());
    assert!(bind_wire(&"Join".to_string(), &vals).is_some());
    assert!(bind_wire(&"Join".to_string(), &vec![]).is_none());
}

#[test]
fn test_parse_identifier_with_zero_default() {
    // Malformed identifier text yields the all-zero identifier, never a
    // failure.
    assert_eq!(parse_identifier_or_zero("not-a-token"), 0);
    assert_eq!(parse_identifier_or_zero(""), 0);
    assert_eq!(
        parse_identifier_or_zero("550e8400-e29b-41d4-a716-446655440000"),
        0x550e8400_e29b_41d4_a716_446655440000u128
    );
}

#[test]
fn test_clamp_truncates_and_pads() {
    let long: Vec<i32> = (1..=15).collect();
    assert_eq!(clamp_to_bound(&long), (1..=10).collect::<Vec<i32>>());
    let short: Vec<i32> = vec![1, 2, 3];
    assert_eq!(clamp_to_bound(&short), vec![1, 2, 3, 0, 0, 0, 0, 0, 0, 0]);
}

#[test]
fn test_string_to_bytes_conversion() {
    let v = Value::Text("hi".to_string());
    assert_eq!(convert(&v, Conversion::StringToBytes), WireValue::Bytes(vec![b'h', b'i']));
    assert_eq!(convert(&Value::Int(3), Conversion::StringToBytes), WireValue::Int(3));
}

#[test]
fn test_wrap_as_single_arg_token_does_not_split() {
    // Despite its name, the wrapping conversion performs no splitting: the
    // whole text becomes one element.
    let v = Value::Text("a b c".to_string());
    assert_eq!(
        convert(&v, Conversion::WrapAsSingleArgToken),
        WireValue::BytesList(vec![b"a b c".to_vec()])
    );
}

#[test]
fn test_identity_and_view_conversions_pass_through() {
    assert_eq!(convert(&Value::Int(-4), Conversion::Identity), WireValue::Int(-4));
    assert_eq!(
        convert(&Value::Bytes(vec![1, 2]), Conversion::ListToBorrowedView),
        WireValue::Bytes(vec![1, 2])
    );
    assert_eq!(
        convert(&Value::Text("not-a-token".to_string()), Conversion::ParseIdentifierWithZeroDefault),
        WireValue::Token(0)
    );
}

#[test]
fn test_player_diff_negative_cid_is_rejected() {
    // The codec rejects a position diff with a negative client id; the
    // error is the uniform encode kind, not a panic.
    let bad = WireChunk::PlayerDiff { cid: -1, dx: 0, dy: 0 };
    assert!(encode_wire(&bad).is_err());
    let good = WireChunk::PlayerDiff { cid: 0, dx: 1, dy: 2 };
    assert_eq!(encode_wire(&good).unwrap(), vec![0x00, 0x01, 0x02]);
}

#[test]
fn test_auth_login_payload_at_the_buffer_bound_encodes() {
    // The codec's scratch buffer for small extensions holds 2048 bytes; two
    // worst-case variable-width integers take 5 bytes each and the name gets
    // a terminator, so a 2037-byte name fits exactly.
    let decl = find_decl("AuthLogin");
    let name: String = std::iter::repeat('x').take(2037).collect();
    let rec = construct(&decl, vec![Value::Int(i32::MIN), Value::Int(i32::MIN), Value::Text(name)]);
    assert!(encode_record(&decl, &rec).is_ok());
}

#[test]
fn test_auth_login_oversized_payload_is_rejected() {
    let decl = find_decl("AuthLogin");
    let name: String = std::iter::repeat('x').take(3000).collect();
    let rec = construct(&decl, vec![Value::Int(1), Value::Int(2), Value::Text(name)]);
    assert!(encode_record(&decl, &rec).is_err(), "a payload beyond the scratch buffer fails");
}

#[test]
fn test_team_load_success_encoding() {
    let decl = find_decl("TeamLoadSuccess");
    let rec = construct(
        &decl,
        vec![
            Value::Int(0),
            Value::Text("550e8400-e29b-41d4-a716-446655440000".to_string()),
            Value::Text("sv".to_string()),
        ],
    );
    let bytes = encode_record(&decl, &rec).unwrap();
    let mut expected: Vec<u8> = vec![0x4a];
    // teehistorian-load-success@ddnet.tw
    expected.extend_from_slice(&[
        0xe0, 0x54, 0x08, 0xd3, 0xa3, 0x13, 0x33, 0xdf, 0x9e, 0xb3, 0xdd, 0xb9, 0x90, 0xab,
        0x95, 0x4a,
    ]);
    // payload: twint(0), the save id, the save text, a terminator
    expected.push(20);
    expected.push(0x00);
    expected.extend_from_slice(&[
        0x55, 0x0e, 0x84, 0x00, 0xe2, 0x9b, 0x41, 0xd4, 0xa7, 0x16, 0x44, 0x66, 0x55, 0x44,
        0x00, 0x00,
    ]);
    expected.extend_from_slice(&[b's', b'v', 0x00]);
    assert_eq!(bytes, expected);
}
