//! The hand-specified catalog records: constructors, map views, renderings,
//! previews and wire encodings.

use teehistorian_py::catalog::PyChunkMethods;
use teehistorian_py::catalog::PyCustomChunk;
use teehistorian_py::catalog::PyGeneric;
use teehistorian_py::catalog::PyInputDiff;
use teehistorian_py::catalog::PyInputNew;
use teehistorian_py::catalog::PyPlayerReady;
use teehistorian_py::catalog::PyPlayerTeam;
use teehistorian_py::catalog::PyUnknown;
use teehistorian_py::catalog::TeehistorianChunk;
use teehistorian_py::values::Value;

#[test]
fn test_player_ready_dict_and_tag() {
    let c = PyPlayerReady::new(7);
    assert_eq!(c.chunk_type(), "PlayerReady");
    let m = c.to_dict();
    assert_eq!(m.len(), 2);
    assert_eq!(m[0].0, "type");
    assert_eq!(m[0].1, Value::Text("PlayerReady".to_string()));
    assert_eq!(m[1].0, "client_id");
    assert_eq!(m[1].1, Value::Int(7));
}

#[test]
fn test_player_team_dict_and_repr() {
    let c = PyPlayerTeam::new(3, 1);
    let m = c.to_dict();
    assert_eq!(m.len(), 3);
    assert_eq!(m[0].1, Value::Text("PlayerTeam".to_string()));
    assert_eq!(m[1], ("client_id".to_string(), Value::Int(3)));
    assert_eq!(m[2], ("team".to_string(), Value::Int(1)));
    assert_eq!(c.repr_text(), "PlayerTeam(client_id=3, team=1)");
    assert_eq!(c.py_repr(), "PlayerTeam(client_id=3, team=1)");
    assert_eq!(c.py_chunk_type(), "PlayerTeam");
}

#[test]
fn test_input_new_truncates_to_ten() {
    // A bounded-list field supplied with 15 integers keeps the first 10.
    let input: Vec<i32> = (1..=15).collect();
    let c = PyInputNew::new(9, input);
    let wire = c.write_to_buffer().unwrap();
    let direct = PyInputNew::new(9, (1..=10).collect()).write_to_buffer().unwrap();
    assert_eq!(wire, direct, "values beyond the bound must not reach the wire");
}

#[test]
fn test_input_diff_pads_with_zero() {
    // A bounded-list field supplied with 3 integers pads the remaining 7
    // with zeros.
    let c = PyInputDiff::new(2, vec![4, 5, 6]);
    let padded = PyInputDiff::new(2, vec![4, 5, 6, 0, 0, 0, 0, 0, 0, 0]);
    assert_eq!(c.write_to_buffer().unwrap(), padded.write_to_buffer().unwrap());
    let m = c.to_dict();
    assert_eq!(m[2].1, Value::IntList(vec![4, 5, 6]), "the map view keeps the declared value");
}

#[test]
fn test_unknown_encodes_zero_identifier() {
    // An unparsable identifier token degrades to the all-zero identifier;
    // encoding still succeeds and carries the given bytes.
    let c = PyUnknown::new("not-a-token".to_string(), vec![0x01, 0x02]);
    let bytes = c.write_to_buffer().unwrap();
    let mut expected: Vec<u8> = vec![0x4a];
    expected.extend_from_slice(&[0u8; 16]);
    expected.extend_from_slice(&[0x02, 0x01, 0x02]);
    assert_eq!(bytes, expected);
}

#[test]
fn test_unknown_encodes_parsed_identifier() {
    let c = PyUnknown::new(
        "550e8400-e29b-41d4-a716-446655440000".to_string(),
        vec![0xff],
    );
    let bytes = c.write_to_buffer().unwrap();
    let mut expected: Vec<u8> = vec![0x4a];
    expected.extend_from_slice(&[
        0x55, 0x0e, 0x84, 0x00, 0xe2, 0x9b, 0x41, 0xd4, 0xa7, 0x16, 0x44, 0x66, 0x55, 0x44,
        0x00, 0x00,
    ]);
    expected.extend_from_slice(&[0x01, 0xff]);
    assert_eq!(bytes, expected);
}

#[test]
fn test_custom_chunk_handler_only_in_map_view() {
    // A custom chunk wire-encodes exactly as an unknown chunk with the same
    // identifier and bytes; the handler name appears only in the map view.
    let custom = PyCustomChunk::new(
        "not-a-token".to_string(),
        vec![9, 8],
        "my_handler".to_string(),
    );
    let unknown = PyUnknown::new("not-a-token".to_string(), vec![9, 8]);
    assert_eq!(custom.write_to_buffer().unwrap(), unknown.write_to_buffer().unwrap());
    let m = custom.to_dict();
    assert_eq!(m.len(), 4);
    assert_eq!(m[3], ("handler_name".to_string(), Value::Text("my_handler".to_string())));
}

#[test]
fn test_generic_uses_sentinel_recipient() {
    // The generic fallback borrows the network-message shape with the
    // sentinel recipient id -1: tag -7, cid -1, length-prefixed bytes.
    let c = PyGeneric::new("hi".to_string());
    let bytes = c.write_to_buffer().unwrap();
    assert_eq!(bytes, vec![0x46, 0x40, 0x02, b'h', b'i']);
}

#[test]
fn test_encode_is_deterministic() {
    // Repeated encodings of one value are byte-identical.
    let c = PyUnknown::new("not-a-token".to_string(), vec![1, 2, 3]);
    let b1 = c.write_to_buffer().unwrap();
    let b2 = c.write_to_buffer().unwrap();
    assert_eq!(b1, b2);

    let g = PyGeneric::new("same text".to_string());
    assert_eq!(g.write_to_buffer().unwrap(), g.write_to_buffer().unwrap());
}

#[test]
fn test_data_preview_short_payload() {
    let c = PyUnknown::new("not-a-token".to_string(), vec![0x01, 0x02]);
    assert_eq!(c.data_preview(), "01 02 (2 bytes)");
}

#[test]
fn test_data_preview_long_payload() {
    let data: Vec<u8> = (0..40).collect();
    let c = PyCustomChunk::new("not-a-token".to_string(), data, "h".to_string());
    let preview = c.data_preview();
    assert!(preview.starts_with("00 01 02 03"));
    assert!(preview.ends_with("... (40 bytes total)"));
    // 32 bytes shown, two digits each, 31 separators.
    assert_eq!(preview.len(), 32 * 2 + 31 + "... (40 bytes total)".len());
}

#[test]
fn test_py_write_to_buffer_returns_bytes() {
    let c = PyPlayerReady::new(4);
    let direct = c.write_to_buffer().unwrap();
    let hosted = c.py_write_to_buffer().unwrap();
    assert_eq!(direct, hosted);
}

#[test]
fn test_unknown_repr_shows_fields() {
    let c = PyUnknown::new("abc".to_string(), vec![1, 2]);
    assert_eq!(c.repr_text(), "Unknown(uuid=\"abc\", data=[1, 2])");
}
