//! The error taxonomy and its mapping onto the host exception model.

use teehistorian_py::errors::EncodeError;
use teehistorian_py::errors::HostError;
use teehistorian_py::errors::TeehistorianParseError;

#[test]
fn test_error_conversion() {
    let err = TeehistorianParseError::Validation("Invalid data".to_string());
    let py_err = err.to_host_error();
    let message = match py_err {
        HostError::Error(m) => m,
        HostError::StopIteration(m) => m,
    };
    assert!(message.contains("Validation failed: Invalid data"));
}

#[test]
fn test_every_error_variant_message() {
    let cases = vec![
        (
            TeehistorianParseError::Initialization("a".to_string()),
            "Initialization failed: a",
        ),
        (TeehistorianParseError::Header("b".to_string()), "Header parsing failed: b"),
        (TeehistorianParseError::Parse("c".to_string()), "Parse error: c"),
        (TeehistorianParseError::Validation("d".to_string()), "Validation failed: d"),
        (TeehistorianParseError::Handler("e".to_string()), "Handler error: e"),
        (TeehistorianParseError::Io("f".to_string()), "IO error: f"),
        (TeehistorianParseError::Utf8("g".to_string()), "UTF-8 decode error: g"),
        (TeehistorianParseError::Eof, "End of file reached"),
    ];
    for (err, expected) in cases {
        assert_eq!(err.message(), expected);
    }
}

#[test]
fn test_eof_is_a_control_signal_not_an_error() {
    // End of input maps onto the end-of-iteration signal; every other
    // variant onto a genuine host error.
    let eof = TeehistorianParseError::Eof;
    assert!(eof.is_eof());
    assert_eq!(
        eof.to_host_error(),
        HostError::StopIteration("End of file reached".to_string())
    );

    let parse = TeehistorianParseError::Parse("bad byte".to_string());
    assert!(!parse.is_eof());
    assert_eq!(parse.to_host_error(), HostError::Error("Parse error: bad byte".to_string()));
}

#[test]
fn test_encode_error_wraps_cause() {
    let err = EncodeError { cause: "payload too large".to_string() };
    assert_eq!(err.message(), "Failed to serialize chunk: payload too large");
}
