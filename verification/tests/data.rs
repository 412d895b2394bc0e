use otel_worker::data::{HexEncodedId, InvalidHexEncodedId};

#[test]
fn hex_digits_of_either_case_are_an_id() {
    for text in ["", "aa", "0123456789abcdefABCDEF00"] {
        let id = HexEncodedId::parse(text.to_string()).unwrap();
        assert_eq!(id.as_str(), text);
    }
}

#[test]
fn anything_else_is_no_id() {
    for text in ["a", "aaa", "ag", "0x", " a", "é0"] {
        let error = HexEncodedId::parse(text.to_string()).unwrap_err();
        assert_eq!(error, InvalidHexEncodedId);
    }
}
