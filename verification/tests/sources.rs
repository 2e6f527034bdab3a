use ndi::bindings::SourceT;
use ndi::bindings::TallyT;
use ndi::text::contains_nul;
use ndi::text::encode;
use ndi::text::bytes_have_nul;
use ndi::text::decode;
use ndi::text::decode_bytes;
use ndi::text::optional_bytes_have_nul;
use ndi::text::text_has_nul;
use ndi::NDIError;
use ndi::Source;
use ndi::Tally;

#[test]
fn source_name_round_trip() {
    for name in ["MACHINE (Camera 1)", "", "caf\u{e9} \u{1f3a5} \u{4e2d}\u{6587}", "a\u{0}b"] {
        let name = name.to_string();
        let source = Source::with_name(&name);
        assert_eq!(source.get_name(), Ok(name));
    }
}

#[test]
fn source_without_name_has_the_empty_name() {
    assert_eq!(Source::new().get_name(), Ok(String::new()));
    assert_eq!(Source::new().as_binding().p_ndi_name, None);
    assert_eq!(Source::new().as_binding().p_url_address, None);
}

#[test]
fn source_from_binding_keeps_name_and_address() {
    let raw = SourceT {
        p_ndi_name: Some(b"STUDIO (Main)".to_vec()),
        p_url_address: Some(b"192.168.0.7:5961".to_vec()),
    };
    let source = Source::from_binding(raw.clone());
    assert_eq!(source.get_name(), Ok("STUDIO (Main)".to_string()));
    assert_eq!(source.as_binding(), &raw);
    assert_eq!(source.to_binding(), raw);
    assert_eq!(Source::copy_of(&raw), source);
}

#[test]
fn source_name_that_is_not_utf8_is_an_error() {
    for bad in [vec![0xffu8], vec![b'a', 0xc3], vec![0xed, 0xa0, 0x80], vec![0xc0, 0x80]] {
        let source = Source::from_binding(SourceT { p_ndi_name: Some(bad), p_url_address: None });
        assert_eq!(source.get_name(), Err(NDIError::InvalidUtf8));
    }
}

#[test]
fn native_text_is_decoded_strictly() {
    assert_eq!(decode(&None), Ok(String::new()));
    assert_eq!(decode(&Some(Vec::new())), Ok(String::new()));
    assert_eq!(decode(&Some(b"abc".to_vec())), Ok("abc".to_string()));
    assert_eq!(decode(&Some("\u{20ac}".as_bytes().to_vec())), Ok("\u{20ac}".to_string()));
    assert_eq!(decode(&Some(vec![0x80])), Err(NDIError::InvalidUtf8));
    assert_eq!(decode(&Some(vec![b'a', 0xff, b'b'])), Err(NDIError::InvalidUtf8));

    assert_eq!(decode_bytes(&Vec::new()), Ok(String::new()));
    assert_eq!(decode_bytes(&vec![0xe2, 0x82, 0xac]), Ok("\u{20ac}".to_string()));
    assert_eq!(decode_bytes(&vec![0xf0, 0x9f, 0x8e, 0xa5]), Ok("\u{1f3a5}".to_string()));
    assert_eq!(decode_bytes(&vec![0xe2, 0x82]), Err(NDIError::InvalidUtf8));
    assert_eq!(decode_bytes(&vec![0xc0, 0x80]), Err(NDIError::InvalidUtf8));
    assert_eq!(decode_bytes(&vec![0xed, 0xa0, 0x80]), Err(NDIError::InvalidUtf8));
    assert_eq!(decode_bytes(&vec![0xf4, 0x90, 0x80, 0x80]), Err(NDIError::InvalidUtf8));
    assert_eq!(decode_bytes(&vec![b'o', b'k', 0]), Ok("ok\u{0}".to_string()));
}

#[test]
fn encode_gives_the_utf8_bytes() {
    assert_eq!(encode(&"A\u{e9}".to_string()), vec![0x41, 0xc3, 0xa9]);
    assert_eq!(encode(&String::new()), Vec::<u8>::new());
}

#[test]
fn zero_bytes_are_found() {
    assert!(!contains_nul(&"cameras,studio 1".to_string()));
    assert!(!contains_nul(&String::new()));
    assert!(contains_nul(&"\u{0}".to_string()));
    assert!(contains_nul(&"abc\u{0}".to_string()));
    assert!(contains_nul(&"ab\u{0}c".to_string()));
}

#[test]
fn zero_bytes_are_found_in_native_text() {
    assert!(!bytes_have_nul(&Vec::new()));
    assert!(!bytes_have_nul(&b"STUDIO (Main)".to_vec()));
    assert!(bytes_have_nul(&vec![0]));
    assert!(bytes_have_nul(&vec![b'a', 0, b'b']));
    assert!(bytes_have_nul(&vec![b'a', b'b', 0]));
    assert!(!optional_bytes_have_nul(&None));
    assert!(!optional_bytes_have_nul(&Some(b"x".to_vec())));
    assert!(optional_bytes_have_nul(&Some(vec![b'x', 0])));
    assert!(!text_has_nul(&None));
    assert!(!text_has_nul(&Some("x".to_string())));
    assert!(text_has_nul(&Some("x\u{0}".to_string())));
}

#[test]
fn source_knows_whether_it_holds_a_zero_byte() {
    assert!(!Source::new().holds_nul());
    assert!(!Source::with_name(&"STUDIO (Main)".to_string()).holds_nul());
    assert!(Source::with_name(&"a\u{0}b".to_string()).holds_nul());
    let by_address = Source::from_binding(SourceT {
        p_ndi_name: Some(b"ok".to_vec()),
        p_url_address: Some(vec![b'1', 0]),
    });
    assert!(by_address.holds_nul());
    let neither = Source::from_binding(SourceT {
        p_ndi_name: Some(b"ok".to_vec()),
        p_url_address: Some(b"10.0.0.1".to_vec()),
    });
    assert!(!neither.holds_nul());
}

#[test]
fn tally_starts_off() {
    assert_eq!(Tally::new(), Tally { on_program: false, on_preview: false });
    assert_eq!(Tally::default(), Tally::new());
}

#[test]
fn tally_converts_both_ways() {
    let raw = TallyT { on_program: true, on_preview: false };
    let tally = Tally::from_binding(raw);
    assert_eq!(tally, Tally { on_program: true, on_preview: false });
    assert_eq!(tally.into_binding(), raw);
    let other = Tally { on_program: false, on_preview: true };
    assert_eq!(Tally::from_binding(other.into_binding()), other);
}
