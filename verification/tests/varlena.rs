use postgres_extension::varlena::{MAX_PAYLOAD, VARHDRSZ};
use postgres_extension::{Bytea, BpChar, DecodeError, PgConvert, Text, VarChar, Varlena};

#[test]
fn length_word_counts_header_and_payload_in_quarters() {
    let v = Varlena::from_str("hello");
    assert_eq!(v.len, 36);
    assert_eq!(v.data, b"hello".to_vec());
    assert_eq!((v.len as usize / 4) - 4, 5);
}

#[test]
fn empty_string_has_header_only() {
    let v = Varlena::from_str("");
    assert_eq!(v.len, 16);
    assert!(v.data.is_empty());
    assert!(v.check_simple());
}

#[test]
fn decoding_yields_announced_length() {
    let mut v = Varlena { len: 36, data: b"hello".to_vec() };
    let s = v.to_string();
    assert_eq!(s, "hello");
    assert_eq!(s.len(), 36 / 4 - 4);
}

#[test]
fn decoding_takes_the_bytes_out_of_the_buffer() {
    let mut v = Varlena::from_str("abc");
    let s = v.to_string();
    assert_eq!(s, "abc");
    assert_eq!(v.len, 28);
    assert!(v.data.is_empty());
    assert!(!v.check_simple());
    assert_eq!(v.decode(), Err(DecodeError::NotSimple));
}

#[test]
fn wrapped_string_decodes_to_itself() {
    for text in ["", "a", "hello world", "héllo wörld ✓", "日本語", "\u{10FFFF}\0x"] {
        let mut v = Varlena::from_str(text);
        assert!(v.check_simple());
        assert_eq!(v.len as usize, 4 * (text.len() + 4));
        let back = v.to_string();
        assert_eq!(back.as_bytes(), text.as_bytes());
        assert_eq!(back.len(), text.len());
    }
}

#[test]
fn length_word_with_low_bits_set_rounds_down() {
    let mut v = Varlena { len: 39, data: b"hello".to_vec() };
    assert!(v.check_simple());
    assert_eq!(v.decode(), Ok(String::from("hello")));
}

#[test]
fn short_length_word_is_not_simple() {
    let mut v = Varlena { len: 15, data: Vec::new() };
    assert!(!v.check_simple());
    assert_eq!(v.decode(), Err(DecodeError::NotSimple));
    let mut w = Varlena { len: 0, data: Vec::new() };
    assert_eq!(w.decode(), Err(DecodeError::NotSimple));
}

#[test]
fn payload_that_disagrees_with_length_word_is_not_simple() {
    let mut short = Varlena { len: 36, data: b"hel".to_vec() };
    assert_eq!(short.decode(), Err(DecodeError::NotSimple));
    assert_eq!(short.data, b"hel".to_vec());
    assert_eq!(short.len, 36);
    let mut long = Varlena { len: 36, data: b"hello!".to_vec() };
    assert_eq!(long.decode(), Err(DecodeError::NotSimple));
    assert_eq!(long.data, b"hello!".to_vec());
}

#[test]
fn invalid_utf8_is_refused_and_left_alone() {
    let mut v = Varlena::from_bytes(vec![0xff, 0xfe, 0x41]);
    assert!(v.check_simple());
    assert_eq!(v.len, 28);
    assert_eq!(v.decode(), Err(DecodeError::InvalidUtf8));
    assert_eq!(v.data, vec![0xff, 0xfe, 0x41]);
    assert_eq!(v.len, 28);
    let mut cut = Varlena::from_bytes(vec![0xe6, 0x97]);
    assert_eq!(cut.decode(), Err(DecodeError::InvalidUtf8));
}

#[test]
fn decode_of_valid_buffer_is_ok_and_empties_it() {
    let mut v = Varlena::from_bytes("grüß".as_bytes().to_vec());
    assert_eq!(v.len, 4 * (6 + 4));
    assert_eq!(v.decode(), Ok(String::from("grüß")));
    assert!(v.data.is_empty());
    assert_eq!(v.len, 40);
}

#[test]
fn from_bytes_keeps_the_payload() {
    let v = Varlena::from_bytes(vec![1, 2, 3, 4, 5, 6, 7]);
    assert_eq!(v.len, 44);
    assert_eq!(v.data, vec![1, 2, 3, 4, 5, 6, 7]);
    assert!(v.check_simple());
}

#[test]
fn limits_of_the_length_word() {
    assert_eq!(VARHDRSZ, 4);
    assert_eq!(MAX_PAYLOAD + VARHDRSZ, 0x3FFF_FFFF);
    assert!(((MAX_PAYLOAD + VARHDRSZ) as u64) * 4 <= u32::MAX as u64);
}

#[test]
fn typed_buffers_share_one_representation() {
    let text = Text { p: Varlena::from_str("x") };
    let bpchar = BpChar { p: Varlena::from_str("x") };
    let varchar = VarChar { p: Varlena::from_str("x") };
    let bytea = Bytea { p: Varlena::from_str("x") };
    assert_eq!(text.p.len, 20);
    assert_eq!(bpchar.p.len, text.p.len);
    assert_eq!(varchar.p.len, text.p.len);
    assert_eq!(bytea.p.len, text.p.len);
    assert_eq!(bpchar.p.data, text.p.data);
    assert_eq!(varchar.p.data, text.p.data);
    assert_eq!(bytea.p.data, text.p.data);
    assert_eq!(std::mem::size_of::<Text>(), std::mem::size_of::<Varlena>());
    assert_eq!(std::mem::size_of::<BpChar>(), std::mem::size_of::<Varlena>());
    assert_eq!(std::mem::size_of::<VarChar>(), std::mem::size_of::<Varlena>());
    assert_eq!(std::mem::size_of::<Bytea>(), std::mem::size_of::<Varlena>());
}
