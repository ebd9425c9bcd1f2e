use webview2wrapper::utf16::{encode_utf16_z, from_utf16};

#[test]
fn encode_appends_a_null_terminator() {
    let mut out: Vec<u16> = Vec::new();
    encode_utf16_z("ab", &mut out);
    assert_eq!(out, vec![97u16, 98, 0]);
    let mut empty_out: Vec<u16> = Vec::new();
    encode_utf16_z("", &mut empty_out);
    assert_eq!(empty_out, vec![0u16]);
}

#[test]
fn encode_pairs_supplementary_characters() {
    let mut out: Vec<u16> = Vec::new();
    encode_utf16_z("a\u{1F600}", &mut out);
    assert_eq!(out, vec![97u16, 0xD83D, 0xDE00, 0]);
}

#[test]
fn decode_round_trips_through_encode() {
    let units = vec![104u16, 0xD83D, 0xDE00, 105];
    let s = from_utf16(&units).unwrap();
    assert_eq!(s, "h\u{1F600}i");
    let mut out: Vec<u16> = Vec::new();
    encode_utf16_z(&s, &mut out);
    assert_eq!(&out[..out.len() - 1], &units[..]);
}

#[test]
fn decode_rejects_lone_or_misordered_surrogates() {
    assert!(from_utf16(&vec![0xD800u16]).is_none());
    assert!(from_utf16(&vec![0xDC00u16, 65]).is_none());
    assert!(from_utf16(&vec![0xD800u16, 66]).is_none());
    assert!(from_utf16(&vec![0xD800u16, 0xD800]).is_none());
    assert_eq!(from_utf16(&Vec::new()).unwrap(), "");
}
