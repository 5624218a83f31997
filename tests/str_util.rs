use triangle_from_scratch::str_util::{
    break_off_code_point, count_utf16_code_units, gather_null_terminated_bytes,
    min_alloc_lossy_into_string, utf16, wide_null,
};

const WORDS8: &str = "$¢ह€한𐍈, 漢字, ひらがな / 平仮名, カタカナ / 片仮名";

#[test]
fn works_with_multiple_sizes() {
    // code points of 1, 2, 3, and 4 byte size
    for ch in &['$', '¢', 'ह', '€', '한', '𐍈'] {
        let s = format!("{}", ch);
        assert_eq!(
            break_off_code_point(s.as_bytes()),
            Some((*ch as u32, &[][..]))
        );
    }
}

#[test]
fn handles_empty_strings() {
    assert!(break_off_code_point("".as_bytes()).is_none());
}

#[test]
fn works_with_ascii() {
    let s = "hello from the unit test";
    let normal_style: usize = s.chars().map(|ch| ch.len_utf16()).sum();
    assert_eq!(normal_style, count_utf16_code_units(s));
}

#[test]
fn works_with_international_symbols() {
    let normal_style: usize = WORDS8.chars().map(|ch| ch.len_utf16()).sum();
    assert_eq!(normal_style, count_utf16_code_units(WORDS8));
}

#[test]
fn str_util_works_with_international_symbols() {
    let words16 = utf16(WORDS8);
    assert_eq!(words16, WORDS8.encode_utf16().collect::<Vec<u16>>());

    let words8_with_null = "$¢ह€한𐍈, 漢字, ひらがな / 平仮名, カタカナ / 片仮名\0";
    let words16_null = wide_null(WORDS8);
    assert_eq!(words16_null, words8_with_null.encode_utf16().collect::<Vec<u16>>());
}

#[test]
fn basic_usage() {
    let hello16 = utf16("hello");
    assert_eq!(hello16.len(), 5);
    assert_eq!(&hello16[..], &"hello".encode_utf16().collect::<Vec<u16>>()[..]);
}

#[test]
fn str_util_basic_usage() {
    let hello16_null = wide_null("hello");
    assert_eq!(hello16_null.len(), 6);
    assert_eq!(
        &hello16_null[..],
        &"hello\0".encode_utf16().collect::<Vec<u16>>()[..]
    );
}

#[test]
fn break_off_code_point_leaves_the_rest() {
    let test_str = "𐍈rigin".to_string();
    assert_eq!(
        break_off_code_point(test_str.as_bytes()),
        Some(('𐍈' as u32, &[b'r', b'i', b'g', b'i', b'n'][..]))
    );
}

#[test]
fn break_off_code_point_replaces_stray_bytes() {
    // a continuation byte with no lead byte
    assert_eq!(break_off_code_point(&[0x80, b'a']), Some((0xFFFD, &[b'a'][..])));
    // a two-byte lead byte with nothing after it
    assert_eq!(break_off_code_point(&[0xC3]), Some((0xFFFD, &[][..])));
    // a byte that leads no sequence at all
    assert_eq!(break_off_code_point(&[0xFF, 0x41]), Some((0xFFFD, &[0x41][..])));
}

#[test]
fn count_utf16_code_units_counts_surrogate_pairs() {
    assert_eq!(count_utf16_code_units(""), 0);
    assert_eq!(count_utf16_code_units("𐍈"), 2);
    assert_eq!(count_utf16_code_units("a€𐍈"), 4);
}

#[test]
fn utf16_encodes_a_surrogate_pair() {
    assert_eq!(utf16("𐍈"), vec![0xD800, 0xDF48]);
    assert_eq!(utf16(""), Vec::<u16>::new());
    assert_eq!(wide_null(""), vec![0]);
}

#[test]
fn min_alloc_keeps_valid_utf8() {
    let s = min_alloc_lossy_into_string("héllo".as_bytes().to_vec());
    assert_eq!(s, "héllo");
    assert_eq!(min_alloc_lossy_into_string(Vec::new()), "");
}

#[test]
fn min_alloc_replaces_invalid_utf8() {
    let s = min_alloc_lossy_into_string(vec![b'a', 0xFF, b'b']);
    assert_eq!(s, "a\u{FFFD}b");
}

#[test]
fn gather_stops_at_the_first_zero() {
    assert_eq!(gather_null_terminated_bytes(b"abc\0def\0"), b"abc".to_vec());
    assert_eq!(gather_null_terminated_bytes(b"\0abc"), Vec::<u8>::new());
    assert_eq!(gather_null_terminated_bytes(b"abc"), b"abc".to_vec());
    assert_eq!(gather_null_terminated_bytes(b""), Vec::<u8>::new());
}
