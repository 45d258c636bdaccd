use caps_hangul::wide::{utf16_arr, utf16_len, wide, wstr_to_string};

#[test]
fn encodes_and_null_terminates() {
    let s: [u16; 3] = utf16_arr::<3>("A한");
    assert_eq!(&s, &[0x0041u16, 0xD55C, 0x0000]);
}

#[test]
fn matches_runtime_encode_utf16() {
    for lit in ["", "Segoe UI", "Malgun Gothic", "CAPS OFF", "한", "E&xit"] {
        let want: Vec<u16> = lit.encode_utf16().chain(std::iter::once(0)).collect();
        let got: Vec<u16> = match lit {
            "" => utf16_arr::<1>("").to_vec(),
            "Segoe UI" => utf16_arr::<9>("Segoe UI").to_vec(),
            "Malgun Gothic" => utf16_arr::<14>("Malgun Gothic").to_vec(),
            "CAPS OFF" => utf16_arr::<9>("CAPS OFF").to_vec(),
            "한" => utf16_arr::<2>("한").to_vec(),
            "E&xit" => utf16_arr::<6>("E&xit").to_vec(),
            _ => unreachable!(),
        };
        assert_eq!(got, want, "mismatch for {lit:?}");
        assert_eq!(wide(lit), want, "mismatch of the heap form for {lit:?}");
        assert_eq!(utf16_len(lit) + 1, want.len(), "length mismatch for {lit:?}");
    }
}

#[test]
fn arrays_of_literals() {
    assert_eq!(utf16_arr::<9>("CAPS OFF"), [67, 65, 80, 83, 32, 79, 70, 70, 0]);
    assert_eq!(utf16_arr::<1>(""), [0]);
    // a larger array is padded with zeros
    assert_eq!(utf16_arr::<4>("A"), [0x41, 0, 0, 0]);
    // without room for the terminator the text alone fills the array
    assert_eq!(utf16_arr::<2>("AB"), [0x41, 0x42]);
}

#[test]
fn surrogate_pairs() {
    let s = "a😀é€";
    let want: Vec<u16> = s.encode_utf16().collect();
    assert_eq!(utf16_len(s), want.len());
    assert_eq!(utf16_len(s), 5);
    let got = utf16_arr::<6>(s);
    assert_eq!(&got[..5], want.as_slice());
    assert_eq!(got[5], 0);
    assert_eq!(&got[1..3], &[0xD83D, 0xDE00]);
}

#[test]
fn all_widths_match_std() {
    let s = "\u{0}\u{7f}\u{80}\u{7ff}\u{800}\u{d7ff}\u{e000}\u{ffff}\u{10000}\u{10ffff}";
    let want: Vec<u16> = s.encode_utf16().chain(std::iter::once(0)).collect();
    assert_eq!(wide(s), want);
    assert_eq!(utf16_len(s) + 1, want.len());
}

#[test]
fn wide_string_decodes_up_to_terminator() {
    let buf = [0x0041u16, 0xD55C, 0x0000, 0x0042];
    assert_eq!(wstr_to_string(&buf), "A한");
    let full = [0x0048u16, 0x0069];
    assert_eq!(wstr_to_string(&full), "Hi");
    assert_eq!(wstr_to_string(&[]), "");
    // an unpaired surrogate becomes U+FFFD
    assert_eq!(wstr_to_string(&[0xD800u16, 0x0041]), "\u{FFFD}A");
}

#[test]
fn lossy_decoding_cases() {
    // a pair is one character; lone surrogates of either kind become U+FFFD
    assert_eq!(wstr_to_string(&[0xD83Du16, 0xDE00]), "😀");
    assert_eq!(wstr_to_string(&[0xDE00u16, 0xD83D]), "\u{FFFD}\u{FFFD}");
    assert_eq!(wstr_to_string(&[0x0041u16, 0xD83D]), "A\u{FFFD}");
    assert_eq!(wstr_to_string(&[0xD83Du16, 0xD83D, 0xDE00, 0]), "\u{FFFD}😀");
}
