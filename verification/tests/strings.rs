use pp_bridge::error::BridgeError;
use pp_bridge::marshal::{hello_rust, mk_ptr_str, mk_ptr_string, mkstr};
use pp_bridge::text::{debug_text, push_decimal};

#[test]
fn mkstr_reads_up_to_the_terminator() {
    assert_eq!(mkstr(Some(&b"abc\0"[..])), Ok(String::from("abc")));
    assert_eq!(mkstr(Some(&b"\0"[..])), Ok(String::new()));
    assert_eq!(mkstr(Some(&b"maps/1.osu\0rest\0"[..])), Ok(String::from("maps/1.osu")));
}

#[test]
fn mkstr_reads_text_beyond_ascii() {
    let mut buf = "żółw/譜面.osu".as_bytes().to_vec();
    buf.push(0);
    assert_eq!(mkstr(Some(&buf[..])), Ok(String::from("żółw/譜面.osu")));
}

#[test]
fn mkstr_refuses_the_null_pointer() {
    assert_eq!(mkstr(None), Err(BridgeError::InvalidInput));
}

#[test]
fn mkstr_refuses_a_buffer_without_terminator() {
    assert_eq!(mkstr(Some(&b"abc"[..])), Err(BridgeError::InvalidInput));
    assert_eq!(mkstr(Some(&b""[..])), Err(BridgeError::InvalidInput));
}

#[test]
fn mkstr_refuses_bytes_that_are_not_utf8() {
    assert_eq!(mkstr(Some(&[0xffu8, 0x00][..])), Err(BridgeError::InvalidInput));
    assert_eq!(mkstr(Some(&[0x61u8, 0xc3, 0x00][..])), Err(BridgeError::InvalidInput));
    assert_eq!(mkstr(Some(&[0xedu8, 0xa0, 0x80, 0x00][..])), Err(BridgeError::InvalidInput));
}

#[test]
fn mkstr_ignores_what_follows_the_terminator() {
    assert_eq!(mkstr(Some(&[0x61u8, 0x00, 0xff][..])), Ok(String::from("a")));
}

#[test]
fn mk_ptr_str_appends_the_terminator() {
    let made = mk_ptr_str("OK").unwrap();
    assert_eq!(made.as_bytes_with_nul(), &b"OK\0"[..]);
    let empty = mk_ptr_str("").unwrap();
    assert_eq!(empty.as_bytes_with_nul(), &b"\0"[..]);
}

#[test]
fn mk_ptr_str_refuses_an_inner_nul() {
    assert_eq!(mk_ptr_str("a\0b"), Err(BridgeError::InvalidInput));
    assert_eq!(mk_ptr_str("\0"), Err(BridgeError::InvalidInput));
}

#[test]
fn mk_ptr_string_writes_utf8() {
    let made = mk_ptr_string(String::from("ł譜")).unwrap();
    assert_eq!(made.into_bytes_with_nul(), vec![0xc5u8, 0x82, 0xe8, 0xad, 0x9c, 0x00]);
    assert_eq!(mk_ptr_string(String::from("x\0")), Err(BridgeError::InvalidInput));
}

#[test]
fn hello_rust_echoes_the_text() {
    let echoed = hello_rust(Some(&b"hello\0"[..])).unwrap();
    assert_eq!(echoed.as_bytes_with_nul(), &b"hello\0"[..]);
    let cut = hello_rust(Some(&b"hello\0world\0"[..])).unwrap();
    assert_eq!(cut.as_bytes_with_nul(), &b"hello\0"[..]);
}

#[test]
fn hello_rust_refuses_what_mkstr_refuses() {
    assert_eq!(hello_rust(None), Err(BridgeError::InvalidInput));
    assert_eq!(hello_rust(Some(&b"hello"[..])), Err(BridgeError::InvalidInput));
    assert_eq!(hello_rust(Some(&[0x80u8, 0x00][..])), Err(BridgeError::InvalidInput));
}

#[test]
fn reading_then_writing_gives_the_same_bytes() {
    for text in ["", "a", "maps/1.osu", "żółw", "譜面 🎵", "\u{7f}\u{80}\u{7ff}\u{800}\u{ffff}\u{10000}"] {
        let mut buf = text.as_bytes().to_vec();
        buf.push(0);
        let read = mkstr(Some(&buf[..])).unwrap();
        let written = mk_ptr_string(read).unwrap();
        assert_eq!(written.as_bytes_with_nul(), &buf[..]);
    }
}

#[test]
fn writing_then_reading_gives_the_same_text() {
    for text in ["", "OK", "mods 24 combo 1", "żółw", "譜面 🎵"] {
        let written = mk_ptr_str(text).unwrap();
        assert_eq!(mkstr(Some(written.as_bytes_with_nul())), Ok(String::from(text)));
    }
}

#[test]
fn push_decimal_writes_the_numeral() {
    for n in [0u64, 1, 9, 10, 11, 99, 100, 1234, 4294967295, 18446744073709551615] {
        let mut out = String::from("n=");
        push_decimal(&mut out, n);
        assert_eq!(out, format!("n={}", n));
    }
}

#[test]
fn push_decimal_of_zero_is_one_digit() {
    let mut out = String::new();
    push_decimal(&mut out, 0);
    assert_eq!(out, "0");
}

#[test]
fn debug_text_names_every_input() {
    assert_eq!(
        debug_text(24, 1234, 2, "0.992", 1500),
        "mods 24 combo 1234 miss 2 acc 0.992 max_combo 1500"
    );
    assert_eq!(debug_text(0, 0, 0, "1", 0), "mods 0 combo 0 miss 0 acc 1 max_combo 0");
}

#[test]
fn debug_text_is_the_formatted_line() {
    let (mods, combo, miss, acc, max_combo) = (u32::MAX, usize::MAX, 17usize, 0.5f64, 99usize);
    let acc_text = format!("{}", acc);
    assert_eq!(
        debug_text(mods, combo, miss, &acc_text, max_combo),
        format!("mods {} combo {} miss {} acc {} max_combo {}", mods, combo, miss, acc, max_combo)
    );
}
