use bytes::Bytes;
use tcio::{ByteStr, Utf8Error};

fn expect_err(r: Result<ByteStr, Utf8Error>) -> Utf8Error {
    match r {
        Err(e) => e,
        Ok(_) => panic!("expected invalid input"),
    }
}

fn lowercase(mut v: Vec<u8>) -> Vec<u8> {
    v.make_ascii_lowercase();
    v
}

#[test]
fn round_trip_ascii() {
    let input = Bytes::from_static(b"Hello, World!");
    let text = ByteStr::from_utf8(input).unwrap();
    assert_eq!(text.as_bytes(), b"Hello, World!");
    assert_eq!(text.as_str(), "Hello, World!");
}

#[test]
fn round_trip_multibyte() {
    let source = "h\u{e9}llo \u{2713} \u{1f600}";
    let input = Bytes::copy_from_slice(source.as_bytes());
    let text = ByteStr::from_utf8(input).unwrap();
    assert_eq!(text.as_bytes(), source.as_bytes());
    assert_eq!(text.as_str(), source);
}

#[test]
fn round_trip_empty() {
    let text = ByteStr::from_utf8(Bytes::new()).unwrap();
    assert_eq!(text.as_str(), "");
    assert_eq!(text.as_bytes(), b"");
}

#[test]
fn rejection_with_exact_offset() {
    let input = Bytes::copy_from_slice(&[0x48, 0x65, 0xFF, 0x6C, 0x6C, 0x6F]);
    let err = expect_err(ByteStr::from_utf8(input));
    assert_eq!(err.valid_up_to, 2);
}

#[test]
fn rejection_offsets() {
    // Truncated three-byte sequence at the start.
    let err = expect_err(ByteStr::from_utf8(Bytes::copy_from_slice(&[0xE2, 0x82])));
    assert_eq!(err.valid_up_to, 0);
    // Overlong two-byte encoding of '/'.
    let err = expect_err(ByteStr::from_utf8(Bytes::copy_from_slice(&[0xC0, 0xAF])));
    assert_eq!(err.valid_up_to, 0);
    // Surrogate codepoint U+D800.
    let err = expect_err(ByteStr::from_utf8(Bytes::copy_from_slice(&[0xED, 0xA0, 0x80])));
    assert_eq!(err.valid_up_to, 0);
    // Codepoint above U+10FFFF, after a valid two-byte prefix.
    let err = expect_err(ByteStr::from_utf8(Bytes::copy_from_slice(&[
        0x61, 0x62, 0xF4, 0x90, 0x80, 0x80,
    ])));
    assert_eq!(err.valid_up_to, 2);
    // Lone continuation byte after a complete two-byte scalar.
    let err = expect_err(ByteStr::from_utf8(Bytes::copy_from_slice(&[0xC3, 0xA9, 0x80])));
    assert_eq!(err.valid_up_to, 2);
}

#[test]
fn validate_utf8_boundaries() {
    // Largest scalar value, and the edges of the surrogate gap.
    assert!(tcio::validate_utf8("\u{10FFFF}\u{D7FF}\u{E000}".as_bytes()).is_ok());
    assert_eq!(tcio::validate_utf8(&[0xF4, 0x8F, 0xBF, 0xBF]), Ok(()));
    assert_eq!(tcio::validate_utf8(&[0xED, 0x9F, 0xBF]), Ok(()));
    assert_eq!(tcio::validate_utf8(&[0xED, 0xBF, 0xBF]), Err(0));
    assert_eq!(tcio::validate_utf8(&[0xC2, 0x80]), Ok(()));
    assert_eq!(tcio::validate_utf8(&[0xC1, 0xBF]), Err(0));
    assert_eq!(tcio::validate_utf8(&[0xE0, 0x9F, 0x80]), Err(0));
    assert_eq!(tcio::validate_utf8(&[0xE0, 0xA0, 0x80]), Ok(()));
    assert_eq!(tcio::validate_utf8(&[0xF0, 0x8F, 0x80, 0x80]), Err(0));
    assert_eq!(tcio::validate_utf8(&[0xF0, 0x90, 0x80, 0x80]), Ok(()));
}

#[test]
fn zero_copy_slicing() {
    let h = ByteStr::copy_from_str("Hello, World!");
    let w = {
        let s = h.as_str();
        h.slice_ref(&s[7..12])
    };
    assert_eq!(w.as_str(), "World");
    drop(h);
    // The shared allocation outlives the handle it was sliced from.
    assert_eq!(w.as_str(), "World");
}

#[test]
fn slicing_from_buffer() {
    let buf = Bytes::from_static(b"content-length: 42");
    let name = {
        let s = std::str::from_utf8(&buf[..14]).unwrap();
        ByteStr::from_slice_of(s, &buf)
    };
    assert_eq!(name.as_str(), "content-length");
}

#[test]
fn uniqueness_gating() {
    let mut a = ByteStr::copy_from_str("Content-Type");
    let b = a.clone();
    assert!(!a.try_mut(lowercase));
    assert_eq!(a.as_str(), "Content-Type");
    drop(b);
    assert!(a.try_mut(lowercase));
    assert_eq!(a.as_str(), "content-type");
}

#[test]
fn mutation_refused_for_static() {
    let mut text = ByteStr::from_static("GET");
    assert!(!text.try_mut(lowercase));
    assert_eq!(text.as_str(), "GET");
}

#[test]
fn static_sharing() {
    assert!(!ByteStr::from_static("GET").is_unique());
    assert!(!ByteStr::from_static("GET").clone().is_unique());
    assert!(!ByteStr::new().is_unique());
    let owned = ByteStr::copy_from_str("GET");
    assert!(owned.is_unique());
    let shared = owned.clone();
    assert!(!owned.is_unique());
    assert!(!shared.is_unique());
}

#[test]
fn content_equality_across_allocations() {
    assert!(ByteStr::copy_from_str("abc") == ByteStr::from_static("abc"));
    assert!(ByteStr::copy_from_str("abc") != ByteStr::from_static("abd"));
    assert!(ByteStr::copy_from_str("ab") != ByteStr::from_static("abc"));
    assert!(ByteStr::new() == ByteStr::from_static(""));
}

#[test]
fn clear_only_affects_own_view() {
    let mut x = ByteStr::copy_from_str("abcdef");
    let y = x.clone();
    x.clear();
    assert_eq!(x.as_str(), "");
    assert_eq!(y.as_str(), "abcdef");
}

#[test]
fn unchecked_construction() {
    let text = ByteStr::from_utf8_unchecked(Bytes::from_static(b"trusted input"));
    assert_eq!(text.as_str(), "trusted input");
}

#[test]
fn string_conversions() {
    let text = ByteStr::from_string(String::from("caf\u{e9}"));
    assert_eq!(text.as_str(), "caf\u{e9}");
    assert_eq!(text.into_string(), "caf\u{e9}");
}

#[test]
fn boxed_str_conversion() {
    let boxed: Box<str> = String::from("boxed text").into_boxed_str();
    let text = ByteStr::from_boxed_str(boxed);
    assert_eq!(text.as_str(), "boxed text");
}

#[test]
fn cow_conversions() {
    let borrowed = ByteStr::from_cow(std::borrow::Cow::Borrowed("static side"));
    assert_eq!(borrowed.as_str(), "static side");
    assert!(!borrowed.is_unique());
    let owned = ByteStr::from_cow(std::borrow::Cow::Owned(String::from("owned side")));
    assert_eq!(owned.as_str(), "owned side");
}

#[test]
fn buffer_conversions() {
    let text = ByteStr::copy_from_str("payload");
    let raw: Bytes = text.into_bytes();
    assert_eq!(&raw[..], b"payload");

    let text = ByteStr::copy_from_str("editable");
    let raw_mut: bytes::BytesMut = text.into_bytes_mut();
    assert_eq!(&raw_mut[..], b"editable");
}

#[test]
fn default_is_empty() {
    let text = ByteStr::default();
    assert_eq!(text.as_str(), "");
}

#[test]
fn mutation_sees_current_bytes() {
    // The edit callback receives the handle's actual contents, not stale or
    // empty storage.
    let mut text = ByteStr::copy_from_str("MiXeD");
    assert!(text.try_mut(lowercase));
    assert_eq!(text.as_str(), "mixed");
    assert!(text.try_mut(|mut v: Vec<u8>| {
        v.make_ascii_uppercase();
        v
    }));
    assert_eq!(text.as_str(), "MIXED");
}
