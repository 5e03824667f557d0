use inline_str::InvalidUtf8;
use inline_str::SizeClass;
use inline_str::Str;
use inline_str::UTF8;

fn samples() -> Vec<String> {
    vec![
        String::new(),
        "a".to_string(),
        "12345678".to_string(),
        "123456789".to_string(),
        "h\u{e9}llo w\u{f6}rld".to_string(),
        "\u{65e5}\u{672c}\u{8a9e}".repeat(5),
        "\u{1f600}".repeat(16),
        "x".repeat(128),
        "y".repeat(129),
        "z".repeat(256),
        "w".repeat(257),
        "\u{20ac}".repeat(400),
    ]
}

#[test]
fn str_slice_round_trip() {
    for text in samples() {
        let built = Str::from_str_slice(&text);
        assert_eq!(built.len(), text.len());
        assert_eq!(built.as_slice(), text.as_bytes());
        assert_eq!(built.as_str(), text.as_str());
        assert_eq!(built.into_string(), text);
    }
}

#[test]
fn owned_string_round_trip() {
    for text in samples() {
        let built = Str::from_string(text.clone());
        assert_eq!(built.size_class(), SizeClass::for_len(text.len()));
        assert_eq!(built.as_str(), text.as_str());
        assert_eq!(built.into_string(), text);
    }
}

#[test]
fn from_impls_agree_with_the_constructors() {
    for text in samples() {
        let by_slice: UTF8 = UTF8::from(text.as_str());
        let by_bytes: UTF8 = UTF8::from(text.as_bytes());
        let by_owned: UTF8 = UTF8::from(text.clone());
        assert!(by_slice == by_bytes);
        assert!(by_slice == by_owned);
        assert_eq!(by_slice.size_class(), by_owned.size_class());
        assert_eq!(by_bytes.size_class(), by_owned.size_class());
        assert_eq!(by_owned.into_string(), text);
    }
}

#[test]
fn long_string_keeps_its_allocation() {
    let mut text = "q".repeat(1000);
    text.shrink_to_fit();
    assert_eq!(text.capacity(), text.len());
    let before = text.as_ptr() as usize;
    let built = Str::from_string(text);
    assert_eq!(built.size_class(), SizeClass::Boxed);
    assert_eq!(built.as_slice().as_ptr() as usize, before);
    let back = built.into_string();
    assert_eq!(back.as_ptr() as usize, before);
    assert_eq!(back, "q".repeat(1000));
}

#[test]
fn valid_bytes_are_taken() {
    let built = Str::try_from_utf8("gr\u{fc}n".as_bytes()).unwrap();
    assert_eq!(built.as_str(), "gr\u{fc}n");
    assert_eq!(built.size_class(), SizeClass::B8);
    assert!(built.is_utf8());
    let empty = Str::try_from_utf8(&[]).unwrap();
    assert_eq!(empty.size_class(), SizeClass::Empty);
    assert_eq!(empty.as_str(), "");
}

#[test]
fn lone_continuation_byte_is_refused() {
    assert!(matches!(Str::try_from_utf8(&[0x80]), Err(InvalidUtf8)));
    assert!(matches!(Str::try_from_utf8_vec(vec![0x80]), Err(InvalidUtf8)));
}

#[test]
fn other_invalid_sequences_are_refused() {
    assert!(Str::try_from_utf8(&[0xc3]).is_err());
    assert!(Str::try_from_utf8(&[0xc0, 0x80]).is_err());
    assert!(Str::try_from_utf8(&[0xed, 0xa0, 0x80]).is_err());
    assert!(Str::try_from_utf8(&[0xf5, 0x80, 0x80, 0x80]).is_err());
    assert!(Str::try_from_utf8(&[b'a', 0xff, b'b']).is_err());
    let mut long = vec![b'a'; 400];
    long[399] = 0x80;
    assert!(Str::try_from_utf8(&long).is_err());
    assert!(Str::try_from_utf8_vec(long).is_err());
}

#[test]
fn valid_vector_is_taken() {
    let text = "\u{3b1}\u{3b2}\u{3b3}".repeat(100);
    let built = Str::try_from_utf8_vec(text.clone().into_bytes()).unwrap();
    assert_eq!(built.size_class(), SizeClass::Boxed);
    assert_eq!(built.as_str(), text.as_str());
    let short = Str::try_from_utf8_vec(b"ok".to_vec()).unwrap();
    assert_eq!(short.size_class(), SizeClass::B8);
    assert_eq!(short.as_str(), "ok");
}

#[test]
fn unchecked_bytes_are_stored_as_they_are() {
    let built = Str::from_bytes(&[0x80, 0x81]);
    assert_eq!(built.as_slice(), &[0x80u8, 0x81][..]);
    assert!(!built.is_utf8());
    assert!(matches!(built.try_into_string(), Err(InvalidUtf8)));
}

#[test]
fn try_into_string_gives_valid_text_back() {
    assert_eq!(Str::from_bytes(b"plain").try_into_string(), Ok("plain".to_string()));
    let long = "m".repeat(300);
    assert_eq!(Str::from_bytes(long.as_bytes()).try_into_string(), Ok(long));
    let empty: Str<u8> = Str::Empty;
    assert_eq!(empty.try_into_string(), Ok(String::new()));
}

#[test]
fn into_bytes_gives_the_content() {
    assert_eq!(Str::from_bytes(b"abc").into_bytes(), b"abc".to_vec());
    assert_eq!(Str::from_bytes(&[7u8; 300]).into_bytes(), vec![7u8; 300]);
    let odd: Str<u8> = Str::Boxed { buf: Box::from(&b"abcdef"[..]), len: 4 };
    assert_eq!(odd.into_bytes(), b"abcd".to_vec());
    let empty: Str<u8> = Str::Empty;
    assert_eq!(empty.into_bytes(), Vec::<u8>::new());
}
