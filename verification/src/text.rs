use vstd::prelude::*;
use vstd::pervasive::unreached;
use vstd::slice::slice_to_vec;
use vstd::utf8::decode_utf8;
use vstd::utf8::encode_utf8;
use vstd::utf8::valid_utf8;
use vstd::utf8::encode_utf8_decode_utf8;
use vstd::utf8::encode_utf8_valid_utf8;
use crate::buffer::Str;

verus! {

/// A buffer of bytes that are meant to be UTF-8. The validated constructors
/// establish that; the accessors that hand out text rely on it.
pub type UTF8 = Str<u8>;

/// The bytes offered are not valid UTF-8.
#[derive(Clone, Copy, Debug, PartialEq, Eq, Structural)]
pub struct InvalidUtf8;

impl Str<u8> {
    /// Builds a buffer from bytes without looking at them. Padding is zero.
    /// The bytes must be valid UTF-8 before the buffer is read as text;
    /// `try_from_utf8` is the constructor that checks.
    pub fn from_bytes(slice: &[u8]) -> (built: Self)
        ensures
            built@ == slice@,
            built.canonical(),
            built.padded_with(0u8),
    {
        Str::with_padding(slice, 0u8)
    }

    /// Builds a buffer from bytes after one pass of validation: the bytes are
    /// taken exactly when they are valid UTF-8, and refused otherwise.
    pub fn try_from_utf8(slice: &[u8]) -> (built: Result<Self, InvalidUtf8>)
        ensures
            built is Ok <==> valid_utf8(slice@),
            built is Ok ==> built->Ok_0@ == slice@ && built->Ok_0.canonical()
                && built->Ok_0.padded_with(0u8),
    {
        match core::str::from_utf8(slice) {
            Ok(_) => Ok(Str::with_padding(slice, 0u8)),
            Err(_) => Err(InvalidUtf8),
        }
    }

    /// Builds a buffer from an owned vector after one pass of validation. The
    /// bytes are taken exactly when they are valid UTF-8; beyond the inline
    /// limit the vector's allocation becomes the storage.
    pub fn try_from_utf8_vec(bytes: Vec<u8>) -> (built: Result<Self, InvalidUtf8>)
        ensures
            built is Ok <==> valid_utf8(bytes@),
            built is Ok ==> built->Ok_0@ == bytes@ && built->Ok_0.canonical()
                && built->Ok_0.padded_with(0u8),
    {
        match String::from_utf8(bytes) {
            Ok(text) => Ok(Str::from_string(text)),
            Err(_) => Err(InvalidUtf8),
        }
    }

    /// Builds a buffer that holds the UTF-8 encoding of `value`.
    pub fn from_str_slice(value: &str) -> (built: Self)
        ensures
            built@ == encode_utf8(value@),
            valid_utf8(built@),
            built.canonical(),
            built.padded_with(0u8),
    {
        broadcast use encode_utf8_valid_utf8;

        Str::with_padding(value.as_bytes(), 0u8)
    }

    /// Builds a buffer that holds the UTF-8 encoding of `value`. Text beyond
    /// the inline limit keeps the string's allocation as its storage.
    pub fn from_string(value: String) -> (built: Self)
        ensures
            built@ == encode_utf8(value@),
            valid_utf8(built@),
            built.canonical(),
            built.padded_with(0u8),
    {
        broadcast use encode_utf8_valid_utf8;

        Str::from_vec(value.into_bytes(), 0u8)
    }

    /// Whether the content is valid UTF-8.
    pub fn is_utf8(&self) -> (valid: bool)
        ensures
            valid == valid_utf8(self@),
    {
        core::str::from_utf8(self.as_slice()).is_ok()
    }

    /// The content as text.
    pub fn as_str(&self) -> (text: &str)
        requires
            valid_utf8(self@),
        ensures
            text@ == decode_utf8(self@),
            encode_utf8(text@) == self@,
    {
        broadcast use encode_utf8_decode_utf8;

        match core::str::from_utf8(self.as_slice()) {
            Ok(text) => text,
            Err(_) => unreached(),
        }
    }

    /// The content as an owned string. Heap storage becomes the string's
    /// allocation; inline content is copied into a new one.
    pub fn into_string(self) -> (text: String)
        requires
            valid_utf8(self@),
        ensures
            text@ == decode_utf8(self@),
            encode_utf8(text@) == self@,
    {
        broadcast use encode_utf8_decode_utf8;

        match String::from_utf8(self.into_bytes()) {
            Ok(text) => text,
            Err(_) => unreached(),
        }
    }

    /// The content as an owned string where it is valid UTF-8, and the
    /// refusal where it is not.
    pub fn try_into_string(self) -> (text: Result<String, InvalidUtf8>)
        ensures
            text is Ok <==> valid_utf8(self@),
            text is Ok ==> text->Ok_0@ == decode_utf8(self@) && encode_utf8(text->Ok_0@) == self@,
    {
        broadcast use encode_utf8_decode_utf8;

        match String::from_utf8(self.into_bytes()) {
            Ok(text) => Ok(text),
            Err(_) => Err(InvalidUtf8),
        }
    }

    /// The content as an owned vector. Well-formed heap storage is handed
    /// over as it is; anything else is copied.
    pub fn into_bytes(self) -> (bytes: Vec<u8>)
        ensures
            bytes@ == self@,
    {
        match self {
            Str::Boxed { buf, len } => {
                if len == buf.len() {
                    assert(buf@.subrange(0, len as int) =~= buf@);
                    buf.into_vec()
                } else {
                    let whole = Str::Boxed { buf, len };
                    slice_to_vec(whole.as_slice())
                }
            },
            other => slice_to_vec(other.as_slice()),
        }
    }
}

/// The error of `core::str::from_utf8`, carried through unread.
#[verifier::external_type_specification]
#[verifier::external_body]
pub struct ExUtf8Error(core::str::Utf8Error);

/// The error of `String::from_utf8`, carried through unread.
#[verifier::external_type_specification]
#[verifier::external_body]
pub struct ExFromUtf8Error(std::string::FromUtf8Error);

/// `core::str::from_utf8` succeeds exactly on valid UTF-8. The text is over
/// the very bytes given, so its encoding gives them back.
pub assume_specification[ core::str::from_utf8 ](v: &[u8]) -> (text: Result<
    &str,
    core::str::Utf8Error,
>)
    ensures
        text is Ok <==> valid_utf8(v@),
        text is Ok ==> encode_utf8(text->Ok_0@) == v@,
;

/// `String::from_utf8` succeeds exactly on valid UTF-8. The string takes the
/// vector's bytes as they are, so its encoding gives them back.
pub assume_specification[ String::from_utf8 ](vec: Vec<u8>) -> (text: Result<
    String,
    std::string::FromUtf8Error,
>)
    ensures
        text is Ok <==> valid_utf8(vec@),
        text is Ok ==> encode_utf8(text->Ok_0@) == vec@,
;

/// `String::into_bytes` yields the UTF-8 encoding of the string.
pub assume_specification[ String::into_bytes ](text: String) -> (bytes: Vec<u8>)
    ensures
        bytes@ == encode_utf8(text@),
;

} // verus!
