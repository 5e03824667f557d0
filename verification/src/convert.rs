use vstd::prelude::*;
use vstd::std_specs::convert::FromSpecImpl;
use vstd::utf8::encode_utf8;
use vstd::utf8::valid_utf8;
use crate::buffer::Str;
use crate::laws::law_construction_determined;

verus! {

/// The buffer that construction yields for a content: the one canonical
/// buffer with this content whose padding is zero.
pub open spec fn built_from(content: Seq<u8>) -> Str<u8> {
    choose|b: Str<u8>| b@ == content && b.canonical() && b.padded_with(0u8)
}

impl<'a> From<&'a [u8]> for Str<u8> {
    /// Builds a buffer from bytes without looking at them, as `from_bytes`
    /// does.
    fn from(slice: &'a [u8]) -> (built: Self)
        ensures
            built@ == slice@,
            built.canonical(),
            built.padded_with(0u8),
    {
        let built = Str::from_bytes(slice);
        proof {
            law_construction_determined(built, built_from(slice@), 0u8);
        }
        built
    }
}

impl<'a> FromSpecImpl<&'a [u8]> for Str<u8> {
    open spec fn obeys_from_spec() -> bool {
        true
    }

    open spec fn from_spec(slice: &'a [u8]) -> Self {
        built_from(slice@)
    }
}

impl<'a> From<&'a str> for Str<u8> {
    /// Builds a buffer that holds the UTF-8 encoding of `value`.
    fn from(value: &'a str) -> (built: Self)
        ensures
            built@ == encode_utf8(value@),
            valid_utf8(built@),
            built.canonical(),
            built.padded_with(0u8),
    {
        let built = Str::from_str_slice(value);
        proof {
            law_construction_determined(built, built_from(encode_utf8(value@)), 0u8);
        }
        built
    }
}

impl<'a> FromSpecImpl<&'a str> for Str<u8> {
    open spec fn obeys_from_spec() -> bool {
        true
    }

    open spec fn from_spec(value: &'a str) -> Self {
        built_from(encode_utf8(value@))
    }
}

impl From<String> for Str<u8> {
    /// Builds a buffer that holds the UTF-8 encoding of `value`; text beyond
    /// the inline limit keeps the string's allocation.
    fn from(value: String) -> (built: Self)
        ensures
            built@ == encode_utf8(value@),
            valid_utf8(built@),
            built.canonical(),
            built.padded_with(0u8),
    {
        let built = Str::from_string(value);
        proof {
            law_construction_determined(built, built_from(encode_utf8(value@)), 0u8);
        }
        built
    }
}

impl FromSpecImpl<String> for Str<u8> {
    open spec fn obeys_from_spec() -> bool {
        true
    }

    open spec fn from_spec(value: String) -> Self {
        built_from(encode_utf8(value@))
    }
}

} // verus!
