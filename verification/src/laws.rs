use std::cmp::Ordering;
use vstd::prelude::*;
use vstd::std_specs::cmp::PartialEqSpec;
use vstd::std_specs::cmp::PartialOrdSpec;
use vstd::utf8::decode_utf8;
use vstd::utf8::encode_utf8;
use vstd::utf8::valid_utf8;
use vstd::utf8::encode_utf8_decode_utf8;
use vstd::utf8::encode_utf8_valid_utf8;
use crate::buffer::Str;
use crate::class::class_for_len;
use crate::class::SizeClass;
use crate::hashing::content_hash;

verus! {

/// Every length has exactly one class, the class holds the length, and the
/// tier of 32 is the class of no length.
pub proof fn law_class_total(n: nat)
    ensures
        class_for_len(n).holds(n),
        class_for_len(n) != SizeClass::B32,
        class_for_len(n) == SizeClass::Empty <==> n == 0,
        class_for_len(n) == SizeClass::Boxed <==> n > 256,
{
}

/// Of the tiers that construction selects, none smaller than the selected one
/// holds the content. The tier of 32 is left out: it is never selected, though
/// it would hold content of 17 to 32 elements in less room than the tier of 64.
pub proof fn law_class_smallest(n: nat, other: SizeClass)
    requires
        other != SizeClass::B32,
        other.holds(n),
    ensures
        other.spec_capacity() is Some ==> class_for_len(n).spec_capacity() is Some
            && class_for_len(n).spec_capacity()->0 <= other.spec_capacity()->0,
{
}

/// In a well-formed buffer the content fits the active variant.
pub proof fn law_content_fits<E>(a: Str<E>)
    requires
        a.wf(),
    ensures
        a@.len() == a.stored_len(),
        a.class().holds(a@.len()),
        a.class() == SizeClass::Empty ==> a@.len() == 0,
{
}

/// Two constructed buffers of one length sit in the same class, whatever they
/// hold, and none sits in the tier of 32.
pub proof fn law_class_determined<E>(a: Str<E>, b: Str<E>)
    requires
        a.canonical(),
        b.canonical(),
        a@.len() == b@.len(),
    ensures
        a.class() == b.class(),
        a.class() != SizeClass::B32,
{
}

/// Construction is determined by its input: two constructed buffers with one
/// content and one padding are the same value.
pub proof fn law_construction_determined<E>(a: Str<E>, b: Str<E>, pad: E)
    requires
        a@ == b@,
        a.canonical(),
        b.canonical(),
        a.padded_with(pad),
        b.padded_with(pad),
    ensures
        a == b,
{
    assert(a.stored_len() == a@.len());
    assert(b.stored_len() == b@.len());
    assert(a.class() == b.class());
    assert forall|i: int| 0 <= i < a.storage().len() implies a.storage()[i] == b.storage()[i] by {
        if i < a.stored_len() {
            assert(a.storage()[i] == a@[i]);
            assert(b.storage()[i] == b@[i]);
        }
    }
    assert(a.storage() =~= b.storage());
    match (a, b) {
        (Str::B8 { buf: x, .. }, Str::B8 { buf: y, .. }) => {
            assert(x =~= y);
        },
        (Str::B16 { buf: x, .. }, Str::B16 { buf: y, .. }) => {
            assert(x =~= y);
        },
        (Str::B32 { buf: x, .. }, Str::B32 { buf: y, .. }) => {
            assert(x =~= y);
        },
        (Str::B64 { buf: x, .. }, Str::B64 { buf: y, .. }) => {
            assert(x =~= y);
        },
        (Str::B128 { buf: x, .. }, Str::B128 { buf: y, .. }) => {
            assert(x =~= y);
        },
        (Str::B256 { buf: x, .. }, Str::B256 { buf: y, .. }) => {
            assert(x =~= y);
        },
        (Str::Boxed { buf: x, .. }, Str::Boxed { buf: y, .. }) => {
            assert(x =~= y);
        },
        _ => {},
    }
}

/// Buffers of bytes are equal exactly when their contents are, whichever
/// classes they sit in and whatever their padding.
pub proof fn law_content_equality(a: Str<u8>, b: Str<u8>, x: Seq<u8>, y: Seq<u8>)
    requires
        a@ == x,
        b@ == y,
    ensures
        Str::<u8>::obeys_eq_spec(),
        a.eq_spec(&b) <==> x == y,
{
    if a.eq_spec(&b) {
        assert(x =~= y);
    }
}

/// Equal buffers of bytes hash alike.
pub proof fn law_equal_hash(a: Str<u8>, b: Str<u8>)
    requires
        a.eq_spec(&b),
    ensures
        content_hash(a@) == content_hash(b@),
{
    assert(a@ =~= b@);
}

/// A shorter buffer ranks before a longer one, and two of one length rank
/// equal, whatever they hold.
pub proof fn law_length_order<E: PartialEq>(a: Str<E>, b: Str<E>)
    requires
        a.wf(),
        b.wf(),
    ensures
        a@.len() < b@.len() <==> a.partial_cmp_spec(&b) == Some(Ordering::Less),
        a@.len() == b@.len() <==> a.partial_cmp_spec(&b) == Some(Ordering::Equal),
        a@.len() > b@.len() <==> a.partial_cmp_spec(&b) == Some(Ordering::Greater),
{
}

/// A buffer built from text is valid UTF-8 and reads back as that text.
pub proof fn law_text_round_trip(text: Seq<char>, built: Str<u8>)
    requires
        built@ == encode_utf8(text),
    ensures
        valid_utf8(built@),
        decode_utf8(built@) == text,
{
    broadcast use encode_utf8_valid_utf8, encode_utf8_decode_utf8;

}

} // verus!
