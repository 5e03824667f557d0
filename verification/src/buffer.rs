use vstd::prelude::*;
use vstd::pervasive::unreached;
use vstd::slice::slice_subrange;
use vstd::slice::slice_to_vec;
use crate::class::SizeClass;
use crate::class::class_for_len;
use crate::class::INLINE_MAX;

verus! {

/// A buffer that stores up to 256 elements inline and longer content on the
/// heap. Exactly one variant is active; `len` counts the occupied elements of
/// `buf`, the rest of an inline array is padding. The largest tier counts in
/// `u16`, so that a full array of 256 elements has a length to show.
///
/// A buffer is not changed after it is built: longer content takes a new
/// buffer.
#[allow(inconsistent_fields)]
pub enum Str<E> {
    B8 { buf: [E; 8], len: u8 },
    B16 { buf: [E; 16], len: u8 },
    B32 { buf: [E; 32], len: u8 },
    B64 { buf: [E; 64], len: u8 },
    B128 { buf: [E; 128], len: u8 },
    B256 { buf: [E; 256], len: u16 },
    Boxed { buf: Box<[E]>, len: usize },
    Empty,
}

impl<E> View for Str<E> {
    type V = Seq<E>;

    /// The content: the occupied elements, in order.
    open spec fn view(&self) -> Seq<E> {
        let s = self.storage();
        if self.stored_len() <= s.len() {
            s.subrange(0, self.stored_len() as int)
        } else {
            s
        }
    }
}

impl<E> Str<E> {
    /// The whole backing storage, padding included.
    pub open spec fn storage(&self) -> Seq<E> {
        match self {
            Str::B8 { buf, .. } => buf@,
            Str::B16 { buf, .. } => buf@,
            Str::B32 { buf, .. } => buf@,
            Str::B64 { buf, .. } => buf@,
            Str::B128 { buf, .. } => buf@,
            Str::B256 { buf, .. } => buf@,
            Str::Boxed { buf, .. } => buf@,
            Str::Empty => Seq::empty(),
        }
    }

    /// The length field of the active variant.
    pub open spec fn stored_len(&self) -> nat {
        match self {
            Str::B8 { len, .. } => *len as nat,
            Str::B16 { len, .. } => *len as nat,
            Str::B32 { len, .. } => *len as nat,
            Str::B64 { len, .. } => *len as nat,
            Str::B128 { len, .. } => *len as nat,
            Str::B256 { len, .. } => *len as nat,
            Str::Boxed { len, .. } => *len as nat,
            Str::Empty => 0nat,
        }
    }

    /// The active variant.
    pub open spec fn class(&self) -> SizeClass {
        match self {
            Str::B8 { .. } => SizeClass::B8,
            Str::B16 { .. } => SizeClass::B16,
            Str::B32 { .. } => SizeClass::B32,
            Str::B64 { .. } => SizeClass::B64,
            Str::B128 { .. } => SizeClass::B128,
            Str::B256 { .. } => SizeClass::B256,
            Str::Boxed { .. } => SizeClass::Boxed,
            Str::Empty => SizeClass::Empty,
        }
    }

    /// The stored length does not exceed the capacity of the active variant;
    /// on the heap it is the length of the allocation.
    pub open spec fn wf(&self) -> bool {
        if self.class() == SizeClass::Boxed {
            self.stored_len() == self.storage().len()
        } else {
            self.stored_len() <= self.storage().len()
        }
    }

    /// The buffer is well formed and sits in the class that construction
    /// selects for its length.
    pub open spec fn canonical(&self) -> bool {
        self.wf() && self.class() == class_for_len(self.stored_len())
    }

    /// Every element of the storage behind the content equals `pad`.
    pub open spec fn padded_with(&self, pad: E) -> bool {
        forall|i: int| self.stored_len() <= i < self.storage().len() ==> self.storage()[i] == pad
    }

    /// The number of stored elements.
    pub fn len(&self) -> (n: usize)
        ensures
            n == self.stored_len(),
            self.wf() ==> n == self@.len(),
    {
        match self {
            Str::B8 { len, .. } => *len as usize,
            Str::B16 { len, .. } => *len as usize,
            Str::B32 { len, .. } => *len as usize,
            Str::B64 { len, .. } => *len as usize,
            Str::B128 { len, .. } => *len as usize,
            Str::B256 { len, .. } => *len as usize,
            Str::Boxed { len, .. } => *len,
            Str::Empty => 0,
        }
    }

    /// The active variant.
    pub fn size_class(&self) -> (class: SizeClass)
        ensures
            class == self.class(),
    {
        match self {
            Str::B8 { .. } => SizeClass::B8,
            Str::B16 { .. } => SizeClass::B16,
            Str::B32 { .. } => SizeClass::B32,
            Str::B64 { .. } => SizeClass::B64,
            Str::B128 { .. } => SizeClass::B128,
            Str::B256 { .. } => SizeClass::B256,
            Str::Boxed { .. } => SizeClass::Boxed,
            Str::Empty => SizeClass::Empty,
        }
    }

    /// The stored elements as a slice. A length field that exceeds the
    /// storage is cut down to it, so the access never leaves the storage.
    pub fn as_slice(&self) -> (content: &[E])
        ensures
            content@ == self@,
    {
        match self {
            Str::B8 { buf, len } => occupied(buf.as_slice(), *len as usize),
            Str::B16 { buf, len } => occupied(buf.as_slice(), *len as usize),
            Str::B32 { buf, len } => occupied(buf.as_slice(), *len as usize),
            Str::B64 { buf, len } => occupied(buf.as_slice(), *len as usize),
            Str::B128 { buf, len } => occupied(buf.as_slice(), *len as usize),
            Str::B256 { buf, len } => occupied(buf.as_slice(), *len as usize),
            Str::Boxed { buf, len } => occupied(&**buf, *len),
            Str::Empty => {
                let none: &[E] = &[];
                none
            },
        }
    }
}

impl<E: Copy> Str<E> {
    /// Builds a buffer that holds a copy of `source`. The class is chosen from
    /// the length of `source` alone; the unused tail of an inline array is
    /// filled with `pad`.
    pub fn with_padding(source: &[E], pad: E) -> (built: Self)
        ensures
            built@ == source@,
            built.canonical(),
            built.class() == class_for_len(source@.len()),
            built.padded_with(pad),
    {
        let len: usize = source.len();
        let built = match SizeClass::for_len(len) {
            SizeClass::Empty => Str::Empty,
            SizeClass::B8 => Str::B8 { buf: inline_copy(source, pad), len: len as u8 },
            SizeClass::B16 => Str::B16 { buf: inline_copy(source, pad), len: len as u8 },
            SizeClass::B32 => unreached(),
            SizeClass::B64 => Str::B64 { buf: inline_copy(source, pad), len: len as u8 },
            SizeClass::B128 => Str::B128 { buf: inline_copy(source, pad), len: len as u8 },
            SizeClass::B256 => Str::B256 { buf: inline_copy(source, pad), len: len as u16 },
            SizeClass::Boxed => Str::Boxed { buf: boxed_from_vec(slice_to_vec(source)), len },
        };
        assert(built@ =~= source@);
        built
    }

    /// Builds a buffer that holds a copy of `source`. The class is chosen from
    /// the length of `source` alone; the unused tail of an inline array holds
    /// copies of the first element.
    pub fn from_slice(source: &[E]) -> (built: Self)
        ensures
            built@ == source@,
            built.canonical(),
            built.class() == class_for_len(source@.len()),
            source@.len() > 0 ==> built.padded_with(source@[0]),
    {
        if source.len() == 0 {
            assert(source@ =~= Seq::<E>::empty());
            Str::Empty
        } else {
            Str::with_padding(source, source[0])
        }
    }

    /// Builds a buffer from an owned vector. Content beyond the inline limit
    /// keeps the vector's allocation as its storage; shorter content is copied
    /// into an inline class and the vector is dropped.
    pub fn from_vec(source: Vec<E>, pad: E) -> (built: Self)
        ensures
            built@ == source@,
            built.canonical(),
            built.class() == class_for_len(source@.len()),
            built.padded_with(pad),
    {
        let len: usize = source.len();
        if len > INLINE_MAX {
            let built = Str::Boxed { buf: boxed_from_vec(source), len };
            assert(built@ =~= source@);
            built
        } else {
            Str::with_padding(source.as_slice(), pad)
        }
    }
}

/// An array whose first elements are those of `source` and whose remaining
/// elements are `pad`.
fn inline_copy<E: Copy, const N: usize>(source: &[E], pad: E) -> (buf: [E; N])
    requires
        source@.len() <= N,
    ensures
        buf@.subrange(0, source@.len() as int) == source@,
        forall|i: int| source@.len() <= i < N ==> buf@[i] == pad,
{
    let mut buf: [E; N] = [pad; N];
    let mut i: usize = 0;
    while i < source.len()
        invariant
            i <= source@.len() <= N,
            forall|j: int| 0 <= j < i ==> buf@[j] == source@[j],
            forall|j: int| i <= j < N ==> buf@[j] == pad,
        decreases source@.len() - i,
    {
        buf[i] = source[i];
        i += 1;
    }
    assert(buf@.subrange(0, source@.len() as int) =~= source@);
    buf
}

/// `Vec::into_boxed_slice`: the vector's elements, in order, as a boxed slice.
/// Excess capacity is dropped; the elements are not touched.
#[verifier::external_body]
fn boxed_from_vec<E>(v: Vec<E>) -> (boxed: Box<[E]>)
    ensures
        boxed@ == v@,
{
    v.into_boxed_slice()
}

/// The first `len` elements of `storage`, or all of it where it is shorter.
fn occupied<E>(storage: &[E], len: usize) -> (content: &[E])
    ensures
        content@ == if len <= storage@.len() {
            storage@.subrange(0, len as int)
        } else {
            storage@
        },
{
    if len <= storage.len() {
        slice_subrange(storage, 0, len)
    } else {
        storage
    }
}

} // verus!
