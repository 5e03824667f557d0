use vstd::prelude::*;

verus! {

/// The storage tiers a buffer may occupy.
#[derive(Clone, Copy, Debug, PartialEq, Eq, Structural)]
pub enum SizeClass {
    Empty,
    B8,
    B16,
    B32,
    B64,
    B128,
    B256,
    Boxed,
}

/// The largest length that is stored inline.
pub const INLINE_MAX: usize = 256;

/// The class that construction selects for content of `n` elements: the
/// smallest of the tiers 8, 16, 64, 128 and 256 that holds it, the empty class
/// for no content and the heap beyond the largest tier. The tier of 32 is
/// never selected.
pub open spec fn class_for_len(n: nat) -> SizeClass {
    if n == 0 {
        SizeClass::Empty
    } else if n <= 8 {
        SizeClass::B8
    } else if n <= 16 {
        SizeClass::B16
    } else if n <= 64 {
        SizeClass::B64
    } else if n <= 128 {
        SizeClass::B128
    } else if n <= 256 {
        SizeClass::B256
    } else {
        SizeClass::Boxed
    }
}

impl SizeClass {
    /// How many elements the class can hold; `None` where it is unbounded.
    pub open spec fn spec_capacity(self) -> Option<nat> {
        match self {
            SizeClass::Empty => Some(0nat),
            SizeClass::B8 => Some(8nat),
            SizeClass::B16 => Some(16nat),
            SizeClass::B32 => Some(32nat),
            SizeClass::B64 => Some(64nat),
            SizeClass::B128 => Some(128nat),
            SizeClass::B256 => Some(256nat),
            SizeClass::Boxed => None,
        }
    }

    /// Whether content of `n` elements fits into the class.
    pub open spec fn holds(self, n: nat) -> bool {
        match self.spec_capacity() {
            Some(c) => n <= c,
            None => true,
        }
    }

    /// The class that construction selects for content of `len` elements.
    pub fn for_len(len: usize) -> (class: SizeClass)
        ensures
            class == class_for_len(len as nat),
    {
        if len == 0 {
            SizeClass::Empty
        } else if len <= 8 {
            SizeClass::B8
        } else if len <= 16 {
            SizeClass::B16
        } else if len <= 64 {
            SizeClass::B64
        } else if len <= 128 {
            SizeClass::B128
        } else if len <= INLINE_MAX {
            SizeClass::B256
        } else {
            SizeClass::Boxed
        }
    }

    /// How many elements the class can hold; `None` where it is unbounded.
    pub fn capacity(self) -> (cap: Option<usize>)
        ensures
            cap is Some <==> self.spec_capacity() is Some,
            cap is Some ==> cap->0 as nat == self.spec_capacity()->0,
    {
        match self {
            SizeClass::Empty => Some(0usize),
            SizeClass::B8 => Some(8usize),
            SizeClass::B16 => Some(16usize),
            SizeClass::B32 => Some(32usize),
            SizeClass::B64 => Some(64usize),
            SizeClass::B128 => Some(128usize),
            SizeClass::B256 => Some(256usize),
            SizeClass::Boxed => None,
        }
    }
}

} // verus!
