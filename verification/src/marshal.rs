use vstd::prelude::*;
use vstd::utf8::valid_utf8;
use crate::buffer::Str;
use crate::class::INLINE_MAX;

verus! {

/// The status with which the host reports success.
pub const HOST_OK: i32 = 0;

/// The bytes of the fixed scratch area: the inline limit and one more for the
/// terminator that the host writes.
pub const STACK_SCRATCH_LEN: usize = 257;

/// Where the bytes of a host string are copied before a buffer is built.
#[derive(Clone, Copy, Debug, PartialEq, Eq, Structural)]
pub enum Scratch {
    /// The fixed scratch area of `STACK_SCRATCH_LEN` bytes.
    Stack,
    /// A transient allocation of `capacity` bytes.
    Heap { capacity: usize },
}

/// Why a host string did not become a buffer.
#[derive(Clone, Copy, Debug, PartialEq, Eq, Structural)]
pub enum MarshalError {
    /// The host could not tell the length of the string.
    LengthQuery { status: i32 },
    /// The host could not copy the string into the fixed scratch area.
    StackCopy { status: i32 },
    /// The host could not copy the string into the allocation.
    HeapCopy { status: i32 },
    /// The bytes that the host delivered are not valid UTF-8.
    InvalidEncoding,
}

impl MarshalError {
    /// The host's status behind the error, where the host raised it.
    pub fn host_status(&self) -> (status: Option<i32>)
        ensures
            status == match *self {
                MarshalError::LengthQuery { status } => Some(status),
                MarshalError::StackCopy { status } => Some(status),
                MarshalError::HeapCopy { status } => Some(status),
                MarshalError::InvalidEncoding => None::<i32>,
            },
    {
        match self {
            MarshalError::LengthQuery { status } => Some(*status),
            MarshalError::StackCopy { status } => Some(*status),
            MarshalError::HeapCopy { status } => Some(*status),
            MarshalError::InvalidEncoding => None,
        }
    }

    /// A short description of the error.
    pub fn reason(&self) -> (text: &'static str)
        ensures
            text@ == match *self {
                MarshalError::LengthQuery { .. } => "Failed to get string size"@,
                MarshalError::StackCopy { .. } => "Failed stack read"@,
                MarshalError::HeapCopy { .. } => "Failed heap read"@,
                MarshalError::InvalidEncoding => "invalid utf-8 sequence"@,
            },
    {
        match self {
            MarshalError::LengthQuery { .. } => "Failed to get string size",
            MarshalError::StackCopy { .. } => "Failed stack read",
            MarshalError::HeapCopy { .. } => "Failed heap read",
            MarshalError::InvalidEncoding => "invalid utf-8 sequence",
        }
    }
}

/// What to do after a successful length query: where to copy, and the size
/// to announce to the host for the copy.
#[derive(Clone, Copy, Debug, PartialEq, Eq, Structural)]
pub struct CopyPlan {
    pub scratch: Scratch,
    pub size: usize,
}

/// The plan for a string of `needed` bytes. The size announced has room for
/// the bytes and the terminator. The fixed area serves up to the inline
/// limit, an allocation of the announced size beyond it.
pub open spec fn plan_for(needed: usize) -> CopyPlan {
    CopyPlan {
        scratch: if needed <= INLINE_MAX {
            Scratch::Stack
        } else {
            Scratch::Heap { capacity: (needed + 1) as usize }
        },
        size: (needed + 1) as usize,
    }
}

/// Decides what follows the host's answer to the length query: the error
/// where the query failed, else the plan for the copy.
pub fn after_length_query(status: i32, needed: usize) -> (next: Result<CopyPlan, MarshalError>)
    requires
        needed < usize::MAX,
    ensures
        status != HOST_OK ==> next == Err::<CopyPlan, MarshalError>(
            MarshalError::LengthQuery { status },
        ),
        status == HOST_OK ==> next == Ok::<CopyPlan, MarshalError>(plan_for(needed)),
{
    if status != HOST_OK {
        Err(MarshalError::LengthQuery { status })
    } else if needed <= INLINE_MAX {
        Ok(CopyPlan { scratch: Scratch::Stack, size: needed + 1 })
    } else {
        Ok(CopyPlan { scratch: Scratch::Heap { capacity: needed + 1 }, size: needed + 1 })
    }
}

/// Decides what follows a copy into the fixed scratch area, of which
/// `written` holds the bytes that the host wrote: the error where the copy
/// failed, the encoding error where the bytes are not valid UTF-8, else the
/// buffer built from them.
pub fn after_stack_copy(status: i32, written: &[u8]) -> (built: Result<Str<u8>, MarshalError>)
    ensures
        status != HOST_OK ==> built == Err::<Str<u8>, MarshalError>(
            MarshalError::StackCopy { status },
        ),
        status == HOST_OK && !valid_utf8(written@) ==> built == Err::<Str<u8>, MarshalError>(
            MarshalError::InvalidEncoding,
        ),
        status == HOST_OK && valid_utf8(written@) ==> built is Ok && built->Ok_0@ == written@
            && built->Ok_0.canonical() && built->Ok_0.padded_with(0u8),
{
    if status != HOST_OK {
        return Err(MarshalError::StackCopy { status });
    }
    match Str::try_from_utf8(written) {
        Ok(built) => Ok(built),
        Err(_) => Err(MarshalError::InvalidEncoding),
    }
}

/// Decides what follows a copy into an allocation, of which `written` holds
/// the bytes that the host wrote. As for the fixed area; content beyond the
/// inline limit keeps the allocation as its storage.
pub fn after_heap_copy(status: i32, written: Vec<u8>) -> (built: Result<
    Str<u8>,
    MarshalError,
>)
    ensures
        status != HOST_OK ==> built == Err::<Str<u8>, MarshalError>(
            MarshalError::HeapCopy { status },
        ),
        status == HOST_OK && !valid_utf8(written@) ==> built == Err::<Str<u8>, MarshalError>(
            MarshalError::InvalidEncoding,
        ),
        status == HOST_OK && valid_utf8(written@) ==> built is Ok && built->Ok_0@ == written@
            && built->Ok_0.canonical() && built->Ok_0.padded_with(0u8),
{
    if status != HOST_OK {
        return Err(MarshalError::HeapCopy { status });
    }
    match Str::try_from_utf8_vec(written) {
        Ok(built) => Ok(built),
        Err(_) => Err(MarshalError::InvalidEncoding),
    }
}

} // verus!
