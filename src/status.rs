//! Kernel completion codes and object references.

use vstd::prelude::*;

verus! {

/// Largest status word that still reads as success: a status succeeds when
/// its signed reading is non-negative.
pub const LAST_SUCCESS: u32 = 0x7fff_ffff;

/// A kernel completion code (`NTSTATUS`).
#[derive(Clone, Copy, Debug, Default, PartialEq, Eq, Structural)]
pub struct NtStatus(pub u32);

impl NtStatus {
    /// A status succeeds exactly when its signed reading is non-negative.
    pub open spec fn is_success(self) -> bool {
        self.0 <= LAST_SUCCESS
    }

    /// The status carried in the low 32 bits of a raw syscall result word.
    pub open spec fn of_word(raw: usize) -> NtStatus {
        NtStatus(raw as u32)
    }

    /// Returns `true` if the status was successful.
    pub fn success(self) -> (r: bool)
        ensures
            r == self.is_success(),
    {
        let x: u32 = self.0;
        let r = (x as i32) >= 0;
        assert(((x as i32) >= 0) == (x <= 0x7fff_ffffu32)) by (bit_vector);
        r
    }

    /// Reads the status out of a raw syscall result word.
    pub fn from_word(raw: usize) -> (r: NtStatus)
        ensures
            r == NtStatus::of_word(raw),
    {
        NtStatus(raw as u32)
    }

    /// `Ok` for a successful status, the status itself as the error otherwise.
    pub fn check(self) -> (r: Result<(), NtStatus>)
        ensures
            r is Ok <==> self.is_success(),
            r is Err ==> r == Err::<(), NtStatus>(self),
    {
        if self.success() {
            Ok(())
        } else {
            Err(self)
        }
    }
}

/// An opaque reference to a kernel object (`HANDLE`).
#[derive(Clone, Copy, Debug, Default, PartialEq, Eq, Structural)]
pub struct Handle(pub usize);

/// The out-parameter pair that I/O-shaped syscalls fill in
/// (`IO_STATUS_BLOCK`).
#[derive(Clone, Copy, Debug, Default, PartialEq, Eq, Structural)]
pub struct IoStatusBlock {
    /// Status code of the request.
    pub status: NtStatus,
    /// Request-dependent value; for a write, the number of bytes written.
    pub information: usize,
}

} // verus!
