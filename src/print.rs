//! The console channel: an append-only output stream over one handle,
//! registered when the runtime starts.

use vstd::prelude::*;
use crate::mips::Syscall;
use crate::status::{Handle, IoStatusBlock, NtStatus};
use crate::syscall::{outcome, settle, write_call, Invocation};

verus! {

/// The console channel. Each write goes to the registered handle at the
/// offset where the previous writes ended.
pub struct Writer {
    socket: Handle,
    offset: u64,
}

impl Writer {
    /// The registered output handle.
    pub closed spec fn socket(&self) -> Handle {
        self.socket
    }

    /// Total bytes the kernel reported written through this channel.
    pub closed spec fn offset(&self) -> u64 {
        self.offset
    }

    /// Registers `socket` as the output handle; nothing has been written yet.
    pub fn new(socket: Handle) -> (r: Writer)
        ensures
            r.socket() == socket,
            r.offset() == 0,
    {
        Writer { socket, offset: 0 }
    }

    /// The registered output handle.
    pub fn handle(&self) -> (r: Handle)
        ensures
            r == self.socket(),
    {
        self.socket
    }

    /// The offset the next write goes to.
    pub fn position(&self) -> (r: u64)
        ensures
            r == self.offset(),
    {
        self.offset
    }

    /// The call that writes `len` bytes at address `buf` to the registered
    /// handle. The slot at `offset_slot` holds `position()`; the kernel fills
    /// the status block at `iosb_slot`.
    pub fn write_call(&self, iosb_slot: usize, buf: usize, len: usize, offset_slot: usize) -> (r:
        Invocation)
        ensures
            r.is(Syscall::WriteFile, seq![self.socket().0, 0, 0, 0, iosb_slot, buf, len, offset_slot, 0]),
    {
        write_call(self.socket, iosb_slot, buf, len, offset_slot)
    }

    /// Reads the outcome of a write whose status block came back as `iosb`:
    /// on success the number of bytes the kernel reports written, by which
    /// the offset advances; on failure the status, with the offset kept. A
    /// short write is not retried.
    pub fn wrote(&mut self, raw: usize, iosb: &IoStatusBlock) -> (r: Result<usize, NtStatus>)
        requires
            old(self).offset() + iosb.information <= u64::MAX,
        ensures
            r == outcome(raw, iosb.information),
            final(self).socket() == old(self).socket(),
            r is Ok ==> final(self).offset() == old(self).offset() + iosb.information,
            r is Err ==> final(self).offset() == old(self).offset(),
    {
        let r = settle(raw, iosb.information);
        if r.is_ok() {
            self.offset = self.offset + iosb.information as u64;
        }
        r
    }
}

} // verus!
