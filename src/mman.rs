//! The process's memory provider: every allocation is one dedicated
//! committed, read-write mapping obtained from the kernel, and every release
//! gives a whole mapping back.

use vstd::prelude::*;
use crate::mips::Syscall;
use crate::status::NtStatus;
use crate::syscall::{
    mmap_call, munmap_call, outcome, settle, Invocation, CURRENT_PROCESS, MEM_COMMIT, MEM_RELEASE,
    MEM_RESERVE, PAGE_READWRITE,
};

verus! {

/// The address an allocation hands out when the kernel refused it.
pub const NULL: usize = 0;

/// Tracks which mappings the allocator has handed out and not yet released,
/// so that each is released exactly once.
pub struct VmAllocator {
    live: Ghost<Set<usize>>,
}

impl VmAllocator {
    /// Base addresses of the mappings handed out and not released.
    pub closed spec fn live(&self) -> Set<usize> {
        self.live@
    }

    /// An allocator that has handed out nothing.
    pub fn new() -> (r: VmAllocator)
        ensures
            r.live() == Set::<usize>::empty(),
    {
        VmAllocator { live: Ghost(Set::empty()) }
    }

    /// The call that reserves and commits read-write memory. The slot at
    /// `base_slot` holds the address hint (zero lets the kernel pick); the
    /// slot at `size_slot` holds the requested size, unrounded.
    pub fn reserve_call(&self, base_slot: usize, size_slot: usize) -> (r: Invocation)
        ensures
            r.is(
                Syscall::AllocateVirtualMemory,
                seq![CURRENT_PROCESS, base_slot, 0, size_slot, MEM_COMMIT | MEM_RESERVE, PAGE_READWRITE],
            ),
    {
        mmap_call(base_slot, size_slot)
    }

    /// Reads the outcome of a reservation whose base slot came back holding
    /// `base`: on success the address the kernel gave, which is now live; on
    /// failure the null address, whatever the status was.
    pub fn reserved(&mut self, raw: usize, base: usize) -> (r: usize)
        ensures
            NtStatus::of_word(raw).is_success() ==> r == base && final(self).live() == old(self).live().insert(base),
            !NtStatus::of_word(raw).is_success() ==> r == NULL && final(self).live() == old(self).live(),
    {
        match settle(raw, base) {
            Ok(addr) => {
                self.live = Ghost(self.live@.insert(addr));
                addr
            },
            Err(_) => NULL,
        }
    }

    /// The call that releases the whole live mapping at `addr`: the slot at
    /// `base_slot` holds `addr` and the slot at `size_slot` holds zero.
    pub fn release_call(&self, addr: usize, base_slot: usize, size_slot: usize) -> (r: Invocation)
        requires
            self.live().contains(addr),
        ensures
            r.is(Syscall::FreeVirtualMemory, seq![CURRENT_PROCESS, base_slot, size_slot, MEM_RELEASE]),
    {
        munmap_call(base_slot, size_slot)
    }

    /// Reads the outcome of releasing the live mapping at `addr`. A failure
    /// is returned for the caller to end the process on: the allocator cannot
    /// go on once the kernel refuses to take back memory it owns.
    pub fn released(&mut self, addr: usize, raw: usize) -> (r: Result<(), NtStatus>)
        requires
            old(self).live().contains(addr),
        ensures
            r == outcome(raw, ()),
            r is Ok ==> final(self).live() == old(self).live().remove(addr),
            r is Ok ==> !final(self).live().contains(addr),
            r is Err ==> final(self).live() == old(self).live(),
    {
        let r = settle(raw, ());
        if r.is_ok() {
            self.live = Ghost(self.live@.remove(addr));
        }
        r
    }
}

} // verus!
