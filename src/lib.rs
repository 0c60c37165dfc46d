//! A freestanding runtime for code injected into a process that talks to the
//! kernel only through raw, numbered syscalls.
//!
//! The library holds the runtime's decisions: how arguments are laid out for
//! the kernel trap, which words each kernel operation is given, how kernel
//! completion codes are read, how a new thread's register snapshot is built,
//! the order in which a spawned thread hands its result to its joiner, and
//! how the console channel tracks its position in the output stream.

pub mod status;
pub mod mips;
pub mod syscall;
pub mod thread;
pub mod mman;
pub mod print;
pub mod rand;
pub mod fuzz;
pub mod delivery;
