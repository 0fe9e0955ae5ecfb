//! Low-level memory layer: an allocator capability, a growable buffer and
//! vector built on it, a byte string, a one-time-initialisation guard, an
//! executable-code arena, and the plain-value Win32 records that window
//! code reads.
pub mod allocator;
pub mod cvec;
pub mod cstring;
pub mod once;
pub mod jit;
pub mod win32;
