//! Safe, verified definitions around V4L2 extended controls.
//!
//! An extended control is described to the kernel by a raw descriptor: a
//! numeric identifier, a payload size, and a tagged payload that is either an
//! inline 32-bit value, an inline 64-bit value, or a heap-allocated parameter
//! struct. The [`controls::SafeExtControl`] wrapper binds one such descriptor
//! to a compile-time control identity, so that only the accessors matching the
//! control's payload kind are available, and maintains the descriptor's
//! invariants (valid identifier, size consistent with the payload kind) for
//! the wrapper's whole lifetime.

pub mod controls;
pub mod raw;
