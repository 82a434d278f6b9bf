//! A safety layer over a handle-based GPU device interface.
//!
//! Native objects (device, textures, buffers, command buffers, ...) are
//! represented throughout this crate by opaque nonzero integer tokens; the
//! token `0` marks a failed or absent native object.  The crate owns the
//! bookkeeping that makes such tokens safe to use: a free-list slot registry
//! that hands out stable integer handles, per-kind resource registries on a
//! device value, a growable upload staging buffer with deferred reclamation,
//! and the command-buffer/pass recording state machine.  The caller performs
//! the actual native calls and feeds their results back in as plain values.

pub mod command;
pub mod device;
pub mod error;
pub mod slot_map;
pub mod tools;
