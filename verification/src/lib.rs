//! Core of a stylus hardware-abstraction service: the state-transition logic
//! that binds pen presence to digitizer power.
//!
//! The service works against two kernel-owned attribute files: a writable
//! digitizer power attribute (textual `"0"`/`"1"`) and a read-only pen
//! presence attribute (`"0"` or absent when no pen is paired, any other text
//! when one is). `model` holds a snapshot type for those two attributes and
//! the specification of every transition; `control` holds the verified
//! operations. Process entry, attribute-file I/O and IPC registration are
//! unverified edges outside this crate.

pub mod control;
pub mod model;
