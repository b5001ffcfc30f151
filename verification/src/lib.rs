//! A minimal host runtime core for a sandboxed guest module.
//!
//! The guest exposes a flat, bounds-limited linear memory and declares the
//! host functions it imports by `(module name, export name)` pairs.  This
//! crate provides the verified pieces the host needs to wire such a guest:
//!
//! - [`memory`]: a bounds-checked view over the guest's linear memory;
//! - [`codec`]: UTF-8 string and raw-buffer marshaling across that memory;
//! - [`stdio`] and [`net`]: the host capability modules callable from guest
//!   code;
//! - [`resolver`]: the import resolution algorithm that reconciles a guest's
//!   declared imports against the capability modules' export lists;
//! - [`wasi`]: a stub WASI surface for guests that import their system
//!   calls from "wasi_unstable" instead.
//!
//! The execution engine itself (compile, instantiate, call) and all socket
//! and standard-output I/O are external collaborators: the host driver
//! performs them and exchanges plain values with this crate.

pub mod codec;
pub mod error;
pub mod memory;
pub mod net;
pub mod resolver;
pub mod stdio;
pub mod wasi;
