use vstd::prelude::*;

verus! {

/// A partial WASI surface, for guests that import their system calls from
/// the "wasi_unstable" module rather than from the capability modules.
/// Host embedders implement it; each method takes the raw pointer and
/// length arguments of the corresponding WASI call and returns its errno.
pub trait Wasi {
    fn fd_prestat_get(&self, a: u32, b: u32) -> u32;

    fn fd_prestat_dir_name(&self, a: u32, b: u32, c: u32) -> u32;

    fn environ_sizes_get(&self, a: u32, b: u32) -> u32;

    fn environ_get(&self, a: u32, b: u32) -> u32;

    fn args_sizes_get(&self, a: u32, b: u32) -> u32;

    fn args_get(&self, a: u32, b: u32) -> u32;

    fn fd_write(&self, a: u32, b: u32, c: u32, d: u32) -> u32;

    fn proc_exit(&self, a: u32);

    fn fd_fdstat_get(&self, a: u32, b: u32) -> u32;
}

/// A minimal `Wasi` implementation: every call reports a non-zero errno
/// (nothing is prestat, no environment, no arguments, no writable file
/// descriptors), and `proc_exit` does nothing.  Enough for a guest that
/// only probes its environment before falling back to capability imports.
pub struct CustomWasi {}

impl Wasi for CustomWasi {
    fn fd_prestat_get(&self, a: u32, b: u32) -> u32 {
        1
    }

    fn fd_prestat_dir_name(&self, a: u32, b: u32, c: u32) -> u32 {
        1
    }

    fn environ_sizes_get(&self, a: u32, b: u32) -> u32 {
        1
    }

    fn environ_get(&self, a: u32, b: u32) -> u32 {
        1
    }

    fn args_sizes_get(&self, a: u32, b: u32) -> u32 {
        1
    }

    fn args_get(&self, a: u32, b: u32) -> u32 {
        1
    }

    fn fd_write(&self, a: u32, b: u32, c: u32, d: u32) -> u32 {
        1
    }

    fn proc_exit(&self, a: u32) {
    }

    fn fd_fdstat_get(&self, a: u32, b: u32) -> u32 {
        1
    }
}

} // verus!
