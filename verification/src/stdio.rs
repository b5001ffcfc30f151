use vstd::prelude::*;
use vstd::utf8::{decode_utf8, valid_utf8};

use crate::codec::decode_str;
use crate::error::TrapError;
use crate::memory::GuestMemory;
use crate::resolver::{CapabilityExport, ExportValue};

verus! {

/// The standard-output capability module.  It exposes the single function
/// `print_str` to the guest, under the module name "stdio".  It keeps no
/// state; the write to the host's standard output stream is host I/O,
/// performed by the driver with the text decoded here.
pub struct Stdio {}

impl Default for Stdio {
    fn default() -> (s: Stdio)
        ensures
            s == (Stdio {  }),
    {
        Stdio {  }
    }
}

impl Stdio {
    /// Decodes the guest string at `(ptr, len)` and returns the text the
    /// host writes verbatim to its standard output stream, with no added
    /// newline.  The only failure modes are the decode errors, which trap
    /// the guest call.
    pub fn print_str(&self, mem: &GuestMemory, ptr: usize, len: usize) -> (r: Result<
        String,
        TrapError,
    >)
        ensures
            ptr + len > mem@.len() ==> r == Err::<String, TrapError>(TrapError::OutOfBounds),
            ptr + len <= mem@.len() && !valid_utf8(mem@.subrange(ptr as int, ptr + len)) ==> r
                == Err::<String, TrapError>(TrapError::InvalidUtf8),
            ptr + len <= mem@.len() && valid_utf8(mem@.subrange(ptr as int, ptr + len)) ==> (
            r matches Ok(s) && s@ == decode_utf8(mem@.subrange(ptr as int, ptr + len))),
    {
        decode_str(mem, ptr, len)
    }

    /// The fixed export list of this capability module, under the module
    /// name "stdio", with the handle the engine assigned to its one
    /// function.
    pub fn exports(&self, print_str_handle: u64) -> (r: Vec<CapabilityExport>)
        ensures
            r@.len() == 1,
            r@[0].module@ == "stdio"@ && r@[0].name@ == "print_str"@ && r@[0].value == (
            ExportValue::Func(print_str_handle)),
    {
        let mut v: Vec<CapabilityExport> = Vec::new();
        v.push(CapabilityExport::new("stdio", "print_str", ExportValue::Func(print_str_handle)));
        v
    }
}

} // verus!
