use vstd::prelude::*;
use vstd::utf8::{decode_utf8, encode_utf8, valid_utf8};

use crate::codec::{decode_str, encode_buffer, encode_into};
use crate::error::TrapError;
use crate::memory::{spliced, GuestMemory};
use crate::resolver::{CapabilityExport, ExportValue};

verus! {

/// The UDP capability's single optional socket.  The initial state is
/// `Unbound`; only a successful bind moves it to `Bound`, and nothing moves
/// it back (the binding's lifetime ends with the capability module).  The
/// handle is the host driver's identifier for the socket it owns.
#[derive(Clone, Copy, Debug, PartialEq, Eq, Structural)]
pub enum NetState {
    Unbound,
    Bound(u64),
}

/// The UDP networking capability module.  It exposes `socket_udp_bind`,
/// `socket_udp_receive` and `socket_udp_send_to` to the guest, under the
/// module name "net".  The socket operations themselves are host I/O: the
/// driver performs them and exchanges plain values with the methods here,
/// which decide, marshal, and keep the state.
pub struct Net {
    pub state: NetState,
}

impl Default for Net {
    /// A fresh capability module, not yet bound to any socket.
    fn default() -> (n: Net)
        ensures
            n.state is Unbound,
    {
        Net { state: NetState::Unbound }
    }
}

impl Net {
    /// The socket handle while `Bound`; `None` while `Unbound`.  A
    /// `receive` or `send_to` arriving while `Unbound` returns 0 to the
    /// guest and performs no memory write and no host I/O: the driver
    /// answers the guest directly, without touching this module again.
    pub fn bound_socket(&self) -> (r: Option<u64>)
        ensures
            self.state is Unbound ==> r is None,
            self.state matches NetState::Bound(h) ==> r == Some(h),
    {
        match self.state {
            NetState::Unbound => None,
            NetState::Bound(h) => Some(h),
        }
    }

    /// Decodes the guest-supplied `"<ip>:<port>"` address string for a
    /// bind.  The driver then opens a UDP socket bound to that address; on
    /// success it records the socket with `bind_commit`, and on failure
    /// the guest call traps with `BindError`.
    pub fn bind_request(&self, mem: &GuestMemory, ptr: usize, len: usize) -> (r: Result<
        String,
        TrapError,
    >)
        ensures
            ptr + len > mem@.len() ==> r == Err::<String, TrapError>(TrapError::OutOfBounds),
            ptr + len <= mem@.len() && !valid_utf8(mem@.subrange(ptr as int, ptr + len)) ==> r
                == Err::<String, TrapError>(TrapError::InvalidUtf8),
            ptr + len <= mem@.len() && valid_utf8(mem@.subrange(ptr as int, ptr + len)) ==> (
            r matches Ok(s) && s@ == decode_utf8(mem@.subrange(ptr as int, ptr + len))),
    {
        decode_str(mem, ptr, len)
    }

    /// Records a successful bind: the state becomes `Bound(socket)`
    /// whatever it was before — a later bind replaces the earlier binding
    /// (last bind wins).
    pub fn bind_commit(&mut self, socket: u64)
        ensures
            final(self).state == NetState::Bound(socket),
    {
        self.state = NetState::Bound(socket);
    }

    /// Completes a `receive` from the datagram the host took off the bound
    /// socket: copies the payload into the guest's data buffer, writes the
    /// `"<ip>:<port>"` source descriptor null-terminated into the guest's
    /// source buffer, and returns the payload byte count.  On failure the
    /// guest call traps and no write past the failed check happens.
    pub fn receive_complete(
        &self,
        mem: &mut GuestMemory,
        data_ptr: usize,
        data_len: usize,
        src_ptr: usize,
        src_len: usize,
        payload: &[u8],
        src: &str,
    ) -> (r: Result<u64, TrapError>)
        requires
            self.state is Bound,
        ensures
            data_ptr + data_len > old(mem)@.len() ==> (r == Err::<u64, TrapError>(
                TrapError::OutOfBounds,
            ) && final(mem)@ == old(mem)@),
            data_ptr + data_len <= old(mem)@.len() && payload@.len() > data_len ==> (r == Err::<
                u64,
                TrapError,
            >(TrapError::BufferTooSmall) && final(mem)@ == old(mem)@),
            ({
                let with_data = spliced(old(mem)@, data_ptr as int, payload@);
                &&& (data_ptr + data_len <= old(mem)@.len() && payload@.len() <= data_len && src_ptr
                    + src_len > old(mem)@.len()) ==> (r == Err::<u64, TrapError>(
                    TrapError::OutOfBounds,
                ) && final(mem)@ == with_data)
                &&& (data_ptr + data_len <= old(mem)@.len() && payload@.len() <= data_len && src_ptr
                    + src_len <= old(mem)@.len() && encode_utf8(src@).len() + 1 > src_len) ==> (r
                    == Err::<u64, TrapError>(TrapError::BufferTooSmall) && final(mem)@ == with_data)
                &&& (data_ptr + data_len <= old(mem)@.len() && payload@.len() <= data_len && src_ptr
                    + src_len <= old(mem)@.len() && encode_utf8(src@).len() + 1 <= src_len) ==> (r
                    == Ok::<u64, TrapError>(payload@.len() as u64) && final(mem)@ == spliced(
                    with_data,
                    src_ptr as int,
                    encode_utf8(src@) + seq![0u8],
                ))
            }),
    {
        let n = match encode_buffer(mem, data_ptr, data_len, payload) {
            Ok(n) => n,
            Err(e) => {
                return Err(e);
            },
        };
        match encode_into(mem, src_ptr, src_len, src) {
            Ok(_u) => Ok(n as u64),
            Err(e) => Err(e),
        }
    }

    /// Prepares a `send_to`: reads the payload out of the guest's data
    /// region and decodes the `"<ip>:<port>"` destination string.  The
    /// driver then performs the send and reports its outcome through
    /// `send_complete`.
    pub fn send_request(
        &self,
        mem: &GuestMemory,
        data_ptr: usize,
        data_len: usize,
        dst_ptr: usize,
        dst_len: usize,
    ) -> (r: Result<(Vec<u8>, String), TrapError>)
        requires
            self.state is Bound,
        ensures
            data_ptr + data_len > mem@.len() ==> r == Err::<(Vec<u8>, String), TrapError>(
                TrapError::OutOfBounds,
            ),
            data_ptr + data_len <= mem@.len() && dst_ptr + dst_len > mem@.len() ==> r == Err::<
                (Vec<u8>, String),
                TrapError,
            >(TrapError::OutOfBounds),
            data_ptr + data_len <= mem@.len() && dst_ptr + dst_len <= mem@.len() && !valid_utf8(
                mem@.subrange(dst_ptr as int, dst_ptr + dst_len),
            ) ==> r == Err::<(Vec<u8>, String), TrapError>(TrapError::InvalidUtf8),
            data_ptr + data_len <= mem@.len() && dst_ptr + dst_len <= mem@.len() && valid_utf8(
                mem@.subrange(dst_ptr as int, dst_ptr + dst_len),
            ) ==> (r matches Ok((payload, dst)) && payload@ == mem@.subrange(
                data_ptr as int,
                data_ptr + data_len,
            ) && dst@ == decode_utf8(mem@.subrange(dst_ptr as int, dst_ptr + dst_len))),
    {
        let payload = match mem.read(data_ptr, data_len) {
            Ok(b) => b,
            Err(e) => {
                return Err(e);
            },
        };
        let dst = match decode_str(mem, dst_ptr, dst_len) {
            Ok(s) => s,
            Err(e) => {
                return Err(e);
            },
        };
        Ok((payload, dst))
    }

    /// Completes a `send_to` from the host outcome: the byte count the OS
    /// reported, or `None` when it refused the send.  A refused send is a
    /// `SendError`, never a partial byte count.
    pub fn send_complete(&self, sent: Option<u64>) -> (r: Result<u64, TrapError>)
        requires
            self.state is Bound,
        ensures
            sent matches Some(n) ==> r == Ok::<u64, TrapError>(n),
            sent is None ==> r == Err::<u64, TrapError>(TrapError::SendError),
    {
        match sent {
            Some(n) => Ok(n),
            None => Err(TrapError::SendError),
        }
    }

    /// The fixed export list of this capability module, under the module
    /// name "net", with the handles the engine assigned to its three
    /// functions.
    pub fn exports(&self, bind_handle: u64, receive_handle: u64, send_to_handle: u64) -> (r: Vec<
        CapabilityExport,
    >)
        ensures
            r@.len() == 3,
            r@[0].module@ == "net"@ && r@[0].name@ == "socket_udp_bind"@ && r@[0].value == (
            ExportValue::Func(bind_handle)),
            r@[1].module@ == "net"@ && r@[1].name@ == "socket_udp_receive"@ && r@[1].value == (
            ExportValue::Func(receive_handle)),
            r@[2].module@ == "net"@ && r@[2].name@ == "socket_udp_send_to"@ && r@[2].value == (
            ExportValue::Func(send_to_handle)),
    {
        let mut v: Vec<CapabilityExport> = Vec::new();
        v.push(CapabilityExport::new("net", "socket_udp_bind", ExportValue::Func(bind_handle)));
        v.push(
            CapabilityExport::new("net", "socket_udp_receive", ExportValue::Func(receive_handle)),
        );
        v.push(
            CapabilityExport::new("net", "socket_udp_send_to", ExportValue::Func(send_to_handle)),
        );
        v
    }
}

} // verus!
