use vstd::prelude::*;
use vstd::slice::slice_to_vec;
use vstd::utf8::{decode_utf8, encode_utf8, valid_utf8};

use crate::error::TrapError;
use crate::memory::{spliced, GuestMemory};

verus! {

/// Relies on `String::from_utf8`: it returns `Ok` exactly when the bytes
/// are a valid UTF-8 encoding, and the returned string's characters are the
/// decoding of those bytes (the string is backed by the very bytes given).
#[verifier::external_body]
fn utf8_to_string(bytes: Vec<u8>) -> (r: Option<String>)
    ensures
        r is Some <==> valid_utf8(bytes@),
        r matches Some(s) ==> s@ == decode_utf8(bytes@),
{
    String::from_utf8(bytes).ok()
}

/// Interprets `len` raw bytes at `ptr` as a UTF-8 string.  Guest strings
/// are pointer+length only: no terminating null is required or consumed.
pub fn decode_str(mem: &GuestMemory, ptr: usize, len: usize) -> (r: Result<String, TrapError>)
    ensures
        ptr + len > mem@.len() ==> r == Err::<String, TrapError>(TrapError::OutOfBounds),
        ptr + len <= mem@.len() && !valid_utf8(mem@.subrange(ptr as int, ptr + len)) ==> r == Err::<
            String,
            TrapError,
        >(TrapError::InvalidUtf8),
        ptr + len <= mem@.len() && valid_utf8(mem@.subrange(ptr as int, ptr + len)) ==> (
        r matches Ok(s) && s@ == decode_utf8(mem@.subrange(ptr as int, ptr + len))),
{
    let bytes = match mem.read(ptr, len) {
        Ok(b) => b,
        Err(e) => {
            return Err(e);
        },
    };
    match utf8_to_string(bytes) {
        Some(s) => Ok(s),
        None => Err(TrapError::InvalidUtf8),
    }
}

/// Writes `text` followed by a single trailing null byte into the
/// destination range `[dst_ptr, dst_ptr + dst_len)`.  The null terminator
/// on write (with none required on read) is the calling convention shared
/// with the guest.  On failure the memory is unchanged.
pub fn encode_into(mem: &mut GuestMemory, dst_ptr: usize, dst_len: usize, text: &str) -> (r: Result<
    (),
    TrapError,
>)
    ensures
        dst_ptr + dst_len > old(mem)@.len() ==> (r == Err::<(), TrapError>(TrapError::OutOfBounds)
            && final(mem)@ == old(mem)@),
        dst_ptr + dst_len <= old(mem)@.len() && encode_utf8(text@).len() + 1 > dst_len ==> (r
            == Err::<(), TrapError>(TrapError::BufferTooSmall) && final(mem)@ == old(mem)@),
        dst_ptr + dst_len <= old(mem)@.len() && encode_utf8(text@).len() + 1 <= dst_len ==> (r
            == Ok::<(), TrapError>(()) && final(mem)@ == spliced(
            old(mem)@,
            dst_ptr as int,
            encode_utf8(text@) + seq![0u8],
        )),
{
    if dst_len > mem.size() || dst_ptr > mem.size() - dst_len {
        return Err(TrapError::OutOfBounds);
    }
    let text_bytes: &[u8] = text.as_bytes();
    if text_bytes.len() >= dst_len {
        return Err(TrapError::BufferTooSmall);
    }
    let mut buf: Vec<u8> = slice_to_vec(text_bytes);
    buf.push(0u8);
    proof {
        assert(buf@ =~= encode_utf8(text@) + seq![0u8]);
    }
    match mem.write(dst_ptr, buf.as_slice()) {
        Ok(u) => Ok(u),
        Err(e) => {
            proof {
                assert(false);
            }
            Err(e)
        },
    }
}

/// Copies `bytes` into the destination range `[dst_ptr, dst_ptr + dst_cap)`
/// without a null terminator, and returns the number of bytes written; used
/// for raw payloads such as received datagrams.  On failure the memory is
/// unchanged.
pub fn encode_buffer(mem: &mut GuestMemory, dst_ptr: usize, dst_cap: usize, bytes: &[u8]) -> (r:
    Result<usize, TrapError>)
    ensures
        dst_ptr + dst_cap > old(mem)@.len() ==> (r == Err::<usize, TrapError>(
            TrapError::OutOfBounds,
        ) && final(mem)@ == old(mem)@),
        dst_ptr + dst_cap <= old(mem)@.len() && bytes@.len() > dst_cap ==> (r == Err::<
            usize,
            TrapError,
        >(TrapError::BufferTooSmall) && final(mem)@ == old(mem)@),
        dst_ptr + dst_cap <= old(mem)@.len() && bytes@.len() <= dst_cap ==> (r == Ok::<
            usize,
            TrapError,
        >(bytes@.len() as usize) && final(mem)@ == spliced(old(mem)@, dst_ptr as int, bytes@)),
{
    if dst_cap > mem.size() || dst_ptr > mem.size() - dst_cap {
        return Err(TrapError::OutOfBounds);
    }
    if bytes.len() > dst_cap {
        return Err(TrapError::BufferTooSmall);
    }
    match mem.write(dst_ptr, bytes) {
        Ok(_u) => Ok(bytes.len()),
        Err(e) => {
            proof {
                assert(false);
            }
            Err(e)
        },
    }
}

/// Round trip of the codec: decoding a valid UTF-8 region with `decode_str`
/// and writing the decoded text back with `encode_into` reproduces the
/// original bytes followed by exactly one null byte.  `written` below is
/// the memory `encode_into` leaves behind for the decoded text.
pub proof fn lemma_decode_encode_round_trip(mem: Seq<u8>, dst_ptr: int, bytes: Seq<u8>)
    requires
        valid_utf8(bytes),
        0 <= dst_ptr,
        dst_ptr + bytes.len() + 1 <= mem.len(),
    ensures
        ({
            let text = decode_utf8(bytes);
            let written = spliced(mem, dst_ptr, encode_utf8(text) + seq![0u8]);
            &&& encode_utf8(text) == bytes
            &&& written.len() == mem.len()
            &&& written.subrange(dst_ptr, dst_ptr + bytes.len() + 1) == bytes + seq![0u8]
        }),
{
    vstd::utf8::decode_utf8_encode_utf8(bytes);
    let text = decode_utf8(bytes);
    let written = spliced(mem, dst_ptr, encode_utf8(text) + seq![0u8]);
    assert(written.subrange(dst_ptr, dst_ptr + bytes.len() + 1) =~= bytes + seq![0u8]);
}

} // verus!
