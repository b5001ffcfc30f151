use host_runtime::error::TrapError;
use host_runtime::memory::GuestMemory;
use host_runtime::net::{Net, NetState};
use host_runtime::stdio::Stdio;
use host_runtime::wasi::{CustomWasi, Wasi};

#[test]
fn net_starts_unbound() {
    let net = Net::default();
    assert_eq!(net.state, NetState::Unbound);
    assert_eq!(net.bound_socket(), None);
}

#[test]
fn receive_while_unbound_returns_zero_without_writes() {
    // The driver's receive path: while `Unbound` there is no socket, the
    // guest gets 0 back, and guest memory is never touched.
    let net = Net::default();
    let mem = GuestMemory::from_bytes(vec![7u8; 16]);
    let returned: u64 = match net.bound_socket() {
        None => 0,
        Some(_) => panic!("an unbound capability has no socket"),
    };
    assert_eq!(returned, 0);
    assert_eq!(mem.read(0, 16).unwrap(), vec![7u8; 16]);
}

#[test]
fn bind_commit_moves_to_bound_and_last_bind_wins() {
    let mut net = Net::default();
    net.bind_commit(5);
    assert_eq!(net.bound_socket(), Some(5));
    net.bind_commit(9);
    assert_eq!(net.bound_socket(), Some(9));
}

#[test]
fn bind_request_decodes_address_string() {
    let net = Net::default();
    let mem = GuestMemory::from_bytes(b"127.0.0.1:9999".to_vec());
    assert_eq!(net.bind_request(&mem, 0, 14).unwrap(), "127.0.0.1:9999");
}

#[test]
fn bind_request_rejects_bad_regions() {
    let net = Net::default();
    let mem = GuestMemory::from_bytes(vec![0xffu8, 0xff]);
    assert_eq!(net.bind_request(&mem, 0, 2), Err(TrapError::InvalidUtf8));
    assert_eq!(net.bind_request(&mem, 0, 3), Err(TrapError::OutOfBounds));
}

#[test]
fn receive_fills_data_and_source_buffers() {
    // The datagram scenario: a 64-byte data buffer at 0 and a 64-byte
    // source buffer at 64; a 4-byte payload from a client socket.
    let mut net = Net::default();
    net.bind_commit(1);
    let mut mem = GuestMemory::new(128);
    let returned = net
        .receive_complete(&mut mem, 0, 64, 64, 64, b"ping", "127.0.0.1:34254")
        .unwrap();
    assert_eq!(returned, 4);
    assert_eq!(mem.read(0, 4).unwrap(), b"ping".to_vec());
    assert_eq!(mem.read(64, 16).unwrap(), b"127.0.0.1:34254\0".to_vec());
}

#[test]
fn receive_rejects_oversized_payload() {
    let mut net = Net::default();
    net.bind_commit(1);
    let mut mem = GuestMemory::new(128);
    let r = net.receive_complete(&mut mem, 0, 4, 64, 64, b"pings", "127.0.0.1:1");
    assert_eq!(r, Err(TrapError::BufferTooSmall));
    assert_eq!(mem.read(0, 128).unwrap(), vec![0u8; 128]);
}

#[test]
fn receive_rejects_oversized_source_descriptor() {
    // The source buffer must also hold the null terminator.
    let mut net = Net::default();
    net.bind_commit(1);
    let mut mem = GuestMemory::new(128);
    let r = net.receive_complete(&mut mem, 0, 64, 64, 11, b"ping", "127.0.0.1:1");
    assert_eq!(r, Err(TrapError::BufferTooSmall));
    // The payload was already placed; the source buffer stays untouched.
    assert_eq!(mem.read(0, 4).unwrap(), b"ping".to_vec());
    assert_eq!(mem.read(64, 64).unwrap(), vec![0u8; 64]);
}

#[test]
fn send_request_reads_payload_and_destination() {
    let mut net = Net::default();
    net.bind_commit(1);
    let mut bytes = b"ping".to_vec();
    bytes.extend_from_slice(b"127.0.0.1:1");
    let mem = GuestMemory::from_bytes(bytes);
    let (payload, dst) = net.send_request(&mem, 0, 4, 4, 11).unwrap();
    assert_eq!(payload, b"ping".to_vec());
    assert_eq!(dst, "127.0.0.1:1");
}

#[test]
fn send_request_rejects_invalid_destination() {
    let mut net = Net::default();
    net.bind_commit(1);
    let mem = GuestMemory::from_bytes(vec![b'p', b'i', 0xff, 0xff]);
    assert_eq!(net.send_request(&mem, 0, 2, 2, 2), Err(TrapError::InvalidUtf8));
    assert_eq!(net.send_request(&mem, 0, 5, 2, 2), Err(TrapError::OutOfBounds));
}

#[test]
fn send_complete_reports_count_or_send_error() {
    // A refused send is a SendError, never a partial byte count.
    let mut net = Net::default();
    net.bind_commit(1);
    assert_eq!(net.send_complete(Some(4)), Ok(4));
    assert_eq!(net.send_complete(None), Err(TrapError::SendError));
}

#[test]
fn stdio_print_str_returns_text_verbatim() {
    let stdio = Stdio::default();
    let mem = GuestMemory::from_bytes(b"hello, guest".to_vec());
    assert_eq!(stdio.print_str(&mem, 0, 12).unwrap(), "hello, guest");
    assert_eq!(stdio.print_str(&mem, 0, 13), Err(TrapError::OutOfBounds));
}

#[test]
fn capability_export_lists_match_the_guest_abi() {
    let stdio = Stdio::default();
    let s = stdio.exports(1);
    assert_eq!(s.len(), 1);
    assert_eq!(s[0].module, "stdio");
    assert_eq!(s[0].name, "print_str");

    let net = Net::default();
    let n = net.exports(2, 3, 4);
    assert_eq!(n.len(), 3);
    assert_eq!(n[0].name, "socket_udp_bind");
    assert_eq!(n[1].name, "socket_udp_receive");
    assert_eq!(n[2].name, "socket_udp_send_to");
    assert!(n.iter().all(|e| e.module == "net"));
}

#[test]
fn wasi_stub_reports_errno_one() {
    let w = CustomWasi {};
    assert_eq!(w.fd_prestat_get(0, 0), 1);
    assert_eq!(w.fd_prestat_dir_name(0, 0, 0), 1);
    assert_eq!(w.environ_sizes_get(0, 0), 1);
    assert_eq!(w.environ_get(0, 0), 1);
    assert_eq!(w.args_sizes_get(0, 0), 1);
    assert_eq!(w.args_get(0, 0), 1);
    assert_eq!(w.fd_write(0, 0, 0, 0), 1);
    assert_eq!(w.fd_fdstat_get(0, 0), 1);
    w.proc_exit(0);
}
