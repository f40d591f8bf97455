use swiftlet_rtc::config::plan_transport;
use swiftlet_rtc::connection::{zeroed, ConnectionManager, SendBuffer};

#[test]
fn send_buffer_starts_unsent() {
    let b = SendBuffer::new(vec![1, 2, 3]);
    assert_eq!(b.sent(), 0);
    assert_eq!(b.data(), &[1, 2, 3]);
    let e = SendBuffer::new(Vec::new());
    assert_eq!(e.sent(), 0);
    assert!(e.data().is_empty());
}

#[test]
fn zeroed_buffer_has_full_length() {
    let z = zeroed(4096);
    assert_eq!(z.len(), 4096);
    assert!(z.iter().all(|b| *b == 0));
    assert!(zeroed(0).is_empty());
}

#[test]
fn empty_cid_is_twenty_zero_bytes() {
    assert_eq!(ConnectionManager::get_empty_cid(), [0u8; 20]);
}

#[test]
fn server_plan() {
    let p = plan_transport(true, 5000, 1350, 4_194_304, 1_048_576).unwrap();
    assert!(p.is_server);
    assert_eq!(p.idle_timeout_ms, 5000);
    assert_eq!(p.max_udp_payload, 1350);
    assert_eq!(p.max_stream_data_bidi_local, 4_194_304);
    assert_eq!(p.max_stream_data_bidi_remote, 4_194_304);
    assert_eq!(p.max_stream_data_uni, 1_048_576);
    assert_eq!(p.max_data, 8_388_608);
    assert_eq!(p.max_streams_bidi, 1);
    assert_eq!(p.max_streams_uni, 1);
    assert!(p.pacing);
    assert!(p.disable_active_migration);
    assert!(!p.verify_peer);
    assert!(p.log_keys);
}

#[test]
fn client_plan_verifies_peer() {
    let p = plan_transport(false, 1000, 1200, 1024, 0).unwrap();
    assert!(p.verify_peer);
    assert!(!p.log_keys);
    assert_eq!(p.max_data, 1024);
}

#[test]
fn plan_refuses_window_overflow() {
    assert!(plan_transport(false, 1000, 1200, u64::MAX, 1).is_none());
    assert!(plan_transport(false, 1000, 1200, 0, u64::MAX / 4 + 1).is_none());
    let edge = plan_transport(false, 1000, 1200, 3, u64::MAX / 4).unwrap();
    assert_eq!(edge.max_data, u64::MAX);
}

fn initial_packet(version: u32, ty_bits: u8) -> Vec<u8> {
    let mut p = vec![0xc0 | (ty_bits << 4)];
    p.extend_from_slice(&version.to_be_bytes());
    p.push(8);
    p.extend_from_slice(&[1, 2, 3, 4, 5, 6, 7, 8]);
    p.push(0);
    p.push(0);
    p.extend_from_slice(&[0x40, 0x10]);
    p.extend_from_slice(&[0u8; 32]);
    p
}

#[test]
fn header_of_initial_v1_packet_may_open_connection_on_server() {
    let mut p = initial_packet(1, 0);
    let (dcid, possibly_new) = ConnectionManager::recv_header_analyze(&mut p, true).unwrap();
    assert_eq!(dcid, vec![1, 2, 3, 4, 5, 6, 7, 8]);
    assert!(possibly_new);
}

#[test]
fn header_on_client_never_opens_connection() {
    let mut p = initial_packet(1, 0);
    let (dcid, possibly_new) = ConnectionManager::recv_header_analyze(&mut p, false).unwrap();
    assert_eq!(dcid.len(), 8);
    assert!(!possibly_new);
}

#[test]
fn header_of_unsupported_version_or_handshake_is_not_new() {
    let mut p = initial_packet(2, 0);
    let (dcid, possibly_new) = ConnectionManager::recv_header_analyze(&mut p, true).unwrap();
    assert_eq!(dcid, vec![1, 2, 3, 4, 5, 6, 7, 8]);
    assert!(!possibly_new);
    let mut h = initial_packet(1, 2);
    let (_, possibly_new) = ConnectionManager::recv_header_analyze(&mut h, true).unwrap();
    assert!(!possibly_new);
}

#[test]
fn garbage_header_is_none() {
    let mut p = vec![0xc0, 0, 0];
    assert!(ConnectionManager::recv_header_analyze(&mut p, true).is_none());
    let mut empty: Vec<u8> = Vec::new();
    assert!(ConnectionManager::recv_header_analyze(&mut empty, true).is_none());
}

#[test]
fn short_header_carries_full_length_dcid() {
    let mut p = vec![0x40];
    p.extend((1..=20).map(|i| i as u8));
    p.extend_from_slice(&[0u8; 16]);
    let (dcid, possibly_new) = ConnectionManager::recv_header_analyze(&mut p, true).unwrap();
    assert_eq!(dcid, (1..=20).map(|i| i as u8).collect::<Vec<u8>>());
    assert!(!possibly_new);
}
