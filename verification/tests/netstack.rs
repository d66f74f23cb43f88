use axdriver_net::netstack::{
    echo_request_packet, handle_icmp_packet, handle_ip_packet, handle_packet, ip_checksum,
    ping_reply_matches, send_icmp_reply, NetStackError, FRAME_BUF_LEN,
};

const MAC_A: [u8; 6] = [0x02, 0x00, 0x00, 0x00, 0x00, 0x0a];
const MAC_B: [u8; 6] = [0x52, 0x54, 0x00, 0x12, 0x34, 0x56];
const IP_A: [u8; 4] = [10, 0, 2, 15];
const IP_B: [u8; 4] = [10, 0, 2, 2];

#[test]
fn checksum_of_rfc1071_example() {
    let data = [0x00u8, 0x01, 0xf2, 0x03, 0xf4, 0xf5, 0xf6, 0xf7];
    assert_eq!(ip_checksum(&data), 0x220d);
}

#[test]
fn checksum_of_ipv4_header() {
    let hdr = [
        0x45u8, 0x00, 0x00, 0x73, 0x00, 0x00, 0x40, 0x00, 0x40, 0x11, 0x00, 0x00, 0xc0, 0xa8,
        0x00, 0x01, 0xc0, 0xa8, 0x00, 0xc7,
    ];
    assert_eq!(ip_checksum(&hdr), 0xb861);
}

#[test]
fn checksum_of_empty_and_odd_data() {
    assert_eq!(ip_checksum(&[]), 0xffff);
    // A last odd byte is the high byte of a word
    assert_eq!(ip_checksum(&[0x01]), 0xfeff);
    assert_eq!(ip_checksum(&[0x00, 0x01, 0x02]), 0xfdfe);
}

#[test]
fn checksum_written_into_data_verifies() {
    let mut hdr = [
        0x45u8, 0x00, 0x00, 0x73, 0x00, 0x00, 0x40, 0x00, 0x40, 0x11, 0x00, 0x00, 0xc0, 0xa8,
        0x00, 0x01, 0xc0, 0xa8, 0x00, 0xc7,
    ];
    let c = ip_checksum(&hdr);
    hdr[10] = (c >> 8) as u8;
    hdr[11] = (c & 0xff) as u8;
    assert_eq!(ip_checksum(&hdr), 0);
}

#[test]
fn echo_request_layout() {
    let pkt = echo_request_packet(MAC_A, IP_A, IP_B, 0x0102);
    assert_eq!(pkt.len(), 98);
    assert_eq!(&pkt[0..6], &[0xff; 6]);
    assert_eq!(&pkt[6..12], &MAC_A);
    assert_eq!(&pkt[12..14], &[0x08, 0x00]);
    assert_eq!(pkt[14], 0x45);
    assert_eq!(pkt[15], 0);
    assert_eq!(&pkt[16..18], &[0x00, 84]);
    assert_eq!(&pkt[18..20], &[0x12, 0x34]);
    assert_eq!(&pkt[20..22], &[0x00, 0x00]);
    assert_eq!(pkt[22], 64);
    assert_eq!(pkt[23], 1);
    assert_eq!(&pkt[26..30], &IP_A);
    assert_eq!(&pkt[30..34], &IP_B);
    assert_eq!(pkt[34], 8);
    assert_eq!(pkt[35], 0);
    assert_eq!(&pkt[38..40], &[0x12, 0x34]);
    assert_eq!(&pkt[40..42], &[0x01, 0x02]);
    for i in 0..56 {
        assert_eq!(pkt[42 + i], 0x20 + (i % 64) as u8);
    }
}

#[test]
fn echo_request_checksums_verify() {
    let pkt = echo_request_packet(MAC_A, IP_A, IP_B, 7);
    assert_eq!(ip_checksum(&pkt[14..34]), 0);
    assert_eq!(ip_checksum(&pkt[34..98]), 0);
    assert_ne!(&pkt[24..26], &[0, 0]);
}

#[test]
fn ping_round_trip() {
    let seq = 42;
    let request = echo_request_packet(MAC_A, IP_A, IP_B, seq);
    let reply = handle_packet(&request, IP_B, MAC_B).unwrap().unwrap();
    assert_eq!(reply.len(), request.len());
    assert_eq!(&reply[0..6], &MAC_A);
    assert_eq!(&reply[6..12], &MAC_B);
    assert_eq!(&reply[26..30], &IP_B);
    assert_eq!(&reply[30..34], &IP_A);
    assert_eq!(reply[34], 0);
    assert_eq!(&reply[38..], &request[38..]);
    assert_eq!(ip_checksum(&reply[14..34]), 0);
    assert_eq!(ip_checksum(&reply[34..]), 0);
    assert!(ping_reply_matches(&reply, reply.len(), IP_B, seq));
    assert!(!ping_reply_matches(&reply, reply.len(), IP_B, seq + 1));
    assert!(!ping_reply_matches(&reply, reply.len(), IP_A, seq));
    // The request itself is no reply
    assert!(!ping_reply_matches(&request, request.len(), IP_B, seq));
}

#[test]
fn ping_reply_needs_full_headers() {
    let request = echo_request_packet(MAC_A, IP_A, IP_B, 1);
    let reply = handle_packet(&request, IP_B, MAC_B).unwrap().unwrap();
    assert!(!ping_reply_matches(&reply, 13, IP_B, 1));
    assert!(!ping_reply_matches(&reply, 41, IP_B, 1));
    assert!(ping_reply_matches(&reply, 42, IP_B, 1));
}

#[test]
fn packet_too_short() {
    assert_eq!(handle_packet(&[0u8; 13], IP_B, MAC_B), Err(NetStackError::PacketTooShort));
}

#[test]
fn non_ip_frames_are_ignored() {
    let mut frame = echo_request_packet(MAC_A, IP_A, IP_B, 1);
    frame[12] = 0x08;
    frame[13] = 0x06;
    assert_eq!(handle_packet(&frame, IP_B, MAC_B), Ok(None));
}

#[test]
fn ip_packet_too_short() {
    let frame = echo_request_packet(MAC_A, IP_A, IP_B, 1);
    assert_eq!(handle_packet(&frame[..33], IP_B, MAC_B), Err(NetStackError::IpPacketTooShort));
    assert_eq!(handle_ip_packet(&frame[..14], IP_B, MAC_B), Err(NetStackError::IpPacketTooShort));
}

#[test]
fn not_ipv4() {
    let mut frame = echo_request_packet(MAC_A, IP_A, IP_B, 1);
    frame[14] = 0x65;
    assert_eq!(handle_packet(&frame, IP_B, MAC_B), Err(NetStackError::NotIpv4));
}

#[test]
fn packets_for_other_hosts_are_ignored() {
    let frame = echo_request_packet(MAC_A, IP_A, IP_B, 1);
    assert_eq!(handle_packet(&frame, [10, 0, 2, 3], MAC_B), Ok(None));
}

#[test]
fn other_protocols_are_ignored() {
    let mut frame = echo_request_packet(MAC_A, IP_A, IP_B, 1);
    frame[23] = 17;
    assert_eq!(handle_packet(&frame, IP_B, MAC_B), Ok(None));
}

#[test]
fn control_message_too_short() {
    let frame = echo_request_packet(MAC_A, IP_A, IP_B, 1);
    assert_eq!(handle_packet(&frame[..41], IP_B, MAC_B), Err(NetStackError::ControlMessageTooShort));
    assert_eq!(
        handle_icmp_packet(&frame[..40], 20, IP_B, MAC_B),
        Err(NetStackError::ControlMessageTooShort)
    );
}

#[test]
fn other_control_messages_are_ignored() {
    let mut frame = echo_request_packet(MAC_A, IP_A, IP_B, 1);
    frame[34] = 0;
    assert_eq!(handle_packet(&frame, IP_B, MAC_B), Ok(None));
}

#[test]
fn reply_too_large() {
    let mut frame = echo_request_packet(MAC_A, IP_A, IP_B, 1);
    frame.resize(FRAME_BUF_LEN + 1, 0);
    assert_eq!(handle_packet(&frame, IP_B, MAC_B), Err(NetStackError::ReplyTooLarge));
    assert_eq!(send_icmp_reply(&frame, 20, IP_B, MAC_B), Err(NetStackError::ReplyTooLarge));
    frame.truncate(FRAME_BUF_LEN);
    assert!(send_icmp_reply(&frame, 20, IP_B, MAC_B).is_ok());
}

#[test]
fn reply_with_longer_ip_header() {
    // An IP header with 4 bytes of options
    let base = echo_request_packet(MAC_A, IP_A, IP_B, 9);
    let mut frame = base[..34].to_vec();
    frame.extend_from_slice(&[0, 0, 0, 0]);
    frame.extend_from_slice(&base[34..]);
    frame[14] = 0x46;
    let reply = handle_packet(&frame, IP_B, MAC_B).unwrap().unwrap();
    assert_eq!(reply.len(), frame.len());
    assert_eq!(ip_checksum(&reply[14..38]), 0);
    assert_eq!(reply[38], 0);
    assert_eq!(ip_checksum(&reply[38..]), 0);
}

#[test]
fn error_messages() {
    assert_eq!(NetStackError::PacketTooShort.message(), "Packet too short");
    assert_eq!(NetStackError::IpPacketTooShort.message(), "IP packet too short");
    assert_eq!(NetStackError::NotIpv4.message(), "Not IPv4");
    assert_eq!(NetStackError::ControlMessageTooShort.message(), "ICMP packet too short");
    assert_eq!(NetStackError::ReplyTooLarge.message(), "Reply too large");
}
