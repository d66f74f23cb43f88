//! A minimal Ethernet / IPv4 / ICMP echo stack: the Internet checksum,
//! construction of echo requests and replies, and recognition of replies.
use vstd::prelude::*;

use crate::bits::{lemma_be_word, lemma_u16_bytes, lemma_u32_halves, lemma_u32_not_low16};

verus! {

/// The 16-bit big-endian word that starts at byte `i`; a last odd byte is
/// padded with a zero low byte.
pub open spec fn word_at(data: Seq<u8>, i: int) -> nat {
    if i + 1 < data.len() {
        (data[i] as nat) * 256 + (data[i + 1] as nat)
    } else {
        (data[i] as nat) * 256
    }
}

/// Sum of the first `n` 16-bit words of `data`.
pub open spec fn words_sum(data: Seq<u8>, n: nat) -> nat
    decreases n,
{
    if n == 0 {
        0
    } else {
        words_sum(data, (n - 1) as nat) + word_at(data, 2 * (n - 1))
    }
}

/// Number of 16-bit words that cover `data`.
pub open spec fn word_count(data: Seq<u8>) -> nat {
    (data.len() + 1) / 2
}

/// Sum of all 16-bit words of `data`.
pub open spec fn word_sum(data: Seq<u8>) -> nat {
    words_sum(data, word_count(data))
}

/// Folding the carries of a sum back into 16 bits (end-around carry): the
/// value in `0..=0xFFFF` that is congruent to `s` modulo `0xFFFF` and is
/// zero only for a zero sum.
pub open spec fn fold16(s: nat) -> nat {
    if s == 0 {
        0
    } else {
        (((s - 1) as nat) % 65535) + 1
    }
}

/// The Internet checksum of `data`: the one's complement of the one's
/// complement sum of its 16-bit words.
pub open spec fn checksum(data: Seq<u8>) -> u16 {
    (65535 - fold16(word_sum(data))) as u16
}

/// Each word is at most `0xFFFF`, so `n` words sum to at most `0xFFFF * n`.
pub proof fn lemma_words_sum_bound(data: Seq<u8>, n: nat)
    requires
        2 * n <= data.len() + 1,
    ensures
        words_sum(data, n) <= 65535 * n,
    decreases n,
{
    if n > 0 {
        lemma_words_sum_bound(data, (n - 1) as nat);
        assert(word_at(data, 2 * (n - 1)) <= 65535);
    }
}

/// Data of at most 131074 bytes has a word sum that fits in 32 bits.
pub proof fn lemma_word_sum_fits(data: Seq<u8>)
    requires
        data.len() <= 131074,
    ensures
        word_sum(data) <= u32::MAX,
{
    lemma_words_sum_bound(data, word_count(data));
    assert(65535 * word_count(data) <= 65535 * 65537) by (nonlinear_arith)
        requires
            word_count(data) <= 65537,
    ;
}

/// One carry-folding step keeps `fold16`.
proof fn lemma_fold_step(s: nat)
    requires
        s >= 65536,
    ensures
        fold16((s % 65536) + s / 65536) == fold16(s),
        (s % 65536) + s / 65536 < s,
{
    let hi = s / 65536;
    let lo = s % 65536;
    let t = lo + hi;
    assert(s == 65536 * hi + lo) by (nonlinear_arith)
        requires
            hi == s / 65536,
            lo == s % 65536,
    ;
    assert(hi >= 1) by (nonlinear_arith)
        requires
            hi == s / 65536,
            s >= 65536,
    ;
    assert(t >= 1);
    assert((s - 1) as nat == 65535 * hi + (t - 1) as nat);
    vstd::arithmetic::div_mod::lemma_mod_multiples_vanish(hi as int, (t - 1) as int, 65535);
}

/// Computes the Internet checksum (RFC 1071) of `data`.
pub fn ip_checksum(data: &[u8]) -> (c: u16)
    requires
        word_sum(data@) <= u32::MAX,
    ensures
        c == checksum(data@),
{
    let mut sum: u32 = 0;
    let len = data.len();
    let mut i: usize = 0;
    // Sum 16-bit words
    while i < len
        invariant
            len == data@.len(),
            i <= len,
            i < len ==> i % 2 == 0,
            sum == words_sum(data@, ((i + 1) / 2) as nat),
            word_sum(data@) <= u32::MAX,
        decreases len - i,
    {
        proof {
            assert(words_sum(data@, (i / 2 + 1) as nat) == sum + word_at(data@, i as int));
            assert(i / 2 + 1 <= word_count(data@));
            lemma_words_sum_mono(data@, (i / 2 + 1) as nat, word_count(data@));
        }
        if i + 1 < len {
            let a = data[i] as u32;
            let b = data[i + 1] as u32;
            proof {
                lemma_be_word(a, b);
            }
            let word = (a << 8) | b;
            sum = sum + word;
            i = i + 2;
        } else {
            let a = data[i] as u32;
            proof {
                lemma_be_word(a, 0);
            }
            sum = sum + (a << 8);
            i = len;
        }
    }
    proof {
        assert(((i + 1) / 2) as nat == word_count(data@));
    }
    // Add carry
    while (sum >> 16) != 0
        invariant
            fold16(sum as nat) == fold16(word_sum(data@)),
        decreases sum,
    {
        proof {
            lemma_u32_halves(sum);
            lemma_fold_step(sum as nat);
        }
        sum = (sum & 0xFFFF) + (sum >> 16);
    }
    proof {
        lemma_u32_halves(sum);
        lemma_u32_not_low16(sum);
    }
    // One's complement
    !sum as u16
}

/// Word sums grow with the number of words taken.
pub proof fn lemma_words_sum_mono(data: Seq<u8>, m: nat, n: nat)
    requires
        m <= n,
    ensures
        words_sum(data, m) <= words_sum(data, n),
    decreases n,
{
    if m < n {
        lemma_words_sum_mono(data, m, (n - 1) as nat);
    }
}

/// Replacing the word at an even offset `i` changes the word sum by the
/// difference of the two words.
pub proof fn lemma_words_sum_update(data: Seq<u8>, i: int, x: u8, y: u8, n: nat)
    requires
        0 <= i,
        i % 2 == 0,
        i + 1 < data.len(),
        2 * n <= data.len() + 1,
    ensures
        words_sum(data.update(i, x).update(i + 1, y), n) + word_at(data, i) == words_sum(data, n)
            + (if i < 2 * n { (x as nat) * 256 + (y as nat) } else { word_at(data, i) }),
    decreases n,
{
    let d2 = data.update(i, x).update(i + 1, y);
    if n > 0 {
        lemma_words_sum_update(data, i, x, y, (n - 1) as nat);
        let j = 2 * (n - 1);
        if j == i {
            assert(word_at(d2, j) == (x as nat) * 256 + (y as nat));
        } else {
            assert(j != i + 1 && j + 1 != i && j + 1 != i + 1);
            assert(d2[j] == data[j]);
            if j + 1 < data.len() {
                assert(d2[j + 1] == data[j + 1]);
            }
            assert(word_at(d2, j) == word_at(data, j));
        }
    }
}

/// Adding the complement of the folded sum gives a sum that folds to 0xFFFF.
proof fn lemma_fold_complement(s: nat)
    ensures
        fold16((s + (65535 - fold16(s))) as nat) == 65535,
{
    if s > 0 {
        let q = ((s - 1) as nat) / 65535;
        let r = ((s - 1) as nat) % 65535;
        assert((s - 1) as nat == 65535 * q + r) by (nonlinear_arith)
            requires
                q == ((s - 1) as nat) / 65535,
                r == ((s - 1) as nat) % 65535,
        ;
        let t = s + (65535 - fold16(s));
        assert(t == 65535 * (q + 1));
        assert(((t - 1) as nat) % 65535 == 65534) by (nonlinear_arith)
            requires
                t == 65535 * (q + 1),
        ;
    }
}

/// Checksum verification: when the checksum of a message is written, high
/// byte first, into a two-byte field at an even offset that held zero while
/// it was computed, the checksum of the resulting message is zero.
pub proof fn lemma_checksum_verifies(data: Seq<u8>, i: int)
    requires
        0 <= i,
        i % 2 == 0,
        i + 1 < data.len(),
        data[i] == 0,
        data[i + 1] == 0,
    ensures
        checksum(
            data.update(i, (checksum(data) >> 8u16) as u8).update(i + 1, (checksum(data) & 0xFFu16) as u8),
        ) == 0,
{
    let c = checksum(data);
    let hi = (c >> 8u16) as u8;
    let lo = (c & 0xFFu16) as u8;
    let d2 = data.update(i, hi).update(i + 1, lo);
    lemma_u16_bytes(c);
    assert(d2.len() == data.len());
    assert(word_count(d2) == word_count(data));
    assert(i < 2 * word_count(data));
    lemma_words_sum_update(data, i, hi, lo, word_count(data));
    assert(word_at(data, i) == 0);
    let s = word_sum(data);
    assert(fold16(s) <= 65535);
    assert(c as nat == 65535 - fold16(s));
    assert(word_sum(d2) == s + (65535 - fold16(s)));
    lemma_fold_complement(s);
}

/// EtherType of IPv4.
pub const ETH_TYPE_IP: u16 = 0x0800;
/// IP protocol number of ICMP.
pub const IP_PROTO_ICMP: u8 = 1;
/// ICMP echo request type.
pub const ICMP_ECHO_REQUEST: u8 = 8;
/// ICMP echo reply type.
pub const ICMP_ECHO_REPLY: u8 = 0;
/// Size of an Ethernet header.
pub const ETH_HDR_LEN: usize = 14;
/// Size of an IPv4 header without options.
pub const IP_HDR_LEN: usize = 20;
/// Size of an ICMP echo header.
pub const ICMP_HDR_LEN: usize = 8;
/// Size of the payload of the echo requests sent here.
pub const PING_PAYLOAD_LEN: usize = 56;
/// Size of the frame buffer used for received packets and replies.
pub const FRAME_BUF_LEN: usize = 1536;

/// The two bytes of `v`, most significant first.
pub open spec fn be16(v: u16) -> Seq<u8> {
    seq![(v >> 8u16) as u8, (v & 0xFFu16) as u8]
}

/// `pkt` with the checksum of `pkt[start..end]` written, high byte first,
/// at offset `at`.
pub open spec fn fill_checksum(pkt: Seq<u8>, start: int, end: int, at: int) -> Seq<u8> {
    let c = checksum(pkt.subrange(start, end));
    pkt.update(at, (c >> 8u16) as u8).update(at + 1, (c & 0xFFu16) as u8)
}

/// The payload of the echo requests: bytes 0x20, 0x21, ...
pub open spec fn ping_payload() -> Seq<u8> {
    Seq::new(PING_PAYLOAD_LEN as nat, |i: int| (0x20 + (i % 64)) as u8)
}

/// An echo request before its checksums are computed.
pub open spec fn echo_request_template(src_mac: Seq<u8>, local_ip: Seq<u8>, target_ip: Seq<u8>, seq: u16) -> Seq<u8> {
    seq![0xFFu8, 0xFFu8, 0xFFu8, 0xFFu8, 0xFFu8, 0xFFu8] + src_mac + be16(ETH_TYPE_IP)
        + seq![0x45u8, 0u8] + be16(84) + be16(0x1234) + be16(0) + seq![64u8, IP_PROTO_ICMP, 0u8, 0u8]
        + local_ip + target_ip
        + seq![ICMP_ECHO_REQUEST, 0u8, 0u8, 0u8] + be16(0x1234) + be16(seq)
        + ping_payload()
}

/// The broadcast ICMP echo request (98 bytes) from `src_mac` / `local_ip` to
/// `target_ip` with sequence number `seq`.
pub open spec fn echo_request(src_mac: Seq<u8>, local_ip: Seq<u8>, target_ip: Seq<u8>, seq: u16) -> Seq<u8> {
    fill_checksum(
        fill_checksum(echo_request_template(src_mac, local_ip, target_ip, seq), 14, 34, 24),
        34,
        98,
        36,
    )
}

/// Whether a received frame of `len` bytes is the echo reply from
/// `target_ip` with sequence number `seq`.
pub open spec fn is_ping_reply(buf: Seq<u8>, len: int, target_ip: Seq<u8>, seq: u16) -> bool {
    &&& len >= 42
    &&& buf[12] == 0x08 && buf[13] == 0x00
    &&& buf[23] == IP_PROTO_ICMP
    &&& buf.subrange(26, 30) == target_ip
    &&& buf[34] == ICMP_ECHO_REPLY
    &&& (buf[40] as int) * 256 + (buf[41] as int) == seq as int
}

/// Why a received packet could not be handled.
#[derive(Debug, Clone, Copy, PartialEq, Eq, Structural)]
pub enum NetStackError {
    PacketTooShort,
    IpPacketTooShort,
    NotIpv4,
    ControlMessageTooShort,
    ReplyTooLarge,
}

impl NetStackError {
    /// The message the stack reports for this error.
    pub fn message(&self) -> (m: &'static str)
        ensures
            *self == NetStackError::PacketTooShort ==> m@ == "Packet too short"@,
            *self == NetStackError::IpPacketTooShort ==> m@ == "IP packet too short"@,
            *self == NetStackError::NotIpv4 ==> m@ == "Not IPv4"@,
            *self == NetStackError::ControlMessageTooShort ==> m@ == "ICMP packet too short"@,
            *self == NetStackError::ReplyTooLarge ==> m@ == "Reply too large"@,
    {
        match self {
            NetStackError::PacketTooShort => "Packet too short",
            NetStackError::IpPacketTooShort => "IP packet too short",
            NetStackError::NotIpv4 => "Not IPv4",
            NetStackError::ControlMessageTooShort => "ICMP packet too short",
            NetStackError::ReplyTooLarge => "Reply too large",
        }
    }
}

/// `req` with the destination MAC set to its source MAC and the source MAC
/// set to `mac`.
pub open spec fn mac_swapped(req: Seq<u8>, mac: Seq<u8>) -> Seq<u8> {
    req.subrange(6, 12) + mac + req.subrange(12, req.len() as int)
}

/// `r` with the source IP set to `local_ip` and the destination IP set to
/// the source IP of `req`.
pub open spec fn ip_swapped(r: Seq<u8>, req: Seq<u8>, local_ip: Seq<u8>) -> Seq<u8> {
    r.subrange(0, 26) + local_ip + req.subrange(26, 30) + r.subrange(34, r.len() as int)
}

/// The echo reply to the echo request `req` whose IP header is `ihl` bytes
/// long: addresses swapped (our MAC and IP as source), ICMP type set to echo
/// reply, both checksums recomputed.
pub open spec fn echo_reply(req: Seq<u8>, ihl: usize, local_ip: Seq<u8>, mac: Seq<u8>) -> Seq<u8> {
    let r2 = ip_swapped(mac_swapped(req, mac), req, local_ip);
    let r3 = r2.update(24, 0).update(25, 0);
    let r4 = fill_checksum(r3, 14, 14 + ihl, 24);
    let off = 14 + ihl;
    let r5 = r4.update(off, ICMP_ECHO_REPLY).update(off + 2, 0).update(off + 3, 0);
    fill_checksum(r5, off, req.len() as int, off + 2)
}

/// The reply the stack sends to an ICMP echo request `req` whose IP header
/// is `ihl` bytes long, or the error when it does not fit a frame buffer.
pub open spec fn echo_reply_response(req: Seq<u8>, ihl: usize, local_ip: Seq<u8>, mac: Seq<u8>) -> Result<Seq<u8>, NetStackError> {
    if req.len() > FRAME_BUF_LEN {
        Err(NetStackError::ReplyTooLarge)
    } else {
        Ok(echo_reply(req, ihl, local_ip, mac))
    }
}

/// The response to an ICMP message in `data` behind an IP header of `ihl`
/// bytes: a reply to an echo request, nothing for other messages.
pub open spec fn control_message_response(data: Seq<u8>, ihl: usize, local_ip: Seq<u8>, mac: Seq<u8>) -> Result<Option<Seq<u8>>, NetStackError> {
    if data.len() < 14 + ihl + 8 {
        Err(NetStackError::ControlMessageTooShort)
    } else if data[14 + ihl] != ICMP_ECHO_REQUEST {
        Ok(None)
    } else {
        match echo_reply_response(data, ihl, local_ip, mac) {
            Ok(r) => Ok(Some(r)),
            Err(e) => Err(e),
        }
    }
}

/// Length in bytes of an IPv4 header, from its first byte.
pub open spec fn ip_header_len(version_ihl: u8) -> usize {
    (((version_ihl & 0x0Fu8) as usize) * 4) as usize
}

/// The response to an IPv4 packet in `data`: only ICMP messages addressed
/// to `local_ip` are answered.
pub open spec fn ip_packet_response(data: Seq<u8>, local_ip: Seq<u8>, mac: Seq<u8>) -> Result<Option<Seq<u8>>, NetStackError> {
    if data.len() < 34 {
        Err(NetStackError::IpPacketTooShort)
    } else if data[14] >> 4u8 != 4 {
        Err(NetStackError::NotIpv4)
    } else if data.subrange(30, 34) != local_ip {
        Ok(None)
    } else if data[23] != IP_PROTO_ICMP {
        Ok(None)
    } else {
        control_message_response(data, ip_header_len(data[14]), local_ip, mac)
    }
}

/// The 16-bit big-endian value of two bytes.
pub open spec fn be_value(hi: u8, lo: u8) -> int {
    (hi as int) * 256 + (lo as int)
}

/// What the stack does with a received frame: nothing, send the given
/// reply, or report an error.
pub open spec fn packet_response(data: Seq<u8>, local_ip: Seq<u8>, mac: Seq<u8>) -> Result<Option<Seq<u8>>, NetStackError> {
    if data.len() < 14 {
        Err(NetStackError::PacketTooShort)
    } else if be_value(data[12], data[13]) != ETH_TYPE_IP {
        Ok(None)
    } else {
        ip_packet_response(data, local_ip, mac)
    }
}

/// The 16-bit big-endian value of two bytes.
fn be16_value(hi: u8, lo: u8) -> (v: u16)
    ensures
        v == be_value(hi, lo),
{
    (hi as u16) * 256 + (lo as u16)
}

/// Length in bytes of an IPv4 header, from its first byte.
fn ip_header_bytes(version_ihl: u8) -> (n: usize)
    ensures
        n == ip_header_len(version_ihl),
        n <= 60,
{
    proof {
        assert(version_ihl & 0x0Fu8 <= 15u8) by (bit_vector);
    }
    ((version_ihl & 0x0F) as usize) * 4
}

/// Writes the checksum of `pkt[start..end]` at `at` and `at + 1`.
fn write_checksum(pkt: &mut Vec<u8>, start: usize, end: usize, at: usize)
    requires
        start <= end <= old(pkt)@.len() <= 131074,
        at + 1 < old(pkt)@.len(),
    ensures
        final(pkt)@ == fill_checksum(old(pkt)@, start as int, end as int, at as int),
{
    proof {
        lemma_word_sum_fits(pkt@.subrange(start as int, end as int));
    }
    let c = ip_checksum(vstd::slice::slice_subrange(pkt.as_slice(), start, end));
    pkt.set(at, (c >> 8) as u8);
    pkt.set(at + 1, (c & 0xFF) as u8);
}

/// Appends the bytes of `src` to `v`.
fn push_all(v: &mut Vec<u8>, src: &[u8])
    ensures
        final(v)@ == old(v)@ + src@,
{
    let mut i: usize = 0;
    while i < src.len()
        invariant
            i <= src@.len(),
            v@ == old(v)@ + src@.subrange(0, i as int),
        decreases src@.len() - i,
    {
        v.push(src[i]);
        i = i + 1;
        assert(v@ =~= old(v)@ + src@.subrange(0, i as int));
    }
    assert(src@.subrange(0, i as int) =~= src@);
}

/// Appends `x` to `v`, high byte first.
fn push_be16(v: &mut Vec<u8>, x: u16)
    ensures
        final(v)@ == old(v)@ + be16(x),
{
    v.push((x >> 8) as u8);
    v.push((x & 0xFF) as u8);
    assert(v@ =~= old(v)@ + be16(x));
}

/// Builds the ICMP echo request (ping) that `send_ping` sends: broadcast
/// destination, 20-byte IPv4 header with TTL 64 and identification 0x1234,
/// ICMP identifier 0x1234, sequence number `seq` and a 56-byte payload.
pub fn echo_request_packet(src_mac: [u8; 6], local_ip: [u8; 4], target_ip: [u8; 4], seq: u16) -> (pkt: Vec<u8>)
    ensures
        pkt@ == echo_request(src_mac@, local_ip@, target_ip@, seq),
        pkt@.len() == 98,
{
    let mut pkt: Vec<u8> = Vec::new();
    // Ethernet header: broadcast destination, our MAC, EtherType IP
    let mut k: usize = 0;
    while k < 6
        invariant
            k <= 6,
            pkt@ == Seq::new(k as nat, |j: int| 0xFFu8),
        decreases 6 - k,
    {
        pkt.push(0xFF);
        k = k + 1;
        assert(pkt@ =~= Seq::new(k as nat, |j: int| 0xFFu8));
    }
    assert(pkt@ =~= seq![0xFFu8, 0xFFu8, 0xFFu8, 0xFFu8, 0xFFu8, 0xFFu8]);
    push_all(&mut pkt, src_mac.as_slice());
    push_be16(&mut pkt, ETH_TYPE_IP);
    // IP header: version 4, IHL 5, total length 84, checksum computed below
    pkt.push(0x45);
    pkt.push(0);
    let total_len: u16 = (IP_HDR_LEN + ICMP_HDR_LEN + PING_PAYLOAD_LEN) as u16;
    push_be16(&mut pkt, total_len);
    push_be16(&mut pkt, 0x1234);
    push_be16(&mut pkt, 0x0000);
    pkt.push(64);
    pkt.push(IP_PROTO_ICMP);
    pkt.push(0);
    pkt.push(0);
    push_all(&mut pkt, local_ip.as_slice());
    push_all(&mut pkt, target_ip.as_slice());
    // ICMP header
    pkt.push(ICMP_ECHO_REQUEST);
    pkt.push(0);
    pkt.push(0);
    pkt.push(0);
    push_be16(&mut pkt, 0x1234);
    push_be16(&mut pkt, seq);
    // ICMP payload
    let ghost before = pkt@;
    let mut i: usize = 0;
    while i < PING_PAYLOAD_LEN
        invariant
            i <= PING_PAYLOAD_LEN,
            pkt@ == before + ping_payload().subrange(0, i as int),
        decreases PING_PAYLOAD_LEN - i,
    {
        pkt.push((0x20 + (i % 64)) as u8);
        i = i + 1;
        assert(pkt@ =~= before + ping_payload().subrange(0, i as int));
    }
    assert(ping_payload().subrange(0, i as int) =~= ping_payload());
    assert(pkt@ =~= echo_request_template(src_mac@, local_ip@, target_ip@, seq));
    write_checksum(&mut pkt, 14, 34, 24);
    write_checksum(&mut pkt, 34, 98, 36);
    pkt
}

/// Decides whether a frame of `len` received bytes in `buf` is the echo
/// reply from `target_ip` with sequence number `seq` (the check of
/// `check_ping_reply`).
pub fn ping_reply_matches(buf: &[u8], len: usize, target_ip: [u8; 4], seq: u16) -> (r: bool)
    requires
        len <= buf@.len(),
    ensures
        r == is_ping_reply(buf@, len as int, target_ip@, seq),
{
    if len < 14 {
        return false;
    }
    if len < 14 + 20 + 8 {
        return false;
    }
    let eth_type: u16 = (buf[12] as u16) * 256 + (buf[13] as u16);
    if eth_type != ETH_TYPE_IP {
        return false;
    }
    let ip_offset: usize = 14;
    let protocol = buf[ip_offset + 9];
    if protocol != IP_PROTO_ICMP {
        return false;
    }
    if buf[ip_offset + 12] != target_ip[0] || buf[ip_offset + 13] != target_ip[1]
        || buf[ip_offset + 14] != target_ip[2] || buf[ip_offset + 15] != target_ip[3] {
        assert(buf@.subrange(26, 30) != target_ip@ ) by {
            if buf@.subrange(26, 30) == target_ip@ {
                assert(buf@.subrange(26, 30)[0] == buf@[26]);
                assert(buf@.subrange(26, 30)[1] == buf@[27]);
                assert(buf@.subrange(26, 30)[2] == buf@[28]);
                assert(buf@.subrange(26, 30)[3] == buf@[29]);
            }
        }
        return false;
    }
    assert(buf@.subrange(26, 30) =~= target_ip@);
    let echo_offset: usize = 14 + 20;
    let echo_type = buf[echo_offset];
    let echo_seq: u16 = (buf[echo_offset + 6] as u16) * 256 + (buf[echo_offset + 7] as u16);
    echo_type == ICMP_ECHO_REPLY && echo_seq == seq
}

/// Writing a checksum over `[start, end)` at an even offset inside it that
/// held zero makes that range verify (checksum zero).
pub proof fn lemma_fill_checksum_verifies(pkt: Seq<u8>, start: int, end: int, at: int)
    requires
        0 <= start <= at,
        at + 1 < end <= pkt.len(),
        (at - start) % 2 == 0,
        pkt[at] == 0,
        pkt[at + 1] == 0,
    ensures
        checksum(fill_checksum(pkt, start, end, at).subrange(start, end)) == 0,
{
    let sub = pkt.subrange(start, end);
    let c = checksum(sub);
    let filled = fill_checksum(pkt, start, end, at);
    assert(filled.subrange(start, end) =~= sub.update(at - start, (c >> 8u16) as u8).update(
        at - start + 1,
        (c & 0xFFu16) as u8,
    ));
    lemma_checksum_verifies(sub, at - start);
}

/// Writing a checksum leaves every range that does not hold its two bytes
/// as it was.
pub proof fn lemma_fill_checksum_outside(pkt: Seq<u8>, start: int, end: int, at: int, a: int, b: int)
    requires
        0 <= start <= end <= pkt.len(),
        0 <= at,
        at + 1 < pkt.len(),
        0 <= a <= b <= pkt.len(),
        b <= at || at + 2 <= a,
    ensures
        fill_checksum(pkt, start, end, at).subrange(a, b) == pkt.subrange(a, b),
        fill_checksum(pkt, start, end, at).len() == pkt.len(),
{
    assert(fill_checksum(pkt, start, end, at).subrange(a, b) =~= pkt.subrange(a, b));
}

/// The echo requests built here carry valid checksums: the IPv4 header and
/// the ICMP message each verify.
pub proof fn lemma_echo_request_checksums(src_mac: Seq<u8>, local_ip: Seq<u8>, target_ip: Seq<u8>, seq: u16)
    requires
        src_mac.len() == 6,
        local_ip.len() == 4,
        target_ip.len() == 4,
    ensures
        echo_request(src_mac, local_ip, target_ip, seq).len() == 98,
        checksum(echo_request(src_mac, local_ip, target_ip, seq).subrange(14, 34)) == 0,
        checksum(echo_request(src_mac, local_ip, target_ip, seq).subrange(34, 98)) == 0,
{
    let t = echo_request_template(src_mac, local_ip, target_ip, seq);
    assert(t.len() == 98);
    assert(t[24] == 0 && t[25] == 0);
    assert(t[36] == 0 && t[37] == 0);
    let p1 = fill_checksum(t, 14, 34, 24);
    lemma_fill_checksum_verifies(t, 14, 34, 24);
    lemma_fill_checksum_outside(t, 14, 34, 24, 36, 38);
    assert(p1[36] == p1.subrange(36, 38)[0]);
    assert(p1[37] == p1.subrange(36, 38)[1]);
    lemma_fill_checksum_verifies(p1, 34, 98, 36);
    lemma_fill_checksum_outside(p1, 34, 98, 36, 14, 34);
}

/// The echo replies built here carry valid checksums: for an IP header of
/// an even length of at least 12 bytes (so that it holds its checksum
/// field), the IPv4 header and the ICMP message of the reply each verify.
pub proof fn lemma_echo_reply_checksums(req: Seq<u8>, ihl: usize, local_ip: Seq<u8>, mac: Seq<u8>)
    requires
        mac.len() == 6,
        local_ip.len() == 4,
        ihl % 2 == 0,
        12 <= ihl,
        14 + ihl + 8 <= req.len(),
    ensures
        checksum(echo_reply(req, ihl, local_ip, mac).subrange(14, 14 + ihl)) == 0,
        checksum(echo_reply(req, ihl, local_ip, mac).subrange(14 + ihl, req.len() as int)) == 0,
{
    let len = req.len() as int;
    let r2 = ip_swapped(mac_swapped(req, mac), req, local_ip);
    assert(r2.len() == len);
    let r3 = r2.update(24, 0).update(25, 0);
    let r4 = fill_checksum(r3, 14, 14 + ihl, 24);
    let off = 14 + ihl;
    let r5 = r4.update(off, ICMP_ECHO_REPLY).update(off + 2, 0).update(off + 3, 0);
    lemma_fill_checksum_verifies(r3, 14, 14 + ihl, 24);
    assert(r5.subrange(14, 14 + ihl) =~= r4.subrange(14, 14 + ihl));
    lemma_fill_checksum_verifies(r5, off, len, off + 2);
    lemma_fill_checksum_outside(r5, off, len, off + 2, 14, 14 + ihl);
}

/// Facts about the first byte of the IPv4 headers built here.
proof fn lemma_version_ihl_byte()
    by (bit_vector)
    ensures
        0x45u8 >> 4u8 == 4u8,
        0x45u8 & 0x0Fu8 == 5u8,
        (0x0800u16 >> 8u16) as u8 == 8u8,
        (0x0800u16 & 0xFFu16) as u8 == 0u8,
{
}

/// A ping round trip: the echo request that host A (`mac_a`, `ip_a`)
/// sends to host B (`ip_b`) is answered by B's stack with the echo reply
/// that B builds (the request's IP header is 20 bytes), and A recognizes
/// that reply as the answer from B to its request.
pub proof fn lemma_ping_round_trip(mac_a: Seq<u8>, ip_a: Seq<u8>, mac_b: Seq<u8>, ip_b: Seq<u8>, seq: u16)
    requires
        mac_a.len() == 6,
        ip_a.len() == 4,
        mac_b.len() == 6,
        ip_b.len() == 4,
    ensures
        packet_response(echo_request(mac_a, ip_a, ip_b, seq), ip_b, mac_b)
            == Ok::<Option<Seq<u8>>, NetStackError>(Some(echo_reply(echo_request(mac_a, ip_a, ip_b, seq), 20, ip_b, mac_b))),
        is_ping_reply(echo_reply(echo_request(mac_a, ip_a, ip_b, seq), 20, ip_b, mac_b), 98, ip_b, seq),
{
    let t = echo_request_template(mac_a, ip_a, ip_b, seq);
    let p1 = fill_checksum(t, 14, 34, 24);
    let p = fill_checksum(p1, 34, 98, 36);
    lemma_version_ihl_byte();
    lemma_u16_bytes(seq);
    assert(t.len() == 98);
    // The request: only bytes 24, 25, 36 and 37 differ from the template
    assert forall|k: int| 0 <= k < 98 && k != 24 && k != 25 && k != 36 && k != 37 implies p[k] == t[k] by {
        assert(p1[k] == t[k]);
    }
    assert(t[12] == (ETH_TYPE_IP >> 8u16) as u8 && t[13] == (ETH_TYPE_IP & 0xFFu16) as u8);
    assert(p[12] == 0x08 && p[13] == 0x00);
    assert(p[14] == 0x45);
    assert(p[23] == IP_PROTO_ICMP);
    assert(p[34] == ICMP_ECHO_REQUEST);
    assert(p[40] == (seq >> 8u16) as u8 && p[41] == (seq & 0xFFu16) as u8);
    assert(p.subrange(30, 34) =~= ip_b);
    assert(ip_header_len(p[14]) == 20);
    // The reply
    let r1 = mac_swapped(p, mac_b);
    let r2 = ip_swapped(r1, p, ip_b);
    let r3 = r2.update(24, 0).update(25, 0);
    let r4 = fill_checksum(r3, 14, 34, 24);
    let r5 = r4.update(34, ICMP_ECHO_REPLY).update(36, 0).update(37, 0);
    let r = fill_checksum(r5, 34, 98, 36);
    assert(r == echo_reply(p, 20, ip_b, mac_b));
    assert(r2.len() == 98);
    assert forall|k: int| 0 <= k < 98 && k != 24 && k != 25 && k != 36 && k != 37 && k != 34 implies r[k] == r2[k] by {
        assert(r4[k] == r3[k]);
    }
    assert(r[34] == ICMP_ECHO_REPLY) by {
        assert(r[34] == r5[34]);
    }
    assert(r2[12] == p[12] && r2[13] == p[13] && r2[23] == p[23]);
    assert(r2[40] == p[40] && r2[41] == p[41]);
    assert(r.subrange(26, 30) =~= ip_b) by {
        assert forall|k: int| 26 <= k < 30 implies r[k] == ip_b[k - 26] by {
            assert(r[k] == r2[k]);
        }
    }
}

/// Builds the echo reply to the echo request `request` whose IP header is
/// `ip_hdr_len` bytes long (the frame that `send_icmp_reply` sends).
pub fn send_icmp_reply(request: &[u8], ip_hdr_len: usize, local_ip: [u8; 4], mac: [u8; 6]) -> (r: Result<Vec<u8>, NetStackError>)
    requires
        34 <= request@.len(),
        14 + ip_hdr_len + 8 <= request@.len(),
    ensures
        match r {
            Ok(v) => echo_reply_response(request@, ip_hdr_len, local_ip@, mac@) == Ok::<Seq<u8>, NetStackError>(v@),
            Err(e) => echo_reply_response(request@, ip_hdr_len, local_ip@, mac@) == Err::<Seq<u8>, NetStackError>(e),
        },
{
    let reply_len = request.len();
    if reply_len > FRAME_BUF_LEN {
        return Err(NetStackError::ReplyTooLarge);
    }
    let ghost req = request@;
    let mut reply = vstd::slice::slice_to_vec(request);
    // Swap MAC addresses
    reply.set(0, request[6]);
    reply.set(1, request[7]);
    reply.set(2, request[8]);
    reply.set(3, request[9]);
    reply.set(4, request[10]);
    reply.set(5, request[11]);
    reply.set(6, mac[0]);
    reply.set(7, mac[1]);
    reply.set(8, mac[2]);
    reply.set(9, mac[3]);
    reply.set(10, mac[4]);
    reply.set(11, mac[5]);
    let ghost r1 = mac_swapped(req, mac@);
    assert(reply@ =~= r1);
    // Swap IP addresses
    let ip_offset = ETH_HDR_LEN;
    reply.set(ip_offset + 12, local_ip[0]);
    reply.set(ip_offset + 13, local_ip[1]);
    reply.set(ip_offset + 14, local_ip[2]);
    reply.set(ip_offset + 15, local_ip[3]);
    reply.set(ip_offset + 16, request[ip_offset + 12]);
    reply.set(ip_offset + 17, request[ip_offset + 13]);
    reply.set(ip_offset + 18, request[ip_offset + 14]);
    reply.set(ip_offset + 19, request[ip_offset + 15]);
    assert(reply@ =~= ip_swapped(r1, req, local_ip@));
    // Recalculate IP checksum
    reply.set(ip_offset + 10, 0);
    reply.set(ip_offset + 11, 0);
    write_checksum(&mut reply, ip_offset, ip_offset + ip_hdr_len, ip_offset + 10);
    // Change ICMP type to echo reply, recalculate its checksum
    let msg_offset = ETH_HDR_LEN + ip_hdr_len;
    reply.set(msg_offset, ICMP_ECHO_REPLY);
    reply.set(msg_offset + 2, 0);
    reply.set(msg_offset + 3, 0);
    write_checksum(&mut reply, msg_offset, reply_len, msg_offset + 2);
    Ok(reply)
}

/// Handles an ICMP message behind an IP header of `ip_hdr_len` bytes:
/// returns the echo reply to send for an echo request, `None` otherwise.
pub fn handle_icmp_packet(data: &[u8], ip_hdr_len: usize, local_ip: [u8; 4], mac: [u8; 6]) -> (r: Result<Option<Vec<u8>>, NetStackError>)
    requires
        34 <= data@.len(),
        ip_hdr_len <= 60,
    ensures
        match r {
            Ok(Some(v)) => control_message_response(data@, ip_hdr_len, local_ip@, mac@) == Ok::<Option<Seq<u8>>, NetStackError>(Some(v@)),
            Ok(None) => control_message_response(data@, ip_hdr_len, local_ip@, mac@) == Ok::<Option<Seq<u8>>, NetStackError>(None),
            Err(e) => control_message_response(data@, ip_hdr_len, local_ip@, mac@) == Err::<Option<Seq<u8>>, NetStackError>(e),
        },
{
    let msg_offset = ETH_HDR_LEN + ip_hdr_len;
    if data.len() < msg_offset + ICMP_HDR_LEN {
        return Err(NetStackError::ControlMessageTooShort);
    }
    let msg_type = data[msg_offset];
    if msg_type == ICMP_ECHO_REQUEST {
        match send_icmp_reply(data, ip_hdr_len, local_ip, mac) {
            Ok(v) => Ok(Some(v)),
            Err(e) => Err(e),
        }
    } else {
        Ok(None)
    }
}

/// Handles an IPv4 packet: ICMP messages addressed to `local_ip` are
/// passed on, other packets are ignored.
pub fn handle_ip_packet(data: &[u8], local_ip: [u8; 4], mac: [u8; 6]) -> (r: Result<Option<Vec<u8>>, NetStackError>)
    requires
        14 <= data@.len(),
    ensures
        match r {
            Ok(Some(v)) => ip_packet_response(data@, local_ip@, mac@) == Ok::<Option<Seq<u8>>, NetStackError>(Some(v@)),
            Ok(None) => ip_packet_response(data@, local_ip@, mac@) == Ok::<Option<Seq<u8>>, NetStackError>(None),
            Err(e) => ip_packet_response(data@, local_ip@, mac@) == Err::<Option<Seq<u8>>, NetStackError>(e),
        },
{
    if data.len() < ETH_HDR_LEN + IP_HDR_LEN {
        return Err(NetStackError::IpPacketTooShort);
    }
    let version_ihl = data[ETH_HDR_LEN];
    let version = version_ihl >> 4;
    let ihl = ip_header_bytes(version_ihl);
    if version != 4 {
        return Err(NetStackError::NotIpv4);
    }
    let protocol = data[ETH_HDR_LEN + 9];
    let dst_matches = data[ETH_HDR_LEN + 16] == local_ip[0] && data[ETH_HDR_LEN + 17] == local_ip[1]
        && data[ETH_HDR_LEN + 18] == local_ip[2] && data[ETH_HDR_LEN + 19] == local_ip[3];
    if !dst_matches {
        assert(data@.subrange(30, 34) != local_ip@) by {
            if data@.subrange(30, 34) == local_ip@ {
                assert(data@.subrange(30, 34)[0] == data@[30]);
                assert(data@.subrange(30, 34)[1] == data@[31]);
                assert(data@.subrange(30, 34)[2] == data@[32]);
                assert(data@.subrange(30, 34)[3] == data@[33]);
            }
        }
        return Ok(None);
    }
    assert(data@.subrange(30, 34) =~= local_ip@);
    if protocol == IP_PROTO_ICMP {
        handle_icmp_packet(data, ihl, local_ip, mac)
    } else {
        Ok(None)
    }
}

/// Handles a received Ethernet frame: returns the reply to send, if any.
pub fn handle_packet(data: &[u8], local_ip: [u8; 4], mac: [u8; 6]) -> (r: Result<Option<Vec<u8>>, NetStackError>)
    ensures
        match r {
            Ok(Some(v)) => packet_response(data@, local_ip@, mac@) == Ok::<Option<Seq<u8>>, NetStackError>(Some(v@)),
            Ok(None) => packet_response(data@, local_ip@, mac@) == Ok::<Option<Seq<u8>>, NetStackError>(None),
            Err(e) => packet_response(data@, local_ip@, mac@) == Err::<Option<Seq<u8>>, NetStackError>(e),
        },
{
    if data.len() < ETH_HDR_LEN {
        return Err(NetStackError::PacketTooShort);
    }
    let eth_type = be16_value(data[12], data[13]);
    if eth_type == ETH_TYPE_IP {
        handle_ip_packet(data, local_ip, mac)
    } else {
        Ok(None)
    }
}

} // verus!
