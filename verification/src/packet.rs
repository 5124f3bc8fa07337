//! The packet codec: a raw IPv4 or IPv6 header directly followed by a bare
//! 20-byte TCP header that carries the requested control flags.

use vstd::prelude::*;
use vstd::slice::slice_subrange;
use crate::checksum::{
    add_words, finish_checksum, internet_checksum_spec, lemma_checksum_verifies,
    lemma_filled_checksum_is_zero, lemma_word_sum_bound, lemma_word_sum_concat, with_word,
    word_sum,
};

verus! {

/// The source port that every probe segment carries.
pub const SOURCE_PORT: u16 = 54321;

/// The sequence number that every probe segment carries.
pub const SEQUENCE_NUMBER: u32 = 12345;

/// The receive window that every probe segment advertises.
pub const WINDOW: u16 = 64240;

/// Time to live (IPv4) and hop limit (IPv6) of a probe.
pub const HOP_LIMIT: u8 = 64;

/// The IP protocol number of TCP.
pub const PROTOCOL_TCP: u8 = 6;

/// Length of an IPv4 header without options.
pub const IPV4_HEADER_LEN: usize = 20;

/// Length of the fixed IPv6 header.
pub const IPV6_HEADER_LEN: usize = 40;

/// Length of a TCP header without options.
pub const TCP_HEADER_LEN: usize = 20;

/// The two bytes of a 16-bit value, high byte first.
pub open spec fn word_bytes(value: u16) -> Seq<u8> {
    seq![(value / 256) as u8, (value % 256) as u8]
}

/// The IPv4 header of a probe with its checksum field still zero: version 4,
/// five header words, total length 40, time to live 64, protocol TCP.
pub open spec fn ipv4_header_unsummed(src: Seq<u8>, dst: Seq<u8>) -> Seq<u8> {
    seq![0x45u8, 0, 0, 40, 0, 0, 0, 0, 64, 6, 0, 0] + src + dst
}

/// The IPv4 header of a probe, checksum included.
pub open spec fn ipv4_header(src: Seq<u8>, dst: Seq<u8>) -> Seq<u8> {
    with_word(
        ipv4_header_unsummed(src, dst),
        10,
        internet_checksum_spec(ipv4_header_unsummed(src, dst)),
    )
}

/// The IPv6 header of a probe: version 6, traffic class and flow label zero,
/// payload length 20, next header TCP, hop limit 64.
pub open spec fn ipv6_header(src: Seq<u8>, dst: Seq<u8>) -> Seq<u8> {
    seq![0x60u8, 0, 0, 0, 0, 20, 6, 64] + src + dst
}

/// The TCP header of a probe with its checksum field still zero: the sequence
/// number 12345, no acknowledgment, five header words, window 64240, no urgent
/// pointer.
pub open spec fn tcp_header_unsummed(src_port: u16, dst_port: u16, flags: u8) -> Seq<u8> {
    word_bytes(src_port) + word_bytes(dst_port) + seq![
        0u8,
        0,
        0x30,
        0x39,
        0,
        0,
        0,
        0,
        0x50,
        flags,
        0xFA,
        0xF0,
        0,
        0,
        0,
        0,
    ]
}

/// The pseudo-header that precedes a TCP segment of `tcp_len` bytes in its
/// checksum over IPv4: both addresses, a zero byte, the protocol and the length.
pub open spec fn pseudo_header_v4(src: Seq<u8>, dst: Seq<u8>, tcp_len: nat) -> Seq<u8> {
    src + dst + seq![0u8, 6] + word_bytes(tcp_len as u16)
}

/// The pseudo-header that precedes a TCP segment of `tcp_len` bytes in its
/// checksum over IPv6: both addresses, the length as two 16-bit halves, three
/// zero bytes and the next-header value.
pub open spec fn pseudo_header_v6(src: Seq<u8>, dst: Seq<u8>, tcp_len: nat) -> Seq<u8> {
    src + dst + word_bytes((tcp_len / 0x10000) as u16) + word_bytes((tcp_len % 0x10000) as u16)
        + seq![0u8, 0, 0, 6]
}

/// The TCP checksum of `segment` sent over IPv4 from `src` to `dst`.
pub open spec fn tcp_checksum_v4_spec(src: Seq<u8>, dst: Seq<u8>, segment: Seq<u8>) -> u16 {
    internet_checksum_spec(pseudo_header_v4(src, dst, segment.len()) + segment)
}

/// The TCP checksum of `segment` sent over IPv6 from `src` to `dst`.
pub open spec fn tcp_checksum_v6_spec(src: Seq<u8>, dst: Seq<u8>, segment: Seq<u8>) -> u16 {
    internet_checksum_spec(pseudo_header_v6(src, dst, segment.len()) + segment)
}

/// The TCP header of a probe sent over IPv4, checksum included.
pub open spec fn tcp_header_v4(
    src: Seq<u8>,
    dst: Seq<u8>,
    src_port: u16,
    dst_port: u16,
    flags: u8,
) -> Seq<u8> {
    let unsummed = tcp_header_unsummed(src_port, dst_port, flags);
    with_word(unsummed, 16, tcp_checksum_v4_spec(src, dst, unsummed))
}

/// The TCP header of a probe sent over IPv6, checksum included.
pub open spec fn tcp_header_v6(
    src: Seq<u8>,
    dst: Seq<u8>,
    src_port: u16,
    dst_port: u16,
    flags: u8,
) -> Seq<u8> {
    let unsummed = tcp_header_unsummed(src_port, dst_port, flags);
    with_word(unsummed, 16, tcp_checksum_v6_spec(src, dst, unsummed))
}

/// The 40 bytes of an IPv4 probe.
pub open spec fn ipv4_probe(
    src: Seq<u8>,
    dst: Seq<u8>,
    src_port: u16,
    dst_port: u16,
    flags: u8,
) -> Seq<u8> {
    ipv4_header(src, dst) + tcp_header_v4(src, dst, src_port, dst_port, flags)
}

/// The 60 bytes of an IPv6 probe.
pub open spec fn ipv6_probe(
    src: Seq<u8>,
    dst: Seq<u8>,
    src_port: u16,
    dst_port: u16,
    flags: u8,
) -> Seq<u8> {
    ipv6_header(src, dst) + tcp_header_v6(src, dst, src_port, dst_port, flags)
}

/// The word sum of the IPv4 pseudo-header is the sum of the address words, the
/// protocol number and the length.
pub proof fn lemma_pseudo_header_v4_sum(src: Seq<u8>, dst: Seq<u8>, tcp_len: nat)
    requires
        src.len() == 4,
        dst.len() == 4,
        tcp_len <= 0xFFFF,
    ensures
        word_sum(pseudo_header_v4(src, dst, tcp_len)) == word_sum(src) + word_sum(dst) + 6
            + tcp_len,
{
    let tail = seq![0u8, 6] + word_bytes(tcp_len as u16);
    assert(pseudo_header_v4(src, dst, tcp_len) =~= src + (dst + tail));
    lemma_word_sum_concat(src, dst + tail);
    lemma_word_sum_concat(dst, tail);
    reveal_with_fuel(crate::checksum::words_sum, 3);
    assert(tail.len() == 4);
    assert(word_sum(tail) == 6 + tcp_len);
}

/// The word sum of the IPv6 pseudo-header is the sum of the address words, the
/// two halves of the length and the next-header value.
pub proof fn lemma_pseudo_header_v6_sum(src: Seq<u8>, dst: Seq<u8>, tcp_len: nat)
    requires
        src.len() == 16,
        dst.len() == 16,
        tcp_len <= 0xFFFF_FFFF,
    ensures
        word_sum(pseudo_header_v6(src, dst, tcp_len)) == word_sum(src) + word_sum(dst) + tcp_len
            / 0x10000 + tcp_len % 0x10000 + 6,
{
    let tail = word_bytes((tcp_len / 0x10000) as u16) + word_bytes((tcp_len % 0x10000) as u16)
        + seq![0u8, 0, 0, 6];
    assert(pseudo_header_v6(src, dst, tcp_len) =~= src + (dst + tail));
    lemma_word_sum_concat(src, dst + tail);
    lemma_word_sum_concat(dst, tail);
    reveal_with_fuel(crate::checksum::words_sum, 5);
    assert(tail.len() == 8);
    assert(word_sum(tail) == tcp_len / 0x10000 + tcp_len % 0x10000 + 6);
}

/// The header checksum of an IPv4 probe checks: the internet checksum of the
/// finished header is zero.
pub proof fn lemma_ipv4_header_checks(src: Seq<u8>, dst: Seq<u8>)
    requires
        src.len() == 4,
        dst.len() == 4,
    ensures
        internet_checksum_spec(ipv4_header(src, dst)) == 0,
{
    let unsummed = ipv4_header_unsummed(src, dst);
    assert(unsummed.len() == 20);
    assert(unsummed[10] == 0 && unsummed[11] == 0);
    lemma_checksum_verifies(unsummed, 10);
}

/// The TCP checksum of an IPv4 probe checks: the internet checksum of the
/// pseudo-header followed by the finished TCP header is zero.
pub proof fn lemma_tcp_header_v4_checks(
    src: Seq<u8>,
    dst: Seq<u8>,
    src_port: u16,
    dst_port: u16,
    flags: u8,
)
    requires
        src.len() == 4,
        dst.len() == 4,
    ensures
        tcp_checksum_v4_spec(src, dst, tcp_header_v4(src, dst, src_port, dst_port, flags)) == 0,
{
    let unsummed = tcp_header_unsummed(src_port, dst_port, flags);
    let pseudo = pseudo_header_v4(src, dst, 20);
    let filled = tcp_header_v4(src, dst, src_port, dst_port, flags);
    assert(unsummed.len() == 20);
    assert(filled.len() == 20);
    assert(pseudo.len() == 12);
    assert(unsummed[16] == 0 && unsummed[17] == 0);
    lemma_word_sum_concat(pseudo, unsummed);
    lemma_word_sum_concat(pseudo, filled);
    lemma_filled_checksum_is_zero(unsummed, 16, word_sum(pseudo));
}

/// The TCP checksum of an IPv6 probe checks: the internet checksum of the
/// pseudo-header followed by the finished TCP header is zero.
pub proof fn lemma_tcp_header_v6_checks(
    src: Seq<u8>,
    dst: Seq<u8>,
    src_port: u16,
    dst_port: u16,
    flags: u8,
)
    requires
        src.len() == 16,
        dst.len() == 16,
    ensures
        tcp_checksum_v6_spec(src, dst, tcp_header_v6(src, dst, src_port, dst_port, flags)) == 0,
{
    let unsummed = tcp_header_unsummed(src_port, dst_port, flags);
    let pseudo = pseudo_header_v6(src, dst, 20);
    let filled = tcp_header_v6(src, dst, src_port, dst_port, flags);
    assert(unsummed.len() == 20);
    assert(filled.len() == 20);
    assert(pseudo.len() == 40);
    assert(unsummed[16] == 0 && unsummed[17] == 0);
    lemma_word_sum_concat(pseudo, unsummed);
    lemma_word_sum_concat(pseudo, filled);
    lemma_filled_checksum_is_zero(unsummed, 16, word_sum(pseudo));
}

/// Computes the checksum of a TCP segment that travels over IPv4.
pub fn tcp_checksum(src_ip: [u8; 4], dst_ip: [u8; 4], tcp_packet: &[u8]) -> (checksum: u16)
    requires
        tcp_packet@.len() <= 0xFFFF,
    ensures
        checksum == tcp_checksum_v4_spec(src_ip@, dst_ip@, tcp_packet@),
{
    proof {
        lemma_word_sum_bound(src_ip@);
        lemma_word_sum_bound(dst_ip@);
        lemma_pseudo_header_v4_sum(src_ip@, dst_ip@, tcp_packet@.len());
        lemma_word_sum_concat(
            pseudo_header_v4(src_ip@, dst_ip@, tcp_packet@.len()),
            tcp_packet@,
        );
    }
    let mut sum: u32 = add_words(src_ip.as_slice(), 0);
    sum = add_words(dst_ip.as_slice(), sum);
    sum = sum + 6;
    sum = sum + tcp_packet.len() as u32;
    sum = add_words(tcp_packet, sum);
    finish_checksum(sum)
}

/// Computes the checksum of a TCP segment that travels over IPv6.
pub fn tcp_checksum_v6(src_ip: [u8; 16], dst_ip: [u8; 16], tcp_packet: &[u8]) -> (checksum: u16)
    requires
        tcp_packet@.len() <= 0xFFFF,
    ensures
        checksum == tcp_checksum_v6_spec(src_ip@, dst_ip@, tcp_packet@),
{
    proof {
        lemma_word_sum_bound(src_ip@);
        lemma_word_sum_bound(dst_ip@);
        lemma_pseudo_header_v6_sum(src_ip@, dst_ip@, tcp_packet@.len());
        lemma_word_sum_concat(
            pseudo_header_v6(src_ip@, dst_ip@, tcp_packet@.len()),
            tcp_packet@,
        );
    }
    let mut sum: u32 = add_words(src_ip.as_slice(), 0);
    sum = add_words(dst_ip.as_slice(), sum);
    sum = sum + tcp_packet.len() as u32;
    sum = sum + 6;
    sum = add_words(tcp_packet, sum);
    finish_checksum(sum)
}

/// The checksum of an IPv4 header without options.
///
/// Calls `pnet::packet::ipv4::checksum` on the packet that
/// `pnet::packet::ipv4::Ipv4Packet::new` makes of `packet`. That function reads
/// the header length from the low half of the first byte, takes that many
/// 32-bit words from the front of the packet and returns the internet checksum
/// of them, with the checksum field (bytes 10 and 11) counted as zero. The
/// contract claims this for a header length of five words.
#[verifier::external_body]
fn ipv4_header_checksum(packet: &[u8]) -> (checksum: u16)
    requires
        packet@.len() >= 20,
        packet@[0] % 16 == 5,
    ensures
        checksum == internet_checksum_spec(with_word(packet@.subrange(0, 20), 10, 0)),
{
    pnet::packet::ipv4::checksum(&pnet::packet::ipv4::Ipv4Packet::new(packet).unwrap())
}

/// Writes the bare TCP header of a probe, checksum zero, at `at`.
fn write_tcp_header(buffer: &mut [u8], at: usize, src_port: u16, dst_port: u16, flags: u8)
    requires
        at + 20 <= old(buffer)@.len(),
    ensures
        final(buffer)@.len() == old(buffer)@.len(),
        final(buffer)@.subrange(at as int, at + 20) == tcp_header_unsummed(
            src_port,
            dst_port,
            flags,
        ),
        forall|i: int|
            0 <= i < old(buffer)@.len() && !(at <= i < at + 20) ==> final(buffer)@[i]
                == old(buffer)@[i],
{
    buffer[at] = (src_port / 256) as u8;
    buffer[at + 1] = (src_port % 256) as u8;
    buffer[at + 2] = (dst_port / 256) as u8;
    buffer[at + 3] = (dst_port % 256) as u8;
    buffer[at + 4] = 0;
    buffer[at + 5] = 0;
    buffer[at + 6] = (SEQUENCE_NUMBER / 256) as u8;
    buffer[at + 7] = (SEQUENCE_NUMBER % 256) as u8;
    buffer[at + 8] = 0;
    buffer[at + 9] = 0;
    buffer[at + 10] = 0;
    buffer[at + 11] = 0;
    buffer[at + 12] = 0x50;
    buffer[at + 13] = flags;
    buffer[at + 14] = (WINDOW / 256) as u8;
    buffer[at + 15] = (WINDOW % 256) as u8;
    buffer[at + 16] = 0;
    buffer[at + 17] = 0;
    buffer[at + 18] = 0;
    buffer[at + 19] = 0;
    assert(buffer@.subrange(at as int, at + 20) =~= tcp_header_unsummed(src_port, dst_port, flags));
}

/// Builds an IPv4 probe in the first 40 bytes of `buffer`: the IPv4 header,
/// then the TCP header with the given ports and flags, both with their
/// checksums filled in. The rest of the buffer is left as it was.
pub fn build_packet(
    buffer: &mut [u8],
    src_ip: [u8; 4],
    dst_ip: [u8; 4],
    src_port: u16,
    dst_port: u16,
    flags: u8,
)
    requires
        old(buffer)@.len() >= 40,
    ensures
        final(buffer)@.len() == old(buffer)@.len(),
        final(buffer)@.subrange(0, 40) == ipv4_probe(src_ip@, dst_ip@, src_port, dst_port, flags),
        final(buffer)@.subrange(40, old(buffer)@.len() as int) == old(buffer)@.subrange(
            40,
            old(buffer)@.len() as int,
        ),
{
    let ghost before = buffer@;
    buffer[0] = 0x45;
    buffer[1] = 0;
    buffer[2] = 0;
    buffer[3] = 40;
    buffer[4] = 0;
    buffer[5] = 0;
    buffer[6] = 0;
    buffer[7] = 0;
    buffer[8] = HOP_LIMIT;
    buffer[9] = PROTOCOL_TCP;
    buffer[10] = 0;
    buffer[11] = 0;
    let mut i: usize = 0;
    while i < 4
        invariant
            i <= 4,
            buffer@.len() == before.len(),
            before.len() >= 40,
            buffer@.subrange(0, 12) == seq![0x45u8, 0, 0, 40, 0, 0, 0, 0, 64, 6, 0, 0],
            forall|k: int| 0 <= k < i ==> buffer@[12 + k] == src_ip@[k],
            forall|k: int| 0 <= k < i ==> buffer@[16 + k] == dst_ip@[k],
            forall|k: int| 40 <= k < before.len() ==> buffer@[k] == before[k],
        decreases 4 - i,
    {
        let ghost prior = buffer@;
        buffer[12 + i] = src_ip[i];
        buffer[16 + i] = dst_ip[i];
        assert(buffer@.subrange(0, 12) =~= prior.subrange(0, 12));
        i = i + 1;
    }
    let ghost unsummed = ipv4_header_unsummed(src_ip@, dst_ip@);
    assert(buffer@.subrange(0, 20) =~= unsummed) by {
        assert(forall|k: int| 0 <= k < 12 ==> buffer@[k] == buffer@.subrange(0, 12)[k]);
    }
    assert(buffer@[0] == buffer@.subrange(0, 12)[0]);
    assert(with_word(unsummed, 10, 0) =~= unsummed);
    let header_sum: u16 = ipv4_header_checksum(&*buffer);
    buffer[10] = (header_sum / 256) as u8;
    buffer[11] = (header_sum % 256) as u8;
    assert(buffer@.subrange(0, 20) =~= ipv4_header(src_ip@, dst_ip@));
    let ghost header = buffer@;
    write_tcp_header(buffer, 20, src_port, dst_port, flags);
    let segment_sum: u16 = tcp_checksum(src_ip, dst_ip, slice_subrange(&*buffer, 20, 40));
    let ghost unsummed_tcp = buffer@;
    buffer[36] = (segment_sum / 256) as u8;
    buffer[37] = (segment_sum % 256) as u8;
    assert(buffer@.subrange(20, 40) =~= with_word(unsummed_tcp.subrange(20, 40), 16, segment_sum));
    assert(buffer@.subrange(0, 20) =~= header.subrange(0, 20));
    assert(buffer@.subrange(0, 40) =~= buffer@.subrange(0, 20) + buffer@.subrange(20, 40));
    assert(buffer@.subrange(40, before.len() as int) =~= before.subrange(40, before.len() as int));
}

/// Builds an IPv6 probe in the first 60 bytes of `buffer`: the IPv6 header,
/// then the TCP header with the given ports and flags and its checksum filled
/// in. The rest of the buffer is left as it was.
pub fn build_packet_v6(
    buffer: &mut [u8],
    src_ip: [u8; 16],
    dst_ip: [u8; 16],
    src_port: u16,
    dst_port: u16,
    flags: u8,
)
    requires
        old(buffer)@.len() >= 60,
    ensures
        final(buffer)@.len() == old(buffer)@.len(),
        final(buffer)@.subrange(0, 60) == ipv6_probe(src_ip@, dst_ip@, src_port, dst_port, flags),
        final(buffer)@.subrange(60, old(buffer)@.len() as int) == old(buffer)@.subrange(
            60,
            old(buffer)@.len() as int,
        ),
{
    let ghost before = buffer@;
    buffer[0] = 0x60;
    buffer[1] = 0;
    buffer[2] = 0;
    buffer[3] = 0;
    buffer[4] = 0;
    buffer[5] = 20;
    buffer[6] = PROTOCOL_TCP;
    buffer[7] = HOP_LIMIT;
    let mut i: usize = 0;
    while i < 16
        invariant
            i <= 16,
            buffer@.len() == before.len(),
            before.len() >= 60,
            buffer@.subrange(0, 8) == seq![0x60u8, 0, 0, 0, 0, 20, 6, 64],
            forall|k: int| 0 <= k < i ==> buffer@[8 + k] == src_ip@[k],
            forall|k: int| 0 <= k < i ==> buffer@[24 + k] == dst_ip@[k],
            forall|k: int| 60 <= k < before.len() ==> buffer@[k] == before[k],
        decreases 16 - i,
    {
        let ghost prior = buffer@;
        buffer[8 + i] = src_ip[i];
        buffer[24 + i] = dst_ip[i];
        assert(buffer@.subrange(0, 8) =~= prior.subrange(0, 8));
        i = i + 1;
    }
    assert(buffer@.subrange(0, 40) =~= ipv6_header(src_ip@, dst_ip@)) by {
        assert(forall|k: int| 0 <= k < 8 ==> buffer@[k] == buffer@.subrange(0, 8)[k]);
    }
    let ghost header = buffer@;
    write_tcp_header(buffer, 40, src_port, dst_port, flags);
    let segment_sum: u16 = tcp_checksum_v6(src_ip, dst_ip, slice_subrange(&*buffer, 40, 60));
    let ghost unsummed_tcp = buffer@;
    buffer[56] = (segment_sum / 256) as u8;
    buffer[57] = (segment_sum % 256) as u8;
    assert(buffer@.subrange(40, 60) =~= with_word(unsummed_tcp.subrange(40, 60), 16, segment_sum));
    assert(buffer@.subrange(0, 40) =~= header.subrange(0, 40));
    assert(buffer@.subrange(0, 60) =~= buffer@.subrange(0, 40) + buffer@.subrange(40, 60));
    assert(buffer@.subrange(60, before.len() as int) =~= before.subrange(60, before.len() as int));
}

} // verus!
