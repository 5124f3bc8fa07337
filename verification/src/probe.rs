//! One TCP-flag probe: the packet that is sent, and the judgement of what
//! comes back until a reply matches or the wait times out.

use vstd::prelude::*;
use vstd::slice::slice_subrange;
use crate::address::IpAddress;
use crate::checksum::be_word;
use crate::packet::{build_packet, build_packet_v6, ipv4_probe, ipv6_probe, SOURCE_PORT};

verus! {

/// How long a probe waits for its reply, in milliseconds.
pub const REPLY_TIMEOUT_MS: u64 = 5000;

/// How long the wait pauses after a failed read, in milliseconds.
pub const RETRY_BACKOFF_MS: u64 = 10;

/// Why no probe can be built.
#[derive(Clone, Copy, Debug, PartialEq, Eq, Structural)]
pub enum ProbeError {
    /// The local address and the target are not of the same IP version.
    VersionMismatch,
}

/// The bytes of the probe from `source` to `target`, where both are of the
/// same IP version.
pub open spec fn probe_bytes(source: IpAddress, target: IpAddress, port: u16, flags: u8) -> Seq<
    u8,
> {
    if source is V4 {
        ipv4_probe(source.octets(), target.octets(), SOURCE_PORT, port, flags)
    } else {
        ipv6_probe(source.octets(), target.octets(), SOURCE_PORT, port, flags)
    }
}

/// Builds the probe that goes from `source` to port `port` of `target` with
/// the given flags: 40 bytes over IPv4, 60 over IPv6. Addresses of two
/// different versions are refused.
pub fn build_probe(source: &IpAddress, target: &IpAddress, port: u16, flags: u8) -> (probe: Result<
    Vec<u8>,
    ProbeError,
>)
    ensures
        (source is V4) == (target is V4) ==> probe is Ok && probe->Ok_0@ == probe_bytes(
            *source,
            *target,
            port,
            flags,
        ),
        (source is V4) != (target is V4) ==> probe == Err::<Vec<u8>, ProbeError>(
            ProbeError::VersionMismatch,
        ),
{
    match (source, target) {
        (IpAddress::V4(src), IpAddress::V4(dst)) => {
            let mut buffer: Vec<u8> = zeroes(40);
            build_packet(buffer.as_mut_slice(), *src, *dst, SOURCE_PORT, port, flags);
            assert(buffer@ =~= buffer@.subrange(0, 40));
            Ok(buffer)
        },
        (IpAddress::V6(src), IpAddress::V6(dst)) => {
            let mut buffer: Vec<u8> = zeroes(60);
            build_packet_v6(buffer.as_mut_slice(), *src, *dst, SOURCE_PORT, port, flags);
            assert(buffer@ =~= buffer@.subrange(0, 60));
            Ok(buffer)
        },
        _ => Err(ProbeError::VersionMismatch),
    }
}

/// A buffer of `len` zero bytes.
fn zeroes(len: usize) -> (buffer: Vec<u8>)
    ensures
        buffer@.len() == len,
        forall|i: int| 0 <= i < len ==> buffer@[i] == 0,
{
    let mut buffer: Vec<u8> = Vec::new();
    let mut i: usize = 0;
    while i < len
        invariant
            i <= len,
            buffer@.len() == i,
            forall|k: int| 0 <= k < i ==> buffer@[k] == 0,
        decreases len - i,
    {
        buffer.push(0);
        i = i + 1;
    }
    buffer
}

/// Whether a TCP segment that came from `source` answers a probe sent to port
/// `port` of `target`: it comes from the target, holds a whole TCP header, and
/// its source port is the probed port.
pub open spec fn answers_probe(segment: Seq<u8>, source: IpAddress, target: IpAddress, port: u16)
    -> bool {
    &&& source.octets() == target.octets()
    &&& segment.len() >= 20
    &&& be_word(segment[0], segment[1]) == port
}

/// The flags byte of a segment that answers the probe; nothing for any other
/// segment.
pub open spec fn reply_flags(segment: Seq<u8>, source: IpAddress, target: IpAddress, port: u16)
    -> Option<u8> {
    if answers_probe(segment, source, target, port) {
        Some(segment[13])
    } else {
        None
    }
}

/// Gives the flags of a TCP segment if it answers the probe, nothing if it is
/// other traffic.
pub fn match_reply(segment: &[u8], source: &IpAddress, target: &IpAddress, port: u16) -> (flags:
    Option<u8>)
    ensures
        flags == reply_flags(segment@, *source, *target, port),
{
    if !source.same_as(target) {
        return None;
    }
    if segment.len() < 20 {
        return None;
    }
    let from_port: u16 = (segment[0] as u16) * 256 + segment[1] as u16;
    if from_port == port {
        Some(segment[13])
    } else {
        None
    }
}

/// The TCP segment that an IPv4 packet carries: what follows the header, where
/// the packet says that it is IPv4, that it carries TCP, and where its header
/// length lies between the 20 bytes of a bare header and the end of the packet.
pub open spec fn ipv4_tcp_segment(packet: Seq<u8>) -> Option<Seq<u8>> {
    if packet.len() >= 20 && packet[0] / 16 == 4 && packet[9] == 6 && 20 <= (packet[0] % 16) * 4
        <= packet.len() {
        Some(packet.subrange((packet[0] % 16) * 4, packet.len() as int))
    } else {
        None
    }
}

/// The flags byte of the segment in an IPv4 packet, where that segment answers
/// the probe.
pub open spec fn ipv4_reply_flags(
    packet: Seq<u8>,
    source: IpAddress,
    target: IpAddress,
    port: u16,
) -> Option<u8> {
    match ipv4_tcp_segment(packet) {
        Some(segment) => reply_flags(segment, source, target, port),
        None => None,
    }
}

/// Gives the flags of the TCP segment in an IPv4 packet if it answers the
/// probe, nothing if the packet is other traffic.
pub fn match_ipv4_reply(packet: &[u8], source: &IpAddress, target: &IpAddress, port: u16) -> (flags:
    Option<u8>)
    ensures
        flags == ipv4_reply_flags(packet@, *source, *target, port),
{
    if packet.len() < 20 {
        return None;
    }
    let first: u8 = packet[0];
    if first / 16 != 4 || packet[9] != 6 {
        return None;
    }
    let header_len: usize = (first % 16) as usize * 4;
    if header_len < 20 || header_len > packet.len() {
        return None;
    }
    match_reply(slice_subrange(packet, header_len, packet.len()), source, target, port)
}

/// What the wait for a reply does next.
#[derive(Clone, Copy, Debug, PartialEq, Eq, Structural)]
pub enum WaitStep {
    /// The wait is over: the probe took `elapsed_ms` and the reply carried
    /// `flags`. A wait that timed out ends with 5000 ms and no flags.
    Done { elapsed_ms: u64, flags: u8 },
    /// The packet was other traffic: read the next one.
    ReadAgain,
    /// The read failed: pause for `millis` and read again.
    BackOff { millis: u64 },
}

/// The step after a segment from `source` was read, `elapsed_ms` after the
/// probe was sent.
pub open spec fn step_after_segment(
    elapsed_ms: u64,
    segment: Seq<u8>,
    source: IpAddress,
    target: IpAddress,
    port: u16,
) -> WaitStep {
    if elapsed_ms > REPLY_TIMEOUT_MS {
        WaitStep::Done { elapsed_ms: REPLY_TIMEOUT_MS, flags: 0 }
    } else {
        match reply_flags(segment, source, target, port) {
            Some(flags) => WaitStep::Done { elapsed_ms, flags },
            None => WaitStep::ReadAgain,
        }
    }
}

/// The step after a read failed, `elapsed_ms` after the probe was sent.
pub open spec fn step_after_failure(elapsed_ms: u64) -> WaitStep {
    if elapsed_ms > REPLY_TIMEOUT_MS {
        WaitStep::Done { elapsed_ms: REPLY_TIMEOUT_MS, flags: 0 }
    } else {
        WaitStep::BackOff { millis: RETRY_BACKOFF_MS }
    }
}

/// Judges a segment read `elapsed_ms` after the probe was sent: past the
/// timeout the wait ends as lost; a segment that answers the probe ends it
/// with the elapsed time and the reply's flags; any other is dropped.
pub fn judge_segment(
    elapsed_ms: u64,
    segment: &[u8],
    source: &IpAddress,
    target: &IpAddress,
    port: u16,
) -> (step: WaitStep)
    ensures
        step == step_after_segment(elapsed_ms, segment@, *source, *target, port),
{
    if elapsed_ms > REPLY_TIMEOUT_MS {
        WaitStep::Done { elapsed_ms: REPLY_TIMEOUT_MS, flags: 0 }
    } else {
        match match_reply(segment, source, target, port) {
            Some(flags) => WaitStep::Done { elapsed_ms, flags },
            None => WaitStep::ReadAgain,
        }
    }
}

/// Judges a whole IPv4 packet read `elapsed_ms` after the probe was sent, as
/// `judge_segment` judges the segment in it.
pub fn judge_ipv4_packet(
    elapsed_ms: u64,
    packet: &[u8],
    source: &IpAddress,
    target: &IpAddress,
    port: u16,
) -> (step: WaitStep)
    ensures
        step == if elapsed_ms > REPLY_TIMEOUT_MS {
            WaitStep::Done { elapsed_ms: REPLY_TIMEOUT_MS, flags: 0 }
        } else {
            match ipv4_reply_flags(packet@, *source, *target, port) {
                Some(flags) => WaitStep::Done { elapsed_ms, flags },
                None => WaitStep::ReadAgain,
            }
        },
{
    if elapsed_ms > REPLY_TIMEOUT_MS {
        WaitStep::Done { elapsed_ms: REPLY_TIMEOUT_MS, flags: 0 }
    } else {
        match match_ipv4_reply(packet, source, target, port) {
            Some(flags) => WaitStep::Done { elapsed_ms, flags },
            None => WaitStep::ReadAgain,
        }
    }
}

/// Judges a failed read `elapsed_ms` after the probe was sent: past the
/// timeout the wait ends as lost, before it the read is tried again after a
/// short pause.
pub fn judge_read_failure(elapsed_ms: u64) -> (step: WaitStep)
    ensures
        step == step_after_failure(elapsed_ms),
{
    if elapsed_ms > REPLY_TIMEOUT_MS {
        WaitStep::Done { elapsed_ms: REPLY_TIMEOUT_MS, flags: 0 }
    } else {
        WaitStep::BackOff { millis: RETRY_BACKOFF_MS }
    }
}

} // verus!
