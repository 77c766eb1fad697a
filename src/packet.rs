//! Finding the ICMP echo reply in an IPv4 or IPv6 packet, rewriting it, and
//! restoring its checksum.
use vstd::prelude::*;
use vstd::slice::slice_subrange;
use crate::{adjust_timestamp, adjusted, detect, lemma_adjust_locality, splice, TimevalAdder};

verus! {

/// EtherType of IPv4.
pub const ETHERTYPE_IPV4: u16 = 0x0800;

/// EtherType of IPv6.
pub const ETHERTYPE_IPV6: u16 = 0x86DD;

/// IP protocol number of ICMP.
pub const PROTOCOL_ICMP: u8 = 1;

/// IP protocol number of ICMPv6.
pub const PROTOCOL_ICMPV6: u8 = 58;

/// ICMP message type of an echo reply.
pub const ICMP_ECHO_REPLY: u8 = 0;

/// ICMPv6 message type of an echo reply.
pub const ICMPV6_ECHO_REPLY: u8 = 129;

/// Shortest IPv4 header.
pub const IPV4_HEADER_LEN: usize = 20;

/// Length of the IPv6 header.
pub const IPV6_HEADER_LEN: usize = 40;

/// Length of an echo reply's header: type, code, checksum, identifier and
/// sequence number.
pub const ECHO_HEADER_LEN: usize = 8;

/// The Internet checksum that pnet computes for an ICMP message, with its
/// checksum field counted as zero.
pub uninterp spec fn icmp_checksum(msg: Seq<u8>) -> u16;

/// The checksum that pnet computes for an ICMPv6 message, over the message
/// (its checksum field counted as zero) and the IPv6 pseudo-header made of the
/// source and destination addresses, the length and the next header.
pub uninterp spec fn icmpv6_checksum(
    msg: Seq<u8>,
    source: Seq<u8>,
    destination: Seq<u8>,
) -> u16;

/// The big-endian 16-bit integer at `b[i..i + 2]`.
pub open spec fn u16_be_at(b: Seq<u8>, i: int) -> int {
    b[i] * 256 + b[i + 1]
}

/// Where the payload of an IPv4 packet lies: after the header, whose length
/// is counted in 32-bit words but is at least 20 bytes, and up to the total
/// length, cut at the end of the buffer. Empty where the buffer ends first.
pub open spec fn ipv4_payload(b: Seq<u8>) -> (int, int) {
    let header = (b[0] % 16) * 4;
    let start = if header > 20 { header } else { 20 };
    let body = u16_be_at(b, 2) - header;
    let end = start + if body > 0 { body } else { 0 };
    if b.len() <= start {
        (b.len() as int, b.len() as int)
    } else {
        (start, if end < b.len() { end } else { b.len() as int })
    }
}

/// Where the payload of an IPv6 packet lies: after the 40-byte header, up to
/// its payload length, cut at the end of the buffer.
pub open spec fn ipv6_payload(b: Seq<u8>) -> (int, int) {
    let end = 40 + u16_be_at(b, 4);
    if b.len() <= 40 {
        (b.len() as int, b.len() as int)
    } else {
        (40, if end < b.len() { end } else { b.len() as int })
    }
}

/// Where the ICMP (or ICMPv6) echo reply in a packet of type `ethertype` lies,
/// if the packet holds one.
pub open spec fn echo_reply_bounds(ethertype: u16, b: Seq<u8>) -> Option<(int, int)> {
    if ethertype == ETHERTYPE_IPV4 {
        if b.len() >= 20 && b[9] == PROTOCOL_ICMP {
            let (lo, hi) = ipv4_payload(b);
            if hi - lo >= 8 && b[lo] == ICMP_ECHO_REPLY {
                Some((lo, hi))
            } else {
                None
            }
        } else {
            None
        }
    } else if ethertype == ETHERTYPE_IPV6 {
        if b.len() >= 40 && b[6] == PROTOCOL_ICMPV6 {
            let (lo, hi) = ipv6_payload(b);
            if hi - lo >= 8 && b[lo] == ICMPV6_ECHO_REPLY {
                Some((lo, hi))
            } else {
                None
            }
        } else {
            None
        }
    } else {
        None
    }
}

/// `b` with the sequence number of the echo reply at `lo` set to 1.
pub open spec fn with_sequence_one(b: Seq<u8>, lo: int) -> Seq<u8> {
    b.update(lo + 6, 0).update(lo + 7, 1)
}

/// `b` with the checksum field of the message at `lo` set to `c`.
pub open spec fn with_checksum(b: Seq<u8>, lo: int, c: u16) -> Seq<u8> {
    b.update(lo + 2, (c / 256) as u8).update(lo + 3, (c % 256) as u8)
}

/// The checksum of the message at `b[lo..hi]` of a packet of type
/// `ethertype`.
pub open spec fn message_checksum(ethertype: u16, b: Seq<u8>, lo: int, hi: int) -> u16 {
    if ethertype == ETHERTYPE_IPV6 {
        icmpv6_checksum(b.subrange(lo, hi), b.subrange(8, 24), b.subrange(24, 40))
    } else {
        icmp_checksum(b.subrange(lo, hi))
    }
}

/// What rewriting the echo reply at `b[lo..hi]` of a packet of type
/// `ethertype` gives, with `delta` for the wide timestamp: the sequence number
/// set to 1, the timestamp adjusted and the checksum restored; or the packet
/// with only its sequence number set, where the payload holds no timestamp.
pub open spec fn rewritten_reply(
    ethertype: u16,
    b: Seq<u8>,
    lo: int,
    hi: int,
    delta: i64,
) -> Result<Seq<u8>, Seq<u8>> {
    let staged = with_sequence_one(b, lo);
    let body = staged.subrange(lo + 8, hi);
    match detect(body) {
        None => Err(staged),
        Some((w, o)) => {
            let done = splice(staged, lo + 8, hi, adjusted(body, w, o, delta));
            Ok(with_checksum(done, lo, message_checksum(ethertype, done, lo, hi)))
        },
    }
}

/// Relies on pnet's `icmp::checksum`: the Internet checksum of an ICMP
/// message, which skips the checksum field (bytes 2 and 3). Its 32-bit sum
/// cannot overflow on a message that an IP packet can carry.
#[verifier::external_body]
fn checksum_icmp(msg: &[u8]) -> (r: u16)
    requires
        4 <= msg@.len() <= 65535,
    ensures
        r == icmp_checksum(msg@),
        forall|m: Seq<u8>|
            m.len() == msg@.len() && (forall|i: int|
                0 <= i < m.len() && i != 2 && i != 3 ==> m[i] == msg@[i])
                ==> #[trigger] icmp_checksum(m) == r,
{
    pnet::packet::icmp::checksum(&pnet::packet::icmp::IcmpPacket::new(msg).unwrap())
}

/// Relies on pnet's `icmpv6::checksum`: the checksum of an ICMPv6 message and
/// the pseudo-header of the given addresses, which skips the checksum field
/// (bytes 2 and 3). Its 32-bit sum cannot overflow on a message that an IPv6
/// packet can carry.
#[verifier::external_body]
fn checksum_icmpv6(msg: &[u8], source: &[u8], destination: &[u8]) -> (r: u16)
    requires
        4 <= msg@.len() <= 65535,
        source@.len() == 16,
        destination@.len() == 16,
    ensures
        r == icmpv6_checksum(msg@, source@, destination@),
        forall|m: Seq<u8>|
            m.len() == msg@.len() && (forall|i: int|
                0 <= i < m.len() && i != 2 && i != 3 ==> m[i] == msg@[i])
                ==> #[trigger] icmpv6_checksum(m, source@, destination@) == r,
{
    let source: [u8; 16] = source.try_into().unwrap();
    let destination: [u8; 16] = destination.try_into().unwrap();
    let msg = pnet::packet::icmpv6::Icmpv6Packet::new(msg).unwrap();
    pnet::packet::icmpv6::checksum(&msg, &source.into(), &destination.into())
}

/// After the echo reply found in `before` was rewritten into `after`, the
/// checksum field of `after` holds the checksum of its message.
pub open spec fn checksum_holds(ethertype: u16, before: Seq<u8>, after: Seq<u8>) -> bool {
    match echo_reply_bounds(ethertype, before) {
        None => true,
        Some((lo, hi)) => u16_be_at(after, lo + 2) == message_checksum(ethertype, after, lo, hi)
            as int,
    }
}

/// The outcome of rewriting the packet `b` of type `ethertype` with the
/// adder `f`: none where it holds no echo reply; else the new packet, `Ok`
/// where its timestamp was adjusted and `Err` where the payload held none.
pub open spec fn reply_outcome<F: TimevalAdder>(ethertype: u16, b: Seq<u8>, f: F) -> Option<
    Result<Seq<u8>, Seq<u8>>,
> {
    match echo_reply_bounds(ethertype, b) {
        None => None,
        Some((lo, hi)) => Some(
            rewritten_reply(ethertype, b, lo, hi, f.increment_for(sequence_at(b, lo))),
        ),
    }
}

/// The sequence number of the echo reply at `lo`.
pub open spec fn sequence_at(b: Seq<u8>, lo: int) -> u16 {
    u16_be_at(b, lo + 6) as u16
}

/// Where the echo reply of an IPv4 packet lies, if it holds one.
fn ipv4_echo_reply(b: &[u8]) -> (r: Option<(usize, usize)>)
    ensures
        match echo_reply_bounds(ETHERTYPE_IPV4, b@) {
            None => r is None,
            Some((lo, hi)) => r == Some((lo as usize, hi as usize)),
        },
{
    let len = b.len();
    if len < IPV4_HEADER_LEN || b[9] != PROTOCOL_ICMP {
        return None;
    }
    let header: usize = (b[0] % 16) as usize * 4;
    let start: usize = if header > IPV4_HEADER_LEN {
        header
    } else {
        IPV4_HEADER_LEN
    };
    if len <= start {
        return None;
    }
    let total: usize = b[2] as usize * 256 + b[3] as usize;
    let body: usize = if total > header {
        total - header
    } else {
        0
    };
    let end: usize = if start + body < len {
        start + body
    } else {
        len
    };
    if end - start < ECHO_HEADER_LEN || b[start] != ICMP_ECHO_REPLY {
        return None;
    }
    Some((start, end))
}

/// Where the echo reply of an IPv6 packet lies, if it holds one.
fn ipv6_echo_reply(b: &[u8]) -> (r: Option<(usize, usize)>)
    ensures
        match echo_reply_bounds(ETHERTYPE_IPV6, b@) {
            None => r is None,
            Some((lo, hi)) => r == Some((lo as usize, hi as usize)),
        },
{
    let len = b.len();
    if len <= IPV6_HEADER_LEN || b[6] != PROTOCOL_ICMPV6 {
        return None;
    }
    let body: usize = b[4] as usize * 256 + b[5] as usize;
    let end: usize = if IPV6_HEADER_LEN + body < len {
        IPV6_HEADER_LEN + body
    } else {
        len
    };
    if end - IPV6_HEADER_LEN < ECHO_HEADER_LEN || b[IPV6_HEADER_LEN] != ICMPV6_ECHO_REPLY {
        return None;
    }
    Some((IPV6_HEADER_LEN, end))
}

/// Rewrites the echo reply of an IPv4 packet, if it holds one.
fn handle_ipv4<F: TimevalAdder>(b: &mut [u8], f: &mut F) -> (r: Result<(), ()>)
    ensures
        r is Ok ==> checksum_holds(ETHERTYPE_IPV4, old(b)@, final(b)@),
        match reply_outcome(ETHERTYPE_IPV4, old(b)@, *old(f)) {
            None => {
                &&& r == Ok::<(), ()>(())
                &&& final(b)@ == old(b)@
                &&& *final(f) == *old(f)
            },
            Some(Ok(done)) => {
                &&& r == Ok::<(), ()>(())
                &&& final(b)@ == done
            },
            Some(Err(staged)) => {
                &&& r == Err::<(), ()>(())
                &&& final(b)@ == staged
            },
        },
{
    let (lo, hi) = match ipv4_echo_reply(b) {
        Some(bounds) => bounds,
        None => return Ok(()),
    };
    let seq: u16 = b[lo + 6] as u16 * 256 + b[lo + 7] as u16;
    b[lo + 6] = 0;
    b[lo + 7] = 1;
    let ghost staged = b@;
    assert(staged == with_sequence_one(old(b)@, lo as int));
    match adjust_timestamp(b, lo + 8, hi, seq, f) {
        Err(()) => Err(()),
        Ok(()) => {
            let ghost done = b@;
            let c = checksum_icmp(slice_subrange(b, lo, hi));
            b[lo + 2] = (c / 256) as u8;
            b[lo + 3] = (c % 256) as u8;
            assert(b@ == with_checksum(
                done,
                lo as int,
                message_checksum(ETHERTYPE_IPV4, done, lo as int, hi as int),
            ));
            assert(icmp_checksum(b@.subrange(lo as int, hi as int)) == c);
            Ok(())
        },
    }
}

/// Rewrites the echo reply of an IPv6 packet, if it holds one.
fn handle_ipv6<F: TimevalAdder>(b: &mut [u8], f: &mut F) -> (r: Result<(), ()>)
    ensures
        r is Ok ==> checksum_holds(ETHERTYPE_IPV6, old(b)@, final(b)@),
        match reply_outcome(ETHERTYPE_IPV6, old(b)@, *old(f)) {
            None => {
                &&& r == Ok::<(), ()>(())
                &&& final(b)@ == old(b)@
                &&& *final(f) == *old(f)
            },
            Some(Ok(done)) => {
                &&& r == Ok::<(), ()>(())
                &&& final(b)@ == done
            },
            Some(Err(staged)) => {
                &&& r == Err::<(), ()>(())
                &&& final(b)@ == staged
            },
        },
{
    let (lo, hi) = match ipv6_echo_reply(b) {
        Some(bounds) => bounds,
        None => return Ok(()),
    };
    let seq: u16 = b[lo + 6] as u16 * 256 + b[lo + 7] as u16;
    b[lo + 6] = 0;
    b[lo + 7] = 1;
    let ghost staged = b@;
    assert(staged == with_sequence_one(old(b)@, lo as int));
    match adjust_timestamp(b, lo + 8, hi, seq, f) {
        Err(()) => Err(()),
        Ok(()) => {
            let ghost done = b@;
            let c = checksum_icmpv6(
                slice_subrange(b, lo, hi),
                slice_subrange(b, 8, 24),
                slice_subrange(b, 24, 40),
            );
            b[lo + 2] = (c / 256) as u8;
            b[lo + 3] = (c % 256) as u8;
            assert(b@ == with_checksum(
                done,
                lo as int,
                message_checksum(ETHERTYPE_IPV6, done, lo as int, hi as int),
            ));
            assert(b@.subrange(8, 24) =~= done.subrange(8, 24));
            assert(b@.subrange(24, 40) =~= done.subrange(24, 40));
            assert(icmpv6_checksum(
                b@.subrange(lo as int, hi as int),
                done.subrange(8, 24),
                done.subrange(24, 40),
            ) == c);
            Ok(())
        },
    }
}

/// Finds the ICMP echo reply in the packet `payload` of type `ethertype`
/// (IPv4 carrying ICMP, or IPv6 carrying ICMPv6) and rewrites it: its
/// sequence number becomes 1, the timestamp at the start of its payload is
/// moved back by `f`'s delta for the sequence number it carried, and its
/// checksum is computed anew. Other packets are left as they are, and so is
/// an echo reply's payload that holds no timestamp, which fails.
pub fn modify_icmp_payload<F: TimevalAdder>(ethertype: u16, payload: &mut [u8], f: &mut F) -> (r:
    Result<(), ()>)
    ensures
        r is Ok ==> checksum_holds(ethertype, old(payload)@, final(payload)@),
        match reply_outcome(ethertype, old(payload)@, *old(f)) {
            None => {
                &&& r == Ok::<(), ()>(())
                &&& final(payload)@ == old(payload)@
                &&& *final(f) == *old(f)
            },
            Some(Ok(done)) => {
                &&& r == Ok::<(), ()>(())
                &&& final(payload)@ == done
            },
            Some(Err(staged)) => {
                &&& r == Err::<(), ()>(())
                &&& final(payload)@ == staged
            },
        },
{
    if ethertype == ETHERTYPE_IPV4 {
        handle_ipv4(payload, f)
    } else if ethertype == ETHERTYPE_IPV6 {
        handle_ipv6(payload, f)
    } else {
        Ok(())
    }
}

/// Once an echo reply was found, its sequence number reads 1 afterwards,
/// whether or not a timestamp was adjusted.
pub proof fn lemma_sequence_is_one(ethertype: u16, b: Seq<u8>, delta: i64)
    requires
        echo_reply_bounds(ethertype, b) is Some,
    ensures
        ({
            let (lo, hi) = echo_reply_bounds(ethertype, b)->Some_0;
            match rewritten_reply(ethertype, b, lo, hi, delta) {
                Ok(after) => sequence_at(after, lo) == 1,
                Err(after) => sequence_at(after, lo) == 1,
            }
        }),
{
    let (lo, hi) = echo_reply_bounds(ethertype, b)->Some_0;
    let staged = with_sequence_one(b, lo);
    let body = staged.subrange(lo + 8, hi);
    match detect(body) {
        None => {},
        Some((w, o)) => {
            lemma_adjust_locality(body, w, o, delta);
            let done = splice(staged, lo + 8, hi, adjusted(body, w, o, delta));
            assert(done[lo + 6] == staged[lo + 6]);
            assert(done[lo + 7] == staged[lo + 7]);
        },
    }
}

} // verus!
