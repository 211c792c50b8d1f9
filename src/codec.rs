//! Datagram framing: a JSON body followed by the little-endian CRC-32 of that body.

use vstd::prelude::*;

verus! {

/// The CRC-32 (IEEE polynomial) of a byte sequence.
pub uninterp spec fn crc32_of(bytes: Seq<u8>) -> u32;

/// Relies on `crc32fast::hash`: the CRC-32 of the bytes, a function of the bytes alone.
#[verifier::external_body]
fn crc32(bytes: &[u8]) -> (r: u32)
    ensures
        r == crc32_of(bytes@),
{
    crc32fast::hash(bytes)
}

/// The four little-endian bytes of `n`.
pub open spec fn le_bytes(n: u32) -> Seq<u8> {
    seq![
        (n & 0xff) as u8,
        ((n >> 8u32) & 0xff) as u8,
        ((n >> 16u32) & 0xff) as u8,
        ((n >> 24u32) & 0xff) as u8,
    ]
}

/// The integer whose little-endian bytes are `b[0..4]`.
pub open spec fn le_value(b: Seq<u8>) -> u32
    recommends
        b.len() == 4,
{
    (b[0] as u32) | ((b[1] as u32) << 8u32) | ((b[2] as u32) << 16u32) | ((b[3] as u32) << 24u32)
}

/// A whole datagram for `body`: the body, then its checksum.
pub open spec fn framed(body: Seq<u8>) -> Seq<u8> {
    body + le_bytes(crc32_of(body))
}

/// How a datagram splits: `None` when it is too short to hold a checksum,
/// else the body and the checksum read from the last four bytes.
pub open spec fn split_spec(datagram: Seq<u8>) -> Option<(Seq<u8>, u32)> {
    if datagram.len() < 4 {
        None
    } else {
        let n = datagram.len() - 4;
        Some((datagram.subrange(0, n), le_value(datagram.subrange(n, datagram.len() as int))))
    }
}

proof fn lemma_le_round_trip(n: u32)
    ensures
        le_value(le_bytes(n)) == n,
{
    let b0 = (n & 0xff) as u8;
    let b1 = ((n >> 8u32) & 0xff) as u8;
    let b2 = ((n >> 16u32) & 0xff) as u8;
    let b3 = ((n >> 24u32) & 0xff) as u8;
    assert((b0 as u32) | ((b1 as u32) << 8u32) | ((b2 as u32) << 16u32) | ((b3 as u32) << 24u32)
        == n) by (bit_vector)
        requires
            b0 == (n & 0xff) as u8,
            b1 == ((n >> 8u32) & 0xff) as u8,
            b2 == ((n >> 16u32) & 0xff) as u8,
            b3 == ((n >> 24u32) & 0xff) as u8,
    ;
}

proof fn lemma_le_injective(a: Seq<u8>, b: Seq<u8>)
    requires
        a.len() == 4,
        b.len() == 4,
        le_value(a) == le_value(b),
    ensures
        a == b,
{
    let (a0, a1, a2, a3) = (a[0], a[1], a[2], a[3]);
    let (b0, b1, b2, b3) = (b[0], b[1], b[2], b[3]);
    assert(a0 == b0 && a1 == b1 && a2 == b2 && a3 == b3) by (bit_vector)
        requires
            (a0 as u32) | ((a1 as u32) << 8u32) | ((a2 as u32) << 16u32) | ((a3 as u32) << 24u32)
                == (b0 as u32) | ((b1 as u32) << 8u32) | ((b2 as u32) << 16u32) | ((b3 as u32)
                << 24u32),
    ;
    assert(a =~= b);
}

/// Appends the checksum of `body` to it, giving the datagram to send.
pub fn frame(body: Vec<u8>) -> (r: Vec<u8>)
    ensures
        r@ == framed(body@),
{
    let checksum = crc32(body.as_slice());
    let mut r = body;
    r.push((checksum & 0xff) as u8);
    r.push(((checksum >> 8u32) & 0xff) as u8);
    r.push(((checksum >> 16u32) & 0xff) as u8);
    r.push(((checksum >> 24u32) & 0xff) as u8);
    assert(r@ =~= framed(body@));
    r
}

/// Splits a received datagram into its body and the checksum it carries;
/// `None` when it is shorter than a checksum.
pub fn split(datagram: &[u8]) -> (r: Option<(Vec<u8>, u32)>)
    ensures
        match (r, split_spec(datagram@)) {
            (Some((body, sum)), Some((b, s))) => body@ == b && sum == s,
            (None, None) => true,
            _ => false,
        },
{
    let len = datagram.len();
    if len < 4 {
        return None;
    }
    let n = len - 4;
    let mut body: Vec<u8> = Vec::new();
    let mut i: usize = 0;
    while i < n
        invariant
            n == datagram@.len() - 4,
            i <= n,
            body@ == datagram@.subrange(0, i as int),
        decreases n - i,
    {
        body.push(datagram[i]);
        i = i + 1;
        assert(body@ =~= datagram@.subrange(0, i as int));
    }
    let sum: u32 = (datagram[n] as u32) | ((datagram[n + 1] as u32) << 8u32) | ((datagram[n
        + 2] as u32) << 16u32) | ((datagram[n + 3] as u32) << 24u32);
    let ghost tail = datagram@.subrange(n as int, len as int);
    assert(tail[0] == datagram[n as int] && tail[1] == datagram[n + 1] && tail[2] == datagram[n
        + 2] && tail[3] == datagram[n + 3]);
    Some((body, sum))
}

/// The CRC-32 of `body`.
pub fn checksum(body: &[u8]) -> (r: u32)
    ensures
        r == crc32_of(body@),
{
    crc32(body)
}

/// Whether `checksum` is the CRC-32 of `body`.
pub fn verify(body: &[u8], checksum: u32) -> (r: bool)
    ensures
        r == (crc32_of(body@) == checksum),
{
    crc32(body) == checksum
}

/// A framed body splits back into that body and a checksum that verifies.
pub proof fn lemma_frame_round_trip(body: Seq<u8>)
    ensures
        split_spec(framed(body)) == Some((body, crc32_of(body))),
{
    let d = framed(body);
    lemma_le_round_trip(crc32_of(body));
    assert(d.subrange(0, body.len() as int) =~= body);
    assert(d.subrange(body.len() as int, d.len() as int) =~= le_bytes(crc32_of(body)));
}

/// Changing any one byte in the checksum of a framed body makes the check fail.
pub proof fn lemma_checksum_corruption_detected(body: Seq<u8>, i: int, v: u8)
    requires
        body.len() <= i < body.len() + 4,
        framed(body)[i] != v,
    ensures
        split_spec(framed(body).update(i, v)) matches Some((b, sum)) && b == body && sum
            != crc32_of(b),
{
    let d = framed(body).update(i, v);
    let n = body.len() as int;
    let tail = d.subrange(n, d.len() as int);
    let orig = le_bytes(crc32_of(body));
    assert(d.subrange(0, n) =~= body);
    assert(tail.len() == 4);
    assert(tail[i - n] != orig[i - n]);
    lemma_le_round_trip(crc32_of(body));
    if le_value(tail) == crc32_of(body) {
        lemma_le_injective(tail, orig);
    }
}

} // verus!
