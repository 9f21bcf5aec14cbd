//! Frame codec: every control message travels as a fixed-width 10-byte
//! length prefix (an unsigned varint, right-padded with zero bytes) followed
//! by that many payload bytes.

use vstd::arithmetic::div_mod::{
    lemma_div_is_ordered, lemma_fundamental_div_mod, lemma_multiply_divide_lt,
};
use vstd::arithmetic::mul::lemma_mul_inequality;
use vstd::arithmetic::power2::{lemma2_to64, lemma_pow2_strictly_increases, pow2};
use vstd::prelude::*;
use vstd::slice::{slice_subrange, slice_to_vec};

verus! {

/// Width of the frame length prefix in bytes.
pub const PREFIX_LEN: usize = 10;

/// Ways a frame can fail to decode.
#[derive(Clone, Copy, Debug, PartialEq, Eq, Structural)]
pub enum FrameError {
    /// Fewer bytes were available than the framing requires.
    Truncated,
    /// The 10 prefix bytes are not a varint followed by zero padding.
    MalformedPrefix,
    /// The prefix encodes a length above the configured maximum.
    OversizedFrame,
    /// The payload bytes do not decode under the message schema.
    MalformedPayload,
}

/// Little-endian base-128 varint encoding of `n`: low 7 bits first, the high
/// bit of each byte marking that another byte follows.
pub open spec fn spec_varint(n: u64) -> Seq<u8>
    decreases n,
{
    if n < 128 {
        seq![n as u8]
    } else {
        seq![((n % 128) + 128) as u8] + spec_varint(n / 128)
    }
}

/// Parse a varint in `b` starting at `pos`: the value and the position just
/// past it, or `None` when no full varint fitting a `u64` starts there.
pub open spec fn spec_parse_varint(b: Seq<u8>, pos: int) -> Option<(u64, int)>
    decreases b.len() - pos,
{
    if !(0 <= pos < b.len()) {
        None
    } else if b[pos] < 128 {
        Some((b[pos] as u64, pos + 1))
    } else {
        match spec_parse_varint(b, pos + 1) {
            Some((v, end)) => {
                let lo: u64 = (b[pos] - 128) as u64;
                if v <= (u64::MAX - lo) / 128 {
                    Some(((lo + 128 * v) as u64, end))
                } else {
                    None
                }
            },
            None => None,
        }
    }
}

/// Parsing at the start of a varint encoding yields the encoded value and
/// consumes exactly the encoding, whatever follows it.
pub proof fn lemma_varint_round_trip(n: u64, b: Seq<u8>, pos: int)
    requires
        0 <= pos,
        pos + spec_varint(n).len() <= b.len(),
        b.subrange(pos, pos + spec_varint(n).len() as int) == spec_varint(n),
    ensures
        spec_parse_varint(b, pos) == Some((n, pos + spec_varint(n).len() as int)),
    decreases n,
{
    let enc = spec_varint(n);
    assert(b[pos] == enc[0]);
    if n < 128 {
        assert(b[pos] == n as u8);
    } else {
        let lo: u64 = (n % 128) as u64;
        let hi: u64 = n / 128;
        let enc2 = spec_varint(hi);
        assert forall|i: int| 0 <= i < enc2.len() implies b.index(pos + 1 + i) == enc2[i] by {
            assert(b.subrange(pos, pos + enc.len() as int)[i + 1] == b.index(pos + 1 + i));
            assert(enc[i + 1] == enc2[i]);
        }
        assert(b.subrange(pos + 1, pos + 1 + enc2.len() as int) =~= enc2);
        lemma_varint_round_trip(hi, b, pos + 1);
        assert(b[pos] == ((n % 128) + 128) as u8);
        assert((b[pos] - 128) as u64 == lo);
        lemma_fundamental_div_mod(n as int, 128);
        // the guard in the parser holds: hi <= (u64::MAX - lo) / 128
        assert(128 * hi <= u64::MAX - lo);
        lemma_div_is_ordered(128 * hi as int, u64::MAX - lo, 128);
        lemma_mul_div_self(hi);
        assert(hi <= (u64::MAX - lo) / 128);
        assert(lo + 128 * hi == n);
    }
}

proof fn lemma_mul_div_self(q: u64)
    ensures
        (128 * q as int) / 128 == q,
{
    lemma_fundamental_div_mod(128 * q as int, 128);
    let d = (128 * q as int) / 128;
    let m = (128 * q as int) % 128;
    assert(128 * q as int == 128 * d + m);
    assert(128 * (q as int - d) == m) by (nonlinear_arith)
        requires
            128 * q as int == 128 * d + m,
    ;
    assert(q as int == d) by (nonlinear_arith)
        requires
            128 * (q as int - d) == m,
            0 <= m < 128,
    ;
}

/// Append the varint encoding of `n` to `buf`.
pub fn encode_varint(n: u64, buf: &mut Vec<u8>)
    ensures
        final(buf)@ == old(buf)@ + spec_varint(n),
{
    let ghost orig = buf@;
    let mut rem: u64 = n;
    while rem >= 128
        invariant
            orig + spec_varint(n) == buf@ + spec_varint(rem),
        decreases rem,
    {
        buf.push(((rem % 128) + 128) as u8);
        proof {
            assert(spec_varint(rem) =~= seq![((rem % 128) + 128) as u8] + spec_varint(rem / 128));
            assert(orig + spec_varint(n) =~= buf@ + spec_varint(rem / 128));
        }
        rem = rem / 128;
    }
    buf.push(rem as u8);
    proof {
        assert(spec_varint(rem) =~= seq![rem as u8]);
        assert(buf@ =~= orig + spec_varint(n));
    }
}

/// Parse a varint from `b` starting at `pos`, returning the value and the
/// position just past it.
pub fn parse_varint(b: &[u8], pos: usize) -> (r: Option<(u64, usize)>)
    requires
        pos <= b@.len(),
    ensures
        match r {
            Some(p) => pos < p.1 <= b@.len() && spec_parse_varint(b@, pos as int) == Some((
                p.0,
                p.1 as int,
            )),
            None => spec_parse_varint(b@, pos as int) is None,
        },
    decreases b@.len() - pos,
{
    if pos == b.len() {
        return None;
    }
    let byte = b[pos];
    if byte < 128 {
        return Some((byte as u64, pos + 1));
    }
    let lo: u64 = (byte - 128) as u64;
    match parse_varint(b, pos + 1) {
        None => None,
        Some((v, end)) => {
            if v <= (u64::MAX - lo) / 128 {
                proof {
                    lemma_mul_inequality(v as int, ((u64::MAX - lo) / 128) as int, 128);
                    lemma_fundamental_div_mod(u64::MAX - lo, 128);
                }
                Some((lo + 128 * v, end))
            } else {
                None
            }
        },
    }
}

proof fn lemma_varint_len_bound(n: u64, k: nat)
    requires
        1 <= k,
        n < pow2(7 * k),
    ensures
        spec_varint(n).len() <= k,
    decreases k,
{
    if n >= 128 {
        assert(7 * k == 7 * (k - 1) + 7);
        vstd::arithmetic::power2::lemma_pow2_adds(7 * (k - 1) as nat, 7);
        lemma2_to64();
        assert(pow2(7) == 128);
        lemma_multiply_divide_lt(n as int, pow2(7 * (k - 1) as nat) as int, 128);
        assert(k >= 2) by {
            if k == 1 {
                assert(pow2(7) == 128);
            }
        }
        lemma_varint_len_bound(n / 128, (k - 1) as nat);
    }
}

/// A varint encoding of a `u64` is between 1 and 10 bytes long.
pub proof fn lemma_varint_len(n: u64)
    ensures
        1 <= spec_varint(n).len() <= 10,
{
    lemma2_to64();
    lemma_pow2_strictly_increases(64, 70);
    lemma_varint_len_bound(n, 10);
}

/// The 10-byte frame prefix: the varint of `n`, right-padded with zeros.
pub open spec fn spec_prefix(n: u64) -> Seq<u8> {
    spec_varint(n) + Seq::new((10 - spec_varint(n).len()) as nat, |i: int| 0u8)
}

/// Parse a 10-byte prefix: the varint it opens with, accepted only when every
/// byte after the varint is zero.
pub open spec fn spec_parse_prefix(b: Seq<u8>) -> Option<u64> {
    if b.len() != 10 {
        None
    } else {
        match spec_parse_varint(b, 0) {
            Some((v, end)) => {
                if forall|i: int| end <= i < 10 ==> b[i] == 0 {
                    Some(v)
                } else {
                    None
                }
            },
            None => None,
        }
    }
}

/// A prefix decodes back to the length it was built from.
pub proof fn lemma_prefix_round_trip(n: u64)
    ensures
        spec_parse_prefix(spec_prefix(n)) == Some(n),
{
    lemma_varint_len(n);
    let b = spec_prefix(n);
    assert(b.subrange(0, spec_varint(n).len() as int) =~= spec_varint(n));
    lemma_varint_round_trip(n, b, 0);
}

/// Encode the 10-byte length prefix for a payload of `n` bytes.
pub fn encode_prefix(n: u64) -> (r: Vec<u8>)
    ensures
        r@ == spec_prefix(n),
        r@.len() == 10,
{
    proof {
        lemma_varint_len(n);
    }
    let mut buf: Vec<u8> = Vec::new();
    encode_varint(n, &mut buf);
    let ghost enc = spec_varint(n);
    while buf.len() < 10
        invariant
            enc.len() <= buf@.len() <= 10,
            buf@.subrange(0, enc.len() as int) == enc,
            forall|i: int| enc.len() <= i < buf@.len() ==> buf@[i] == 0,
        decreases 10 - buf.len(),
    {
        buf.push(0);
        proof {
            assert(buf@.subrange(0, enc.len() as int) =~= enc);
        }
    }
    proof {
        assert(buf@ =~= spec_prefix(n));
    }
    buf
}

/// Decode a 10-byte length prefix, holding the length to `max_len`.
///
/// A payload length above `max_len` is refused here, before any payload byte
/// is read.
pub fn decode_prefix(b: &[u8], max_len: u64) -> (r: Result<u64, FrameError>)
    ensures
        match r {
            Ok(n) => spec_parse_prefix(b@) == Some(n) && n <= max_len,
            Err(e) => match e {
                FrameError::Truncated => b@.len() != 10,
                FrameError::MalformedPrefix => b@.len() == 10 && spec_parse_prefix(b@) is None,
                FrameError::OversizedFrame => match spec_parse_prefix(b@) {
                    Some(n) => n > max_len,
                    None => false,
                },
                FrameError::MalformedPayload => false,
            },
        },
{
    if b.len() != 10 {
        return Err(FrameError::Truncated);
    }
    match parse_varint(b, 0) {
        None => Err(FrameError::MalformedPrefix),
        Some((n, end)) => {
            let mut i: usize = end;
            while i < 10
                invariant
                    end <= i <= 10,
                    b@.len() == 10,
                    spec_parse_varint(b@, 0) == Some((n, end as int)),
                    forall|j: int| end <= j < i ==> b@[j] == 0,
                decreases 10 - i,
            {
                if b[i] != 0 {
                    proof {
                        assert(!(forall|j: int| end <= j < 10 ==> b@[j] == 0)) by {
                            assert(b@[i as int] != 0);
                        }
                    }
                    return Err(FrameError::MalformedPrefix);
                }
                i = i + 1;
            }
            if n > max_len {
                Err(FrameError::OversizedFrame)
            } else {
                Ok(n)
            }
        },
    }
}

/// A whole frame: the 10-byte prefix holding the payload length, then the
/// payload bytes.
pub open spec fn spec_frame(payload: Seq<u8>) -> Seq<u8>
    recommends
        payload.len() <= u64::MAX,
{
    spec_prefix(payload.len() as u64) + payload
}

/// Decode a frame from the start of `b`: the payload bytes and the count of
/// bytes consumed.
pub open spec fn spec_parse_frame(b: Seq<u8>, max_len: u64) -> Option<(Seq<u8>, int)> {
    if b.len() < 10 {
        None
    } else {
        match spec_parse_prefix(b.take(10)) {
            Some(n) => {
                if n <= max_len && 10 + n <= b.len() {
                    Some((b.subrange(10, 10 + n as int), 10 + n as int))
                } else {
                    None
                }
            },
            None => None,
        }
    }
}

/// A frame decodes back to the payload it was built from.
pub proof fn lemma_frame_round_trip(payload: Seq<u8>, max_len: u64)
    requires
        payload.len() <= max_len,
    ensures
        spec_parse_frame(spec_frame(payload), max_len) == Some(
            (payload, 10 + payload.len() as int),
        ),
{
    let n = payload.len() as u64;
    lemma_varint_len(n);
    let b = spec_frame(payload);
    assert(b.take(10) =~= spec_prefix(n));
    lemma_prefix_round_trip(n);
    assert(b.subrange(10, 10 + n as int) =~= payload);
}

/// Frame a payload: prefix then payload bytes.
pub fn encode_frame(payload: &[u8]) -> (r: Vec<u8>)
    ensures
        r@ == spec_frame(payload@),
{
    let mut buf = encode_prefix(payload.len() as u64);
    buf.extend_from_slice(payload);
    buf
}

/// Decode one frame from the start of `buf`, returning the payload and how
/// many bytes of `buf` the frame occupied.
pub fn decode_frame(buf: &[u8], max_len: u64) -> (r: Result<(Vec<u8>, usize), FrameError>)
    ensures
        match r {
            Ok(p) => spec_parse_frame(buf@, max_len) == Some((p.0@, p.1 as int)),
            Err(e) => match e {
                FrameError::Truncated => buf@.len() < 10 || match spec_parse_prefix(buf@.take(10)) {
                    Some(n) => n <= max_len && 10 + n > buf@.len(),
                    None => false,
                },
                FrameError::MalformedPrefix => buf@.len() >= 10 && spec_parse_prefix(
                    buf@.take(10),
                ) is None,
                FrameError::OversizedFrame => match spec_parse_prefix(buf@.take(10)) {
                    Some(n) => buf@.len() >= 10 && n > max_len,
                    None => false,
                },
                FrameError::MalformedPayload => false,
            },
        },
{
    if buf.len() < 10 {
        return Err(FrameError::Truncated);
    }
    let head = slice_subrange(buf, 0, 10);
    let n = match decode_prefix(head, max_len) {
        Ok(n) => n,
        Err(e) => {
            return Err(e);
        },
    };
    if n > buf.len() as u64 - 10 {
        return Err(FrameError::Truncated);
    }
    let end: usize = 10 + n as usize;
    let payload = slice_to_vec(slice_subrange(buf, 10, end));
    Ok((payload, end))
}

} // verus!
