//! Byte-level encoding of the protocol schema: a deterministic tag/value
//! format in which every variable-length field carries a varint length.
//!
//! Each wire type has a spec encoder, a total spec parser working at a
//! position in a byte sequence, a proof that parsing an encoding yields the
//! encoded value back, and executable functions proved against the spec.

use crate::schema::{EdcsCalParams, EdcsKeyData, EdcsMessage, EdcsMessagePayload, EdcsMessageType,
    EdcsMouseEvent, EdcsMouseMove, EdcsResponse, EdcsResponsePayload, EdcsSetupEdcsData,
    EdcsSetupStreamData, EdcsStatus, EdcsStreamParams, MessagePayloadView, MessageView,
    ResponsePayloadView, ResponseView};
use crate::codec::{encode_varint, lemma_varint_round_trip, parse_varint, spec_parse_varint,
    spec_varint, FrameError};
use vstd::prelude::*;
use vstd::slice::{slice_subrange, slice_to_vec};
use vstd::utf8::{decode_utf8, encode_utf8, encode_utf8_decode_utf8, encode_utf8_valid_utf8,
    valid_utf8};

verus! {

/// `b` holds exactly `enc` starting at `pos`.
pub open spec fn holds_at(b: Seq<u8>, pos: int, enc: Seq<u8>) -> bool {
    &&& 0 <= pos
    &&& pos + enc.len() <= b.len()
    &&& b.subrange(pos, pos + enc.len() as int) == enc
}

/// Splitting a held concatenation: each half is held in place.
pub proof fn lemma_holds_at_split(b: Seq<u8>, pos: int, e1: Seq<u8>, e2: Seq<u8>)
    requires
        holds_at(b, pos, e1 + e2),
    ensures
        holds_at(b, pos, e1),
        holds_at(b, pos + e1.len(), e2),
{
    let e = e1 + e2;
    assert forall|j: int| 0 <= j < e1.len() implies b.index(pos + j) == e1[j] by {
        assert(b.subrange(pos, pos + e.len() as int)[j] == b.index(pos + j));
        assert(e[j] == e1[j]);
    }
    assert(b.subrange(pos, pos + e1.len() as int) =~= e1);
    assert forall|j: int| 0 <= j < e2.len() implies b.index(pos + e1.len() + j) == e2[j] by {
        assert(b.subrange(pos, pos + e.len() as int)[e1.len() + j] == b.index(
            pos + e1.len() + j,
        ));
        assert(e[e1.len() + j] == e2[j]);
    }
    assert(b.subrange(pos + e1.len(), pos + e1.len() + e2.len()) =~= e2);
}

// ---------------------------------------------------------------------------
// length-prefixed byte strings
// ---------------------------------------------------------------------------

/// A byte string on the wire: varint byte count, then the bytes.
pub open spec fn spec_enc_bytes(p: Seq<u8>) -> Seq<u8>
    recommends
        p.len() <= u64::MAX,
{
    spec_varint(p.len() as u64) + p
}

pub open spec fn spec_parse_bytes(b: Seq<u8>, pos: int) -> Option<(Seq<u8>, int)> {
    match spec_parse_varint(b, pos) {
        Some((n, p)) => {
            if p + n <= b.len() {
                Some((b.subrange(p, p + n as int), p + n as int))
            } else {
                None
            }
        },
        None => None,
    }
}

pub proof fn lemma_bytes_round_trip(p: Seq<u8>, b: Seq<u8>, pos: int)
    requires
        p.len() <= u64::MAX,
        holds_at(b, pos, spec_enc_bytes(p)),
    ensures
        spec_parse_bytes(b, pos) == Some((p, pos + spec_enc_bytes(p).len() as int)),
{
    let n = p.len() as u64;
    lemma_holds_at_split(b, pos, spec_varint(n), p);
    lemma_varint_round_trip(n, b, pos);
    let p1 = pos + spec_varint(n).len() as int;
    assert(b.subrange(p1, p1 + n as int) == p);
}

/// Append the wire form of `p` to `buf`.
pub fn encode_bytes(p: &[u8], buf: &mut Vec<u8>)
    ensures
        final(buf)@ == old(buf)@ + spec_enc_bytes(p@),
{
    let n = p.len();
    encode_varint(n as u64, buf);
    buf.extend_from_slice(p);
    proof {
        assert(buf@ =~= old(buf)@ + spec_enc_bytes(p@));
    }
}

/// Parse a length-prefixed byte string at `pos`.
pub fn parse_bytes(b: &[u8], pos: usize) -> (r: Option<(Vec<u8>, usize)>)
    requires
        pos <= b@.len(),
    ensures
        match r {
            Some(p) => pos <= p.1 <= b@.len() && spec_parse_bytes(b@, pos as int) == Some((
                p.0@,
                p.1 as int,
            )),
            None => spec_parse_bytes(b@, pos as int) is None,
        },
{
    match parse_varint(b, pos) {
        None => None,
        Some((n, p)) => {
            if n <= (b.len() - p) as u64 {
                let end: usize = p + n as usize;
                let out = slice_to_vec(slice_subrange(b, p, end));
                Some((out, end))
            } else {
                None
            }
        },
    }
}

// ---------------------------------------------------------------------------
// strings
// ---------------------------------------------------------------------------

/// A string is bounded enough to carry on the wire.
pub open spec fn wf_string(s: Seq<char>) -> bool {
    encode_utf8(s).len() <= u64::MAX
}

/// A string on the wire: its UTF-8 bytes, length-prefixed.
pub open spec fn spec_enc_string(s: Seq<char>) -> Seq<u8>
    recommends
        wf_string(s),
{
    spec_enc_bytes(encode_utf8(s))
}

pub open spec fn spec_parse_string(b: Seq<u8>, pos: int) -> Option<(Seq<char>, int)> {
    match spec_parse_bytes(b, pos) {
        Some((bs, p)) => {
            if valid_utf8(bs) {
                Some((decode_utf8(bs), p))
            } else {
                None
            }
        },
        None => None,
    }
}

pub proof fn lemma_string_round_trip(s: Seq<char>, b: Seq<u8>, pos: int)
    requires
        wf_string(s),
        holds_at(b, pos, spec_enc_string(s)),
    ensures
        spec_parse_string(b, pos) == Some((s, pos + spec_enc_string(s).len() as int)),
{
    broadcast use encode_utf8_valid_utf8, encode_utf8_decode_utf8;

    lemma_bytes_round_trip(encode_utf8(s), b, pos);
}

/// Relies on `String::from_utf8`: `Ok` exactly on valid UTF-8 input, giving
/// the string those bytes spell.
#[verifier::external_body]
fn string_from_utf8(v: Vec<u8>) -> (r: Option<String>)
    ensures
        match r {
            Some(s) => valid_utf8(v@) && s@ == decode_utf8(v@),
            None => !valid_utf8(v@),
        },
{
    String::from_utf8(v).ok()
}

/// Append the wire form of `s` to `buf`.
pub fn encode_string(s: &str, buf: &mut Vec<u8>)
    ensures
        final(buf)@ == old(buf)@ + spec_enc_string(s@),
{
    let bytes = s.as_bytes();
    encode_bytes(bytes, buf);
}

/// Parse a length-prefixed UTF-8 string at `pos`.
pub fn parse_string(b: &[u8], pos: usize) -> (r: Option<(String, usize)>)
    requires
        pos <= b@.len(),
    ensures
        match r {
            Some(p) => pos <= p.1 <= b@.len() && spec_parse_string(b@, pos as int) == Some((
                p.0@,
                p.1 as int,
            )),
            None => spec_parse_string(b@, pos as int) is None,
        },
{
    match parse_bytes(b, pos) {
        None => None,
        Some((bs, end)) => match string_from_utf8(bs) {
            Some(s) => Some((s, end)),
            None => None,
        },
    }
}

// ---------------------------------------------------------------------------
// scalars
// ---------------------------------------------------------------------------

/// A `u32` on the wire: its varint.
pub open spec fn spec_enc_u32(v: u32) -> Seq<u8> {
    spec_varint(v as u64)
}

pub open spec fn spec_parse_u32(b: Seq<u8>, pos: int) -> Option<(u32, int)> {
    match spec_parse_varint(b, pos) {
        Some((v, p)) => {
            if v <= u32::MAX {
                Some((v as u32, p))
            } else {
                None
            }
        },
        None => None,
    }
}

pub proof fn lemma_u32_round_trip(v: u32, b: Seq<u8>, pos: int)
    requires
        holds_at(b, pos, spec_enc_u32(v)),
    ensures
        spec_parse_u32(b, pos) == Some((v, pos + spec_enc_u32(v).len() as int)),
{
    lemma_varint_round_trip(v as u64, b, pos);
}

pub fn encode_u32(v: u32, buf: &mut Vec<u8>)
    ensures
        final(buf)@ == old(buf)@ + spec_enc_u32(v),
{
    encode_varint(v as u64, buf);
}

pub fn parse_u32(b: &[u8], pos: usize) -> (r: Option<(u32, usize)>)
    requires
        pos <= b@.len(),
    ensures
        match r {
            Some(p) => pos <= p.1 <= b@.len() && spec_parse_u32(b@, pos as int) == Some((
                p.0,
                p.1 as int,
            )),
            None => spec_parse_u32(b@, pos as int) is None,
        },
{
    match parse_varint(b, pos) {
        None => None,
        Some((v, p)) => {
            if v <= u32::MAX as u64 {
                Some((v as u32, p))
            } else {
                None
            }
        },
    }
}

/// A `bool` on the wire: one byte, 0 or 1.
pub open spec fn spec_enc_bool(v: bool) -> Seq<u8> {
    seq![if v { 1u8 } else { 0u8 }]
}

pub open spec fn spec_parse_bool(b: Seq<u8>, pos: int) -> Option<(bool, int)> {
    if !(0 <= pos < b.len()) {
        None
    } else if b[pos] == 0 {
        Some((false, pos + 1))
    } else if b[pos] == 1 {
        Some((true, pos + 1))
    } else {
        None
    }
}

pub proof fn lemma_bool_round_trip(v: bool, b: Seq<u8>, pos: int)
    requires
        holds_at(b, pos, spec_enc_bool(v)),
    ensures
        spec_parse_bool(b, pos) == Some((v, pos + 1)),
{
    assert(b.index(pos) == spec_enc_bool(v)[0]);
}

pub fn encode_bool(v: bool, buf: &mut Vec<u8>)
    ensures
        final(buf)@ == old(buf)@ + spec_enc_bool(v),
{
    buf.push(if v { 1 } else { 0 });
    proof {
        assert(buf@ =~= old(buf)@ + spec_enc_bool(v));
    }
}

pub fn parse_bool(b: &[u8], pos: usize) -> (r: Option<(bool, usize)>)
    requires
        pos <= b@.len(),
    ensures
        match r {
            Some(p) => pos < p.1 <= b@.len() && spec_parse_bool(b@, pos as int) == Some((
                p.0,
                p.1 as int,
            )),
            None => spec_parse_bool(b@, pos as int) is None,
        },
{
    if pos == b.len() {
        return None;
    }
    let byte = b[pos];
    if byte == 0 {
        Some((false, pos + 1))
    } else if byte == 1 {
        Some((true, pos + 1))
    } else {
        None
    }
}

// ---------------------------------------------------------------------------
// the capability dictionary
// ---------------------------------------------------------------------------

/// Every key and value fits on the wire.
pub open spec fn wf_dict(d: Seq<(Seq<char>, Seq<char>)>) -> bool {
    &&& d.len() <= u64::MAX
    &&& forall|i: int| 0 <= i < d.len() ==> wf_string(#[trigger] d[i].0) && wf_string(d[i].1)
}

/// One dictionary entry on the wire: key then value.
pub open spec fn spec_enc_pair(p: (Seq<char>, Seq<char>)) -> Seq<u8> {
    spec_enc_string(p.0) + spec_enc_string(p.1)
}

/// The entries of a dictionary on the wire, in order.
pub open spec fn spec_enc_dict_entries(d: Seq<(Seq<char>, Seq<char>)>) -> Seq<u8>
    decreases d.len(),
{
    if d.len() == 0 {
        Seq::empty()
    } else {
        spec_enc_pair(d[0]) + spec_enc_dict_entries(d.skip(1))
    }
}

/// A dictionary on the wire: varint entry count, then the entries.
pub open spec fn spec_enc_dict(d: Seq<(Seq<char>, Seq<char>)>) -> Seq<u8>
    recommends
        wf_dict(d),
{
    spec_varint(d.len() as u64) + spec_enc_dict_entries(d)
}

pub open spec fn spec_parse_pair(b: Seq<u8>, pos: int) -> Option<((Seq<char>, Seq<char>), int)> {
    match spec_parse_string(b, pos) {
        Some((k, p1)) => match spec_parse_string(b, p1) {
            Some((v, p2)) => Some(((k, v), p2)),
            None => None,
        },
        None => None,
    }
}

pub open spec fn spec_parse_dict_entries(b: Seq<u8>, pos: int, count: u64) -> Option<
    (Seq<(Seq<char>, Seq<char>)>, int),
>
    decreases count,
{
    if count == 0 {
        Some((Seq::empty(), pos))
    } else {
        match spec_parse_pair(b, pos) {
            Some((kv, p)) => match spec_parse_dict_entries(b, p, (count - 1) as u64) {
                Some((rest, end)) => Some((seq![kv] + rest, end)),
                None => None,
            },
            None => None,
        }
    }
}

pub open spec fn spec_parse_dict(b: Seq<u8>, pos: int) -> Option<
    (Seq<(Seq<char>, Seq<char>)>, int),
> {
    match spec_parse_varint(b, pos) {
        Some((n, p)) => spec_parse_dict_entries(b, p, n),
        None => None,
    }
}

pub proof fn lemma_pair_round_trip(p: (Seq<char>, Seq<char>), b: Seq<u8>, pos: int)
    requires
        wf_string(p.0),
        wf_string(p.1),
        holds_at(b, pos, spec_enc_pair(p)),
    ensures
        spec_parse_pair(b, pos) == Some((p, pos + spec_enc_pair(p).len() as int)),
{
    lemma_holds_at_split(b, pos, spec_enc_string(p.0), spec_enc_string(p.1));
    lemma_string_round_trip(p.0, b, pos);
    lemma_string_round_trip(p.1, b, pos + spec_enc_string(p.0).len());
}

pub proof fn lemma_dict_entries_round_trip(d: Seq<(Seq<char>, Seq<char>)>, b: Seq<u8>, pos: int)
    requires
        wf_dict(d),
        holds_at(b, pos, spec_enc_dict_entries(d)),
    ensures
        spec_parse_dict_entries(b, pos, d.len() as u64) == Some((
            d,
            pos + spec_enc_dict_entries(d).len() as int,
        )),
    decreases d.len(),
{
    if d.len() == 0 {
    } else {
        let head = spec_enc_pair(d[0]);
        let tail = d.skip(1);
        lemma_holds_at_split(b, pos, head, spec_enc_dict_entries(tail));
        lemma_pair_round_trip(d[0], b, pos);
        assert(wf_dict(tail)) by {
            assert(forall|i: int|
                0 <= i < tail.len() ==> #[trigger] tail[i] == d[i + 1] && wf_string(d[i + 1].0)
                    && wf_string(d[i + 1].1));
        }
        lemma_dict_entries_round_trip(tail, b, pos + head.len());
        assert(seq![d[0]] + tail =~= d);
    }
}

pub proof fn lemma_dict_round_trip(d: Seq<(Seq<char>, Seq<char>)>, b: Seq<u8>, pos: int)
    requires
        wf_dict(d),
        holds_at(b, pos, spec_enc_dict(d)),
    ensures
        spec_parse_dict(b, pos) == Some((d, pos + spec_enc_dict(d).len() as int)),
{
    let n = d.len() as u64;
    lemma_holds_at_split(b, pos, spec_varint(n), spec_enc_dict_entries(d));
    lemma_varint_round_trip(n, b, pos);
    lemma_dict_entries_round_trip(d, b, pos + spec_varint(n).len());
}

proof fn lemma_enc_entries_take_succ(d: Seq<(Seq<char>, Seq<char>)>, i: int)
    requires
        0 <= i < d.len(),
    ensures
        spec_enc_dict_entries(d.take(i + 1)) == spec_enc_dict_entries(d.take(i)) + spec_enc_pair(
            d[i],
        ),
    decreases i,
{
    if i == 0 {
        assert(d.take(1).skip(1) =~= Seq::<(Seq<char>, Seq<char>)>::empty());
        assert(d.take(0) =~= Seq::<(Seq<char>, Seq<char>)>::empty());
        assert(d.take(1)[0] == d[0]);
        assert(spec_enc_dict_entries(d.take(1)) == spec_enc_pair(d[0]) + spec_enc_dict_entries(
            Seq::<(Seq<char>, Seq<char>)>::empty(),
        ));
        assert(spec_enc_dict_entries(Seq::<(Seq<char>, Seq<char>)>::empty())
            == Seq::<u8>::empty());
        assert(spec_enc_dict_entries(d.take(1)) =~= spec_enc_pair(d[0]));
        assert(spec_enc_dict_entries(d.take(0)) + spec_enc_pair(d[0]) =~= spec_enc_pair(d[0]));
    } else {
        let t = d.skip(1);
        lemma_enc_entries_take_succ(t, i - 1);
        assert(d.take(i + 1).skip(1) =~= t.take(i));
        assert(d.take(i).skip(1) =~= t.take(i - 1));
        assert(d.take(i + 1)[0] == d[0]);
        assert(d.take(i)[0] == d[0]);
        assert(t[i - 1] == d[i]);
        assert(spec_enc_dict_entries(d.take(i + 1)) =~= spec_enc_dict_entries(d.take(i))
            + spec_enc_pair(d[i]));
    }
}

/// Append the wire form of the dictionary to `buf`.
pub fn encode_dict(d: &Vec<(String, String)>, buf: &mut Vec<u8>)
    ensures
        final(buf)@ == old(buf)@ + spec_enc_dict(d.deep_view()),
{
    let ghost orig = buf@;
    let ghost dv = d.deep_view();
    encode_varint(d.len() as u64, buf);
    let mut i: usize = 0;
    while i < d.len()
        invariant
            i <= d.len(),
            dv == d.deep_view(),
            dv.len() == d@.len(),
            buf@ == orig + spec_varint(d@.len() as u64) + spec_enc_dict_entries(dv.take(i as int)),
        decreases d.len() - i,
    {
        let ghost before = buf@;
        encode_string(d[i].0.as_str(), buf);
        encode_string(d[i].1.as_str(), buf);
        proof {
            assert(dv[i as int] == (d@[i as int].0@, d@[i as int].1@));
            assert(buf@ =~= before + spec_enc_pair(dv[i as int]));
            lemma_enc_entries_take_succ(dv, i as int);
            assert(buf@ =~= orig + spec_varint(d@.len() as u64) + spec_enc_dict_entries(
                dv.take(i + 1),
            ));
        }
        i = i + 1;
    }
    proof {
        assert(dv.take(dv.len() as int) =~= dv);
        assert(buf@ =~= orig + spec_enc_dict(dv));
    }
}

/// Parse a dictionary at `pos`.
pub fn parse_dict(b: &[u8], pos: usize) -> (r: Option<(Vec<(String, String)>, usize)>)
    requires
        pos <= b@.len(),
    ensures
        match r {
            Some(p) => pos <= p.1 <= b@.len() && spec_parse_dict(b@, pos as int) == Some((
                p.0.deep_view(),
                p.1 as int,
            )),
            None => spec_parse_dict(b@, pos as int) is None,
        },
{
    let (count, start) = match parse_varint(b, pos) {
        Some(p) => p,
        None => {
            return None;
        },
    };
    let mut out: Vec<(String, String)> = Vec::new();
    let mut p: usize = start;
    let mut i: u64 = 0;
    while i < count
        invariant
            i <= count,
            pos <= p <= b@.len(),
            spec_parse_varint(b@, pos as int) == Some((count, start as int)),
            match spec_parse_dict_entries(b@, p as int, (count - i) as u64) {
                Some(q) => spec_parse_dict_entries(b@, start as int, count) == Some((
                    out.deep_view() + q.0,
                    q.1,
                )),
                None => spec_parse_dict_entries(b@, start as int, count) is None,
            },
        decreases count - i,
    {
        let ghost entries_left = (count - i) as u64;
        let ghost p_before = p as int;
        let (k, p1) = match parse_string(b, p) {
            Some(q) => q,
            None => {
                return None;
            },
        };
        let (v, p2) = match parse_string(b, p1) {
            Some(q) => q,
            None => {
                return None;
            },
        };
        proof {
            assert(spec_parse_pair(b@, p_before) == Some(((k@, v@), p2 as int)));
        }
        let ghost out_before = out.deep_view();
        out.push((k, v));
        proof {
            assert(out.deep_view() =~= out_before + seq![(k@, v@)]);
            if spec_parse_dict_entries(b@, p2 as int, (entries_left - 1) as u64) is Some {
                let q = spec_parse_dict_entries(b@, p2 as int, (entries_left - 1) as u64)->Some_0;
                assert(out_before + (seq![(k@, v@)] + q.0) =~= out.deep_view() + q.0);
            }
        }
        p = p2;
        i = i + 1;
    }
    proof {
        assert(out.deep_view() + Seq::<(Seq<char>, Seq<char>)>::empty() =~= out.deep_view());
    }
    Some((out, p))
}

// ---------------------------------------------------------------------------
// schema components
// ---------------------------------------------------------------------------

/// `b` holds the single byte `t` at `pos`.
proof fn lemma_holds_at_byte(b: Seq<u8>, pos: int, t: u8)
    requires
        holds_at(b, pos, seq![t]),
    ensures
        0 <= pos < b.len() && b[pos] == t,
{
    assert(b.subrange(pos, pos + 1)[0] == b.index(pos));
}

/// Key data on the wire: the code, then the pressed flag.
pub open spec fn spec_enc_key_data(k: EdcsKeyData) -> Seq<u8> {
    spec_enc_u32(k.btn_typ) + spec_enc_bool(k.pressed)
}

pub open spec fn spec_parse_key_data(b: Seq<u8>, pos: int) -> Option<(EdcsKeyData, int)> {
    match spec_parse_u32(b, pos) {
        Some((code, p1)) => match spec_parse_bool(b, p1) {
            Some((pressed, p2)) => Some((EdcsKeyData { btn_typ: code, pressed }, p2)),
            None => None,
        },
        None => None,
    }
}

pub proof fn lemma_key_data_round_trip(k: EdcsKeyData, b: Seq<u8>, pos: int)
    requires
        holds_at(b, pos, spec_enc_key_data(k)),
    ensures
        spec_parse_key_data(b, pos) == Some((k, pos + spec_enc_key_data(k).len() as int)),
{
    lemma_holds_at_split(b, pos, spec_enc_u32(k.btn_typ), spec_enc_bool(k.pressed));
    lemma_u32_round_trip(k.btn_typ, b, pos);
    lemma_bool_round_trip(k.pressed, b, pos + spec_enc_u32(k.btn_typ).len());
}

pub fn encode_key_data(k: &EdcsKeyData, buf: &mut Vec<u8>)
    ensures
        final(buf)@ == old(buf)@ + spec_enc_key_data(*k),
{
    encode_u32(k.btn_typ, buf);
    encode_bool(k.pressed, buf);
    proof {
        assert(buf@ =~= old(buf)@ + spec_enc_key_data(*k));
    }
}

pub fn parse_key_data(b: &[u8], pos: usize) -> (r: Option<(EdcsKeyData, usize)>)
    requires
        pos <= b@.len(),
    ensures
        match r {
            Some(p) => pos <= p.1 <= b@.len() && spec_parse_key_data(b@, pos as int) == Some((
                p.0,
                p.1 as int,
            )),
            None => spec_parse_key_data(b@, pos as int) is None,
        },
{
    let (code, p1) = match parse_u32(b, pos) {
        Some(q) => q,
        None => {
            return None;
        },
    };
    let (pressed, p2) = match parse_bool(b, p1) {
        Some(q) => q,
        None => {
            return None;
        },
    };
    Some((EdcsKeyData { btn_typ: code, pressed }, p2))
}

/// A mouse event on the wire: 0 for a button action, 1 for a move.
pub open spec fn spec_enc_mouse_event(e: EdcsMouseEvent) -> Seq<u8> {
    match e {
        EdcsMouseEvent::Button(k) => seq![0u8] + spec_enc_key_data(k),
        EdcsMouseEvent::Move(m) => seq![1u8] + spec_enc_u32(m.x) + spec_enc_u32(m.y),
    }
}

pub open spec fn spec_parse_mouse_event(b: Seq<u8>, pos: int) -> Option<(EdcsMouseEvent, int)> {
    if !(0 <= pos < b.len()) {
        None
    } else if b[pos] == 0 {
        match spec_parse_key_data(b, pos + 1) {
            Some((k, p)) => Some((EdcsMouseEvent::Button(k), p)),
            None => None,
        }
    } else if b[pos] == 1 {
        match spec_parse_u32(b, pos + 1) {
            Some((x, p1)) => match spec_parse_u32(b, p1) {
                Some((y, p2)) => Some((EdcsMouseEvent::Move(EdcsMouseMove { x, y }), p2)),
                None => None,
            },
            None => None,
        }
    } else {
        None
    }
}

pub proof fn lemma_mouse_event_round_trip(e: EdcsMouseEvent, b: Seq<u8>, pos: int)
    requires
        holds_at(b, pos, spec_enc_mouse_event(e)),
    ensures
        spec_parse_mouse_event(b, pos) == Some((e, pos + spec_enc_mouse_event(e).len() as int)),
{
    match e {
        EdcsMouseEvent::Button(k) => {
            lemma_holds_at_split(b, pos, seq![0u8], spec_enc_key_data(k));
            lemma_holds_at_byte(b, pos, 0);
            lemma_key_data_round_trip(k, b, pos + 1);
        },
        EdcsMouseEvent::Move(m) => {
            assert(seq![1u8] + spec_enc_u32(m.x) + spec_enc_u32(m.y) =~= seq![1u8] + (spec_enc_u32(
                m.x,
            ) + spec_enc_u32(m.y)));
            lemma_holds_at_split(b, pos, seq![1u8], spec_enc_u32(m.x) + spec_enc_u32(m.y));
            lemma_holds_at_byte(b, pos, 1);
            lemma_holds_at_split(b, pos + 1, spec_enc_u32(m.x), spec_enc_u32(m.y));
            lemma_u32_round_trip(m.x, b, pos + 1);
            lemma_u32_round_trip(m.y, b, pos + 1 + spec_enc_u32(m.x).len());
        },
    }
}

pub fn encode_mouse_event(e: &EdcsMouseEvent, buf: &mut Vec<u8>)
    ensures
        final(buf)@ == old(buf)@ + spec_enc_mouse_event(*e),
{
    match e {
        EdcsMouseEvent::Button(k) => {
            buf.push(0);
            encode_key_data(k, buf);
        },
        EdcsMouseEvent::Move(m) => {
            buf.push(1);
            encode_u32(m.x, buf);
            encode_u32(m.y, buf);
        },
    }
    proof {
        assert(buf@ =~= old(buf)@ + spec_enc_mouse_event(*e));
    }
}

pub fn parse_mouse_event(b: &[u8], pos: usize) -> (r: Option<(EdcsMouseEvent, usize)>)
    requires
        pos <= b@.len(),
    ensures
        match r {
            Some(p) => pos <= p.1 <= b@.len() && spec_parse_mouse_event(b@, pos as int) == Some((
                p.0,
                p.1 as int,
            )),
            None => spec_parse_mouse_event(b@, pos as int) is None,
        },
{
    if pos == b.len() {
        return None;
    }
    let tag = b[pos];
    if tag == 0 {
        match parse_key_data(b, pos + 1) {
            Some((k, p)) => Some((EdcsMouseEvent::Button(k), p)),
            None => None,
        }
    } else if tag == 1 {
        let (x, p1) = match parse_u32(b, pos + 1) {
            Some(q) => q,
            None => {
                return None;
            },
        };
        let (y, p2) = match parse_u32(b, p1) {
            Some(q) => q,
            None => {
                return None;
            },
        };
        Some((EdcsMouseEvent::Move(EdcsMouseMove { x, y }), p2))
    } else {
        None
    }
}

/// Stream parameters on the wire: bitrate then framerate.
pub open spec fn spec_enc_stream_params(p: EdcsStreamParams) -> Seq<u8> {
    spec_enc_u32(p.bitrate) + spec_enc_u32(p.framerate)
}

pub open spec fn spec_parse_stream_params(b: Seq<u8>, pos: int) -> Option<(EdcsStreamParams, int)> {
    match spec_parse_u32(b, pos) {
        Some((bitrate, p1)) => match spec_parse_u32(b, p1) {
            Some((framerate, p2)) => Some((EdcsStreamParams { bitrate, framerate }, p2)),
            None => None,
        },
        None => None,
    }
}

pub proof fn lemma_stream_params_round_trip(p: EdcsStreamParams, b: Seq<u8>, pos: int)
    requires
        holds_at(b, pos, spec_enc_stream_params(p)),
    ensures
        spec_parse_stream_params(b, pos) == Some((p, pos + spec_enc_stream_params(p).len() as int)),
{
    lemma_holds_at_split(b, pos, spec_enc_u32(p.bitrate), spec_enc_u32(p.framerate));
    lemma_u32_round_trip(p.bitrate, b, pos);
    lemma_u32_round_trip(p.framerate, b, pos + spec_enc_u32(p.bitrate).len());
}

pub fn encode_stream_params(p: &EdcsStreamParams, buf: &mut Vec<u8>)
    ensures
        final(buf)@ == old(buf)@ + spec_enc_stream_params(*p),
{
    encode_u32(p.bitrate, buf);
    encode_u32(p.framerate, buf);
    proof {
        assert(buf@ =~= old(buf)@ + spec_enc_stream_params(*p));
    }
}

pub fn parse_stream_params(b: &[u8], pos: usize) -> (r: Option<(EdcsStreamParams, usize)>)
    requires
        pos <= b@.len(),
    ensures
        match r {
            Some(p) => pos <= p.1 <= b@.len() && spec_parse_stream_params(b@, pos as int) == Some(
                (p.0, p.1 as int),
            ),
            None => spec_parse_stream_params(b@, pos as int) is None,
        },
{
    let (bitrate, p1) = match parse_u32(b, pos) {
        Some(q) => q,
        None => {
            return None;
        },
    };
    let (framerate, p2) = match parse_u32(b, p1) {
        Some(q) => q,
        None => {
            return None;
        },
    };
    Some((EdcsStreamParams { bitrate, framerate }, p2))
}

/// Optional stream parameters on the wire: 0 for absent, 1 then the value.
pub open spec fn spec_enc_opt_stream_params(o: Option<EdcsStreamParams>) -> Seq<u8> {
    match o {
        None => seq![0u8],
        Some(p) => seq![1u8] + spec_enc_stream_params(p),
    }
}

pub open spec fn spec_parse_opt_stream_params(b: Seq<u8>, pos: int) -> Option<
    (Option<EdcsStreamParams>, int),
> {
    if !(0 <= pos < b.len()) {
        None
    } else if b[pos] == 0 {
        Some((None, pos + 1))
    } else if b[pos] == 1 {
        match spec_parse_stream_params(b, pos + 1) {
            Some((p, end)) => Some((Some(p), end)),
            None => None,
        }
    } else {
        None
    }
}

pub proof fn lemma_opt_stream_params_round_trip(o: Option<EdcsStreamParams>, b: Seq<u8>, pos: int)
    requires
        holds_at(b, pos, spec_enc_opt_stream_params(o)),
    ensures
        spec_parse_opt_stream_params(b, pos) == Some((
            o,
            pos + spec_enc_opt_stream_params(o).len() as int,
        )),
{
    match o {
        None => {
            lemma_holds_at_byte(b, pos, 0);
        },
        Some(p) => {
            lemma_holds_at_split(b, pos, seq![1u8], spec_enc_stream_params(p));
            lemma_holds_at_byte(b, pos, 1);
            lemma_stream_params_round_trip(p, b, pos + 1);
        },
    }
}

pub fn encode_opt_stream_params(o: &Option<EdcsStreamParams>, buf: &mut Vec<u8>)
    ensures
        final(buf)@ == old(buf)@ + spec_enc_opt_stream_params(*o),
{
    match o {
        None => {
            buf.push(0);
        },
        Some(p) => {
            buf.push(1);
            encode_stream_params(p, buf);
        },
    }
    proof {
        assert(buf@ =~= old(buf)@ + spec_enc_opt_stream_params(*o));
    }
}

pub fn parse_opt_stream_params(b: &[u8], pos: usize) -> (r: Option<
    (Option<EdcsStreamParams>, usize),
>)
    requires
        pos <= b@.len(),
    ensures
        match r {
            Some(p) => pos <= p.1 <= b@.len() && spec_parse_opt_stream_params(b@, pos as int)
                == Some((p.0, p.1 as int)),
            None => spec_parse_opt_stream_params(b@, pos as int) is None,
        },
{
    if pos == b.len() {
        return None;
    }
    let tag = b[pos];
    if tag == 0 {
        Some((None, pos + 1))
    } else if tag == 1 {
        match parse_stream_params(b, pos + 1) {
            Some((p, end)) => Some((Some(p), end)),
            None => None,
        }
    } else {
        None
    }
}

// ---------------------------------------------------------------------------
// requests
// ---------------------------------------------------------------------------

/// The payload carried by a request, tagged by variant.
pub open spec fn spec_enc_message_payload(p: MessagePayloadView) -> Seq<u8> {
    match p {
        MessagePayloadView::SetupEdcsParams(sp) => seq![0u8] + spec_enc_stream_params(sp),
        MessagePayloadView::SetupStreamParams(d) => seq![1u8] + spec_enc_dict(d),
        MessagePayloadView::MouseEvent(e) => seq![2u8] + spec_enc_mouse_event(e),
        MessagePayloadView::KeyboardEvent(k) => seq![3u8] + spec_enc_key_data(k),
    }
}

/// The payload fits on the wire.
pub open spec fn wf_message_payload(p: MessagePayloadView) -> bool {
    match p {
        MessagePayloadView::SetupStreamParams(d) => wf_dict(d),
        _ => true,
    }
}

pub open spec fn spec_parse_message_payload(b: Seq<u8>, pos: int) -> Option<
    (MessagePayloadView, int),
> {
    if !(0 <= pos < b.len()) {
        None
    } else if b[pos] == 0 {
        match spec_parse_stream_params(b, pos + 1) {
            Some((sp, end)) => Some((MessagePayloadView::SetupEdcsParams(sp), end)),
            None => None,
        }
    } else if b[pos] == 1 {
        match spec_parse_dict(b, pos + 1) {
            Some((d, end)) => Some((MessagePayloadView::SetupStreamParams(d), end)),
            None => None,
        }
    } else if b[pos] == 2 {
        match spec_parse_mouse_event(b, pos + 1) {
            Some((e, end)) => Some((MessagePayloadView::MouseEvent(e), end)),
            None => None,
        }
    } else if b[pos] == 3 {
        match spec_parse_key_data(b, pos + 1) {
            Some((k, end)) => Some((MessagePayloadView::KeyboardEvent(k), end)),
            None => None,
        }
    } else {
        None
    }
}

pub proof fn lemma_message_payload_round_trip(p: MessagePayloadView, b: Seq<u8>, pos: int)
    requires
        wf_message_payload(p),
        holds_at(b, pos, spec_enc_message_payload(p)),
    ensures
        spec_parse_message_payload(b, pos) == Some((
            p,
            pos + spec_enc_message_payload(p).len() as int,
        )),
{
    match p {
        MessagePayloadView::SetupEdcsParams(sp) => {
            lemma_holds_at_split(b, pos, seq![0u8], spec_enc_stream_params(sp));
            lemma_holds_at_byte(b, pos, 0);
            lemma_stream_params_round_trip(sp, b, pos + 1);
        },
        MessagePayloadView::SetupStreamParams(d) => {
            lemma_holds_at_split(b, pos, seq![1u8], spec_enc_dict(d));
            lemma_holds_at_byte(b, pos, 1);
            lemma_dict_round_trip(d, b, pos + 1);
        },
        MessagePayloadView::MouseEvent(e) => {
            lemma_holds_at_split(b, pos, seq![2u8], spec_enc_mouse_event(e));
            lemma_holds_at_byte(b, pos, 2);
            lemma_mouse_event_round_trip(e, b, pos + 1);
        },
        MessagePayloadView::KeyboardEvent(k) => {
            lemma_holds_at_split(b, pos, seq![3u8], spec_enc_key_data(k));
            lemma_holds_at_byte(b, pos, 3);
            lemma_key_data_round_trip(k, b, pos + 1);
        },
    }
}

pub fn encode_message_payload(p: &EdcsMessagePayload, buf: &mut Vec<u8>)
    ensures
        final(buf)@ == old(buf)@ + spec_enc_message_payload(p@),
{
    match p {
        EdcsMessagePayload::SetupEdcsParams(sp) => {
            buf.push(0);
            encode_stream_params(sp, buf);
        },
        EdcsMessagePayload::SetupStreamParams(cal) => {
            buf.push(1);
            encode_dict(&cal.cal_option_dict, buf);
        },
        EdcsMessagePayload::MouseEvent(e) => {
            buf.push(2);
            encode_mouse_event(e, buf);
        },
        EdcsMessagePayload::KeyboardEvent(k) => {
            buf.push(3);
            encode_key_data(k, buf);
        },
    }
    proof {
        assert(buf@ =~= old(buf)@ + spec_enc_message_payload(p@));
    }
}

pub fn parse_message_payload(b: &[u8], pos: usize) -> (r: Option<(EdcsMessagePayload, usize)>)
    requires
        pos <= b@.len(),
    ensures
        match r {
            Some(p) => pos <= p.1 <= b@.len() && spec_parse_message_payload(b@, pos as int)
                == Some((p.0@, p.1 as int)),
            None => spec_parse_message_payload(b@, pos as int) is None,
        },
{
    if pos == b.len() {
        return None;
    }
    let tag = b[pos];
    if tag == 0 {
        match parse_stream_params(b, pos + 1) {
            Some((sp, end)) => Some((EdcsMessagePayload::SetupEdcsParams(sp), end)),
            None => None,
        }
    } else if tag == 1 {
        match parse_dict(b, pos + 1) {
            Some((d, end)) => Some((
                EdcsMessagePayload::SetupStreamParams(EdcsCalParams { cal_option_dict: d }),
                end,
            )),
            None => None,
        }
    } else if tag == 2 {
        match parse_mouse_event(b, pos + 1) {
            Some((e, end)) => Some((EdcsMessagePayload::MouseEvent(e), end)),
            None => None,
        }
    } else if tag == 3 {
        match parse_key_data(b, pos + 1) {
            Some((k, end)) => Some((EdcsMessagePayload::KeyboardEvent(k), end)),
            None => None,
        }
    } else {
        None
    }
}

/// A request on the wire: its type code, then 0 for no payload or 1 and the
/// payload.
pub open spec fn spec_enc_message(m: MessageView) -> Seq<u8> {
    seq![m.message_type.spec_code()] + match m.payload {
        None => seq![0u8],
        Some(p) => seq![1u8] + spec_enc_message_payload(p),
    }
}

/// The request fits on the wire.
pub open spec fn wf_message(m: MessageView) -> bool {
    match m.payload {
        Some(p) => wf_message_payload(p),
        None => true,
    }
}

pub open spec fn spec_parse_message_at(b: Seq<u8>, pos: int) -> Option<(MessageView, int)> {
    if !(0 <= pos < b.len()) {
        None
    } else {
        match EdcsMessageType::spec_from_code(b[pos]) {
            Some(mt) => {
                let p1 = pos + 1;
                if !(p1 < b.len()) {
                    None
                } else if b[p1] == 0 {
                    Some((MessageView { message_type: mt, payload: None }, p1 + 1))
                } else if b[p1] == 1 {
                    match spec_parse_message_payload(b, p1 + 1) {
                        Some((pl, end)) => Some(
                            (MessageView { message_type: mt, payload: Some(pl) }, end),
                        ),
                        None => None,
                    }
                } else {
                    None
                }
            },
            None => None,
        }
    }
}

/// Decode a whole request from `b`: the parse must consume every byte.
pub open spec fn spec_parse_message(b: Seq<u8>) -> Option<MessageView> {
    match spec_parse_message_at(b, 0) {
        Some((m, end)) => {
            if end == b.len() {
                Some(m)
            } else {
                None
            }
        },
        None => None,
    }
}

pub proof fn lemma_message_at_round_trip(m: MessageView, b: Seq<u8>, pos: int)
    requires
        wf_message(m),
        holds_at(b, pos, spec_enc_message(m)),
    ensures
        spec_parse_message_at(b, pos) == Some((m, pos + spec_enc_message(m).len() as int)),
{
    let tag = seq![m.message_type.spec_code()];
    match m.payload {
        None => {
            lemma_holds_at_split(b, pos, tag, seq![0u8]);
            lemma_holds_at_byte(b, pos, m.message_type.spec_code());
            lemma_holds_at_byte(b, pos + 1, 0);
        },
        Some(p) => {
            assert(tag + (seq![1u8] + spec_enc_message_payload(p)) =~= spec_enc_message(m));
            lemma_holds_at_split(b, pos, tag, seq![1u8] + spec_enc_message_payload(p));
            lemma_holds_at_byte(b, pos, m.message_type.spec_code());
            lemma_holds_at_split(b, pos + 1, seq![1u8], spec_enc_message_payload(p));
            lemma_holds_at_byte(b, pos + 1, 1);
            lemma_message_payload_round_trip(p, b, pos + 2);
        },
    }
}

/// The schema half of the round trip: a request decodes back to itself.
pub proof fn lemma_message_round_trip(m: MessageView)
    requires
        wf_message(m),
    ensures
        spec_parse_message(spec_enc_message(m)) == Some(m),
{
    let b = spec_enc_message(m);
    assert(b.subrange(0, b.len() as int) =~= b);
    lemma_message_at_round_trip(m, b, 0);
}

/// Encode a request to its payload bytes.
pub fn encode_message(m: &EdcsMessage) -> (r: Vec<u8>)
    ensures
        r@ == spec_enc_message(m@),
{
    let mut buf: Vec<u8> = Vec::new();
    buf.push(m.message_type.code());
    match &m.payload {
        None => {
            buf.push(0);
        },
        Some(p) => {
            buf.push(1);
            encode_message_payload(p, &mut buf);
        },
    }
    proof {
        assert(buf@ =~= spec_enc_message(m@));
    }
    buf
}

/// Decode a request from payload bytes; every byte must belong to it.
pub fn decode_message(b: &[u8]) -> (r: Option<EdcsMessage>)
    ensures
        match r {
            Some(m) => spec_parse_message(b@) == Some(m@),
            None => spec_parse_message(b@) is None,
        },
{
    if b.len() == 0 {
        return None;
    }
    let mt = match EdcsMessageType::from_code(b[0]) {
        Some(mt) => mt,
        None => {
            return None;
        },
    };
    if b.len() == 1 {
        return None;
    }
    let has_payload = b[1];
    if has_payload == 0 {
        if b.len() == 2 {
            Some(EdcsMessage { message_type: mt, payload: None })
        } else {
            None
        }
    } else if has_payload == 1 {
        match parse_message_payload(b, 2) {
            Some((pl, end)) => {
                if end == b.len() {
                    Some(EdcsMessage { message_type: mt, payload: Some(pl) })
                } else {
                    None
                }
            },
            None => None,
        }
    } else {
        None
    }
}

// ---------------------------------------------------------------------------
// responses
// ---------------------------------------------------------------------------

/// The payload carried by a response, tagged by variant.
pub open spec fn spec_enc_response_payload(p: ResponsePayloadView) -> Seq<u8> {
    match p {
        ResponsePayloadView::SetupEdcsData(d) => seq![0u8] + spec_enc_dict(d),
        ResponsePayloadView::SetupStreamData(osp, sdp) => seq![1u8] + spec_enc_opt_stream_params(
            osp,
        ) + spec_enc_string(sdp),
        ResponsePayloadView::InvalidRequestData(s) => seq![2u8] + spec_enc_string(s),
        ResponsePayloadView::EdssErrData(c) => seq![3u8] + spec_enc_u32(c),
    }
}

/// The payload fits on the wire.
pub open spec fn wf_response_payload(p: ResponsePayloadView) -> bool {
    match p {
        ResponsePayloadView::SetupEdcsData(d) => wf_dict(d),
        ResponsePayloadView::SetupStreamData(_, sdp) => wf_string(sdp),
        ResponsePayloadView::InvalidRequestData(s) => wf_string(s),
        ResponsePayloadView::EdssErrData(_) => true,
    }
}

pub open spec fn spec_parse_response_payload(b: Seq<u8>, pos: int) -> Option<
    (ResponsePayloadView, int),
> {
    if !(0 <= pos < b.len()) {
        None
    } else if b[pos] == 0 {
        match spec_parse_dict(b, pos + 1) {
            Some((d, end)) => Some((ResponsePayloadView::SetupEdcsData(d), end)),
            None => None,
        }
    } else if b[pos] == 1 {
        match spec_parse_opt_stream_params(b, pos + 1) {
            Some((osp, p1)) => match spec_parse_string(b, p1) {
                Some((sdp, end)) => Some((ResponsePayloadView::SetupStreamData(osp, sdp), end)),
                None => None,
            },
            None => None,
        }
    } else if b[pos] == 2 {
        match spec_parse_string(b, pos + 1) {
            Some((s, end)) => Some((ResponsePayloadView::InvalidRequestData(s), end)),
            None => None,
        }
    } else if b[pos] == 3 {
        match spec_parse_u32(b, pos + 1) {
            Some((c, end)) => Some((ResponsePayloadView::EdssErrData(c), end)),
            None => None,
        }
    } else {
        None
    }
}

pub proof fn lemma_response_payload_round_trip(p: ResponsePayloadView, b: Seq<u8>, pos: int)
    requires
        wf_response_payload(p),
        holds_at(b, pos, spec_enc_response_payload(p)),
    ensures
        spec_parse_response_payload(b, pos) == Some((
            p,
            pos + spec_enc_response_payload(p).len() as int,
        )),
{
    match p {
        ResponsePayloadView::SetupEdcsData(d) => {
            lemma_holds_at_split(b, pos, seq![0u8], spec_enc_dict(d));
            lemma_holds_at_byte(b, pos, 0);
            lemma_dict_round_trip(d, b, pos + 1);
        },
        ResponsePayloadView::SetupStreamData(osp, sdp) => {
            let e1 = spec_enc_opt_stream_params(osp);
            let e2 = spec_enc_string(sdp);
            assert(seq![1u8] + e1 + e2 =~= seq![1u8] + (e1 + e2));
            lemma_holds_at_split(b, pos, seq![1u8], e1 + e2);
            lemma_holds_at_byte(b, pos, 1);
            lemma_holds_at_split(b, pos + 1, e1, e2);
            lemma_opt_stream_params_round_trip(osp, b, pos + 1);
            lemma_string_round_trip(sdp, b, pos + 1 + e1.len());
        },
        ResponsePayloadView::InvalidRequestData(s) => {
            lemma_holds_at_split(b, pos, seq![2u8], spec_enc_string(s));
            lemma_holds_at_byte(b, pos, 2);
            lemma_string_round_trip(s, b, pos + 1);
        },
        ResponsePayloadView::EdssErrData(c) => {
            lemma_holds_at_split(b, pos, seq![3u8], spec_enc_u32(c));
            lemma_holds_at_byte(b, pos, 3);
            lemma_u32_round_trip(c, b, pos + 1);
        },
    }
}

pub fn encode_response_payload(p: &EdcsResponsePayload, buf: &mut Vec<u8>)
    ensures
        final(buf)@ == old(buf)@ + spec_enc_response_payload(p@),
{
    match p {
        EdcsResponsePayload::SetupEdcsData(d) => {
            buf.push(0);
            encode_dict(&d.cal_option_dict, buf);
        },
        EdcsResponsePayload::SetupStreamData(d) => {
            buf.push(1);
            encode_opt_stream_params(&d.out_stream_params, buf);
            encode_string(d.sdp.as_str(), buf);
        },
        EdcsResponsePayload::InvalidRequestData(s) => {
            buf.push(2);
            encode_string(s.as_str(), buf);
        },
        EdcsResponsePayload::EdssErrData(c) => {
            buf.push(3);
            encode_u32(*c, buf);
        },
    }
    proof {
        assert(buf@ =~= old(buf)@ + spec_enc_response_payload(p@));
    }
}

pub fn parse_response_payload(b: &[u8], pos: usize) -> (r: Option<(EdcsResponsePayload, usize)>)
    requires
        pos <= b@.len(),
    ensures
        match r {
            Some(p) => pos <= p.1 <= b@.len() && spec_parse_response_payload(b@, pos as int)
                == Some((p.0@, p.1 as int)),
            None => spec_parse_response_payload(b@, pos as int) is None,
        },
{
    if pos == b.len() {
        return None;
    }
    let tag = b[pos];
    if tag == 0 {
        match parse_dict(b, pos + 1) {
            Some((d, end)) => Some((
                EdcsResponsePayload::SetupEdcsData(EdcsSetupEdcsData { cal_option_dict: d }),
                end,
            )),
            None => None,
        }
    } else if tag == 1 {
        let (osp, p1) = match parse_opt_stream_params(b, pos + 1) {
            Some(q) => q,
            None => {
                return None;
            },
        };
        let (sdp, end) = match parse_string(b, p1) {
            Some(q) => q,
            None => {
                return None;
            },
        };
        Some((
            EdcsResponsePayload::SetupStreamData(
                EdcsSetupStreamData { out_stream_params: osp, sdp },
            ),
            end,
        ))
    } else if tag == 2 {
        match parse_string(b, pos + 1) {
            Some((s, end)) => Some((EdcsResponsePayload::InvalidRequestData(s), end)),
            None => None,
        }
    } else if tag == 3 {
        match parse_u32(b, pos + 1) {
            Some((c, end)) => Some((EdcsResponsePayload::EdssErrData(c), end)),
            None => None,
        }
    } else {
        None
    }
}

/// A response on the wire: its status code, then 0 for no payload or 1 and
/// the payload.
pub open spec fn spec_enc_response(r: ResponseView) -> Seq<u8> {
    seq![r.status.spec_code()] + match r.payload {
        None => seq![0u8],
        Some(p) => seq![1u8] + spec_enc_response_payload(p),
    }
}

/// The response fits on the wire.
pub open spec fn wf_response(r: ResponseView) -> bool {
    match r.payload {
        Some(p) => wf_response_payload(p),
        None => true,
    }
}

pub open spec fn spec_parse_response_at(b: Seq<u8>, pos: int) -> Option<(ResponseView, int)> {
    if !(0 <= pos < b.len()) {
        None
    } else {
        match EdcsStatus::spec_from_code(b[pos]) {
            Some(st) => {
                let p1 = pos + 1;
                if !(p1 < b.len()) {
                    None
                } else if b[p1] == 0 {
                    Some((ResponseView { status: st, payload: None }, p1 + 1))
                } else if b[p1] == 1 {
                    match spec_parse_response_payload(b, p1 + 1) {
                        Some((pl, end)) => Some(
                            (ResponseView { status: st, payload: Some(pl) }, end),
                        ),
                        None => None,
                    }
                } else {
                    None
                }
            },
            None => None,
        }
    }
}

/// Decode a whole response from `b`: the parse must consume every byte.
pub open spec fn spec_parse_response(b: Seq<u8>) -> Option<ResponseView> {
    match spec_parse_response_at(b, 0) {
        Some((r, end)) => {
            if end == b.len() {
                Some(r)
            } else {
                None
            }
        },
        None => None,
    }
}

pub proof fn lemma_response_at_round_trip(r: ResponseView, b: Seq<u8>, pos: int)
    requires
        wf_response(r),
        holds_at(b, pos, spec_enc_response(r)),
    ensures
        spec_parse_response_at(b, pos) == Some((r, pos + spec_enc_response(r).len() as int)),
{
    let tag = seq![r.status.spec_code()];
    match r.payload {
        None => {
            lemma_holds_at_split(b, pos, tag, seq![0u8]);
            lemma_holds_at_byte(b, pos, r.status.spec_code());
            lemma_holds_at_byte(b, pos + 1, 0);
        },
        Some(p) => {
            assert(tag + (seq![1u8] + spec_enc_response_payload(p)) =~= spec_enc_response(r));
            lemma_holds_at_split(b, pos, tag, seq![1u8] + spec_enc_response_payload(p));
            lemma_holds_at_byte(b, pos, r.status.spec_code());
            lemma_holds_at_split(b, pos + 1, seq![1u8], spec_enc_response_payload(p));
            lemma_holds_at_byte(b, pos + 1, 1);
            lemma_response_payload_round_trip(p, b, pos + 2);
        },
    }
}

/// The schema half of the round trip: a response decodes back to itself.
pub proof fn lemma_response_round_trip(r: ResponseView)
    requires
        wf_response(r),
    ensures
        spec_parse_response(spec_enc_response(r)) == Some(r),
{
    let b = spec_enc_response(r);
    assert(b.subrange(0, b.len() as int) =~= b);
    lemma_response_at_round_trip(r, b, 0);
}

/// Encode a response to its payload bytes.
pub fn encode_response(r: &EdcsResponse) -> (out: Vec<u8>)
    ensures
        out@ == spec_enc_response(r@),
{
    let mut buf: Vec<u8> = Vec::new();
    buf.push(r.status.code());
    match &r.payload {
        None => {
            buf.push(0);
        },
        Some(p) => {
            buf.push(1);
            encode_response_payload(p, &mut buf);
        },
    }
    proof {
        assert(buf@ =~= spec_enc_response(r@));
    }
    buf
}

/// Decode a response from payload bytes; every byte must belong to it.
pub fn decode_response(b: &[u8]) -> (r: Option<EdcsResponse>)
    ensures
        match r {
            Some(resp) => spec_parse_response(b@) == Some(resp@),
            None => spec_parse_response(b@) is None,
        },
{
    if b.len() == 0 {
        return None;
    }
    let st = match EdcsStatus::from_code(b[0]) {
        Some(st) => st,
        None => {
            return None;
        },
    };
    if b.len() == 1 {
        return None;
    }
    let has_payload = b[1];
    if has_payload == 0 {
        if b.len() == 2 {
            Some(EdcsResponse { status: st, payload: None })
        } else {
            None
        }
    } else if has_payload == 1 {
        match parse_response_payload(b, 2) {
            Some((pl, end)) => {
                if end == b.len() {
                    Some(EdcsResponse { status: st, payload: Some(pl) })
                } else {
                    None
                }
            },
            None => None,
        }
    } else {
        None
    }
}

// ---------------------------------------------------------------------------
// the full round trip over frame and schema
// ---------------------------------------------------------------------------

/// Decode one framed request from the start of `buf`: the request and how
/// many bytes its frame occupied. Framing faults close a connection;
/// `MalformedPayload` says the frame was sound but its payload was not a
/// request.
pub fn decode_message_frame(buf: &[u8], max_len: u64) -> (r: Result<
    (EdcsMessage, usize),
    FrameError,
>)
    ensures
        match r {
            Ok(p) => match crate::codec::spec_parse_frame(buf@, max_len) {
                Some(q) => q.1 == p.1 as int && spec_parse_message(q.0) == Some(p.0@),
                None => false,
            },
            Err(e) => match e {
                FrameError::MalformedPayload => match crate::codec::spec_parse_frame(
                    buf@,
                    max_len,
                ) {
                    Some(q) => spec_parse_message(q.0) is None,
                    None => false,
                },
                _ => crate::codec::spec_parse_frame(buf@, max_len) is None,
            },
        },
{
    let (payload, used) = crate::codec::decode_frame(buf, max_len)?;
    let r = decode_message(payload.as_slice());
    proof {
        assert(crate::codec::spec_parse_frame(buf@, max_len) == Some((payload@, used as int)));
    }
    match r {
        Some(m) => {
            proof {
                assert(spec_parse_message(payload@) == Some(m@));
            }
            Ok((m, used))
        },
        None => {
            proof {
                assert(spec_parse_message(payload@) is None);
            }
            Err(FrameError::MalformedPayload)
        },
    }
}

/// Decode one framed response from the start of `buf`, the client-side
/// counterpart of `decode_message_frame`.
pub fn decode_response_frame(buf: &[u8], max_len: u64) -> (r: Result<
    (EdcsResponse, usize),
    FrameError,
>)
    ensures
        match r {
            Ok(p) => match crate::codec::spec_parse_frame(buf@, max_len) {
                Some(q) => q.1 == p.1 as int && spec_parse_response(q.0) == Some(p.0@),
                None => false,
            },
            Err(e) => match e {
                FrameError::MalformedPayload => match crate::codec::spec_parse_frame(
                    buf@,
                    max_len,
                ) {
                    Some(q) => spec_parse_response(q.0) is None,
                    None => false,
                },
                _ => crate::codec::spec_parse_frame(buf@, max_len) is None,
            },
        },
{
    let (payload, used) = crate::codec::decode_frame(buf, max_len)?;
    let r = decode_response(payload.as_slice());
    proof {
        assert(crate::codec::spec_parse_frame(buf@, max_len) == Some((payload@, used as int)));
    }
    match r {
        Some(m) => {
            proof {
                assert(spec_parse_response(payload@) == Some(m@));
            }
            Ok((m, used))
        },
        None => {
            proof {
                assert(spec_parse_response(payload@) is None);
            }
            Err(FrameError::MalformedPayload)
        },
    }
}

/// Over the frame codec and the schema codec together, a framed request
/// decodes back to the request it was built from.
pub proof fn lemma_framed_message_round_trip(m: MessageView, max_len: u64)
    requires
        wf_message(m),
        spec_enc_message(m).len() <= max_len,
    ensures
        ({
            let payload = spec_enc_message(m);
            let bytes = crate::codec::spec_frame(payload);
            &&& crate::codec::spec_parse_frame(bytes, max_len) == Some(
                (payload, 10 + payload.len() as int),
            )
            &&& spec_parse_message(payload) == Some(m)
        }),
{
    crate::codec::lemma_frame_round_trip(spec_enc_message(m), max_len);
    lemma_message_round_trip(m);
}

/// Over the frame codec and the schema codec together, a framed response
/// decodes back to the response it was built from.
pub proof fn lemma_framed_response_round_trip(r: ResponseView, max_len: u64)
    requires
        wf_response(r),
        spec_enc_response(r).len() <= max_len,
    ensures
        ({
            let payload = spec_enc_response(r);
            let bytes = crate::codec::spec_frame(payload);
            &&& crate::codec::spec_parse_frame(bytes, max_len) == Some(
                (payload, 10 + payload.len() as int),
            )
            &&& spec_parse_response(payload) == Some(r)
        }),
{
    crate::codec::lemma_frame_round_trip(spec_enc_response(r), max_len);
    lemma_response_round_trip(r);
}

} // verus!
