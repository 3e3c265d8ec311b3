use vstd::prelude::*;

use crate::message::{CAPACITY, Message, MessageView, PEER_COUNT, valid_origin};
use vstd::arithmetic::div_mod::{
    lemma_basic_div, lemma_div_denominator, lemma_div_is_ordered, lemma_div_pos_is_pos,
    lemma_fundamental_div_mod, lemma_mod_bound, lemma_small_mod,
};

verus! {

/// Size of one wire frame: a fixed payload area of CAPACITY bytes followed
/// by a big-endian length word and a big-endian origin word, four bytes each.
pub const FRAME_LEN: usize = CAPACITY + 8;

/// Why a byte sequence failed to decode.
#[derive(Clone, Copy, Debug, PartialEq, Eq, Structural)]
pub enum CodecError {
    /// Fewer bytes than one frame.
    Truncated,
    /// The frame's length word exceeds the capacity, or its origin word
    /// names no peer.
    Malformed,
}

/// The four big-endian base-256 digits of a value in 0 .. 2^32.
pub open spec fn be32(n: int) -> Seq<u8> {
    seq![
        ((n / 0x1000000) % 0x100) as u8,
        ((n / 0x10000) % 0x100) as u8,
        ((n / 0x100) % 0x100) as u8,
        (n % 0x100) as u8,
    ]
}

/// The value of four bytes read as one big-endian word.
pub open spec fn be32_val(b: Seq<u8>) -> int
    recommends
        b.len() == 4,
{
    (b[0] as int) * 0x1000000 + (b[1] as int) * 0x10000 + (b[2] as int) * 0x100 + (b[3] as int)
}

/// Reading back the four big-endian digits of a word recovers the word.
pub proof fn lemma_be32_round_trip(n: int)
    requires
        0 <= n < 0x100000000,
    ensures
        be32_val(be32(n)) == n,
{
    let q1 = n / 0x100;
    let q2 = q1 / 0x100;
    let q3 = q2 / 0x100;
    lemma_div_pos_is_pos(n, 0x100);
    lemma_div_pos_is_pos(q1, 0x100);
    lemma_div_pos_is_pos(q2, 0x100);
    lemma_mod_bound(n, 0x100);
    lemma_mod_bound(q1, 0x100);
    lemma_mod_bound(q2, 0x100);
    lemma_fundamental_div_mod(n, 0x100);
    lemma_fundamental_div_mod(q1, 0x100);
    lemma_fundamental_div_mod(q2, 0x100);
    lemma_div_denominator(n, 0x100, 0x100);
    assert(q2 == n / 0x10000);
    lemma_div_denominator(n, 0x10000, 0x100);
    assert(q3 == n / 0x1000000);
    lemma_div_is_ordered(n, 0xffffffff, 0x1000000);
    assert(q3 < 0x100);
    lemma_small_mod(q3 as nat, 0x100);
}

/// The wire frame of a message: its payload padded with zero bytes to
/// CAPACITY, then the payload length and the origin id, each as one
/// big-endian word.
pub open spec fn spec_encode(m: MessageView) -> Seq<u8>
    recommends
        m.valid(),
{
    m.payload + Seq::<u8>::new((CAPACITY as int - m.payload.len() as int) as nat, |i: int| 0u8)
        + be32(m.payload.len() as int) + be32(m.origin)
}

/// What any byte sequence decodes to: the unique message whose frame it is,
/// or the error that names what is wrong with it.
pub open spec fn spec_decode(b: Seq<u8>) -> Result<MessageView, CodecError> {
    if b.len() < FRAME_LEN as int {
        Err(CodecError::Truncated)
    } else {
        let len = be32_val(b.subrange(CAPACITY as int, CAPACITY as int + 4));
        let org = be32_val(b.subrange(CAPACITY as int + 4, CAPACITY as int + 8));
        if len > CAPACITY as int || !valid_origin(org) {
            Err(CodecError::Malformed)
        } else {
            Ok(MessageView { payload: b.subrange(0, len), origin: org })
        }
    }
}

/// Encodes a message into exactly one wire frame.
pub fn encode(m: &Message) -> (r: Vec<u8>)
    requires
        m.valid(),
    ensures
        r@ == spec_encode(m@),
        r@.len() == FRAME_LEN as int,
{
    let len = m.payload.len();
    let mut out: Vec<u8> = Vec::new();
    let mut i: usize = 0;
    while i < len
        invariant
            i <= len,
            len == m.payload@.len(),
            out@ == m.payload@.subrange(0, i as int),
        decreases len - i,
    {
        out.push(m.payload[i]);
        proof {
            assert(m.payload@.subrange(0, i + 1) =~= m.payload@.subrange(0, i as int).push(
                m.payload@[i as int],
            ));
        }
        i += 1;
    }
    proof {
        assert(m.payload@.subrange(0, len as int) =~= m.payload@);
        assert(out@ =~= m.payload@ + Seq::<u8>::new((out@.len() - len) as nat, |j: int| 0u8));
    }
    while out.len() < CAPACITY
        invariant
            len == m.payload@.len(),
            len <= out@.len() <= CAPACITY,
            out@ == m.payload@ + Seq::<u8>::new((out@.len() - len) as nat, |j: int| 0u8),
        decreases CAPACITY - out.len(),
    {
        out.push(0);
        proof {
            assert(out@ =~= m.payload@ + Seq::<u8>::new((out@.len() - len) as nat, |j: int| 0u8));
        }
    }
    proof {
        let l = len as int;
        lemma_basic_div(l, 0x1000000);
        lemma_basic_div(l, 0x10000);
        lemma_small_mod(0nat, 0x100);
        lemma_div_pos_is_pos(l, 0x100);
        lemma_div_is_ordered(l, CAPACITY as int, 0x100);
        lemma_small_mod((l / 0x100) as nat, 0x100);
        lemma_mod_bound(l, 0x100);
        assert(be32(l) =~= seq![0u8, 0u8, (l / 0x100) as u8, (l % 0x100) as u8]);
        let o = m@.origin;
        lemma_basic_div(o, 0x1000000);
        lemma_basic_div(o, 0x10000);
        lemma_basic_div(o, 0x100);
        lemma_small_mod(o as nat, 0x100);
        assert(be32(o) =~= seq![0u8, 0u8, 0u8, o as u8]);
    }
    out.push(0);
    out.push(0);
    out.push((len / 0x100) as u8);
    out.push((len % 0x100) as u8);
    out.push(0);
    out.push(0);
    out.push(0);
    out.push(m.origin as u8);
    proof {
        assert(out@ =~= spec_encode(m@));
    }
    out
}

/// Reads the big-endian word that starts `at` bytes into the slice.
fn read_be32(bytes: &[u8], at: usize) -> (v: u32)
    requires
        at + 4 <= bytes@.len(),
    ensures
        v as int == be32_val(bytes@.subrange(at as int, at as int + 4)),
{
    let b0 = bytes[at] as u32;
    let b1 = bytes[at + 1] as u32;
    let b2 = bytes[at + 2] as u32;
    let b3 = bytes[at + 3] as u32;
    let v = b0 * 0x1000000 + b1 * 0x10000 + b2 * 0x100 + b3;
    proof {
        let s = bytes@.subrange(at as int, at as int + 4);
        assert(s[0] == bytes@[at as int]);
        assert(s[1] == bytes@[at as int + 1]);
        assert(s[2] == bytes@[at as int + 2]);
        assert(s[3] == bytes@[at as int + 3]);
    }
    v
}

/// Decodes one wire frame from the front of a byte sequence.
pub fn decode(bytes: &[u8]) -> (r: Result<Message, CodecError>)
    ensures
        spec_decode(bytes@) is Ok ==> (r matches Ok(m) && m@ == spec_decode(bytes@)->Ok_0
            && m.valid()),
        spec_decode(bytes@) is Err ==> (r matches Err(e) && e == spec_decode(bytes@)->Err_0),
{
    if bytes.len() < FRAME_LEN {
        return Err(CodecError::Truncated);
    }
    let len_v = read_be32(bytes, CAPACITY);
    let org_v = read_be32(bytes, CAPACITY + 4);
    if len_v > CAPACITY as u32 || org_v >= PEER_COUNT as u32 {
        return Err(CodecError::Malformed);
    }
    let n = len_v as usize;
    let mut payload: Vec<u8> = Vec::new();
    let mut i: usize = 0;
    while i < n
        invariant
            i <= n,
            n <= CAPACITY < bytes@.len(),
            payload@ == bytes@.subrange(0, i as int),
        decreases n - i,
    {
        payload.push(bytes[i]);
        proof {
            assert(bytes@.subrange(0, i + 1) =~= bytes@.subrange(0, i as int).push(
                bytes@[i as int],
            ));
        }
        i += 1;
    }
    Ok(Message { payload, origin: org_v as i32 })
}

/// Round-trip law: decoding the frame of any valid message yields exactly
/// that message.
pub proof fn lemma_round_trip(m: MessageView)
    requires
        m.valid(),
    ensures
        spec_decode(spec_encode(m)) == Ok::<MessageView, CodecError>(m),
{
    let b = spec_encode(m);
    let len = m.payload.len() as int;
    assert(b.len() == FRAME_LEN as int);
    assert(b.subrange(CAPACITY as int, CAPACITY as int + 4) =~= be32(len));
    assert(b.subrange(CAPACITY as int + 4, CAPACITY as int + 8) =~= be32(m.origin));
    lemma_be32_round_trip(len);
    lemma_be32_round_trip(m.origin);
    assert(b.subrange(0, len) =~= m.payload);
    assert(spec_decode(b)->Ok_0 =~= m);
}

} // verus!
