//! The sync wire format.
//!
//! Every sync message carries the server's timestamp (whole seconds and a
//! sub-second nanosecond part), the server's frame number, and an opaque
//! snapshot payload.  Integers travel little-endian with a fixed width, and
//! the payload is prefixed by its eight-byte length, so a message decodes
//! to exactly what was encoded and to nothing else.

use vstd::prelude::*;

verus! {

/// `256^k`: the number of values `k` little-endian bytes can carry.
pub open spec fn pow256(k: nat) -> int
    decreases k,
{
    if k == 0 {
        1
    } else {
        256 * pow256((k - 1) as nat)
    }
}

/// The value of a little-endian byte string.
pub open spec fn le_val(s: Seq<u8>) -> int
    decreases s.len(),
{
    if s.len() == 0 {
        0
    } else {
        s[0] + 256 * le_val(s.drop_first())
    }
}

/// The `n` low-order little-endian bytes of `v`.
pub open spec fn le_bytes(v: int, n: nat) -> Seq<u8>
    decreases n,
{
    if n == 0 {
        Seq::empty()
    } else {
        seq![(v % 256) as u8] + le_bytes(v / 256, (n - 1) as nat)
    }
}

pub proof fn lemma_le_bytes_len(v: int, n: nat)
    ensures
        le_bytes(v, n).len() == n,
    decreases n,
{
    if n > 0 {
        lemma_le_bytes_len(v / 256, (n - 1) as nat);
    }
}

pub proof fn lemma_le_val_bound(s: Seq<u8>)
    ensures
        0 <= le_val(s) < pow256(s.len()),
    decreases s.len(),
{
    if s.len() > 0 {
        lemma_le_val_bound(s.drop_first());
        let r = le_val(s.drop_first());
        assert(le_val(s) == s[0] + 256 * r);
        assert(256 * r <= 256 * (pow256(s.drop_first().len()) - 1)) by (nonlinear_arith)
            requires
                r <= pow256(s.drop_first().len()) - 1,
        ;
        assert(0 <= 256 * r) by (nonlinear_arith)
            requires
                0 <= r,
        ;
    }
}

/// Encoding then decoding gives back any value the width can carry.
pub proof fn lemma_le_round_trip(v: int, n: nat)
    requires
        0 <= v < pow256(n),
    ensures
        le_val(le_bytes(v, n)) == v,
    decreases n,
{
    if n > 0 {
        vstd::arithmetic::div_mod::lemma_fundamental_div_mod(v, 256);
        vstd::arithmetic::div_mod::lemma_mod_bound(v, 256);
        assert(v / 256 < pow256((n - 1) as nat)) by {
            vstd::arithmetic::div_mod::lemma_div_pos_is_pos(v, 256);
            if v / 256 >= pow256((n - 1) as nat) {
                assert(256 * (v / 256) >= 256 * pow256((n - 1) as nat)) by (nonlinear_arith)
                    requires
                        v / 256 >= pow256((n - 1) as nat),
                ;
            }
        }
        lemma_le_round_trip(v / 256, (n - 1) as nat);
        let s = le_bytes(v, n);
        lemma_le_bytes_len(v / 256, (n - 1) as nat);
        assert(s.drop_first() =~= le_bytes(v / 256, (n - 1) as nat));
    }
}

/// Appends the `n` low-order little-endian bytes of `v`.
pub fn write_le(out: &mut Vec<u8>, v: u64, n: usize)
    requires
        out.len() + n <= usize::MAX,
    ensures
        final(out)@ == old(out)@ + le_bytes(v as int, n as nat),
        final(out)@.len() == old(out)@.len() + n,
{
    proof {
        lemma_le_bytes_len(v as int, n as nat);
    }
    let ghost base = out@;
    let ghost v0 = v as int;
    let mut cur: u64 = v;
    let mut i: usize = 0;
    proof {
        assert(out@ + le_bytes(cur as int, (n - i) as nat) =~= base + le_bytes(
            v0,
            n as nat,
        ).take(i as int) + le_bytes(cur as int, (n - i) as nat));
    }
    while i < n
        invariant
            i <= n,
            out@.len() == base.len() + i,
            out@ + le_bytes(cur as int, (n - i) as nat) =~= base + le_bytes(v0, n as nat),
        decreases n - i,
    {
        let b: u8 = (cur % 256) as u8;
        let ghost before = out@;
        let ghost rest = le_bytes(cur as int, (n - i) as nat);
        out.push(b);
        proof {
            assert(rest == seq![b] + le_bytes(cur as int / 256, (n - i - 1) as nat));
            assert(out@ + le_bytes(cur as int / 256, (n - i - 1) as nat) =~= before + rest);
        }
        cur = cur / 256;
        i = i + 1;
    }
    proof {
        assert(le_bytes(cur as int, 0) =~= Seq::<u8>::empty());
        assert(out@ =~= out@ + le_bytes(cur as int, 0));
    }
}

/// Reads the value of `n` little-endian bytes starting at `off`.
pub fn read_le(b: &[u8], off: usize, n: usize) -> (r: u64)
    requires
        off + n <= b@.len(),
        n <= 8,
    ensures
        r == le_val(b@.subrange(off as int, off + n)),
{
    proof {
        lemma_pow256_le_u64(n as nat);
    }
    let blen: usize = b.len();
    let mut r: u64 = 0;
    let mut i: usize = n;
    while i > 0
        invariant
            i <= n,
            n <= 8,
            off + n <= b@.len(),
            b@.len() <= usize::MAX,
            0 <= r < pow256((n - i) as nat),
            pow256(n as nat) <= u64::MAX as int + 1,
            r == le_val(b@.subrange(off + i, off + n)),
        decreases i,
    {
        i = i - 1;
        let ghost tail = b@.subrange(off + i + 1, off + n);
        let ghost whole = b@.subrange(off + i, off + n);
        proof {
            assert(whole.drop_first() =~= tail);
            assert(whole[0] == b@[off + i]);
            lemma_pow256_monotonic((n - i - 1) as nat, n as nat);
            lemma_pow256_monotonic((n - i) as nat, n as nat);
            assert(r * 256 + 255 < pow256((n - i) as nat)) by (nonlinear_arith)
                requires
                    r < pow256((n - i - 1) as nat),
                    pow256((n - i) as nat) == 256 * pow256((n - i - 1) as nat),
                    0 <= r,
            ;
            assert(le_val(whole) == b@[off + i] + 256 * le_val(tail));
        }
        r = r * 256 + (b[i + off] as u64);
    }
    proof {
        assert(b@.subrange(off as int, off + n) =~= b@.subrange(off + 0, off + n));
    }
    r
}

proof fn lemma_pow256_monotonic(a: nat, b: nat)
    requires
        a <= b,
    ensures
        pow256(a) <= pow256(b),
        0 < pow256(a),
    decreases b,
{
    if b > 0 {
        if a == b {
            lemma_pow256_monotonic((b - 1) as nat, (b - 1) as nat);
        } else {
            lemma_pow256_monotonic(a, (b - 1) as nat);
        }
    }
}

proof fn lemma_pow256_le_u64(n: nat)
    requires
        n <= 8,
    ensures
        pow256(n) <= u64::MAX as int + 1,
        0 < pow256(n),
        pow256(4) == 0x100000000,
        pow256(8) == 0x10000000000000000,
{
    assert(pow256(0) == 1);
    assert(pow256(1) == 256);
    assert(pow256(2) == 0x10000);
    assert(pow256(3) == 0x1000000);
    assert(pow256(4) == 0x100000000);
    assert(pow256(5) == 0x10000000000);
    assert(pow256(6) == 0x1000000000000);
    assert(pow256(7) == 0x100000000000000);
    assert(pow256(8) == 0x10000000000000000);
    lemma_pow256_monotonic(n, 8);
}

/// The unsigned 64-bit pattern that carries a signed value on the wire
/// (two's complement).
pub open spec fn i64_to_u64_spec(v: int) -> int
    recommends
        i64::MIN <= v <= i64::MAX,
{
    if v >= 0 {
        v
    } else {
        v + 0x10000000000000000
    }
}

/// The signed value a 64-bit wire pattern carries.
pub open spec fn u64_to_i64_spec(u: int) -> int
    recommends
        0 <= u <= u64::MAX,
{
    if u < 0x8000000000000000 {
        u
    } else {
        u - 0x10000000000000000
    }
}

/// Signed round trip: decoding an encoded signed value gives it back.
pub proof fn lemma_i64_round_trip(v: int)
    requires
        i64::MIN <= v <= i64::MAX,
    ensures
        u64_to_i64_spec(i64_to_u64_spec(v)) == v,
        0 <= i64_to_u64_spec(v) <= u64::MAX,
{
}

/// Encodes a signed value as its unsigned wire pattern.
pub fn i64_to_u64(v: i64) -> (r: u64)
    ensures
        r == i64_to_u64_spec(v as int),
{
    if v >= 0 {
        v as u64
    } else {
        let m: u64 = crate::fixed::abs_u64(v);
        (u64::MAX - m) + 1
    }
}

/// Decodes an unsigned wire pattern back into the signed value it carries.
pub fn u64_to_i64(u: u64) -> (r: i64)
    ensures
        r == u64_to_i64_spec(u as int),
{
    if u < 0x8000000000000000u64 {
        u as i64
    } else {
        -((u64::MAX - u) as i64) - 1
    }
}

/// The eight little-endian bytes that carry a signed field.
pub open spec fn i64_field(v: i64) -> Seq<u8> {
    le_bytes(i64_to_u64_spec(v as int), 8)
}

/// The signed field carried by eight little-endian bytes at `off`.
pub open spec fn i64_field_at(b: Seq<u8>, off: int) -> int {
    u64_to_i64_spec(le_val(b.subrange(off, off + 8)))
}

/// Appends a signed field.
pub fn write_i64(out: &mut Vec<u8>, v: i64)
    requires
        old(out).len() + 8 <= usize::MAX,
    ensures
        final(out)@ == old(out)@ + i64_field(v),
        final(out)@.len() == old(out)@.len() + 8,
{
    write_le(out, i64_to_u64(v), 8);
}

/// Reads a signed field.
pub fn read_i64(b: &[u8], off: usize) -> (r: i64)
    requires
        off + 8 <= b@.len(),
    ensures
        r == i64_field_at(b@, off as int),
        i64::MIN <= i64_field_at(b@, off as int) <= i64::MAX,
{
    let u: u64 = read_le(b, off, 8);
    u64_to_i64(u)
}

/// A signed field read back from its own encoding is the value written.
pub proof fn lemma_i64_field_round_trip(v: i64)
    ensures
        i64_field(v).len() == 8,
        i64_field_at(i64_field(v), 0) == v,
{
    lemma_le_bytes_len(i64_to_u64_spec(v as int), 8);
    lemma_pow256_le_u64(8);
    lemma_i64_round_trip(v as int);
    lemma_le_round_trip(i64_to_u64_spec(v as int), 8);
    assert(i64_field(v).subrange(0, 8) =~= i64_field(v));
}

/// Why a byte string is not a sync message.
#[derive(Clone, Copy, Debug, PartialEq, Eq, Structural)]
pub enum DecodeError {
    /// Shorter than the fixed message header.
    TooShort,
    /// The payload length field disagrees with the bytes present.
    LengthMismatch,
}

/// A sync message as it travels on the wire: the server's timestamp in
/// whole seconds plus sub-second nanoseconds, the server's frame number,
/// and the opaque serialized snapshot.
pub struct ServerMessage {
    pub server_secs: u64,
    pub server_nanos: u32,
    pub server_frame: u64,
    pub msg: Vec<u8>,
}

/// The bytes that encode a sync message.
pub open spec fn encode_msg_spec(secs: u64, nanos: u32, frame: u64, msg: Seq<u8>) -> Seq<u8> {
    le_bytes(secs as int, 8) + le_bytes(nanos as int, 4) + le_bytes(frame as int, 8) + le_bytes(
        msg.len() as int,
        8,
    ) + msg
}

/// The message a byte string decodes to, if any: the header fields read
/// back and a payload of exactly the advertised length.
pub open spec fn decode_msg_spec(b: Seq<u8>) -> Option<(u64, u32, u64, Seq<u8>)> {
    if b.len() < 28 {
        None
    } else {
        let secs = le_val(b.subrange(0, 8));
        let nanos = le_val(b.subrange(8, 12));
        let frame = le_val(b.subrange(12, 20));
        let n = le_val(b.subrange(20, 28));
        if b.len() == 28 + n {
            Some((secs as u64, nanos as u32, frame as u64, b.skip(28)))
        } else {
            None
        }
    }
}

impl ServerMessage {
    /// Encodes the message, exactly as [`encode_msg_spec`] says.
    pub fn encode(&self) -> (r: Vec<u8>)
        requires
            self.msg@.len() + 28 <= usize::MAX,
        ensures
            r@ == encode_msg_spec(self.server_secs, self.server_nanos, self.server_frame,
            self.msg@),
    {
        let mut out: Vec<u8> = Vec::new();
        write_le(&mut out, self.server_secs, 8);
        write_le(&mut out, self.server_nanos as u64, 4);
        proof {
            assert(le_bytes(self.server_nanos as u64 as int, 4) =~= le_bytes(
                self.server_nanos as int,
                4,
            ));
        }
        write_le(&mut out, self.server_frame, 8);
        write_le(&mut out, self.msg.len() as u64, 8);
        let mut i: usize = 0;
        let ghost head = out@;
        while i < self.msg.len()
            invariant
                i <= self.msg@.len(),
                out@ =~= head + self.msg@.take(i as int),
                head.len() + self.msg@.len() <= usize::MAX,
            decreases self.msg@.len() - i,
        {
            let ghost before = out@;
            out.push(self.msg[i]);
            i = i + 1;
            proof {
                assert(out@ =~= head + self.msg@.take(i as int));
            }
        }
        proof {
            assert(self.msg@.take(self.msg@.len() as int) =~= self.msg@);
            assert(out@ =~= encode_msg_spec(self.server_secs, self.server_nanos,
            self.server_frame, self.msg@));
        }
        out
    }

    /// Decodes a byte string, exactly as [`decode_msg_spec`] says: `Ok` if
    /// and only if the bytes are one whole well-formed message.
    pub fn decode(b: &[u8]) -> (r: Result<ServerMessage, DecodeError>)
        ensures
            (match r {
                Ok(m) => decode_msg_spec(b@) == Some(
                    (m.server_secs, m.server_nanos, m.server_frame, m.msg@),
                ),
                Err(DecodeError::TooShort) => b@.len() < 28,
                Err(DecodeError::LengthMismatch) => b@.len() >= 28 && decode_msg_spec(b@) is None,
            }),
            r is Ok <==> decode_msg_spec(b@) is Some,
    {
        if b.len() < 28 {
            return Err(DecodeError::TooShort);
        }
        let secs: u64 = read_le(b, 0, 8);
        let nanos64: u64 = read_le(b, 8, 4);
        let frame: u64 = read_le(b, 12, 8);
        let n: u64 = read_le(b, 20, 8);
        proof {
            lemma_le_val_bound(b@.subrange(8, 12));
            lemma_pow256_le_u64(4);
        }
        let nanos: u32 = nanos64 as u32;
        if n > (usize::MAX as u64) - 28 || b.len() != (n as usize) + 28 {
            return Err(DecodeError::LengthMismatch);
        }
        let nn: usize = n as usize;
        let mut msg: Vec<u8> = Vec::new();
        let mut i: usize = 0;
        while i < nn
            invariant
                i <= nn,
                nn + 28 == b@.len(),
                b@.len() <= usize::MAX,
                msg@ =~= b@.subrange(28, 28 + i as int),
            decreases nn - i,
        {
            msg.push(b[28 + i]);
            i = i + 1;
            proof {
                assert(msg@ =~= b@.subrange(28, 28 + i as int));
            }
        }
        proof {
            assert(msg@ =~= b@.skip(28));
        }
        Ok(ServerMessage { server_secs: secs, server_nanos: nanos, server_frame: frame, msg })
    }
}

/// Wire round trip: a message always decodes back from its own encoding.
pub proof fn lemma_msg_round_trip(secs: u64, nanos: u32, frame: u64, msg: Seq<u8>)
    requires
        msg.len() <= u64::MAX,
    ensures
        decode_msg_spec(encode_msg_spec(secs, nanos, frame, msg)) == Some(
            (secs, nanos, frame, msg),
        ),
{
    let e = encode_msg_spec(secs, nanos, frame, msg);
    lemma_le_bytes_len(secs as int, 8);
    lemma_le_bytes_len(nanos as int, 4);
    lemma_le_bytes_len(frame as int, 8);
    lemma_le_bytes_len(msg.len() as int, 8);
    assert(e.len() == 28 + msg.len());
    assert(e.subrange(0, 8) =~= le_bytes(secs as int, 8));
    assert(e.subrange(8, 12) =~= le_bytes(nanos as int, 4));
    assert(e.subrange(12, 20) =~= le_bytes(frame as int, 8));
    assert(e.subrange(20, 28) =~= le_bytes(msg.len() as int, 8));
    assert(e.skip(28) =~= msg);
    lemma_pow256_le_u64(8);
    lemma_le_round_trip(secs as int, 8);
    lemma_le_round_trip(nanos as int, 4);
    lemma_le_round_trip(frame as int, 8);
    lemma_le_round_trip(msg.len() as int, 8);
}

} // verus!
