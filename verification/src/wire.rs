//! The value-level model of the emitted wire codec: the split of a 64-bit
//! word into 32-bit halves (the transform the packed 64-bit fixed write
//! emits), the zigzag transform of the signed kinds, and the varint byte
//! form, each with its inverse and a proof that decoding returns what was
//! encoded.

use vstd::prelude::*;

verus! {

/// The low 32-bit half of a 64-bit word, as the emitted split computes it.
pub fn split_low(v: u64) -> (r: u32)
    ensures
        r == v % 0x1_0000_0000,
{
    proof {
        assert((v & 0xFFFF_FFFF) == v % 0x1_0000_0000) by (bit_vector);
    }
    (v & 0xFFFF_FFFF) as u32
}

/// The high 32-bit half of a 64-bit word, as the emitted split computes it.
pub fn split_high(v: u64) -> (r: u32)
    ensures
        r == v / 0x1_0000_0000,
{
    proof {
        assert(((v >> 32u64) & 0xFFFF_FFFF) == v / 0x1_0000_0000) by (bit_vector);
    }
    ((v >> 32) & 0xFFFF_FFFF) as u32
}

/// The 64-bit word with the given low and high halves.
pub fn join_halves(low: u32, high: u32) -> (r: u64)
    ensures
        r == low + high * 0x1_0000_0000,
{
    let l = low as u64;
    let h = high as u64;
    proof {
        assert((l | (h << 32u64)) == l + h * 0x1_0000_0000) by (bit_vector)
            requires
                l < 0x1_0000_0000 && h < 0x1_0000_0000,
        ;
    }
    l | (h << 32)
}

/// Splitting a 64-bit word into its halves and joining them yields the word
/// back.
pub proof fn lemma_split_join(v: u64)
    ensures
        (v % 0x1_0000_0000) + (v / 0x1_0000_0000) * 0x1_0000_0000 == v,
{
    assert((v % 0x1_0000_0000) + (v / 0x1_0000_0000) * 0x1_0000_0000 == v) by (nonlinear_arith);
}

/// The zigzag form of a 64-bit signed value, as the signed varint kinds
/// encode it: small magnitudes first, non-negative values on even numbers.
pub open spec fn spec_zigzag64(n: i64) -> u64 {
    if n >= 0 {
        (2 * n) as u64
    } else {
        (-2 * n - 1) as u64
    }
}

/// The zigzag form of a 64-bit signed value.
pub fn zigzag64(n: i64) -> (r: u64)
    ensures
        r == spec_zigzag64(n),
{
    if n >= 0 {
        (n as u64) * 2
    } else {
        let m = (-(n + 1)) as u64;
        m * 2 + 1
    }
}

/// The inverse of the 64-bit zigzag form.
pub open spec fn spec_unzigzag64(z: u64) -> i64 {
    if z % 2 == 0 {
        (z / 2) as i64
    } else {
        (-1 - ((z / 2) as int)) as i64
    }
}

/// The signed value of a 64-bit zigzag form.
pub fn unzigzag64(z: u64) -> (r: i64)
    ensures
        r == spec_unzigzag64(z),
{
    let m = z / 2;
    if z % 2 == 0 {
        m as i64
    } else {
        -(m as i64) - 1
    }
}

/// Zigzag encoding then decoding a 64-bit signed value yields the value back.
pub proof fn lemma_zigzag64_round_trip(n: i64)
    ensures
        spec_unzigzag64(spec_zigzag64(n)) == n,
{
}

/// The zigzag form of a 32-bit signed value.
pub open spec fn spec_zigzag32(n: i32) -> u32 {
    if n >= 0 {
        (2 * n) as u32
    } else {
        (-2 * n - 1) as u32
    }
}

/// The zigzag form of a 32-bit signed value.
pub fn zigzag32(n: i32) -> (r: u32)
    ensures
        r == spec_zigzag32(n),
{
    if n >= 0 {
        (n as u32) * 2
    } else {
        let m = (-(n + 1)) as u32;
        m * 2 + 1
    }
}

/// The inverse of the 32-bit zigzag form.
pub open spec fn spec_unzigzag32(z: u32) -> i32 {
    if z % 2 == 0 {
        (z / 2) as i32
    } else {
        (-1 - ((z / 2) as int)) as i32
    }
}

/// The signed value of a 32-bit zigzag form.
pub fn unzigzag32(z: u32) -> (r: i32)
    ensures
        r == spec_unzigzag32(z),
{
    let m = z / 2;
    if z % 2 == 0 {
        m as i32
    } else {
        -(m as i32) - 1
    }
}

/// Zigzag encoding then decoding a 32-bit signed value yields the value back.
pub proof fn lemma_zigzag32_round_trip(n: i32)
    ensures
        spec_unzigzag32(spec_zigzag32(n)) == n,
{
}

/// The four little-endian bytes of a 32-bit fixed-width value.
pub fn fixed32_encode(x: u32) -> (r: Vec<u8>)
    ensures
        r@ == vstd::bytes::spec_u32_to_le_bytes(x),
        r@.len() == 4,
{
    vstd::bytes::u32_to_le_bytes(x)
}

/// The 32-bit fixed-width value of four little-endian bytes.
pub fn fixed32_decode(s: &[u8]) -> (x: u32)
    requires
        s@.len() == 4,
    ensures
        x == vstd::bytes::spec_u32_from_le_bytes(s@),
{
    vstd::bytes::u32_from_le_bytes(s)
}

/// Encoding a 32-bit fixed-width value and decoding the bytes yields the
/// value back.
pub proof fn lemma_fixed32_round_trip(x: u32)
    ensures
        vstd::bytes::spec_u32_from_le_bytes(vstd::bytes::spec_u32_to_le_bytes(x)) == x,
{
    vstd::bytes::lemma_auto_spec_u32_to_from_le_bytes();
    assert(vstd::bytes::spec_u32_to_le_bytes(x).len() == 4);
}

/// The eight little-endian bytes of a 64-bit fixed-width value.
pub fn fixed64_encode(x: u64) -> (r: Vec<u8>)
    ensures
        r@ == vstd::bytes::spec_u64_to_le_bytes(x),
        r@.len() == 8,
{
    vstd::bytes::u64_to_le_bytes(x)
}

/// The 64-bit fixed-width value of eight little-endian bytes.
pub fn fixed64_decode(s: &[u8]) -> (x: u64)
    requires
        s@.len() == 8,
    ensures
        x == vstd::bytes::spec_u64_from_le_bytes(s@),
{
    vstd::bytes::u64_from_le_bytes(s)
}

/// Encoding a 64-bit fixed-width value and decoding the bytes yields the
/// value back.
pub proof fn lemma_fixed64_round_trip(x: u64)
    ensures
        vstd::bytes::spec_u64_from_le_bytes(vstd::bytes::spec_u64_to_le_bytes(x)) == x,
{
    vstd::bytes::lemma_auto_spec_u64_to_from_le_bytes();
    assert(vstd::bytes::spec_u64_to_le_bytes(x).len() == 8);
}

/// The varint byte form of a value: seven value bits per byte, low group
/// first, the high bit of every byte but the last set.
pub open spec fn spec_varint(x: nat) -> Seq<u8>
    decreases x,
{
    if x < 128 {
        seq![x as u8]
    } else {
        seq![(x % 128 + 128) as u8] + spec_varint(x / 128)
    }
}

/// The value and width of the varint starting at `start`, if the bytes there
/// form one.
pub open spec fn spec_varint_decode(s: Seq<u8>, start: int) -> Option<(nat, int)>
    decreases s.len() - start,
{
    if start < 0 || start >= s.len() {
        None
    } else if s[start] < 128 {
        Some((s[start] as nat, 1))
    } else {
        match spec_varint_decode(s, start + 1) {
            Some(p) => Some((((s[start] - 128) + 128 * p.0) as nat, p.1 + 1)),
            None => None,
        }
    }
}

/// The varint byte form of a value.
pub fn varint_encode(x: u64) -> (r: Vec<u8>)
    ensures
        r@ == spec_varint(x as nat),
    decreases x,
{
    if x < 128 {
        let mut out: Vec<u8> = Vec::new();
        out.push(x as u8);
        proof {
            assert(out@ =~= seq![(x as nat) as u8]);
        }
        out
    } else {
        let mut out: Vec<u8> = Vec::new();
        out.push((x % 128 + 128) as u8);
        let mut rest = varint_encode(x / 128);
        out.append(&mut rest);
        proof {
            assert(out@ =~= seq![((x as nat) % 128 + 128) as u8] + spec_varint((x as nat) / 128));
        }
        out
    }
}

/// A decoded varint is at least one byte wide and fits the bytes it was
/// read from.
pub proof fn lemma_varint_decode_len(s: Seq<u8>, start: int)
    ensures
        match spec_varint_decode(s, start) {
            Some(p) => 1 <= p.1 <= s.len() - start,
            None => true,
        },
    decreases s.len() - start,
{
    if 0 <= start < s.len() && s[start] >= 128 {
        lemma_varint_decode_len(s, start + 1);
    }
}

/// The value and width of the varint starting at `start`, when the bytes
/// there form one whose value fits a 64-bit word.
pub fn varint_decode(s: &Vec<u8>, start: usize) -> (r: Option<(u64, usize)>)
    ensures
        match spec_varint_decode(s@, start as int) {
            Some(p) => if p.0 <= u64::MAX {
                r == Some((p.0 as u64, p.1 as usize))
            } else {
                r is None
            },
            None => r is None,
        },
    decreases s@.len() - start,
{
    proof {
        lemma_varint_decode_len(s@, start as int);
    }
    if start >= s.len() {
        return None;
    }
    let b = s[start];
    if b < 128 {
        Some((b as u64, 1))
    } else {
        proof {
            lemma_varint_decode_len(s@, start + 1 as int);
        }
        match varint_decode(s, start + 1) {
            Some((v, n)) => {
                let ghost p = spec_varint_decode(s@, start + 1 as int)->Some_0;
                let limit = (u64::MAX - ((b - 128) as u64)) / 128;
                if v <= limit {
                    proof {
                        assert(p.0 == v);
                        assert(((b - 128) + 128 * p.0) <= u64::MAX) by (nonlinear_arith)
                            requires
                                p.0 == v,
                                v <= (u64::MAX - ((b - 128) as u64)) / 128,
                                b >= 128,
                        ;
                    }
                    Some(((b - 128) as u64 + 128 * v, n + 1))
                } else {
                    proof {
                        assert(p.0 == v);
                        assert(((b - 128) + 128 * p.0) > u64::MAX) by (nonlinear_arith)
                            requires
                                p.0 == v,
                                v > (u64::MAX - ((b - 128) as u64)) / 128,
                                b >= 128,
                        ;
                    }
                    None
                }
            },
            None => None,
        }
    }
}

/// Appending bytes after an encoded varint does not change what decoding
/// finds at its start: the encoded value and its width.
pub proof fn lemma_varint_round_trip(x: nat, rest: Seq<u8>)
    ensures
        spec_varint_decode(spec_varint(x) + rest, 0) == Some((x, spec_varint(x).len() as int)),
    decreases x,
{
    let s = spec_varint(x) + rest;
    if x < 128 {
        assert(s[0] == x as u8);
    } else {
        lemma_varint_round_trip(x / 128, rest);
        assert(spec_varint(x) =~= seq![(x % 128 + 128) as u8] + spec_varint(x / 128));
        let tail = spec_varint(x / 128) + rest;
        assert forall|j: int| 0 <= j < tail.len() implies s[j + 1] == tail[j] by {}
        lemma_varint_decode_shift(tail, s);
        assert(s[0] == (x % 128 + 128) as u8);
        assert(s[0] >= 128);
        assert((s[0] - 128) + 128 * (x / 128) == x) by (nonlinear_arith)
            requires
                s[0] == (x % 128 + 128) as u8,
                x >= 128,
        ;
    }
}

/// Decoding after a one-byte shift finds the same varint.
proof fn lemma_varint_decode_shift(tail: Seq<u8>, s: Seq<u8>)
    requires
        s.len() == tail.len() + 1,
        forall|j: int| 0 <= j < tail.len() ==> s[j + 1] == tail[j],
    ensures
        spec_varint_decode(s, 1) == spec_varint_decode(tail, 0),
{
    lemma_varint_decode_shift_at(tail, s, 0);
}

/// Decoding at matching offsets finds the same varint.
proof fn lemma_varint_decode_shift_at(tail: Seq<u8>, s: Seq<u8>, k: int)
    requires
        0 <= k <= tail.len(),
        s.len() == tail.len() + 1,
        forall|j: int| 0 <= j < tail.len() ==> s[j + 1] == tail[j],
    ensures
        spec_varint_decode(s, k + 1) == spec_varint_decode(tail, k),
    decreases tail.len() - k,
{
    if k < tail.len() {
        lemma_varint_decode_shift_at(tail, s, k + 1);
        assert(s[k + 1] == tail[k]);
    }
}

} // verus!
