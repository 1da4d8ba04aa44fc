use vstd::prelude::*;

verus! {

/// The sum of all bytes of `s`.
pub open spec fn byte_sum(s: Seq<u8>) -> nat
    decreases s.len(),
{
    if s.len() == 0 {
        0
    } else {
        byte_sum(s.drop_last()) + s.last() as nat
    }
}

/// The low byte of the sum of all bytes of `s`.
pub open spec fn checksum(s: Seq<u8>) -> u8 {
    (byte_sum(s) % 256) as u8
}

/// A 17-byte frame whose byte 15 is the checksum of bytes 0..=14.
pub open spec fn checksum_ok(m: Seq<u8>) -> bool {
    &&& m.len() == 17
    &&& m[15] == checksum(m.take(15))
}

/// The four bytes of `x`, least significant first.
pub open spec fn le_bytes(x: u32) -> Seq<u8> {
    seq![
        (x % 256) as u8,
        ((x / 256) % 256) as u8,
        ((x / 65536) % 256) as u8,
        (x / 16777216) as u8,
    ]
}

/// The number whose bytes, least significant first, are `b[0..4]`.
pub open spec fn le_value(b: Seq<u8>) -> u32
    recommends
        b.len() >= 4,
{
    (b[0] as int + 256 * b[1] as int + 65536 * b[2] as int + 16777216 * b[3] as int) as u32
}

pub proof fn lemma_byte_sum_bound(s: Seq<u8>)
    ensures
        byte_sum(s) <= 255 * s.len(),
    decreases s.len(),
{
    if s.len() > 0 {
        lemma_byte_sum_bound(s.drop_last());
    }
}

pub proof fn lemma_byte_sum_update(s: Seq<u8>, i: int, v: u8)
    requires
        0 <= i < s.len(),
    ensures
        byte_sum(s.update(i, v)) + s[i] as nat == byte_sum(s) + v as nat,
    decreases s.len(),
{
    let t = s.update(i, v);
    if i == s.len() - 1 {
        assert(t.drop_last() =~= s.drop_last());
    } else {
        assert(t.drop_last() =~= s.drop_last().update(i, v));
        lemma_byte_sum_update(s.drop_last(), i, v);
    }
}

/// Changing one byte of a sequence always changes its checksum.
pub proof fn lemma_checksum_detects_byte_change(s: Seq<u8>, i: int, v: u8)
    requires
        0 <= i < s.len(),
        v != s[i],
    ensures
        checksum(s.update(i, v)) != checksum(s),
{
    lemma_byte_sum_update(s, i, v);
    let a = byte_sum(s) as int;
    let b = byte_sum(s.update(i, v)) as int;
    assert(b - a == v as int - s[i] as int);
    assert(a % 256 != b % 256) by (nonlinear_arith)
        requires
            b - a == v as int - s[i] as int,
            v != s[i],
            0 <= v < 256,
            0 <= s[i] < 256,
            a >= 0,
            b >= 0,
    ;
}

pub proof fn lemma_le_round_trip(x: u32)
    ensures
        le_value(le_bytes(x)) == x,
{
}

/// The checksum of bytes 0..=14 of a frame.
pub fn checksum_of(msg: &[u8; 17]) -> (r: u8)
    ensures
        r == checksum(msg@.take(15)),
{
    let mut sum: u32 = 0;
    let mut i: usize = 0;
    while i < 15
        invariant
            0 <= i <= 15,
            msg@.len() == 17,
            sum as nat == byte_sum(msg@.take(i as int)),
        decreases 15 - i,
    {
        proof {
            assert(msg@.take(i as int + 1).drop_last() =~= msg@.take(i as int));
            lemma_byte_sum_bound(msg@.take(i as int));
        }
        sum = sum + msg[i] as u32;
        i = i + 1;
    }
    (sum % 256) as u8
}

/// The four bytes of `x`, least significant first.
pub fn u32_to_le(x: u32) -> (r: [u8; 4])
    ensures
        r@ == le_bytes(x),
{
    let r = [(x % 256) as u8, ((x / 256) % 256) as u8, ((x / 65536) % 256) as u8, (x / 16777216) as u8];
    assert(r@ =~= le_bytes(x));
    r
}

/// The number whose bytes, least significant first, are `b`.
pub fn u32_from_le(b: [u8; 4]) -> (r: u32)
    ensures
        r == le_value(b@),
{
    b[0] as u32 + 256 * (b[1] as u32) + 65536 * (b[2] as u32) + 16777216 * (b[3] as u32)
}

} // verus!
