//! Byte-order helpers and the Internet checksum.
//!
//! Every header field in this stack is a fixed-width big-endian integer.
//! The spec functions here give those fields their mathematical reading
//! (`be16`, `be32`, `be128`) and writing (`be16_of`, ...), and the
//! executable readers and writers are proved against them.

use vstd::arithmetic::div_mod::lemma_div_pos_is_pos;
use vstd::arithmetic::div_mod::lemma_fundamental_div_mod;
use vstd::arithmetic::div_mod::lemma_fundamental_div_mod_converse;
use vstd::arithmetic::div_mod::lemma_mod_pos_bound;
use vstd::arithmetic::div_mod::lemma_small_mod;
use vstd::prelude::*;

verus! {

/// Typed failure of the stack's own operations.
#[derive(Debug, Clone, Copy, PartialEq, Eq, Structural)]
pub enum UtilsError {
    /// No usable network interface was found (reported by the I/O layer).
    NoNetworkInterface,
    /// A buffer is shorter than the fixed-size header it must hold.
    TruncatedPacket,
}

/// Big-endian value of the two bytes at `i`.
pub open spec fn be16(s: Seq<u8>, i: int) -> u16 {
    (s[i] * 0x100 + s[i + 1]) as u16
}

/// Big-endian value of the four bytes at `i`.
pub open spec fn be32(s: Seq<u8>, i: int) -> u32 {
    (s[i] * 0x1000000 + s[i + 1] * 0x10000 + s[i + 2] * 0x100 + s[i + 3]) as u32
}

/// Big-endian value of the sixteen bytes at `i`.
#[verifier::opaque]
pub open spec fn be128(s: Seq<u8>, i: int) -> u128 {
    (s[i] * 0x1000000000000000000000000000000
        + s[i + 1] * 0x10000000000000000000000000000
        + s[i + 2] * 0x100000000000000000000000000
        + s[i + 3] * 0x1000000000000000000000000
        + s[i + 4] * 0x10000000000000000000000
        + s[i + 5] * 0x100000000000000000000
        + s[i + 6] * 0x1000000000000000000
        + s[i + 7] * 0x10000000000000000
        + s[i + 8] * 0x100000000000000
        + s[i + 9] * 0x1000000000000
        + s[i + 10] * 0x10000000000
        + s[i + 11] * 0x100000000
        + s[i + 12] * 0x1000000
        + s[i + 13] * 0x10000
        + s[i + 14] * 0x100
        + s[i + 15]) as u128
}

/// The two big-endian bytes of `x`.
pub open spec fn be16_of(x: int) -> Seq<u8> {
    seq![((x / 0x100) % 0x100) as u8, (x % 0x100) as u8]
}

/// The four big-endian bytes of `x`.
pub open spec fn be32_of(x: int) -> Seq<u8> {
    seq![
        ((x / 0x1000000) % 0x100) as u8,
        ((x / 0x10000) % 0x100) as u8,
        ((x / 0x100) % 0x100) as u8,
        (x % 0x100) as u8,
    ]
}

/// The sixteen big-endian bytes of `x`.
#[verifier::opaque]
pub open spec fn be128_of(x: int) -> Seq<u8> {
    seq![
        ((x / 0x1000000000000000000000000000000) % 0x100) as u8,
        ((x / 0x10000000000000000000000000000) % 0x100) as u8,
        ((x / 0x100000000000000000000000000) % 0x100) as u8,
        ((x / 0x1000000000000000000000000) % 0x100) as u8,
        ((x / 0x10000000000000000000000) % 0x100) as u8,
        ((x / 0x100000000000000000000) % 0x100) as u8,
        ((x / 0x1000000000000000000) % 0x100) as u8,
        ((x / 0x10000000000000000) % 0x100) as u8,
        ((x / 0x100000000000000) % 0x100) as u8,
        ((x / 0x1000000000000) % 0x100) as u8,
        ((x / 0x10000000000) % 0x100) as u8,
        ((x / 0x100000000) % 0x100) as u8,
        ((x / 0x1000000) % 0x100) as u8,
        ((x / 0x10000) % 0x100) as u8,
        ((x / 0x100) % 0x100) as u8,
        (x % 0x100) as u8,
    ]
}

/// An encoded sixteen-byte value is sixteen bytes long.
pub broadcast proof fn lemma_be128_of_len(x: int)
    ensures
        #[trigger] be128_of(x).len() == 16,
{
    reveal(be128_of);
}

/// Sum of the big-endian 16-bit words of `s` from index `i` on, an odd
/// trailing byte padded with a zero low half.
pub open spec fn sum_be_words(s: Seq<u8>, i: int) -> int
    decreases s.len() - i when 0 <= i
{
    if i >= s.len() {
        0
    } else if i + 1 == s.len() {
        s[i] * 0x100
    } else {
        s[i] * 0x100 + s[i + 1] + sum_be_words(s, i + 2)
    }
}

/// One carry fold of a word sum.
pub open spec fn fold_sum(total: int) -> int {
    total % 0x10000 + total / 0x10000
}

/// The Internet checksum of `s`: sum the big-endian words, fold the carries
/// once, and take the low sixteen bits of the one's complement.
pub open spec fn checksum_spec(s: Seq<u8>) -> int {
    0xffff - (fold_sum(sum_be_words(s, 0)) % 0x10000)
}

proof fn lemma_sum_nonneg(s: Seq<u8>, i: int)
    requires
        0 <= i,
    ensures
        sum_be_words(s, i) >= 0,
    decreases s.len() - i,
{
    if i < s.len() && i + 1 < s.len() {
        lemma_sum_nonneg(s, i + 2);
    }
}

/// The two big-endian bytes of a `u16` weigh back to its value.
pub proof fn lemma_be16_value(x: u16)
    ensures
        be16_of(x as int)[0] * 0x100 + be16_of(x as int)[1] == x,
{
    lemma_div_pos_is_pos(x as int, 0x100);
    lemma_small_mod((x as int / 0x100) as nat, 0x100);
    lemma_mod_pos_bound(x as int, 0x100);
    lemma_fundamental_div_mod(x as int, 0x100);
}

/// The big-endian bytes of a `u16` are its high and low byte.
pub proof fn lemma_be16_of_u16(c: u16)
    ensures
        be16_of(c as int)[0] == (c / 0x100) as u8,
        be16_of(c as int)[1] == (c % 0x100) as u8,
{
    lemma_div_pos_is_pos(c as int, 0x100);
    lemma_fundamental_div_mod(c as int, 0x100);
    lemma_mod_pos_bound(c as int, 0x100);
    assert(c as int / 0x100 < 0x100);
    lemma_small_mod((c as int / 0x100) as nat, 0x100);
}

/// The four big-endian bytes of a `u32` weigh back to its value.
pub proof fn lemma_be32_value(x: u32)
    ensures
        be32_of(x as int)[0] * 0x1000000 + be32_of(x as int)[1] * 0x10000 + be32_of(
            x as int,
        )[2] * 0x100 + be32_of(x as int)[3] == x,
{
    let xi = x as int;
    lemma_div_pos_is_pos(xi, 0x100);
    lemma_div_pos_is_pos(xi, 0x10000);
    lemma_div_pos_is_pos(xi, 0x1000000);
    lemma_fundamental_div_mod(xi, 0x1000000);
    lemma_mod_pos_bound(xi, 0x1000000);
    lemma_small_mod((xi / 0x1000000) as nat, 0x100);
    lemma_mod_pos_bound(xi / 0x10000, 0x100);
    lemma_mod_pos_bound(xi / 0x100, 0x100);
    lemma_mod_pos_bound(xi, 0x100);
    vstd::arithmetic::div_mod::lemma_div_denominator(xi, 0x100, 0x100);
    vstd::arithmetic::div_mod::lemma_div_denominator(xi, 0x10000, 0x100);
    lemma_fundamental_div_mod(xi, 0x100);
    lemma_fundamental_div_mod(xi / 0x100, 0x100);
    lemma_fundamental_div_mod(xi / 0x10000, 0x100);
}

proof fn lemma_sum_agree(s1: Seq<u8>, s2: Seq<u8>, i: int)
    requires
        0 <= i,
        s1.len() == s2.len(),
        forall|j: int| i <= j < s1.len() ==> s1[j] == s2[j],
    ensures
        sum_be_words(s1, i) == sum_be_words(s2, i),
    decreases s1.len() - i,
{
    if i < s1.len() && i + 1 < s1.len() {
        lemma_sum_agree(s1, s2, i + 2);
    }
}

proof fn lemma_sum_update2(s: Seq<u8>, k: int, hi: u8, lo: u8, i: int)
    requires
        0 <= i <= k,
        i % 2 == 0,
        k % 2 == 0,
        k + 2 <= s.len(),
        s[k] == 0,
        s[k + 1] == 0,
    ensures
        sum_be_words(s.update(k, hi).update(k + 1, lo), i) == sum_be_words(s, i) + hi * 0x100
            + lo,
    decreases k - i,
{
    let s2 = s.update(k, hi).update(k + 1, lo);
    if i == k {
        assert(s2[k] == hi && s2[k + 1] == lo);
        lemma_sum_agree(s2, s, k + 2);
    } else {
        lemma_sum_update2(s, k, hi, lo, i + 2);
        assert(s2[i] == s[i] && s2[i + 1] == s[i + 1]);
    }
}

/// Checksum self-check: writing the computed checksum of a buffer into its
/// zeroed, word-aligned checksum field at `k` makes the checksum of the
/// whole buffer recompute to zero. This holds whenever one carry fold
/// suffices for the zeroed buffer's word sum, which is the case for every
/// buffer this stack builds.
pub proof fn lemma_checksum_involution(s: Seq<u8>, k: int)
    requires
        s.len() % 2 == 0,
        0 <= k,
        k % 2 == 0,
        k + 2 <= s.len(),
        s[k] == 0,
        s[k + 1] == 0,
        fold_sum(sum_be_words(s, 0)) < 0x10000,
    ensures
        ({
            let c = checksum_spec(s);
            checksum_spec(s.update(k, be16_of(c)[0]).update(k + 1, be16_of(c)[1])) == 0
        }),
{
    let total = sum_be_words(s, 0);
    lemma_sum_nonneg(s, 0);
    let l = total % 0x10000;
    let h = total / 0x10000;
    lemma_fundamental_div_mod(total, 0x10000);
    lemma_mod_pos_bound(total, 0x10000);
    lemma_div_pos_is_pos(total, 0x10000);
    let c = 0xffff - (l + h);
    assert(checksum_spec(s) == c) by {
        lemma_small_mod((l + h) as nat, 0x10000);
    }
    let hi = be16_of(c)[0];
    let lo = be16_of(c)[1];
    assert(hi == c / 0x100 && lo == c % 0x100) by {
        lemma_div_pos_is_pos(c, 0x100);
        lemma_mod_pos_bound(c, 0x100);
        assert(c / 0x100 < 0x100);
        lemma_small_mod((c / 0x100) as nat, 0x100);
    }
    assert(hi * 0x100 + lo == c) by {
        lemma_fundamental_div_mod(c, 0x100);
    }
    lemma_sum_update2(s, k, hi, lo, 0);
    let s2 = s.update(k, be16_of(checksum_spec(s))[0]).update(k + 1, be16_of(checksum_spec(s))[1]);
    let total2 = sum_be_words(s2, 0);
    assert(total2 == total + c);
    assert(total2 == h * 0x10000 + (0xffff - h));
    lemma_fundamental_div_mod_converse(total2, 0x10000, h, 0xffff - h);
    assert(fold_sum(total2) == 0xffff);
    lemma_small_mod(0xffff, 0x10000);
}

/// Internet one's-complement 16-bit checksum over a byte buffer: sum the
/// big-endian words (an odd trailing byte padded with zero), fold the carries
/// once, and return the one's complement.
pub fn checksum(packet: &Vec<u8>) -> (r: u16)
    requires
        packet@.len() <= 0x20000,
    ensures
        r == checksum_spec(packet@),
{
    let ghost s = packet@;
    let mut sum: u32 = 0;
    let mut i: usize = 0;
    while i < packet.len()
        invariant
            i % 2 == 0,
            i <= s.len() + 1,
            s.len() <= 0x20000,
            s == packet@,
            sum <= (i / 2) * 0xffff,
            sum + sum_be_words(s, i as int) == sum_be_words(s, 0),
        decreases s.len() + 2 - i,
    {
        let hi = packet[i];
        let lo = if i + 1 < packet.len() {
            packet[i + 1]
        } else {
            0
        };
        proof {
            lemma_sum_nonneg(s, i + 2);
            assert(sum_be_words(s, i as int) == hi * 0x100 + lo + sum_be_words(s, i + 2));
        }
        sum = sum + (hi as u32) * 0x100 + (lo as u32);
        i = i + 2;
    }
    proof {
        assert(sum_be_words(s, i as int) == 0);
    }
    proof {
        assert(sum & 0xffff == sum % 0x10000) by (bit_vector);
        assert(sum >> 16 == sum / 0x10000) by (bit_vector);
    }
    let folded: u32 = (sum & 0xffff) + (sum >> 16);
    let r: u16 = 0xffff - ((folded % 0x10000) as u16);
    r
}

/// Big-endian `u16` from the first two bytes of a slice.
pub fn to_u16(packet: &[u8]) -> (r: u16)
    requires
        packet@.len() >= 2,
    ensures
        r == be16(packet@, 0),
{
    (packet[0] as u16) * 0x100 + (packet[1] as u16)
}

/// Big-endian `u32` from the first four bytes of a slice.
pub fn to_u32(packet: &[u8]) -> (r: u32)
    requires
        packet@.len() >= 4,
    ensures
        r == be32(packet@, 0),
{
    (packet[0] as u32) * 0x1000000 + (packet[1] as u32) * 0x10000 + (packet[2] as u32) * 0x100
        + (packet[3] as u32)
}

/// Big-endian `u16` from the two bytes of `v` at `i`.
pub(crate) fn read_u16_at(v: &Vec<u8>, i: usize) -> (r: u16)
    requires
        i + 2 <= v@.len(),
    ensures
        r == be16(v@, i as int),
{
    let _n: usize = v.len();
    (v[i] as u16) * 0x100 + (v[i + 1] as u16)
}

/// Big-endian `u32` from the four bytes of `v` at `i`.
pub(crate) fn read_u32_at(v: &Vec<u8>, i: usize) -> (r: u32)
    requires
        i + 4 <= v@.len(),
    ensures
        r == be32(v@, i as int),
{
    let _n: usize = v.len();
    (v[i] as u32) * 0x1000000 + (v[i + 1] as u32) * 0x10000 + (v[i + 2] as u32) * 0x100 + (v[i
        + 3] as u32)
}

/// Big-endian `u128` from the sixteen bytes of `v` at `i`.
pub(crate) fn read_u128_at(v: &Vec<u8>, i: usize) -> (r: u128)
    requires
        i + 16 <= v@.len(),
    ensures
        r == be128(v@, i as int),
{
    proof {
        reveal(be128);
    }
    let _n: usize = v.len();
    let mut acc: u128 = v[i] as u128;
    acc = acc * 0x100 + (v[i + 1] as u128);
    acc = acc * 0x100 + (v[i + 2] as u128);
    acc = acc * 0x100 + (v[i + 3] as u128);
    acc = acc * 0x100 + (v[i + 4] as u128);
    acc = acc * 0x100 + (v[i + 5] as u128);
    acc = acc * 0x100 + (v[i + 6] as u128);
    acc = acc * 0x100 + (v[i + 7] as u128);
    acc = acc * 0x100 + (v[i + 8] as u128);
    acc = acc * 0x100 + (v[i + 9] as u128);
    acc = acc * 0x100 + (v[i + 10] as u128);
    acc = acc * 0x100 + (v[i + 11] as u128);
    acc = acc * 0x100 + (v[i + 12] as u128);
    acc = acc * 0x100 + (v[i + 13] as u128);
    acc = acc * 0x100 + (v[i + 14] as u128);
    acc = acc * 0x100 + (v[i + 15] as u128);
    acc
}

/// The six bytes of `v` at `i`, as a link-layer address.
pub(crate) fn read_mac_at(v: &Vec<u8>, i: usize) -> (r: [u8; 6])
    requires
        i + 6 <= v@.len(),
    ensures
        r@ == v@.subrange(i as int, i + 6),
{
    let _n: usize = v.len();
    let r = [v[i], v[i + 1], v[i + 2], v[i + 3], v[i + 4], v[i + 5]];
    proof {
        assert(r@ =~= v@.subrange(i as int, i + 6));
    }
    r
}

/// Appends the two big-endian bytes of `x` to `buf`.
pub(crate) fn put_u16(buf: &mut Vec<u8>, x: u16)
    ensures
        final(buf)@ == old(buf)@ + be16_of(x as int),
{
    buf.push((x / 0x100) as u8);
    buf.push((x % 0x100) as u8);
    proof {
        assert(buf@ =~= old(buf)@ + be16_of(x as int));
    }
}

/// Appends the four big-endian bytes of `x` to `buf`.
pub(crate) fn put_u32(buf: &mut Vec<u8>, x: u32)
    ensures
        final(buf)@ == old(buf)@ + be32_of(x as int),
{
    buf.push((x / 0x1000000) as u8);
    buf.push(((x / 0x10000) % 0x100) as u8);
    buf.push(((x / 0x100) % 0x100) as u8);
    buf.push((x % 0x100) as u8);
    proof {
        assert(buf@ =~= old(buf)@ + be32_of(x as int));
    }
}

/// Appends the sixteen big-endian bytes of `x` to `buf`.
pub(crate) fn put_u128(buf: &mut Vec<u8>, x: u128)
    ensures
        final(buf)@ == old(buf)@ + be128_of(x as int),
{
    proof {
        reveal(be128_of);
    }
    buf.push((x / 0x1000000000000000000000000000000) as u8);
    buf.push(((x / 0x10000000000000000000000000000) % 0x100) as u8);
    buf.push(((x / 0x100000000000000000000000000) % 0x100) as u8);
    buf.push(((x / 0x1000000000000000000000000) % 0x100) as u8);
    buf.push(((x / 0x10000000000000000000000) % 0x100) as u8);
    buf.push(((x / 0x100000000000000000000) % 0x100) as u8);
    buf.push(((x / 0x1000000000000000000) % 0x100) as u8);
    buf.push(((x / 0x10000000000000000) % 0x100) as u8);
    buf.push(((x / 0x100000000000000) % 0x100) as u8);
    buf.push(((x / 0x1000000000000) % 0x100) as u8);
    buf.push(((x / 0x10000000000) % 0x100) as u8);
    buf.push(((x / 0x100000000) % 0x100) as u8);
    buf.push(((x / 0x1000000) % 0x100) as u8);
    buf.push(((x / 0x10000) % 0x100) as u8);
    buf.push(((x / 0x100) % 0x100) as u8);
    buf.push((x % 0x100) as u8);
    proof {
        assert(buf@ =~= old(buf)@ + be128_of(x as int));
    }
}

/// Appends the six bytes of a link-layer address to `buf`.
pub(crate) fn put_mac(buf: &mut Vec<u8>, mac: &[u8; 6])
    ensures
        final(buf)@ == old(buf)@ + mac@,
{
    buf.push(mac[0]);
    buf.push(mac[1]);
    buf.push(mac[2]);
    buf.push(mac[3]);
    buf.push(mac[4]);
    buf.push(mac[5]);
    proof {
        assert(buf@ =~= old(buf)@ + mac@);
    }
}

/// Appends all bytes of `src` to `buf`.
pub(crate) fn put_bytes(buf: &mut Vec<u8>, src: &Vec<u8>)
    ensures
        final(buf)@ == old(buf)@ + src@,
{
    let ghost start = buf@;
    proof {
        assert(buf@ =~= start + src@.subrange(0, 0));
    }
    let mut j: usize = 0;
    while j < src.len()
        invariant
            j <= src@.len(),
            buf@ == start + src@.subrange(0, j as int),
            start == old(buf)@,
        decreases src@.len() - j,
    {
        buf.push(src[j]);
        proof {
            assert(start + src@.subrange(0, j as int) + seq![src@[j as int]] =~= start
                + src@.subrange(0, j + 1));
        }
        j = j + 1;
    }
    proof {
        assert(src@.subrange(0, src@.len() as int) =~= src@);
    }
}

/// The bytes of `v` from `from` to the end, as a fresh buffer.
pub(crate) fn vec_suffix(v: &Vec<u8>, from: usize) -> (r: Vec<u8>)
    requires
        from <= v@.len(),
    ensures
        r@ == v@.subrange(from as int, v@.len() as int),
{
    let mut r: Vec<u8> = Vec::new();
    let mut j: usize = from;
    while j < v.len()
        invariant
            from <= j <= v@.len(),
            r@ == v@.subrange(from as int, j as int),
        decreases v@.len() - j,
    {
        r.push(v[j]);
        proof {
            assert(v@.subrange(from as int, j as int) + seq![v@[j as int]] =~= v@.subrange(
                from as int, j + 1));
        }
        j = j + 1;
    }
    r
}

/// The bytes of `v` from `from` (inclusive) to `to` (exclusive), as a
/// fresh buffer.
pub(crate) fn vec_range(v: &Vec<u8>, from: usize, to: usize) -> (r: Vec<u8>)
    requires
        from <= to <= v@.len(),
    ensures
        r@ == v@.subrange(from as int, to as int),
{
    let mut r: Vec<u8> = Vec::new();
    let mut j: usize = from;
    while j < to
        invariant
            from <= j <= to <= v@.len(),
            r@ == v@.subrange(from as int, j as int),
        decreases to - j,
    {
        r.push(v[j]);
        proof {
            assert(v@.subrange(from as int, j as int) + seq![v@[j as int]] =~= v@.subrange(
                from as int,
                j + 1,
            ));
        }
        j = j + 1;
    }
    r
}

/// Whether the six bytes of `v` at `at` equal the link-layer address `mac`.
pub(crate) fn mac_eq_at(v: &Vec<u8>, at: usize, mac: &[u8; 6]) -> (r: bool)
    requires
        at + 6 <= v@.len(),
    ensures
        r == (v@.subrange(at as int, at + 6) == mac@),
{
    let _n: usize = v.len();
    let r = v[at] == mac[0] && v[at + 1] == mac[1] && v[at + 2] == mac[2] && v[at + 3] == mac[3]
        && v[at + 4] == mac[4] && v[at + 5] == mac[5];
    proof {
        let sub = v@.subrange(at as int, at + 6);
        if r {
            assert(sub =~= mac@);
        } else {
            assert(sub[0] == v@[at as int]);
        }
    }
    r
}

} // verus!
