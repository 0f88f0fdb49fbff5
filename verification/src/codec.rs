//! Byte-order encodings shared by the drivers: the big-endian fields of SCSI
//! command blocks and device trees, and the little-endian fields of USB and
//! controller data ports.
use vstd::prelude::*;

verus! {

/// Big-endian bytes of a 16-bit value.
pub open spec fn be16_bytes(x: u16) -> Seq<u8> {
    seq![(x / 0x100) as u8, (x % 0x100) as u8]
}

/// Big-endian bytes of a 32-bit value.
pub open spec fn be32_bytes(x: u32) -> Seq<u8> {
    seq![
        (x / 0x100_0000) as u8,
        ((x / 0x1_0000) % 0x100) as u8,
        ((x / 0x100) % 0x100) as u8,
        (x % 0x100) as u8,
    ]
}

/// Big-endian bytes of a 64-bit value.
pub open spec fn be64_bytes(x: u64) -> Seq<u8> {
    be32_bytes((x / 0x1_0000_0000) as u32) + be32_bytes((x % 0x1_0000_0000) as u32)
}

/// Little-endian bytes of a 16-bit value.
pub open spec fn le16_bytes(x: u16) -> Seq<u8> {
    seq![(x % 0x100) as u8, (x / 0x100) as u8]
}

/// Little-endian bytes of a 32-bit value.
pub open spec fn le32_bytes(x: u32) -> Seq<u8> {
    seq![
        (x % 0x100) as u8,
        ((x / 0x100) % 0x100) as u8,
        ((x / 0x1_0000) % 0x100) as u8,
        (x / 0x100_0000) as u8,
    ]
}

/// The 16-bit value whose little-endian bytes are `lo`, `hi`.
pub open spec fn le16_value(lo: u8, hi: u8) -> u16 {
    (lo + hi * 0x100) as u16
}

/// The 32-bit value whose little-endian bytes are `b0` .. `b3`.
pub open spec fn le32_value(b0: u8, b1: u8, b2: u8, b3: u8) -> u32 {
    (b0 + b1 * 0x100 + b2 * 0x1_0000 + b3 * 0x100_0000) as u32
}

/// The number that `bytes` spell in big-endian order.
pub open spec fn be_value(bytes: Seq<u8>) -> nat
    decreases bytes.len(),
{
    if bytes.len() == 0 {
        0
    } else {
        be_value(bytes.drop_last()) * 256 + bytes.last() as nat
    }
}

/// The weight of the first of `n` trailing bytes: 256 to the power `n`.
pub open spec fn byte_weight(n: nat) -> nat
    decreases n,
{
    if n == 0 {
        1
    } else {
        256 * byte_weight((n - 1) as nat)
    }
}

/// Bytes in front count `byte_weight` of the bytes behind them.
pub proof fn lemma_be_value_append(a: Seq<u8>, b: Seq<u8>)
    ensures
        be_value(a + b) == be_value(a) * byte_weight(b.len()) + be_value(b),
    decreases b.len(),
{
    if b.len() == 0 {
        assert(a + b =~= a);
        assert(be_value(a) * byte_weight(0) == be_value(a) * 1);
    } else {
        let b1 = b.drop_last();
        assert((a + b).drop_last() =~= a + b1);
        assert((a + b).last() == b.last());
        lemma_be_value_append(a, b1);
        let x = be_value(a);
        let w = byte_weight(b1.len());
        let y = be_value(b1);
        assert(be_value(b) == y * 256 + b.last());
        assert(byte_weight(b.len()) == 256 * w);
        assert(be_value(a + b) == be_value(a + b1) * 256 + b.last());
        assert((x * w + y) * 256 + b.last() == x * (256 * w) + (y * 256 + b.last())) by (nonlinear_arith);
    }
}

/// Four bytes read as a big-endian number are the little-endian value of
/// the same bytes in reverse order.
pub proof fn lemma_be_value_four(s: Seq<u8>)
    requires
        s.len() == 4,
    ensures
        be_value(s) == le32_value(s[3], s[2], s[1], s[0]),
{
    let s3 = s.drop_last();
    let s2 = s3.drop_last();
    let s1 = s2.drop_last();
    let s0 = s1.drop_last();
    assert(s0 =~= Seq::<u8>::empty());
    assert(s1[0] == s[0] && s1.last() == s[0]);
    assert(s2.last() == s[1] && s3.last() == s[2] && s.last() == s[3]);
    assert(be_value(s0) == 0);
    assert(be_value(s1) == s[0] as nat);
    assert(be_value(s2) == s[0] * 256 + s[1]);
    assert(be_value(s3) == (s[0] * 256 + s[1]) * 256 + s[2]);
    assert(be_value(s) == ((s[0] * 256 + s[1]) * 256 + s[2]) * 256 + s[3]);
}

/// Big-endian bytes of a 16-bit value spell that value.
pub proof fn law_be16_round_trip(x: u16)
    ensures
        be_value(be16_bytes(x)) == x,
{
    let s = be16_bytes(x);
    assert(s.drop_last().drop_last() =~= Seq::<u8>::empty());
    reveal_with_fuel(be_value, 3);
}

/// Big-endian bytes of a 32-bit value spell that value.
pub proof fn law_be32_round_trip(x: u32)
    ensures
        be_value(be32_bytes(x)) == x,
{
    let s = be32_bytes(x);
    assert(s.drop_last().drop_last().drop_last().drop_last() =~= Seq::<u8>::empty());
    reveal_with_fuel(be_value, 5);
    let b0 = x / 0x100_0000;
    let b1 = (x / 0x1_0000) % 0x100;
    let b2 = (x / 0x100) % 0x100;
    let b3 = x % 0x100;
    assert(((b0 * 256 + b1) * 256 + b2) * 256 + b3 == x) by (nonlinear_arith)
        requires
            b0 == x / 0x100_0000,
            b1 == (x / 0x1_0000) % 0x100,
            b2 == (x / 0x100) % 0x100,
            b3 == x % 0x100,
            x <= 0xffff_ffff,
    ;
}

/// Big-endian bytes of a 64-bit value spell that value.
pub proof fn law_be64_round_trip(x: u64)
    ensures
        be_value(be64_bytes(x)) == x,
{
    let hi = (x / 0x1_0000_0000) as u32;
    let lo = (x % 0x1_0000_0000) as u32;
    lemma_be_value_append(be32_bytes(hi), be32_bytes(lo));
    law_be32_round_trip(hi);
    law_be32_round_trip(lo);
    reveal_with_fuel(byte_weight, 5);
    assert(byte_weight(4) == 0x1_0000_0000);
    assert(hi * 0x1_0000_0000 + lo == x);
}

/// Reads a 16-bit value from its little-endian bytes.
pub fn u16_from_le(lo: u8, hi: u8) -> (r: u16)
    ensures
        r == le16_value(lo, hi),
{
    let r = (lo as u16) | ((hi as u16) << 8u16);
    assert(r == (lo as u16) | ((hi as u16) << 8u16) ==> r == lo + hi * 0x100) by (bit_vector);
    r
}

/// Reads a 32-bit value from its little-endian bytes.
pub fn u32_from_le(b0: u8, b1: u8, b2: u8, b3: u8) -> (r: u32)
    ensures
        r == le32_value(b0, b1, b2, b3),
{
    let r = (b0 as u32) | ((b1 as u32) << 8u32) | ((b2 as u32) << 16u32) | ((b3 as u32) << 24u32);
    assert(r == (b0 as u32) | ((b1 as u32) << 8u32) | ((b2 as u32) << 16u32) | ((b3 as u32)
        << 24u32) ==> r == b0 + b1 * 0x100 + b2 * 0x1_0000 + b3 * 0x100_0000) by (bit_vector);
    r
}

/// The big-endian bytes of a 16-bit value.
pub fn u16_to_be(x: u16) -> (r: [u8; 2])
    ensures
        r@ == be16_bytes(x),
{
    let hi = (x >> 8u16) as u8;
    let lo = (x & 0xff) as u8;
    assert(hi == x / 0x100 && lo == x % 0x100) by (bit_vector)
        requires
            hi == (x >> 8u16) as u8,
            lo == (x & 0xff) as u8,
    ;
    [hi, lo]
}

/// The little-endian bytes of a 16-bit value.
pub fn u16_to_le(x: u16) -> (r: [u8; 2])
    ensures
        r@ == le16_bytes(x),
{
    let hi = (x >> 8u16) as u8;
    let lo = (x & 0xff) as u8;
    assert(hi == x / 0x100 && lo == x % 0x100) by (bit_vector)
        requires
            hi == (x >> 8u16) as u8,
            lo == (x & 0xff) as u8,
    ;
    [lo, hi]
}

/// The big-endian bytes of a 32-bit value.
pub fn u32_to_be(x: u32) -> (r: [u8; 4])
    ensures
        r@ == be32_bytes(x),
{
    let b0 = (x >> 24u32) as u8;
    let b1 = ((x >> 16u32) & 0xff) as u8;
    let b2 = ((x >> 8u32) & 0xff) as u8;
    let b3 = (x & 0xff) as u8;
    assert(b0 == x / 0x100_0000 && b1 == (x / 0x1_0000) % 0x100 && b2 == (x / 0x100) % 0x100
        && b3 == x % 0x100) by (bit_vector)
        requires
            b0 == (x >> 24u32) as u8,
            b1 == ((x >> 16u32) & 0xff) as u8,
            b2 == ((x >> 8u32) & 0xff) as u8,
            b3 == (x & 0xff) as u8,
    ;
    [b0, b1, b2, b3]
}

/// The little-endian bytes of a 32-bit value.
pub fn u32_to_le(x: u32) -> (r: [u8; 4])
    ensures
        r@ == le32_bytes(x),
{
    let be = u32_to_be(x);
    [be[3], be[2], be[1], be[0]]
}

/// The big-endian bytes of a 64-bit value.
pub fn u64_to_be(x: u64) -> (r: [u8; 8])
    ensures
        r@ == be64_bytes(x),
{
    let hi = (x >> 32u64) as u32;
    let lo = (x & 0xffff_ffff) as u32;
    assert(hi == x / 0x1_0000_0000 && lo == x % 0x1_0000_0000) by (bit_vector)
        requires
            hi == (x >> 32u64) as u32,
            lo == (x & 0xffff_ffff) as u32,
    ;
    let h = u32_to_be(hi);
    let l = u32_to_be(lo);
    let r = [h[0], h[1], h[2], h[3], l[0], l[1], l[2], l[3]];
    assert(r@ =~= h@ + l@);
    r
}

/// Decoding the little-endian bytes of a 32-bit word gives the word back.
pub proof fn law_le32_round_trip(x: u32)
    ensures
        le32_value(le32_bytes(x)[0], le32_bytes(x)[1], le32_bytes(x)[2], le32_bytes(x)[3]) == x,
{
}

/// Byte `k` (0 to 3) of a word, least significant first.
pub open spec fn word_byte(word: u32, k: int) -> u8 {
    if k == 0 {
        (word % 256) as u8
    } else if k == 1 {
        ((word / 256) % 256) as u8
    } else if k == 2 {
        ((word / 65536) % 256) as u8
    } else {
        (word / 16777216) as u8
    }
}

/// Bytes packed into words and stored back come out unchanged.
pub proof fn law_words_round_trip(buffer: Seq<u8>, words: Seq<u32>, i: int)
    requires
        buffer.len() >= 512,
        words.len() == 128,
        forall|k: int| 0 <= k < 128 ==> words[k] == le32_value(buffer[4 * k], buffer[4 * k + 1], buffer[4 * k + 2], buffer[4 * k + 3]),
        0 <= i < 512,
    ensures
        word_byte(words[i / 4], i % 4) == buffer[i],
{
    let k = i / 4;
    let (b0, b1, b2, b3) = (buffer[4 * k], buffer[4 * k + 1], buffer[4 * k + 2], buffer[4 * k + 3]);
    let w = words[k];
    assert(w == le32_value(b0, b1, b2, b3));
    assert(w == b0 + b1 * 256 + b2 * 65536 + b3 * 16777216);
    assert(w % 256 == b0 && (w / 256) % 256 == b1 && (w / 65536) % 256 == b2 && w / 16777216 == b3) by (nonlinear_arith)
        requires
            w == b0 + b1 * 256 + b2 * 65536 + b3 * 16777216,
            b0 < 256, b1 < 256, b2 < 256, b3 < 256,
    ;
}

/// Stores 128 words in the first 512 bytes of `buffer`, each little-endian.
pub fn store_words_le(words: &[u32; 128], buffer: &mut [u8])
    requires
        old(buffer)@.len() >= 512,
    ensures
        final(buffer)@.len() == old(buffer)@.len(),
        forall|i: int| 0 <= i < 512 ==> final(buffer)@[i] == word_byte(words@[i / 4], i % 4),
        forall|i: int| 512 <= i < old(buffer)@.len() ==> final(buffer)@[i] == old(buffer)@[i],
{
    let ghost before = buffer@;
    let mut i: usize = 0;
    while i < 128
        invariant
            i <= 128,
            buffer@.len() == before.len(),
            before.len() >= 512,
            forall|j: int| 0 <= j < 4 * i ==> buffer@[j] == word_byte(words@[j / 4], j % 4),
            forall|j: int| 4 * i <= j < before.len() ==> buffer@[j] == before[j],
        decreases 128 - i,
    {
        let data = words[i];
        let b0 = (data & 0xFF) as u8;
        let b1 = ((data >> 8) & 0xFF) as u8;
        let b2 = ((data >> 16) & 0xFF) as u8;
        let b3 = (data >> 24) as u8;
        assert(b0 == data % 256 && b1 == (data / 256) % 256 && b2 == (data / 65536) % 256 && b3 == data / 16777216)
            by (bit_vector)
            requires
                b0 == (data & 0xFF) as u8,
                b1 == ((data >> 8) & 0xFF) as u8,
                b2 == ((data >> 16) & 0xFF) as u8,
                b3 == (data >> 24) as u8,
        ;
        buffer[4 * i] = b0;
        buffer[4 * i + 1] = b1;
        buffer[4 * i + 2] = b2;
        buffer[4 * i + 3] = b3;
        proof {
            assert forall|j: int| 0 <= j < 4 * (i + 1) implies buffer@[j] == word_byte(words@[j / 4], j % 4) by {
                if j >= 4 * i {
                    assert(j / 4 == i);
                }
            }
        }
        i = i + 1;
    }
}

/// The 128 little-endian words in the first 512 bytes of `buffer`.
pub fn load_words_le(buffer: &[u8]) -> (r: [u32; 128])
    requires
        buffer@.len() >= 512,
    ensures
        forall|k: int| 0 <= k < 128 ==> r@[k] == le32_value(buffer@[4 * k], buffer@[4 * k + 1], buffer@[4 * k + 2], buffer@[4 * k + 3]),
{
    let mut words: [u32; 128] = [0u32; 128];
    let mut i: usize = 0;
    while i < 128
        invariant
            i <= 128,
            buffer@.len() >= 512,
            words@.len() == 128,
            forall|k: int| 0 <= k < i ==> words@[k] == le32_value(buffer@[4 * k], buffer@[4 * k + 1], buffer@[4 * k + 2], buffer@[4 * k + 3]),
        decreases 128 - i,
    {
        words[i] = u32_from_le(buffer[4 * i], buffer[4 * i + 1], buffer[4 * i + 2], buffer[4 * i + 3]);
        i = i + 1;
    }
    words
}

} // verus!
