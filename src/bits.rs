//! Fixed-width words as sequences of bits on the wire, least-significant bit first,
//! and the even parity that protects them.
use vstd::prelude::*;

verus! {

/// Bit `i` of `v`.
pub open spec fn bit_of(v: u32, i: u32) -> bool {
    (v >> i) & 1 == 1
}

/// The 32 bits of `v`, bit 0 first.
pub open spec fn word_bits(v: u32) -> Seq<bool> {
    Seq::new(32, |i: int| bit_of(v, i as u32))
}

/// Bit `i` of a 16-bit `v`.
pub open spec fn bit_of16(v: u16, i: u16) -> bool {
    (v >> i) & 1 == 1
}

/// The 16 bits of `v`, bit 0 first.
pub open spec fn half_bits(v: u16) -> Seq<bool> {
    Seq::new(16, |i: int| bit_of16(v, i as u16))
}

/// Bit `i` of a 64-bit `v`.
pub open spec fn bit_of64(v: u64, i: u64) -> bool {
    (v >> i) & 1 == 1
}

/// The 64 bits of `v`, bit 0 first.
pub open spec fn long_bits(v: u64) -> Seq<bool> {
    Seq::new(64, |i: int| bit_of64(v, i as u64))
}

/// Exclusive-or of all bits of `s`.
pub open spec fn parity_of(s: Seq<bool>) -> bool
    decreases s.len(),
{
    if s.len() == 0 {
        false
    } else {
        parity_of(s.drop_last()) ^ s.last()
    }
}

/// The word whose 32 bits, bit 0 first, are the first 32 elements of `s`.
pub open spec fn word_from_bits(s: Seq<bool>) -> u32
    recommends
        s.len() >= 32,
{
    choose|v: u32| word_bits(v) == s.take(32)
}

/// The 33 bits that carry `v` on the wire: its 32 bits, then their parity.
pub open spec fn data_phase_bits(v: u32) -> Seq<bool> {
    word_bits(v).push(parity_of(word_bits(v)))
}

proof fn lemma_shr_agree(a: u32, b: u32, k: u32)
    requires
        k <= 32,
        forall|j: u32| k <= j < 32 ==> bit_of(a, j) == bit_of(b, j),
    ensures
        a >> k == b >> k,
    decreases 32 - k,
{
    if k == 32 {
        assert(a >> 32u32 == b >> 32u32) by (bit_vector);
    } else {
        lemma_shr_agree(a, b, (k + 1) as u32);
        assert(bit_of(a, k) == bit_of(b, k));
        let k1 = (k + 1) as u32;
        assert(a >> k == b >> k) by (bit_vector)
            requires
                k < 32,
                k1 == k + 1,
                a >> k1 == b >> k1,
                ((a >> k) & 1 == 1) == ((b >> k) & 1 == 1),
        ;
    }
}

/// A word is determined by its 32 bits.
pub proof fn lemma_word_bits_injective(a: u32, b: u32)
    requires
        word_bits(a) == word_bits(b),
    ensures
        a == b,
{
    assert forall|j: u32| 0 <= j < 32 implies bit_of(a, j) == bit_of(b, j) by {
        let k = j as int;
        assert(word_bits(a)[k] == bit_of(a, k as u32));
        assert(word_bits(b)[k] == bit_of(b, k as u32));
        assert(k as u32 == j);
    }
    lemma_shr_agree(a, b, 0);
    assert(a >> 0u32 == a && b >> 0u32 == b) by (bit_vector);
}

/// Encoding a word as its 32 bits followed by a parity bit, then decoding the first
/// 32 bits, gives back the word; and the trailing bit is the parity of the 32 before it.
pub proof fn lemma_word_round_trip(v: u32)
    ensures
        data_phase_bits(v).len() == 33,
        word_from_bits(data_phase_bits(v)) == v,
        data_phase_bits(v)[32] == parity_of(data_phase_bits(v).take(32)),
{
    let s = data_phase_bits(v);
    assert(s.take(32) =~= word_bits(v));
    let w = word_from_bits(s);
    assert(word_bits(w) == s.take(32));
    lemma_word_bits_injective(w, v);
}

proof fn lemma_or_bit(n: u32, b: u32, i: u32, j: u32)
    by (bit_vector)
    requires
        i < 32,
        j < 32,
        b <= 1,
    ensures
        ((n | (b << i)) >> j) & 1 == 1 <==> (((n >> j) & 1 == 1) || (j == i && b == 1)),
{
}

/// The first `length` bits of `value`, bit 0 first.
pub fn u32_to_bits(value: u32, length: usize) -> (r: Vec<bool>)
    requires
        length <= 32,
    ensures
        r@ == word_bits(value).take(length as int),
{
    let mut r: Vec<bool> = Vec::new();
    let mut i: usize = 0;
    while i < length
        invariant
            i <= length <= 32,
            r@ == word_bits(value).take(i as int),
        decreases length - i,
    {
        r.push((value >> (i as u32)) & 1 == 1);
        i = i + 1;
        assert(r@ =~= word_bits(value).take(i as int));
    }
    r
}

/// The first `length` bits of `value`, bit 0 first.
pub fn u16_to_bits(value: u16, length: usize) -> (r: Vec<bool>)
    requires
        length <= 16,
    ensures
        r@ == half_bits(value).take(length as int),
{
    let mut r: Vec<bool> = Vec::new();
    let mut i: usize = 0;
    while i < length
        invariant
            i <= length <= 16,
            r@ == half_bits(value).take(i as int),
        decreases length - i,
    {
        r.push((value >> (i as u16)) & 1 == 1);
        i = i + 1;
        assert(r@ =~= half_bits(value).take(i as int));
    }
    r
}

/// The first `length` bits of `value`, bit 0 first.
pub fn u64_to_bits(value: u64, length: usize) -> (r: Vec<bool>)
    requires
        length <= 64,
    ensures
        r@ == long_bits(value).take(length as int),
{
    let mut r: Vec<bool> = Vec::new();
    let mut i: usize = 0;
    while i < length
        invariant
            i <= length <= 64,
            r@ == long_bits(value).take(i as int),
        decreases length - i,
    {
        r.push((value >> (i as u64)) & 1 == 1);
        i = i + 1;
        assert(r@ =~= long_bits(value).take(i as int));
    }
    r
}

/// Exclusive-or of all of `bits`.
pub fn parity(bits: &[bool]) -> (r: bool)
    ensures
        r == parity_of(bits@),
{
    let mut p = false;
    let mut i: usize = 0;
    while i < bits.len()
        invariant
            i <= bits@.len(),
            p == parity_of(bits@.take(i as int)),
        decreases bits@.len() - i,
    {
        assert(bits@.take(i + 1).drop_last() =~= bits@.take(i as int));
        p = p ^ bits[i];
        i = i + 1;
    }
    assert(bits@.take(bits@.len() as int) =~= bits@);
    p
}

/// The word carried by the first 32 of `bits`, bit 0 first.
pub fn bits_to_u32(bits: &[bool]) -> (r: u32)
    requires
        bits@.len() >= 32,
    ensures
        word_bits(r) == bits@.take(32),
        r == word_from_bits(bits@),
{
    let mut n: u32 = 0;
    let mut i: u32 = 0;
    assert forall|j: u32| j < 32 implies !bit_of(0u32, j) by {
        assert((0u32 >> j) & 1 == 0) by (bit_vector);
    }
    while i < 32
        invariant
            i <= 32,
            bits@.len() >= 32,
            forall|j: u32| j < 32 ==> bit_of(n, j) == (j < i && bits@[j as int]),
        decreases 32 - i,
    {
        let b: u32 = if bits[i as usize] { 1 } else { 0 };
        let old_n = n;
        n = n | (b << i);
        assert forall|j: u32| j < 32 implies bit_of(n, j) == (j < i + 1 && bits@[j as int]) by {
            lemma_or_bit(old_n, b, i, j);
            assert(bit_of(old_n, j) == (j < i && bits@[j as int]));
            assert(b == 1 <==> bits@[i as int]);
        }
        i = i + 1;
    }
    assert forall|k: int| 0 <= k < 32 implies word_bits(n)[k] == bits@.take(32)[k] by {
        assert((k as u32) as int == k);
    }
    assert(word_bits(n) =~= bits@.take(32));
    let ghost w = word_from_bits(bits@);
    proof {
        lemma_word_bits_injective(w, n);
    }
    n
}

/// The 33 bits of the data phase that carries `value`.
pub fn data_phase(value: u32) -> (r: Vec<bool>)
    ensures
        r@ == data_phase_bits(value),
{
    let mut r = u32_to_bits(value, 32);
    assert(word_bits(value).take(32) =~= word_bits(value));
    let p = parity(r.as_slice());
    r.push(p);
    r
}

} // verus!
