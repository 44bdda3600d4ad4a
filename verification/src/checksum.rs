//! The RFC 1071 one's-complement checksum used by the IPv4 and ICMP
//! headers, together with the property that makes it usable: a buffer
//! whose checksum field was filled from this function sums back to zero.

use vstd::prelude::*;
use vstd::arithmetic::div_mod::{
    lemma_fundamental_div_mod, lemma_small_mod, lemma_add_mod_noop, lemma_mod_twice,
    lemma_mod_multiples_basic, lemma_mod_self_0,
};

verus! {

/// Sum of a buffer read as 16-bit words, low byte first; a trailing odd
/// byte counts as the low byte of a final word.
pub open spec fn word_sum(b: Seq<u8>) -> int
    decreases b.len(),
{
    if b.len() >= 2 {
        b[0] + 256 * b[1] + word_sum(b.skip(2))
    } else if b.len() == 1 {
        b[0] as int
    } else {
        0
    }
}

/// Folds the carries out of bit 16 back into the low 16 bits until none
/// remain, as RFC 1071 prescribes.
pub open spec fn fold_carries(s: int) -> int
    recommends
        s >= 0,
    decreases s,
{
    if s > 0xffff {
        fold_carries(s % 0x10000 + s / 0x10000)
    } else {
        s
    }
}

/// The RFC 1071 checksum of a buffer: the one's complement of the folded
/// word sum.
pub open spec fn checksum_spec(b: Seq<u8>) -> u16 {
    (0xffff - fold_carries(word_sum(b))) as u16
}

/// A checksum-bearing buffer is valid exactly when summing it whole, the
/// checksum field included as received, yields zero.
pub open spec fn checksum_ok(b: Seq<u8>) -> bool {
    checksum_spec(b) == 0
}

/// The word sum is never negative.
pub proof fn lemma_word_sum_nonneg(b: Seq<u8>)
    ensures
        word_sum(b) >= 0,
    decreases b.len(),
{
    if b.len() >= 2 {
        lemma_word_sum_nonneg(b.skip(2));
    }
}

/// Folding pins the sum into `0 ..= 0xffff`, preserves its residue
/// modulo 0xffff, and sends exactly zero to zero.
pub proof fn lemma_fold_carries_props(s: int)
    requires
        s >= 0,
    ensures
        0 <= fold_carries(s) <= 0xffff,
        fold_carries(s) % 0xffff == s % 0xffff,
        fold_carries(s) == 0 <==> s == 0,
    decreases s,
{
    if s > 0xffff {
        let q = s / 0x10000;
        let r = s % 0x10000;
        lemma_fundamental_div_mod(s, 0x10000);
        assert(s == 0x10000 * q + r);
        assert(q >= 1);
        // 0x10000 * q + r == 0xffff * q + (q + r), so s and q + r share a
        // residue modulo 0xffff.
        lemma_add_mod_noop(0xffff * q, q + r, 0xffff);
        assert((q * 0xffff) % 0xffff == 0) by {
            lemma_mod_multiples_basic(q, 0xffff);
        }
        assert((0xffff * q) % 0xffff == 0);
        lemma_mod_twice(q + r, 0xffff);
        assert((q + r) % 0xffff == s % 0xffff);
        lemma_fold_carries_props(q + r);
    } else {
        if s < 0xffff {
            lemma_small_mod(s as nat, 0xffff);
        }
    }
}

/// A positive multiple of 0xffff folds to 0xffff itself, so its one's
/// complement checksum is zero.
pub proof fn lemma_fold_carries_full(s: int)
    requires
        s > 0,
        s % 0xffff == 0,
    ensures
        fold_carries(s) == 0xffff,
{
    lemma_fold_carries_props(s);
    let f = fold_carries(s);
    assert(f % 0xffff == 0);
    assert(f != 0);
    if f < 0xffff {
        lemma_small_mod(f as nat, 0xffff);
    }
}

/// Folding a partial sum early does not change where the total folds to:
/// `fold(fold(s) + w) == fold(s + w)`.
pub proof fn lemma_fold_carries_add(s: int, w: int)
    requires
        s >= 0,
        w >= 0,
    ensures
        fold_carries(fold_carries(s) + w) == fold_carries(s + w),
{
    let m = 0xffff as int;
    let f = fold_carries(s);
    lemma_fold_carries_props(s);
    lemma_fold_carries_props(f + w);
    lemma_fold_carries_props(s + w);
    // Both folds land in 0 ..= 0xffff, carry the same residue, and are
    // zero together; two such values are equal.
    lemma_add_mod_noop(f, w, m);
    lemma_add_mod_noop(s, w, m);
    assert((f + w) % m == (s + w) % m);
    let a = fold_carries(f + w);
    let b = fold_carries(s + w);
    assert(a % m == b % m);
    if a != b {
        if a < m && b < m {
            lemma_small_mod(a as nat, 0xffff);
            lemma_small_mod(b as nat, 0xffff);
            assert(false);
        } else if a == m {
            lemma_small_mod(b as nat, 0xffff);
            lemma_mod_self_0(m);
            assert(b == 0);
            assert(s + w == 0 && f + w != 0);
            assert(false);
        } else {
            lemma_small_mod(a as nat, 0xffff);
            lemma_mod_self_0(m);
            assert(a == 0);
            assert(f + w == 0 && s + w != 0);
            assert(false);
        }
    }
}

/// Splitting a buffer at an even boundary splits its word sum.
pub proof fn lemma_word_sum_concat(a: Seq<u8>, b: Seq<u8>)
    requires
        a.len() % 2 == 0,
    ensures
        word_sum(a + b) == word_sum(a) + word_sum(b),
    decreases a.len(),
{
    if a.len() == 0 {
        assert(a + b =~= b);
    } else {
        assert((a + b).skip(2) =~= a.skip(2) + b);
        lemma_word_sum_concat(a.skip(2), b);
    }
}

/// Writing a 16-bit value over two zero bytes at an even offset adds
/// exactly that value to the word sum.
pub proof fn lemma_word_sum_fill(b: Seq<u8>, p: int, lo: u8, hi: u8)
    requires
        0 <= p,
        p % 2 == 0,
        p + 2 <= b.len(),
        b[p] == 0,
        b[p + 1] == 0,
    ensures
        word_sum(b.update(p, lo).update(p + 1, hi)) == word_sum(b) + lo + 256 * hi,
    decreases p,
{
    let u = b.update(p, lo).update(p + 1, hi);
    if p == 0 {
        assert(u.skip(2) =~= b.skip(2));
        assert(u[0] == lo && u[1] == hi);
    } else {
        assert(u.skip(2) =~= b.skip(2).update(p - 2, lo).update(p - 1, hi));
        lemma_word_sum_fill(b.skip(2), p - 2, lo, hi);
    }
}

/// Filling the checksum field: a buffer that carries `checksum_spec` of
/// its zero-field form, stored low byte first at an even offset, sums
/// back to zero when checked whole.  This holds for buffers of even and
/// of odd length alike; only the field itself must sit on a word
/// boundary, where every layout in this crate places it.
pub proof fn lemma_checksum_fill(b: Seq<u8>, p: int)
    requires
        0 <= p,
        p % 2 == 0,
        p + 2 <= b.len(),
        b[p] == 0,
        b[p + 1] == 0,
    ensures
        ({
            let c = checksum_spec(b);
            checksum_ok(b.update(p, (c as int % 256) as u8).update(p + 1, (c as int / 256) as u8))
        }),
{
    let m = 0xffff as int;
    let s = word_sum(b);
    lemma_word_sum_nonneg(b);
    lemma_fold_carries_props(s);
    let f = fold_carries(s);
    let c = checksum_spec(b);
    assert(c == m - f);
    let lo = (c as int % 256) as u8;
    let hi = (c as int / 256) as u8;
    lemma_fundamental_div_mod(c as int, 256);
    assert(lo + 256 * hi == c);
    lemma_word_sum_fill(b, p, lo, hi);
    let u = b.update(p, lo).update(p + 1, hi);
    assert(word_sum(u) == s + c);
    // s + c is a positive multiple of 0xffff, so the whole buffer folds
    // to all ones and its complement is zero.
    lemma_add_mod_noop(s, c as int, m);
    if f == 0 {
        assert(s == 0 && c == m);
        lemma_small_mod(0nat, 0xffff);
        lemma_mod_self_0(m);
        assert((s + c) % m == 0);
    } else if f == m {
        assert(c == 0);
        lemma_small_mod(0nat, 0xffff);
        lemma_mod_self_0(m);
        assert(s % m == f % m);
        assert((s + c) % m == 0);
    } else {
        lemma_small_mod(c as nat, 0xffff);
        lemma_small_mod(f as nat, 0xffff);
        assert(s % m == f);
        lemma_mod_self_0(m);
        assert((f + c) % m == 0);
        assert((s + c) % m == 0);
    }
    assert(s + c > 0);
    lemma_fold_carries_full(s + c);
    assert(checksum_spec(u) == (m - m) as u16);
}

/// The checksum of the empty buffer is all ones: the sum is zero and the
/// one's complement of zero is 0xffff.
pub proof fn lemma_checksum_empty()
    ensures
        checksum_spec(Seq::<u8>::empty()) == 0xffff,
{
    assert(word_sum(Seq::<u8>::empty()) == 0);
}

/// Appending the checksum of an even-length buffer to that buffer, low
/// byte first, produces a buffer that sums back to zero.
pub proof fn lemma_checksum_append(b: Seq<u8>)
    requires
        b.len() % 2 == 0,
    ensures
        ({
            let c = checksum_spec(b);
            checksum_ok(b + seq![(c as int % 256) as u8, (c as int / 256) as u8])
        }),
{
    let z = b + seq![0u8, 0u8];
    lemma_word_sum_concat(b, seq![0u8, 0u8]);
    assert(word_sum(seq![0u8, 0u8]) == 0) by {
        reveal_with_fuel(word_sum, 2);
        assert(seq![0u8, 0u8].skip(2) =~= Seq::<u8>::empty());
    }
    assert(word_sum(z) == word_sum(b));
    assert(checksum_spec(z) == checksum_spec(b));
    let p = b.len() as int;
    assert(z[p] == 0 && z[p + 1] == 0);
    lemma_checksum_fill(z, p);
    let c = checksum_spec(b);
    let lo = (c as int % 256) as u8;
    let hi = (c as int / 256) as u8;
    assert(z.update(p, lo).update(p + 1, hi) =~= b + seq![lo, hi]);
}

/// Computes the RFC 1071 checksum of `data`: the one's complement of the
/// carry-folded sum of its 16-bit words, read low byte first, an odd
/// trailing byte padded high with zero.
pub fn compute_rfc1071(data: &[u8]) -> (r: u16)
    ensures
        r == checksum_spec(data@),
{
    let n = data.len();
    let mut sum: u32 = 0;
    let mut i: usize = 0;
    while i + 1 < n
        invariant
            i <= n,
            n == data@.len(),
            i % 2 == 0,
            sum <= 0xffff,
            sum == fold_carries(word_sum(data@.take(i as int))),
        decreases n - i,
    {
        let w: u32 = data[i] as u32 + 256 * (data[i + 1] as u32);
        proof {
            let pre = data@.take(i as int);
            let pair = seq![data@[i as int], data@[i as int + 1]];
            assert(data@.take(i as int + 2) =~= pre + pair);
            lemma_word_sum_concat(pre, pair);
            assert(word_sum(pair) == data@[i as int] + 256 * data@[i as int + 1]) by {
                reveal_with_fuel(word_sum, 2);
                assert(pair.skip(2) =~= Seq::<u8>::empty());
            }
            lemma_word_sum_nonneg(pre);
            lemma_fold_carries_add(word_sum(pre), w as int);
        }
        let raw: u32 = sum + w;
        sum = raw % 0x10000 + raw / 0x10000;
        proof {
            // One early fold step: the identity when the raw sum had no
            // carry, otherwise one unfolding of `fold_carries`.
            lemma_fundamental_div_mod(raw as int, 0x10000);
            if raw <= 0xffff {
                lemma_small_mod(raw as nat, 0x10000);
            }
            lemma_fold_carries_props(raw as int);
            lemma_fold_carries_props(sum as int);
        }
        i = i + 2;
    }
    if i < n {
        proof {
            let pre = data@.take(i as int);
            let tail = seq![data@[i as int]];
            assert(data@.take(i as int + 1) =~= pre + tail);
            lemma_word_sum_concat(pre, tail);
            lemma_word_sum_nonneg(pre);
            lemma_fold_carries_add(word_sum(pre), data@[i as int] as int);
        }
        let raw: u32 = sum + data[i] as u32;
        sum = raw % 0x10000 + raw / 0x10000;
        proof {
            lemma_fundamental_div_mod(raw as int, 0x10000);
            if raw <= 0xffff {
                lemma_small_mod(raw as nat, 0x10000);
            }
            lemma_fold_carries_props(raw as int);
            lemma_fold_carries_props(sum as int);
        }
        i = i + 1;
    }
    proof {
        assert(data@.take(i as int) =~= data@);
        lemma_word_sum_nonneg(data@);
        lemma_fold_carries_props(word_sum(data@));
    }
    (0xffff - sum) as u16
}

} // verus!
