//! The additive checksum that guards each FIP packet.
//!
//! The payload is read as big-endian 16-bit words (an odd trailing byte is
//! the high byte of a last word whose low byte is zero), the words are
//! summed, and the carries above bit 15 are folded back in until none is
//! left. Unlike the Internet checksum the result is not complemented.

use vstd::prelude::*;
use vstd::arithmetic::div_mod::{
    lemma_fundamental_div_mod,
    lemma_mod_multiples_vanish,
    lemma_small_mod,
};

verus! {

/// The largest payload whose word sum fits a 32-bit accumulator.
pub const CHECKSUM_MAX_LEN: usize = 0x2_0000;

/// The `i`-th big-endian word of `s`, zero-padded at an odd end.
pub open spec fn word_at(s: Seq<u8>, i: int) -> int {
    s[2 * i] * 0x100 + if 2 * i + 1 < s.len() {
        s[2 * i + 1] as int
    } else {
        0int
    }
}

/// The sum of the first `k` words of `s`.
pub open spec fn word_sum(s: Seq<u8>, k: nat) -> int
    decreases k,
{
    if k == 0 {
        0
    } else {
        word_sum(s, (k - 1) as nat) + word_at(s, k - 1)
    }
}

/// The number of words in `s`, counting a padded last one.
pub open spec fn word_count(s: Seq<u8>) -> nat {
    (s.len() + 1) as nat / 2
}

/// The sum of all words of `s`.
pub open spec fn total_sum(s: Seq<u8>) -> int {
    word_sum(s, word_count(s))
}

/// Adds the bits above bit 15 back into the low 16 bits until no carry is
/// left.
pub open spec fn fold_carries(x: nat) -> nat
    decreases x,
{
    if x < 0x1_0000 {
        x
    } else {
        fold_carries(x / 0x1_0000 + x % 0x1_0000)
    }
}

/// The checksum of a payload.
pub open spec fn packet_checksum(s: Seq<u8>) -> nat {
    fold_carries(total_sum(s) as nat)
}

proof fn lemma_word_sum_bounds(s: Seq<u8>, k: nat)
    requires
        k <= word_count(s),
    ensures
        0 <= word_sum(s, k) <= k * 0xffff,
    decreases k,
{
    if k > 0 {
        lemma_word_sum_bounds(s, (k - 1) as nat);
    }
}

/// Computes the checksum of one packet's payload.
pub fn fip_packet_checksum(data: &[u8]) -> (r: u16)
    requires
        data@.len() <= CHECKSUM_MAX_LEN,
    ensures
        r as nat == packet_checksum(data@),
{
    let mut p: usize = 0;
    let mut csum: u32 = 0;
    while data.len() - p > 1
        invariant
            p <= data@.len() <= CHECKSUM_MAX_LEN,
            p % 2 == 0,
            csum as int == word_sum(data@, (p / 2) as nat),
        decreases data@.len() - p,
    {
        proof {
            lemma_word_sum_bounds(data@, (p / 2) as nat);
        }
        let val = (data[p] as u32) * 0x100 + (data[p + 1] as u32);
        assert(word_sum(data@, (p / 2 + 1) as nat) == csum + val);
        csum = csum + val;
        p = p + 2;
    }
    if data.len() != p {
        proof {
            lemma_word_sum_bounds(data@, (p / 2) as nat);
        }
        assert(word_sum(data@, (p / 2 + 1) as nat) == csum + data@[p as int] * 0x100);
        csum = csum + (data[p] as u32) * 0x100;
        p = p + 2;
    }
    assert(p / 2 == word_count(data@));
    let ghost total: nat = csum as nat;
    while csum / 0x1_0000 != 0
        invariant
            fold_carries(csum as nat) == fold_carries(total),
        decreases csum,
    {
        csum = csum / 0x1_0000 + csum % 0x1_0000;
    }
    csum as u16
}

/// Folding leaves zero alone and maps any other number to the one in
/// `1..=0xffff` that is congruent to it modulo `0xffff`.
pub proof fn lemma_fold_carries_closed(x: nat)
    ensures
        fold_carries(x) == (if x == 0 {
            0
        } else {
            (x - 1) % 0xffff + 1
        }),
    decreases x,
{
    if x < 0x1_0000 {
        if x > 0 {
            lemma_small_mod((x - 1) as nat, 0xffff);
        }
    } else {
        let q = x / 0x1_0000;
        let y = q + x % 0x1_0000;
        lemma_fold_carries_closed(y as nat);
        assert(x - 1 == 0xffff * q + (y - 1));
        lemma_mod_multiples_vanish(q as int, y - 1, 0xffff);
    }
}

proof fn lemma_fold_congruent(x: nat)
    ensures
        (x - fold_carries(x)) % 0xffff == 0,
{
    lemma_fold_carries_closed(x);
    if x > 0 {
        lemma_fundamental_div_mod(x - 1, 0xffff);
        lemma_mod_multiples_vanish((x - 1) / 0xffff, 0, 0xffff);
    }
}

proof fn lemma_word_sum_prefix(a: Seq<u8>, b: Seq<u8>, k: nat)
    requires
        a.len() % 2 == 0,
        k <= a.len() / 2,
    ensures
        word_sum(a + b, k) == word_sum(a, k),
    decreases k,
{
    if k > 0 {
        lemma_word_sum_prefix(a, b, (k - 1) as nat);
        assert(word_at(a + b, k - 1) == word_at(a, k - 1));
    }
}

proof fn lemma_word_sum_suffix(a: Seq<u8>, b: Seq<u8>, k: nat)
    requires
        a.len() % 2 == 0,
        k <= word_count(b),
    ensures
        word_sum(a + b, a.len() / 2 + k) == word_sum(a, a.len() / 2) + word_sum(b, k),
    decreases k,
{
    if k == 0 {
        lemma_word_sum_prefix(a, b, a.len() / 2);
    } else {
        lemma_word_sum_suffix(a, b, (k - 1) as nat);
        let i = a.len() / 2 + k - 1;
        assert(2 * i == a.len() + 2 * (k - 1));
        assert(word_at(a + b, i) == word_at(b, k - 1));
    }
}

/// The word sum of a concatenation whose first part has even length is the
/// sum of the parts' word sums.
pub proof fn lemma_total_sum_concat(a: Seq<u8>, b: Seq<u8>)
    requires
        a.len() % 2 == 0,
    ensures
        total_sum(a + b) == total_sum(a) + total_sum(b),
{
    assert(word_count(a + b) == a.len() / 2 + word_count(b));
    lemma_word_sum_suffix(a, b, word_count(b));
}

/// The checksum of the empty payload is zero.
pub proof fn lemma_checksum_empty()
    ensures
        packet_checksum(Seq::<u8>::empty()) == 0,
{
}

/// Splitting a payload at an even offset, checksumming both parts and
/// folding the sum of the two checksums gives the checksum of the whole.
pub proof fn lemma_checksum_split(a: Seq<u8>, b: Seq<u8>)
    requires
        a.len() % 2 == 0,
    ensures
        packet_checksum(a + b) == fold_carries(packet_checksum(a) + packet_checksum(b)),
{
    lemma_total_sum_concat(a, b);
    lemma_word_sum_bounds(a, word_count(a));
    lemma_word_sum_bounds(b, word_count(b));
    let sa = total_sum(a) as nat;
    let sb = total_sum(b) as nat;
    let fa = packet_checksum(a);
    let fb = packet_checksum(b);
    lemma_fold_carries_closed(sa);
    lemma_fold_carries_closed(sb);
    lemma_fold_carries_closed(sa + sb);
    lemma_fold_carries_closed(fa + fb);
    if sa + sb > 0 {
        lemma_fold_congruent(sa);
        lemma_fold_congruent(sb);
        let ka = (sa - fa) / 0xffff;
        let kb = (sb - fb) / 0xffff;
        lemma_fundamental_div_mod(sa - fa, 0xffff);
        lemma_fundamental_div_mod(sb - fb, 0xffff);
        assert(sa + sb - 1 == 0xffff * (ka + kb) + (fa + fb - 1));
        lemma_mod_multiples_vanish(ka + kb, fa + fb - 1, 0xffff);
    }
}

} // verus!
