use vstd::prelude::*;
use vstd::wrapping::u64_specs::{wrapping_add, wrapping_mul};
use crate::cpu::ROUND_MUL;

verus! {

/// Size of the memory benchmark buffer: 128 MiB, large enough to defeat
/// CPU caches.
pub const BUF_BYTES: usize = 134217728;

/// Number of `u64` words in the benchmark buffer.
pub const BUF_WORDS: usize = 16777216;

/// New value of a word after one read+write pass with `salt`.
pub open spec fn pass_value(v: u64, salt: u64) -> u64 {
    wrapping_mul(wrapping_add(v, salt), ROUND_MUL)
}

/// XOR of the first `n` words of `s`.
pub open spec fn xor_prefix(s: Seq<u64>, n: nat) -> u64
    decreases n,
{
    if n == 0 {
        0
    } else {
        xor_prefix(s, (n - 1) as nat) ^ s[n - 1]
    }
}

/// One full read+write pass over the buffer: every word `v` becomes
/// `(v + salt) * 2654435761` (wrapping). Returns the XOR of the new words,
/// which keeps the work observable.
pub fn pass(buf: &mut [u64], salt: u64) -> (acc: u64)
    ensures
        final(buf)@.len() == old(buf)@.len(),
        forall|i: int|
            0 <= i < old(buf)@.len() ==> #[trigger] final(buf)@[i] == pass_value(old(buf)@[i], salt),
        acc == xor_prefix(final(buf)@, final(buf)@.len()),
{
    let n = buf.len();
    let mut acc: u64 = 0;
    let mut i: usize = 0;
    while i < n
        invariant
            n == old(buf)@.len(),
            buf@.len() == n,
            i <= n,
            forall|j: int| 0 <= j < i ==> #[trigger] buf@[j] == pass_value(old(buf)@[j], salt),
            forall|j: int| i <= j < n ==> #[trigger] buf@[j] == old(buf)@[j],
            acc == xor_prefix(buf@, i as nat),
        decreases n - i,
    {
        let v = buf[i].wrapping_add(salt).wrapping_mul(ROUND_MUL);
        let ghost before = buf@;
        buf[i] = v;
        assert forall|j: int| 0 <= j < i implies buf@[j] == before[j] by {}
        assert(xor_prefix(buf@, i as nat) == xor_prefix(before, i as nat)) by {
            lemma_xor_prefix_agree(buf@, before, i as nat);
        }
        acc = acc ^ v;
        i = i + 1;
    }
    acc
}

/// Prefix XORs only depend on the words they cover.
pub proof fn lemma_xor_prefix_agree(a: Seq<u64>, b: Seq<u64>, n: nat)
    requires
        n <= a.len(),
        n <= b.len(),
        forall|j: int| 0 <= j < n ==> a[j] == b[j],
    ensures
        xor_prefix(a, n) == xor_prefix(b, n),
    decreases n,
{
    if n > 0 {
        lemma_xor_prefix_agree(a, b, (n - 1) as nat);
    }
}

/// A buffer of `len` words where word `i` holds `i`.
pub fn index_buffer(len: usize) -> (buf: Vec<u64>)
    ensures
        buf@.len() == len,
        forall|i: int| 0 <= i < len ==> #[trigger] buf@[i] == i,
{
    let mut buf: Vec<u64> = Vec::with_capacity(len);
    let mut i: usize = 0;
    while i < len
        invariant
            i <= len,
            buf@.len() == i,
            forall|j: int| 0 <= j < i ==> #[trigger] buf@[j] == j,
        decreases len - i,
    {
        buf.push(i as u64);
        i = i + 1;
    }
    buf
}

} // verus!
