use vstd::prelude::*;
use vstd::wrapping::u64_specs::{wrapping_add, wrapping_mul};
use sha2::Digest;

verus! {

/// Multiplier of the 64-bit linear congruential step.
pub const LCG_MUL: u64 = 6364136223846793005;
/// Increment of the 64-bit linear congruential step.
pub const LCG_ADD: u64 = 1442695040888963407;
/// Multiplier applied to the round counter in each mixing round.
pub const ROUND_MUL: u64 = 2654435761;
/// Number of mixing rounds in one unit of CPU work.
pub const MIX_ROUNDS: u64 = 256;

/// One step of the 64-bit linear congruential generator (wrapping).
pub open spec fn lcg_step(x: u64) -> u64 {
    wrapping_add(wrapping_mul(x, LCG_MUL), LCG_ADD)
}

/// The xorshift scramble of one mixing round.
pub open spec fn xorshift(x: u64) -> u64 {
    let a = x ^ (x << 13u64);
    let b = a ^ (a >> 7u64);
    b ^ (b << 17u64)
}

/// Mixing round `i` applied to `x`.
pub open spec fn mix_round(x: u64, i: u64) -> u64 {
    wrapping_add(xorshift(x), wrapping_mul(i, ROUND_MUL))
}

/// Integer state of a work unit after `n` rounds, starting from `seed`.
pub open spec fn mixed_after(seed: u64, n: nat) -> u64
    decreases n,
{
    if n == 0 {
        lcg_step(seed)
    } else {
        mix_round(mixed_after(seed, (n - 1) as nat), (n - 1) as u64)
    }
}

/// The little-endian bytes of `x`.
pub open spec fn le_bytes(x: u64) -> Seq<u8> {
    seq![
        x as u8,
        (x >> 8u64) as u8,
        (x >> 16u64) as u8,
        (x >> 24u64) as u8,
        (x >> 32u64) as u8,
        (x >> 40u64) as u8,
        (x >> 48u64) as u8,
        (x >> 56u64) as u8,
    ]
}

/// The little-endian `u64` stored in `b[at .. at + 8]`.
pub open spec fn le_u64_at(b: Seq<u8>, at: int) -> u64 {
    (b[at] as u64) | ((b[at + 1] as u64) << 8u64) | ((b[at + 2] as u64) << 16u64) | ((b[at + 3]
        as u64) << 24u64) | ((b[at + 4] as u64) << 32u64) | ((b[at + 5] as u64) << 40u64) | ((b[at
        + 6] as u64) << 48u64) | ((b[at + 7] as u64) << 56u64)
}

/// XOR of the first `k` little-endian 8-byte words of `b`.
pub open spec fn xor_words(b: Seq<u8>, k: nat) -> u64
    decreases k,
{
    if k == 0 {
        0
    } else {
        xor_words(b, (k - 1) as nat) ^ le_u64_at(b, 8 * (k - 1))
    }
}

/// XOR of all whole 8-byte words of `b` (a trailing partial word is ignored).
pub open spec fn fold_words(b: Seq<u8>) -> u64 {
    xor_words(b, b.len() / 8)
}

/// SHA-256 digest of a byte string.
pub uninterp spec fn sha256_of(data: Seq<u8>) -> Seq<u8>;

/// SHA-256 of `data`, computed by `sha2::Sha256::digest`. Trusted: the result
/// is the digest of exactly these bytes, and it is 32 bytes long
/// (`Sha256`'s output size is `U32`).
#[verifier::external_body]
fn sha256(data: &[u8]) -> (digest: Vec<u8>)
    ensures
        digest@ == sha256_of(data@),
        digest@.len() == 32,
{
    sha2::Sha256::digest(data).to_vec()
}

/// One step of the 64-bit linear congruential generator.
pub fn lcg_next(x: u64) -> (y: u64)
    ensures
        y == lcg_step(x),
{
    x.wrapping_mul(LCG_MUL).wrapping_add(LCG_ADD)
}

/// Integer part of one unit of CPU work: seed the state with one
/// congruential step, then run the xorshift mixing rounds.
pub fn integer_mix(seed: u64) -> (x: u64)
    ensures
        x == mixed_after(seed, MIX_ROUNDS as nat),
{
    let mut x = lcg_next(seed);
    let mut i: u64 = 0;
    while i < MIX_ROUNDS
        invariant
            i <= MIX_ROUNDS,
            x == mixed_after(seed, i as nat),
        decreases MIX_ROUNDS - i,
    {
        x = x ^ (x << 13u64);
        x = x ^ (x >> 7u64);
        x = x ^ (x << 17u64);
        x = x.wrapping_add(i.wrapping_mul(ROUND_MUL));
        i = i + 1;
    }
    x
}

/// Append the little-endian bytes of `x` to `out`.
fn push_le_bytes(out: &mut Vec<u8>, x: u64)
    ensures
        final(out)@ == old(out)@ + le_bytes(x),
{
    out.push(x as u8);
    out.push((x >> 8u64) as u8);
    out.push((x >> 16u64) as u8);
    out.push((x >> 24u64) as u8);
    out.push((x >> 32u64) as u8);
    out.push((x >> 40u64) as u8);
    out.push((x >> 48u64) as u8);
    out.push((x >> 56u64) as u8);
    assert(final(out)@ =~= old(out)@ + le_bytes(x));
}

/// XOR of the whole little-endian 8-byte words of `b`.
pub fn fold_le_words(b: &[u8]) -> (acc: u64)
    ensures
        acc == fold_words(b@),
{
    let n = b.len();
    let words = n / 8;
    let mut acc: u64 = 0;
    let mut k: usize = 0;
    while k < words
        invariant
            n == b@.len(),
            words == n / 8,
            8 * words <= n,
            k <= words,
            acc == xor_words(b@, k as nat),
        decreases words - k,
    {
        let at = 8 * k;
        let w = (b[at] as u64) | ((b[at + 1] as u64) << 8u64) | ((b[at + 2] as u64) << 16u64) | ((
        b[at + 3] as u64) << 24u64) | ((b[at + 4] as u64) << 32u64) | ((b[at + 5] as u64) << 40u64)
            | ((b[at + 6] as u64) << 48u64) | ((b[at + 7] as u64) << 56u64);
        acc = acc ^ w;
        k = k + 1;
    }
    acc
}

/// Checksum of one unit of CPU work: SHA-256 over the little-endian bytes of
/// the mixed integer state followed by those of the floating-point state
/// (given by its bit pattern), folded into one word by XOR.
pub fn work_unit_checksum(x: u64, f_bits: u64) -> (c: u64)
    ensures
        c == fold_words(sha256_of(le_bytes(x) + le_bytes(f_bits))),
{
    let mut message: Vec<u8> = Vec::new();
    push_le_bytes(&mut message, x);
    push_le_bytes(&mut message, f_bits);
    assert(message@ =~= le_bytes(x) + le_bytes(f_bits));
    let digest = sha256(message.as_slice());
    fold_le_words(digest.as_slice())
}

} // verus!
