//! The one-time-password engine: HOTP code derivation from a secret and a
//! counter, the time-based counter, and exact-window verification.

use vstd::prelude::*;

use crate::mac::hmac_sha1;
use crate::mac::hmac_sha1_digest;

verus! {

/// Codes are reduced modulo this value, so they have at most six decimal
/// digits.
pub const CODE_MODULUS: u32 = 1000000;

/// The eight bytes of `counter` in big-endian order.
pub open spec fn counter_bytes(counter: u64) -> Seq<u8> {
    seq![
        ((counter as int / 0x100_0000_0000_0000) % 256) as u8,
        ((counter as int / 0x1_0000_0000_0000) % 256) as u8,
        ((counter as int / 0x100_0000_0000) % 256) as u8,
        ((counter as int / 0x1_0000_0000) % 256) as u8,
        ((counter as int / 0x100_0000) % 256) as u8,
        ((counter as int / 0x1_0000) % 256) as u8,
        ((counter as int / 0x100) % 256) as u8,
        ((counter as int) % 256) as u8,
    ]
}

/// Encodes the counter as an 8-byte big-endian unsigned integer.
fn encode_counter(counter: u64) -> (bytes: Vec<u8>)
    ensures
        bytes@ == counter_bytes(counter),
{
    let mut bytes: Vec<u8> = Vec::new();
    bytes.push(((counter / 0x100_0000_0000_0000) % 256) as u8);
    bytes.push(((counter / 0x1_0000_0000_0000) % 256) as u8);
    bytes.push(((counter / 0x100_0000_0000) % 256) as u8);
    bytes.push(((counter / 0x1_0000_0000) % 256) as u8);
    bytes.push(((counter / 0x100_0000) % 256) as u8);
    bytes.push(((counter / 0x1_0000) % 256) as u8);
    bytes.push(((counter / 0x100) % 256) as u8);
    bytes.push((counter % 256) as u8);
    proof {
        assert(bytes@ =~= counter_bytes(counter));
    }
    bytes
}

/// Dynamic truncation of a 20-byte digest (RFC 4226): the low nibble of the
/// last byte picks an offset, four bytes from there form a big-endian word
/// whose top bit is masked off, and the word is reduced modulo 10^6.
pub open spec fn truncated(digest: Seq<u8>) -> u32
    recommends
        digest.len() == 20,
{
    let offset = (digest[19] & 0x0f) as int;
    let word = (digest[offset] & 0x7f) * 0x100_0000 + digest[offset + 1] * 0x1_0000
        + digest[offset + 2] * 0x100 + digest[offset + 3];
    (word % (CODE_MODULUS as int)) as u32
}

/// Applies dynamic truncation to a digest.
fn truncate_digest(digest: &Vec<u8>) -> (code: u32)
    requires
        digest@.len() == 20,
    ensures
        code == truncated(digest@),
        code < CODE_MODULUS,
{
    let last = digest[19];
    assert(last & 0x0f < 16) by (bit_vector);
    let offset = (last & 0x0f) as usize;
    let top = digest[offset];
    assert(top & 0x7f < 128) by (bit_vector);
    let b0 = top & 0x7f;
    let b1 = digest[offset + 1];
    let b2 = digest[offset + 2];
    let b3 = digest[offset + 3];
    let word: u32 = (b0 as u32) * 0x100_0000 + (b1 as u32) * 0x1_0000 + (b2 as u32) * 0x100
        + (b3 as u32);
    word % CODE_MODULUS
}

/// The code derived from a secret and a counter: dynamic truncation of the
/// HMAC-SHA1 digest of the big-endian counter under the secret.
pub open spec fn spec_generate(secret: Seq<u8>, counter: u64) -> u32 {
    truncated(hmac_sha1(secret, counter_bytes(counter)))
}

/// HOTP code derivation (RFC 4226): a deterministic six-digit code from
/// `(secret, counter)`.
pub fn generate(secret: &Vec<u8>, counter: u64) -> (code: u32)
    ensures
        code == spec_generate(secret@, counter),
        code < CODE_MODULUS,
{
    let message = encode_counter(counter);
    let digest = hmac_sha1_digest(secret, &message);
    truncate_digest(&digest)
}

/// The time-step counter: the timestamp divided by the interval, rounded
/// down.
pub open spec fn spec_counter(interval: u64, now_seconds: u64) -> u64
    recommends
        interval > 0,
{
    (now_seconds as int / interval as int) as u64
}

/// TOTP code derivation (RFC 6238): derives the counter from the timestamp
/// and the interval, then delegates to [`generate`]. Returns the code and
/// the counter that was used.
pub fn generate_totp(secret: &Vec<u8>, interval: u64, now_seconds: u64) -> (r: (u32, u64))
    requires
        interval > 0,
    ensures
        r.1 == spec_counter(interval, now_seconds),
        r.0 == spec_generate(secret@, spec_counter(interval, now_seconds)),
        r.0 < CODE_MODULUS,
{
    let counter = now_seconds / interval;
    let code = generate(secret, counter);
    (code, counter)
}

/// Whether `code` is exactly the code of the current time step.
pub open spec fn spec_verify(secret: Seq<u8>, code: u32, interval: u64, now_seconds: u64) -> bool
    recommends
        interval > 0,
{
    code == spec_generate(secret, spec_counter(interval, now_seconds))
}

/// Exact-window verification: recomputes the code of the current time step
/// and compares. Adjacent time steps are not accepted; widening the window
/// is a caller's policy decision.
pub fn verify(secret: &Vec<u8>, code: u32, interval: u64, now_seconds: u64) -> (ok: bool)
    requires
        interval > 0,
    ensures
        ok == spec_verify(secret@, code, interval, now_seconds),
{
    let (expected, _counter) = generate_totp(secret, interval, now_seconds);
    code == expected
}

/// Determinism: the derived code is a function of the secret and the counter
/// alone, so equal inputs always yield equal codes.
pub proof fn lemma_generate_deterministic(s1: Seq<u8>, c1: u64, s2: Seq<u8>, c2: u64)
    requires
        s1 == s2,
        c1 == c2,
    ensures
        spec_generate(s1, c1) == spec_generate(s2, c2),
{
}

/// Range: every derived code lies in `[0, 10^6)`, whatever the secret and
/// the counter.
pub proof fn lemma_generate_range(secret: Seq<u8>, counter: u64)
    ensures
        spec_generate(secret, counter) < CODE_MODULUS,
{
}

/// Verification correctness: a code generated for `(secret, interval, t)`
/// verifies against the same secret, interval and timestamp.
pub proof fn lemma_verify_roundtrip(secret: Seq<u8>, interval: u64, now_seconds: u64)
    requires
        interval > 0,
    ensures
        spec_verify(
            secret,
            spec_generate(secret, spec_counter(interval, now_seconds)),
            interval,
            now_seconds,
        ),
{
}

/// Window boundary: at a timestamp in a different counter bucket, the code
/// of the first bucket is accepted exactly when the two buckets' codes
/// coincide.
pub proof fn lemma_window_boundary(secret: Seq<u8>, interval: u64, t1: u64, t2: u64)
    requires
        interval > 0,
        spec_counter(interval, t1) != spec_counter(interval, t2),
    ensures
        spec_verify(secret, spec_generate(secret, spec_counter(interval, t1)), interval, t2)
            <==> spec_generate(secret, spec_counter(interval, t1)) == spec_generate(
            secret,
            spec_counter(interval, t2),
        ),
{
}

} // verus!
