//! The keyed hash underlying code derivation.
//!
//! The digest is an outside computation: its value is named abstractly by
//! [`hmac_sha1`] and produced by a single trusted wrapper. Nothing else in
//! the crate is trusted.

use vstd::prelude::*;

verus! {

/// The HMAC-SHA1 digest of `msg` under the key `key`.
///
/// The transform is a pure function of its two arguments alone, so it is
/// given a name rather than restated; the wrapper below computes it.
pub uninterp spec fn hmac_sha1(key: Seq<u8>, msg: Seq<u8>) -> Seq<u8>;

/// Relies on `hmac::Hmac<sha1::Sha1>`: keyed with `key` and fed `msg`, it
/// returns the HMAC-SHA1 digest, a 20-byte value determined by the two
/// arguments alone. `new_from_slice` accepts keys of every length.
#[verifier::external_body]
pub(crate) fn hmac_sha1_digest(key: &Vec<u8>, msg: &Vec<u8>) -> (digest: Vec<u8>)
    ensures
        digest@ == hmac_sha1(key@, msg@),
        digest@.len() == 20,
{
    let mut m = <hmac::Hmac<sha1::Sha1> as hmac::KeyInit>::new_from_slice(key.as_slice())
        .expect("HMAC accepts keys of any length");
    hmac::Mac::update(&mut m, msg.as_slice());
    hmac::Mac::finalize(m).into_bytes().to_vec()
}

} // verus!
