//! A verified one-time-password library: HOTP/TOTP code derivation and
//! verification in the style of RFC 4226 and RFC 6238, together with the
//! request-level rules of a small code-issuing service (interval defaulting,
//! per-identity secrets, and a typed error taxonomy).
//!
//! The keyed hash itself (HMAC-SHA1) is computed by an outside crate behind
//! a single trusted wrapper; everything layered on top of the digest --
//! counter encoding, dynamic truncation, time-step arithmetic, verification,
//! and the service rules -- is verified.

pub mod mac;
pub mod otp;
pub mod response;
pub mod secret;
pub mod service;
