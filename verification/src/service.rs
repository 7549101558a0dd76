//! The request-level rules of the service: interval defaulting and
//! validation, per-identity secret derivation, clock-failure reporting, and
//! the issue / verify / health-check behaviours. The handlers take the
//! already-extracted request values and the clock reading; transporting them
//! over HTTP is the caller's concern.

use vstd::prelude::*;

use crate::otp::spec_counter;
use crate::otp::spec_generate;
use crate::otp::spec_verify;
use crate::otp::generate_totp;
use crate::otp::verify;
use crate::otp::CODE_MODULUS;
use crate::response::ErrorResponse;
use crate::secret::effective_secret;

verus! {

/// The time-step interval used when a request names none.
pub const DEFAULT_INTERVAL: u64 = 60;

/// The successful reply to an issue request: the code, the interval that
/// was actually used, and the identity echoed back.
pub struct CodeRes {
    pub code: u32,
    pub interval: u64,
    pub id: Vec<u8>,
}

/// The interval a request is served with: the one it names, or the default.
pub open spec fn chosen_interval(interval: Option<u64>) -> u64 {
    match interval {
        Some(i) => i,
        None => DEFAULT_INTERVAL,
    }
}

/// The identity a request is served with: the one it names, or none.
pub open spec fn chosen_id(id: Option<Vec<u8>>) -> Seq<u8> {
    match id {
        Some(v) => v@,
        None => Seq::empty(),
    }
}

/// Issues a code: derives the per-identity secret, computes the current
/// time-step counter, and returns the code with the interval used and the
/// identity echoed back.
///
/// An unreadable clock (`now_seconds == None`) is a server error; a zero
/// interval is rejected as a client error before it can reach the engine.
pub fn generate_otp(
    secret: &Vec<u8>,
    interval: Option<u64>,
    id: Option<Vec<u8>>,
    now_seconds: Option<u64>,
) -> (r: Result<CodeRes, ErrorResponse>)
    ensures
        ({
            let ival = chosen_interval(interval);
            let eff = secret@ + chosen_id(id);
            match now_seconds {
                None => r matches Err(e) && e is ServerError,
                Some(t) => if ival == 0 {
                    r matches Err(e) && e is BadRequest && e.spec_message()
                        == "interval must be a positive number of seconds"@
                } else {
                    r matches Ok(res) && res.code == spec_generate(eff, spec_counter(ival, t))
                        && res.code < CODE_MODULUS && res.interval == ival && res.id@ == chosen_id(
                        id,
                    )
                },
            }
        }),
{
    let now = match now_seconds {
        Some(t) => t,
        None => {
            return Err(ErrorResponse::ServerError);
        },
    };
    let ival = match interval {
        Some(i) => i,
        None => DEFAULT_INTERVAL,
    };
    if ival == 0 {
        return Err(
            ErrorResponse::BadRequest {
                message: "interval must be a positive number of seconds".to_owned(),
            },
        );
    }
    let idv: Vec<u8> = match id {
        Some(v) => v,
        None => Vec::new(),
    };
    let eff = effective_secret(secret, &idv);
    let (code, _counter) = generate_totp(&eff, ival, now);
    Ok(CodeRes { code, interval: ival, id: idv })
}

/// Verifies a submitted code: derives the per-identity secret exactly as
/// the issue path does and accepts the code only if it matches the current
/// time step.
///
/// An unreadable clock is a server error, a zero interval a client error,
/// and a mismatched or expired code is reported as unauthorized.
pub fn verify_otp(
    secret: &Vec<u8>,
    code: u32,
    interval: Option<u64>,
    id: Option<Vec<u8>>,
    now_seconds: Option<u64>,
) -> (r: Result<(), ErrorResponse>)
    ensures
        ({
            let ival = chosen_interval(interval);
            let eff = secret@ + chosen_id(id);
            match now_seconds {
                None => r matches Err(e) && e is ServerError,
                Some(t) => if ival == 0 {
                    r matches Err(e) && e is BadRequest && e.spec_message()
                        == "interval must be a positive number of seconds"@
                } else if spec_verify(eff, code, ival, t) {
                    r is Ok
                } else {
                    r matches Err(e) && e is Unauthorized && e.spec_message()
                        == "Your code is incorrect or has expired."@
                },
            }
        }),
{
    let now = match now_seconds {
        Some(t) => t,
        None => {
            return Err(ErrorResponse::ServerError);
        },
    };
    let ival = match interval {
        Some(i) => i,
        None => DEFAULT_INTERVAL,
    };
    if ival == 0 {
        return Err(
            ErrorResponse::BadRequest {
                message: "interval must be a positive number of seconds".to_owned(),
            },
        );
    }
    let idv: Vec<u8> = match id {
        Some(v) => v,
        None => Vec::new(),
    };
    let eff = effective_secret(secret, &idv);
    let verified = verify(&eff, code, ival, now);
    if !verified {
        return Err(
            ErrorResponse::Unauthorized {
                message: "Your code is incorrect or has expired.".to_owned(),
            },
        );
    }
    Ok(())
}

/// The health check: always succeeds, depending on neither the secret nor
/// the clock.
pub fn health_check() -> (status: u16)
    ensures
        status == 200,
{
    200
}

} // verus!
