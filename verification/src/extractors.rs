//! The step between decoding a request and handling it: a decoded request is
//! let through only if it is within its limits.

use crate::error::AppError;
use crate::validation::{validation_outcome, violations_message, Validate};
use vstd::prelude::*;

verus! {

/// A payload that was decoded and found valid.
pub struct ValidatedJson<T>(pub T);

impl<T: Validate> ValidatedJson<T> {
    /// Turns the outcome of decoding a request body into a validated payload.
    ///
    /// A body that could not be decoded is a bad request, reported with the
    /// decoder's words. A decoded payload that breaks a rule is a validation
    /// error that lists every violation. Any other payload is let through
    /// unchanged.
    pub fn from_request(decoded: Result<T, String>) -> (outcome: Result<ValidatedJson<T>, AppError>)
        ensures
            match decoded {
                Err(words) => outcome matches Err(AppError::BadRequest(message)) && message
                    == words,
                Ok(payload) => if payload.violations().len() == 0 {
                    outcome matches Ok(valid) && valid.0 == payload
                } else {
                    outcome matches Err(AppError::Validation(message)) && message@
                        == violations_message(payload.violations())
                },
            },
    {
        match decoded {
            Err(words) => Err(AppError::BadRequest(words)),
            Ok(payload) => {
                match validation_outcome(&payload) {
                    Ok(()) => Ok(ValidatedJson(payload)),
                    Err(message) => Err(AppError::Validation(message)),
                }
            },
        }
    }
}

} // verus!
