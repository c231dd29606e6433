//! Structural validation of SIP messages.

use vstd::prelude::*;

verus! {

/// What validation needs to know of a SIP message.
#[derive(Debug, Clone, PartialEq)]
pub struct SipMessageInfo {
    pub max_forwards: Option<u32>,
    pub content_length: Option<usize>,
    pub body_length: usize,
    pub method: String,
}

/// Outcome of validating a SIP message.
#[derive(Debug, Clone, Copy, PartialEq, Eq, Structural)]
pub enum ValidationResult {
    Valid,
    InvalidMaxForwards { value: Option<u32> },
    ContentLengthMismatch { header: usize, actual: usize },
    MissingMaxForwards,
}

/// The verdict on a message: a missing Max-Forwards first, then a zero
/// Max-Forwards, then a declared Content-Length that differs from the body.
pub open spec fn validation_of(msg: SipMessageInfo) -> ValidationResult {
    match msg.max_forwards {
        None => ValidationResult::MissingMaxForwards,
        Some(0) => ValidationResult::InvalidMaxForwards { value: Some(0) },
        Some(_) => match msg.content_length {
            Some(declared) => if declared != msg.body_length {
                ValidationResult::ContentLengthMismatch { header: declared, actual: msg.body_length }
            } else {
                ValidationResult::Valid
            },
            None => ValidationResult::Valid,
        },
    }
}

/// A message is valid exactly when it carries a nonzero Max-Forwards and,
/// if it declares a Content-Length, that length is its body's. A missing
/// Max-Forwards is reported before anything else, and a zero one before a
/// length mismatch, which reports both lengths.
pub proof fn law_valid_message(msg: SipMessageInfo)
    ensures
        validation_of(msg) == ValidationResult::Valid <==> (msg.max_forwards matches Some(m) && m > 0
            && (msg.content_length matches Some(c) ==> c == msg.body_length)),
        msg.max_forwards is None ==> validation_of(msg) == ValidationResult::MissingMaxForwards,
        msg.max_forwards == Some(0u32) ==> validation_of(msg) == (ValidationResult::InvalidMaxForwards {
            value: Some(0),
        }),
        msg.content_length is Some && msg.content_length.unwrap() != msg.body_length
            && msg.max_forwards is Some && msg.max_forwards != Some(0u32) ==> validation_of(msg) == (
        ValidationResult::ContentLengthMismatch {
            header: msg.content_length.unwrap(),
            actual: msg.body_length,
        }),
{
}

/// Validates Max-Forwards presence and value, and Content-Length agreement.
pub fn validate_sip_message(msg: &SipMessageInfo) -> (r: ValidationResult)
    ensures
        r == validation_of(*msg),
{
    match msg.max_forwards {
        None => return ValidationResult::MissingMaxForwards,
        Some(0) => return ValidationResult::InvalidMaxForwards { value: Some(0) },
        Some(_) => {},
    }
    if let Some(declared_len) = msg.content_length {
        if declared_len != msg.body_length {
            return ValidationResult::ContentLengthMismatch {
                header: declared_len,
                actual: msg.body_length,
            };
        }
    }
    ValidationResult::Valid
}

} // verus!
