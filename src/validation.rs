//! Field checks used when validating request parameters.

use vstd::prelude::*;
use vstd::string::*;

verus! {

/// Pattern of a mainland mobile phone number: `1`, a digit from 3 to 9,
/// then nine digits.
pub const MOBILE_PHONE_PATTERN: &'static str = "^1[3-9]\\d{9}$";

/// Message of the error for a malformed phone number.
pub const MOBILE_PHONE_MESSAGE: &'static str = "手机号码格式不正确";

/// Code of every field error raised here.
pub const INVALID_CODE: &'static str = "invalid";

/// Whether `haystack` holds a match of the regular expression `pattern`.
pub uninterp spec fn regex_matches(pattern: Seq<char>, haystack: Seq<char>) -> bool;

/// Relies on regex::Regex::new and regex::Regex::is_match: compiles
/// `pattern` (`None` where it is not a valid expression) and tells whether
/// `haystack` holds a match. The answer depends on the two strings alone;
/// the phone pattern is a valid expression.
#[verifier::external_body]
fn regex_is_match(pattern: &str, haystack: &str) -> (r: Option<bool>)
    ensures
        r matches Some(b) ==> b == regex_matches(pattern@, haystack@),
        pattern@ == MOBILE_PHONE_PATTERN@ ==> r is Some,
{
    regex::Regex::new(pattern).ok().map(|re| re.is_match(haystack))
}

/// A field that failed its check: a code and a message.
#[derive(Debug, Clone)]
pub struct FieldError {
    pub code: String,
    pub message: Option<String>,
}

/// `e` is the error raised for a malformed phone number.
pub open spec fn is_phone_error(e: FieldError) -> bool {
    match e.message {
        Some(m) => e.code@ == INVALID_CODE@ && m@ == MOBILE_PHONE_MESSAGE@,
        None => false,
    }
}

/// The error with code `invalid` and the given message.
pub fn build_validation_error(message: &str) -> (r: FieldError)
    ensures
        r.code@ == INVALID_CODE@,
        r.message matches Some(m) && m@ == message@,
{
    FieldError { code: String::from_str(INVALID_CODE), message: Some(String::from_str(message)) }
}

/// The outcome of the phone check, given whether the value matched the
/// phone pattern.
pub fn mobile_phone_outcome(matched: bool) -> (r: Result<(), FieldError>)
    ensures
        matched ==> r is Ok,
        !matched ==> (r matches Err(e) && is_phone_error(e)),
{
    if matched {
        Ok(())
    } else {
        Err(build_validation_error(MOBILE_PHONE_MESSAGE))
    }
}

/// Checks that `value` is a mobile phone number: it passes exactly when it
/// matches the phone pattern.
pub fn is_mobile_phone(value: &str) -> (r: Result<(), FieldError>)
    ensures
        r is Ok <==> regex_matches(MOBILE_PHONE_PATTERN@, value@),
        r matches Err(e) ==> is_phone_error(e),
{
    match regex_is_match(MOBILE_PHONE_PATTERN, value) {
        Some(matched) => mobile_phone_outcome(matched),
        None => mobile_phone_outcome(false),
    }
}

} // verus!
