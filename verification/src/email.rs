//! The boundary to the email address validator.

use std::str::FromStr;
use vstd::prelude::*;

verus! {

/// What `email_address::EmailAddress::from_str` finds wrong with `address`:
/// the text of its diagnostic, or `None` where it accepts the address.
pub uninterp spec fn email_diagnostic(address: Seq<char>) -> Option<Seq<char>>;

/// Whether the validator accepts `address` as an email address.
pub open spec fn is_valid_email(address: Seq<char>) -> bool {
    email_diagnostic(address) is None
}

/// Calls `email_address::EmailAddress::from_str` on `address`.
///
/// Trusted: an accepted address comes back as the text that the validator
/// keeps, which is the text it was given, character for character; a
/// rejected one comes back as the displayed diagnostic. Which of the two
/// happens, and which diagnostic, depends on `address` alone.
#[verifier::external_body]
pub(crate) fn parse_email(address: &str) -> (r: Result<String, String>)
    ensures
        match r {
            Ok(text) => email_diagnostic(address@) is None && text@ == address@,
            Err(diagnostic) => email_diagnostic(address@) == Some(diagnostic@),
        },
{
    match email_address::EmailAddress::from_str(address) {
        Ok(parsed) => Ok(String::from(parsed)),
        Err(e) => Err(e.to_string()),
    }
}

} // verus!
