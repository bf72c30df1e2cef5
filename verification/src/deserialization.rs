//! Failures of a resolution in the form that a deserialization framework reports its own
//! failures in, so that a caller who populates a record has one channel for all of them.

use vstd::prelude::*;
use vstd::string::to_string_from_display_ensures;
use crate::error::resolution_error_text;
use crate::error::ResolutionError;

verus! {

/// serde's plain deserialization error. Verus sees nothing inside it.
#[verifier::external_type_specification]
#[verifier::external_body]
pub struct ExValueError(serde::de::value::Error);

/// `error` displays as `text`: whatever string displaying it gives, that string holds `text`.
pub open spec fn displays_as(error: &serde::de::value::Error, text: Seq<char>) -> bool {
    forall|shown: String| #[trigger]
        to_string_from_display_ensures::<serde::de::value::Error>(error, shown) ==> shown@ == text
}

/// Calls `serde::de::Error::custom` for `serde::de::value::Error`.
///
/// Trusted: the error made from a message displays as that message. serde keeps the message's
/// text in the error and writes it out, unchanged, when the error is displayed.
#[verifier::external_body]
fn custom_error(text: &str) -> (error: serde::de::value::Error)
    ensures
        displays_as(&error, text@),
{
    serde::de::Error::custom(text)
}

impl ResolutionError {
    /// The failure as a deserialization error that displays as [`ResolutionError::message`].
    pub fn to_deserialization_error(&self) -> (error: serde::de::value::Error)
        ensures
            displays_as(&error, resolution_error_text(self@)),
    {
        let text = self.message();
        custom_error(text.as_str())
    }
}

} // verus!
