//! The extension point for attestation statement verification.
//!
//! The library verifies no attestation statement itself. A service registers
//! the formats for which it has a verifier; this module decides, for the
//! format of a response, which of them to call, whether none is needed, or
//! whether the response must be refused for want of one.

use crate::codec::text_equal;
use crate::error::RegistrationResponseError;
use vstd::prelude::*;

verus! {

/// The format identifier of a response that carries no attestation.
pub open spec fn none_format() -> Seq<char> {
    "none"@
}

/// Position of the first format at or after `start` that equals `fmt`.
pub open spec fn first_registered_from(formats: Seq<String>, fmt: Seq<char>, start: int) -> Option<
    int,
>
    decreases formats.len() - start,
{
    if start < 0 || start >= formats.len() {
        None
    } else if formats[start]@ == fmt {
        Some(start)
    } else {
        first_registered_from(formats, fmt, start + 1)
    }
}

/// What to do with the attestation statement of a response in format `fmt`.
///
/// `Ok(Some(i))` names the registered verifier to call. `Ok(None)` says that
/// none is registered and none is needed: the format is `none`, or
/// attestation is not required. Where attestation is required and no verifier
/// is registered for another format, the response is refused.
pub open spec fn statement_verifier_choice(
    fmt: Seq<char>,
    registered: Seq<String>,
    attestation_required: bool,
) -> Result<Option<int>, RegistrationResponseError> {
    match first_registered_from(registered, fmt, 0) {
        Some(position) => Ok(Some(position)),
        None => if fmt == none_format() || !attestation_required {
            Ok(None)
        } else {
            Err(RegistrationResponseError::UnsupportedAttestationFormat)
        },
    }
}

/// Position of the first of the `registered` formats that equals `fmt`.
pub fn find_registered(fmt: &str, registered: &Vec<String>) -> (r: Option<usize>)
    ensures
        match r {
            Some(position) => first_registered_from(registered@, fmt@, 0) == Some(position as int)
                && position < registered@.len() && registered@[position as int]@ == fmt@,
            None => first_registered_from(registered@, fmt@, 0) is None,
        },
{
    let mut i: usize = 0;
    while i < registered.len()
        invariant
            i <= registered.len(),
            first_registered_from(registered@, fmt@, 0) == first_registered_from(
                registered@,
                fmt@,
                i as int,
            ),
        decreases registered.len() - i,
    {
        if text_equal(registered[i].as_str(), fmt) {
            return Some(i);
        }
        i += 1;
    }
    None
}

/// Decides which statement verifier serves a response in format `fmt`.
pub fn select_statement_verifier(
    fmt: &str,
    registered: &Vec<String>,
    attestation_required: bool,
) -> (r: Result<Option<usize>, RegistrationResponseError>)
    ensures
        match r {
            Ok(Some(position)) => statement_verifier_choice(fmt@, registered@, attestation_required)
                == Ok::<_, RegistrationResponseError>(Some(position as int)),
            Ok(None) => statement_verifier_choice(fmt@, registered@, attestation_required) == Ok::<
                _,
                RegistrationResponseError,
            >(None::<int>),
            Err(reason) => statement_verifier_choice(fmt@, registered@, attestation_required)
                == Err::<Option<int>, _>(reason),
        },
{
    match find_registered(fmt, registered) {
        Some(position) => Ok(Some(position)),
        None => {
            if text_equal(fmt, "none") || !attestation_required {
                Ok(None)
            } else {
                Err(RegistrationResponseError::UnsupportedAttestationFormat)
            }
        },
    }
}

/// With no verifier registered, a response without attestation is accepted
/// whatever the policy, and any other format is refused exactly when
/// attestation is required.
pub proof fn lemma_no_verifier_registered(fmt: Seq<char>, attestation_required: bool)
    ensures
        statement_verifier_choice(none_format(), Seq::<String>::empty(), attestation_required)
            == Ok::<_, RegistrationResponseError>(None::<int>),
        fmt != none_format() ==> (statement_verifier_choice(
            fmt,
            Seq::<String>::empty(),
            attestation_required,
        ) is Err <==> attestation_required),
{
}

} // verus!
