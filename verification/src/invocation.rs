//! Validation of one helper invocation.

use vstd::prelude::*;

verus! {

/// The helper's positional argument, as decoded at the engine boundary.
///
/// The engine hands the helper a dynamic value; the caller decodes it into
/// this tagged form before the core sees it: either a value that reads as a
/// non-negative 64-bit integer, or a value of some incompatible shape (text,
/// an object, a negative or oversized number).
#[derive(Clone, Copy, Debug, PartialEq, Eq, Structural)]
pub enum ParamValue {
    /// The argument reads as a non-negative integer.
    Uint(u64),
    /// The argument is present but not interpretable as a non-negative
    /// integer.
    Incompatible,
}

/// Why an invocation was rejected before any rendering took place.
#[derive(Clone, Copy, Debug, PartialEq, Eq, Structural)]
pub enum RepeatError {
    /// No positional argument was supplied at the call site.
    ArgumentMissing,
    /// The supplied argument is not interpretable as a non-negative integer.
    ArgumentTypeMismatch,
    /// The call site did not open a block, so there is no body to repeat.
    BlockBodyRequired,
}

/// What validating an invocation yields: the argument is checked first
/// (presence, then type), the body's presence after.
pub open spec fn spec_validate(param: Option<ParamValue>, has_body: bool) -> Result<
    u64,
    RepeatError,
> {
    match param {
        None => Err(RepeatError::ArgumentMissing),
        Some(ParamValue::Incompatible) => Err(RepeatError::ArgumentTypeMismatch),
        Some(ParamValue::Uint(count)) => if has_body {
            Ok(count)
        } else {
            Err(RepeatError::BlockBodyRequired)
        },
    }
}

/// Validate one invocation: the count argument must be present and read as a
/// non-negative integer, and the call site must have opened a block. The
/// checks run in that order, and the count is returned exactly when all
/// three hold.
pub fn validate(param: Option<ParamValue>, has_body: bool) -> (r: Result<u64, RepeatError>)
    ensures
        r == spec_validate(param, has_body),
{
    match param {
        None => Err(RepeatError::ArgumentMissing),
        Some(ParamValue::Incompatible) => Err(RepeatError::ArgumentTypeMismatch),
        Some(ParamValue::Uint(count)) => {
            if has_body {
                Ok(count)
            } else {
                Err(RepeatError::BlockBodyRequired)
            }
        },
    }
}

/// Law: a structurally absent argument is rejected with `ArgumentMissing`,
/// whatever count it would have carried and whether or not a body is
/// attached.
pub proof fn lemma_missing_argument(has_body: bool)
    ensures
        spec_validate(None, has_body) == Err::<u64, RepeatError>(RepeatError::ArgumentMissing),
{
}

/// Law: an argument of an incompatible shape is rejected with
/// `ArgumentTypeMismatch`, whether or not a body is attached.
pub proof fn lemma_incompatible_argument(has_body: bool)
    ensures
        spec_validate(Some(ParamValue::Incompatible), has_body) == Err::<u64, RepeatError>(
            RepeatError::ArgumentTypeMismatch,
        ),
{
}

/// Law: when the argument is present and reads as a non-negative integer but
/// the call site opened no block, validation fails with `BlockBodyRequired`,
/// whatever the count — even a count of zero, for which the body would not
/// have been rendered. (An absent or incompatible argument is reported
/// first, so those inputs are not covered here.)
pub proof fn lemma_body_required(count: u64)
    ensures
        spec_validate(Some(ParamValue::Uint(count)), false) == Err::<u64, RepeatError>(
            RepeatError::BlockBodyRequired,
        ),
{
}

/// Law: validation succeeds, with the decoded count, exactly when the
/// argument reads as a non-negative integer and a block body is attached.
pub proof fn lemma_validate_ok(count: u64)
    ensures
        spec_validate(Some(ParamValue::Uint(count)), true) == Ok::<u64, RepeatError>(count),
{
}

} // verus!
