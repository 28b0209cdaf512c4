//! The messages under which failures reach a script.

use vstd::prelude::*;
use crate::coerce::CoercionError;
use crate::coerce::CoercionErrorView;
use crate::reference::Reference;
use crate::reference::ReferenceView;
use crate::resolve::PathError;
use crate::resolve::PathErrorView;

verus! {

/// What a message says of a failed resolution.
pub open spec fn path_detail(error: PathErrorView) -> Seq<char> {
    match error {
        PathErrorView::RecordMissing => "the record is missing"@,
        PathErrorView::InvalidPath { valid_prefix, invalid_suffix } => "the path is valid up to `"@
            + valid_prefix + "` and invalid from `"@ + invalid_suffix + "`"@,
    }
}

/// What a message says of a failed read or assignment.
pub open spec fn detail(error: CoercionErrorView) -> Seq<char> {
    match error {
        CoercionErrorView::Path(inner) => path_detail(inner),
        CoercionErrorView::TypeMismatch { expected, got } => "expected "@ + expected + ", got "@
            + got,
        CoercionErrorView::SelfAssignment => "a record cannot be assigned from a reference to itself"@,
        CoercionErrorView::UnsupportedOperation => "a value of this kind cannot be assigned"@,
    }
}

/// The message for a failure on `offender`: the display trace of the
/// reference, `: ` and what went wrong.
pub open spec fn message(offender: ReferenceView, error: CoercionErrorView) -> Seq<char> {
    offender.trace() + ": "@ + detail(error)
}

/// Words a failed resolution.
pub fn describe_path(error: &PathError) -> (text: String)
    ensures
        text@ == path_detail(error@),
{
    match error {
        PathError::RecordMissing => String::from_str("the record is missing"),
        PathError::InvalidPath { valid_prefix, invalid_suffix } => {
            let mut text = String::from_str("the path is valid up to `");
            text.append(valid_prefix.as_str());
            text.append("` and invalid from `");
            text.append(invalid_suffix.as_str());
            text.append("`");
            text
        },
    }
}

/// Words a failed read or assignment.
pub fn describe(error: &CoercionError) -> (text: String)
    ensures
        text@ == detail(error@),
{
    match error {
        CoercionError::Path(inner) => describe_path(inner),
        CoercionError::TypeMismatch { expected, got } => {
            let mut text = String::from_str("expected ");
            text.append(expected.as_str());
            text.append(", got ");
            text.append(got.as_str());
            text
        },
        CoercionError::SelfAssignment => String::from_str(
            "a record cannot be assigned from a reference to itself",
        ),
        CoercionError::UnsupportedOperation => String::from_str(
            "a value of this kind cannot be assigned",
        ),
    }
}

/// The message under which a failure on `offender` reaches the script.
pub fn report(offender: &Reference, error: &CoercionError) -> (text: String)
    ensures
        text@ == message(offender@, error@),
{
    let mut text = offender.trace();
    text.append(": ");
    let what = describe(error);
    text.append(what.as_str());
    text
}

} // verus!
