//! The aliasing guard and the assignment it admits.
//!
//! An assignment takes exclusive access to the destination's record first and
//! shared access to the source's record after it. The guard refuses, before
//! either is taken, an assignment whose source is a reference to the
//! destination's own record: it would need both kinds of access to one record
//! at once.

use bevy::ecs::world::World;
use std::any::TypeId;
use vstd::prelude::*;
use crate::coerce::coerce;
use crate::coerce::coercion;
use crate::coerce::CoercionError;
use crate::coerce::CoercionErrorView;
use crate::coerce::Native;
use crate::coerce::NativeView;
use crate::kind::ValueKind;
use crate::reference::Reference;
use crate::reference::ReferenceView;
use crate::resolve::resolution;
use crate::resolve::resolve;
use crate::resolve::Access;
use crate::resolve::PathError;
use crate::resolve::PathErrorView;
use crate::resolve::Resolved;
use crate::resolve::ResolvedView;
use crate::store::same_type;
use crate::store::store_contents;
use crate::store::KindTable;
use crate::value::ScriptValue;
use crate::value::ScriptValueView;

verus! {

/// An assignment that passed every check: what to store, and where.
#[derive(Debug, PartialEq, Eq)]
pub struct Assignment {
    pub target: Resolved,
    pub value: Native,
}

/// The mathematical value of an [`Assignment`].
pub struct AssignmentView {
    pub target: ResolvedView,
    pub value: NativeView,
}

impl View for Assignment {
    type V = AssignmentView;

    open spec fn view(&self) -> AssignmentView {
        AssignmentView { target: self.target@, value: self.value@ }
    }
}

/// What the guard says of an assignment before any record is accessed:
/// `SelfAssignment` where the source is a reference that aliases the
/// destination, `UnsupportedOperation` where the value is of a kind that no
/// field can take, and nothing otherwise.
pub open spec fn refusal(target: ReferenceView, incoming: ScriptValueView) -> Option<
    CoercionErrorView,
> {
    match incoming {
        ScriptValueView::Reference(source) => if target.aliases(source) {
            Some(CoercionErrorView::SelfAssignment)
        } else {
            None
        },
        _ => if incoming.unsupported() {
            Some(CoercionErrorView::UnsupportedOperation)
        } else {
            None
        },
    }
}

/// Whether what `source` addresses can be copied into what `target`
/// addresses: two whole values must be of one runtime type; where a
/// component is involved on either side, both must be scalars of one kind.
pub open spec fn copies(target: ResolvedView, source: ResolvedView) -> bool {
    if target.lane.is_none() && source.lane.is_none() {
        target.type_id == source.type_id
    } else {
        target.kind() == source.kind()
    }
}

/// The assignment of a copy of what `source` addresses.
pub open spec fn copying(target: ResolvedView, source: ResolvedView) -> Result<
    AssignmentView,
    CoercionErrorView,
> {
    if copies(target, source) {
        Ok(AssignmentView { target, value: NativeView::Copy(source) })
    } else {
        Err(
            CoercionErrorView::TypeMismatch {
                expected: target.kind().label(),
                got: source.kind().label(),
            },
        )
    }
}

/// The assignment of a literal value.
pub open spec fn storing(target: ResolvedView, incoming: ScriptValueView) -> Result<
    AssignmentView,
    CoercionErrorView,
> {
    match coercion(target.kind(), incoming) {
        Ok(value) => Ok(AssignmentView { target, value }),
        Err(error) => Err(error),
    }
}

/// What assigning `incoming` to `target` comes to against given store
/// contents. The guard speaks first. Then the destination is resolved for
/// exclusive access; then, where the value is a reference, the source for
/// shared access, and what it addresses is copied; any other value is coerced
/// to the destination's kind.
pub open spec fn assignment(
    contents: Map<(u64, Seq<char>, Seq<char>), TypeId>,
    table: Seq<(TypeId, ValueKind)>,
    target: ReferenceView,
    incoming: ScriptValueView,
) -> Result<AssignmentView, CoercionErrorView> {
    match refusal(target, incoming) {
        Some(error) => Err(error),
        None => match resolution(contents, table, target, Access::Exclusive) {
            Err(error) => Err(CoercionErrorView::Path(error)),
            Ok(found) => match incoming {
                ScriptValueView::Reference(source) => match resolution(
                    contents,
                    table,
                    source,
                    Access::ReadOnly,
                ) {
                    Err(error) => Err(CoercionErrorView::Path(error)),
                    Ok(origin) => copying(found, origin),
                },
                _ => storing(found, incoming),
            },
        },
    }
}

/// What a read makes of a resolution: a missing record is an absence, not an
/// error.
pub open spec fn locating(resolved: Result<ResolvedView, PathErrorView>) -> Result<
    Option<ResolvedView>,
    PathErrorView,
> {
    match resolved {
        Ok(found) => Ok(Some(found)),
        Err(PathErrorView::RecordMissing) => Ok(None),
        Err(error) => Err(error),
    }
}

/// Applies the guard to an assignment.
pub fn check(target: &Reference, incoming: &ScriptValue) -> (result: Result<(), CoercionError>)
    ensures
        match result {
            Ok(_) => refusal(target@, incoming@).is_none(),
            Err(error) => refusal(target@, incoming@) == Some(error@),
        },
{
    match incoming {
        ScriptValue::Reference(source) => {
            if target.aliases(source) {
                return Err(CoercionError::SelfAssignment);
            }
        },
        _ => {
            if incoming.is_unsupported() {
                return Err(CoercionError::UnsupportedOperation);
            }
        },
    }
    Ok(())
}

/// Decides whether what `source` addresses can be copied into what `target`
/// addresses.
pub fn can_copy(target: &Resolved, source: &Resolved) -> (yes: bool)
    ensures
        yes == copies(target@, source@),
{
    if target.lane.is_none() && source.lane.is_none() {
        same_type(&target.type_id, &source.type_id)
    } else {
        target.kind() == source.kind()
    }
}

/// Admits the assignment of a copy of what `source` addresses to what
/// `target` addresses, or says why the two do not go together.
pub fn admit_copy(target: Resolved, source: Resolved) -> (result: Result<
    Assignment,
    CoercionError,
>)
    ensures
        match result {
            Ok(made) => copying(target@, source@) == Ok::<AssignmentView, CoercionErrorView>(
                made@,
            ),
            Err(error) => copying(target@, source@) == Err::<AssignmentView, CoercionErrorView>(
                error@,
            ),
        },
{
    if can_copy(&target, &source) {
        Ok(Assignment { target, value: Native::Copy(source) })
    } else {
        Err(
            CoercionError::TypeMismatch {
                expected: target.kind().name(),
                got: source.kind().name(),
            },
        )
    }
}

/// Admits the assignment of a literal value to what `target` addresses, or
/// says why the target cannot take it.
pub fn admit_value(target: Resolved, incoming: &ScriptValue) -> (result: Result<
    Assignment,
    CoercionError,
>)
    ensures
        match result {
            Ok(made) => storing(target@, incoming@) == Ok::<AssignmentView, CoercionErrorView>(
                made@,
            ),
            Err(error) => storing(target@, incoming@) == Err::<AssignmentView, CoercionErrorView>(
                error@,
            ),
        },
{
    match coerce(target.kind(), incoming) {
        Ok(value) => Ok(Assignment { target, value }),
        Err(error) => Err(error),
    }
}

/// Turns a resolution into what a read makes of it.
pub fn absent_if_missing(resolved: Result<Resolved, PathError>) -> (result: Result<
    Option<Resolved>,
    PathError,
>)
    ensures
        match (resolved, result) {
            (Ok(found), Ok(Some(kept))) => kept@ == found@,
            (Err(PathError::RecordMissing), Ok(None)) => true,
            (Err(error), Err(kept)) => !(error is RecordMissing) && kept@ == error@,
            _ => false,
        },
{
    match resolved {
        Ok(found) => Ok(Some(found)),
        Err(PathError::RecordMissing) => Ok(None),
        Err(error) => Err(error),
    }
}

/// Resolves `reference` for a read. A record that is missing is reported as
/// an absence; a path that addresses nothing is an error.
pub fn locate(world: &World, table: &KindTable, reference: &Reference) -> (result: Result<
    Option<Resolved>,
    PathError,
>)
    ensures
        match result {
            Ok(Some(found)) => locating(
                resolution(store_contents(*world), table@, reference@, Access::ReadOnly),
            ) == Ok::<Option<ResolvedView>, PathErrorView>(Some(found@)),
            Ok(None) => locating(
                resolution(store_contents(*world), table@, reference@, Access::ReadOnly),
            ) == Ok::<Option<ResolvedView>, PathErrorView>(None),
            Err(error) => locating(
                resolution(store_contents(*world), table@, reference@, Access::ReadOnly),
            ) == Err::<Option<ResolvedView>, PathErrorView>(error@),
        },
{
    absent_if_missing(resolve(world, table, reference, Access::ReadOnly))
}

/// Prepares the assignment of `incoming` to what `target` addresses.
///
/// Nothing is stored here: the result says what is to be stored and where,
/// after the guard, both resolutions and the coercion have passed.
pub fn plan_write(world: &World, table: &KindTable, target: &Reference, incoming: &ScriptValue) -> (result:
    Result<Assignment, CoercionError>)
    ensures
        match result {
            Ok(made) => assignment(store_contents(*world), table@, target@, incoming@) == Ok::<
                AssignmentView,
                CoercionErrorView,
            >(made@),
            Err(error) => assignment(store_contents(*world), table@, target@, incoming@) == Err::<
                AssignmentView,
                CoercionErrorView,
            >(error@),
        },
{
    match check(target, incoming) {
        Err(error) => {
            return Err(error);
        },
        Ok(_) => {},
    }
    let found = match resolve(world, table, target, Access::Exclusive) {
        Ok(found) => found,
        Err(error) => {
            return Err(CoercionError::Path(error));
        },
    };
    match incoming {
        ScriptValue::Reference(source) => {
            match resolve(world, table, source, Access::ReadOnly) {
                Ok(origin) => admit_copy(found, origin),
                Err(error) => Err(CoercionError::Path(error)),
            }
        },
        _ => admit_value(found, incoming),
    }
}

/// An assignment whose source is a reference to the destination's own record
/// of the same type fails with `SelfAssignment`, whatever the two paths are
/// and whatever the store holds.
pub proof fn lemma_self_assignment(
    contents: Map<(u64, Seq<char>, Seq<char>), TypeId>,
    table: Seq<(TypeId, ValueKind)>,
    target: ReferenceView,
    source: ReferenceView,
)
    requires
        target.record == source.record,
        target.descriptor == source.descriptor,
    ensures
        assignment(contents, table, target, ScriptValueView::Reference(source)) == Err::<
            AssignmentView,
            CoercionErrorView,
        >(CoercionErrorView::SelfAssignment),
{
}

/// An assignment that is admitted with a reference as its source accesses two
/// different records: the destination's exclusively, the source's shared.
pub proof fn lemma_accesses_apart(
    contents: Map<(u64, Seq<char>, Seq<char>), TypeId>,
    table: Seq<(TypeId, ValueKind)>,
    target: ReferenceView,
    incoming: ScriptValueView,
)
    ensures
        assignment(contents, table, target, incoming) matches Ok(made) ==> {
            &&& made.target.access == Access::Exclusive
            &&& made.target.reference.aliases(target)
            &&& made.value matches NativeView::Copy(origin) ==> {
                &&& origin.access == Access::ReadOnly
                &&& !origin.reference.aliases(made.target.reference)
            }
        },
{
}

} // verus!
