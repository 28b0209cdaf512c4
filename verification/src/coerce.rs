//! The value coercion engine: how a resolved value surfaces in a script, and
//! how a script's value becomes the exact native value of a terminal field.

use vstd::prelude::*;
use crate::kind::ValueKind;
use crate::resolve::PathError;
use crate::resolve::PathErrorView;
use crate::resolve::Resolved;
use crate::resolve::ResolvedView;
use crate::value::copy_lanes;
use crate::value::vector_fits;
use crate::value::check_vector;
use crate::value::FieldValue;
use crate::value::FieldView;
use crate::value::Number;
use crate::value::Scalar;
use crate::value::ScriptValue;
use crate::value::ScriptValueView;
use crate::value::VectorValue;
use crate::value::VectorView;

verus! {

/// Why a value could not be read or assigned.
#[derive(Debug, PartialEq, Eq)]
pub enum CoercionError {
    /// A reference involved did not resolve.
    Path(PathError),
    /// The value offered is not one that the destination can take.
    TypeMismatch { expected: String, got: String },
    /// The source of the assignment is a reference to the destination's own
    /// record.
    SelfAssignment,
    /// The scripting layer's value is of a kind that no field can take.
    UnsupportedOperation,
}

/// The mathematical value of a [`CoercionError`].
pub enum CoercionErrorView {
    Path(PathErrorView),
    TypeMismatch { expected: Seq<char>, got: Seq<char> },
    SelfAssignment,
    UnsupportedOperation,
}

impl View for CoercionError {
    type V = CoercionErrorView;

    open spec fn view(&self) -> CoercionErrorView {
        match self {
            CoercionError::Path(error) => CoercionErrorView::Path(error@),
            CoercionError::TypeMismatch { expected, got } => CoercionErrorView::TypeMismatch {
                expected: expected@,
                got: got@,
            },
            CoercionError::SelfAssignment => CoercionErrorView::SelfAssignment,
            CoercionError::UnsupportedOperation => CoercionErrorView::UnsupportedOperation,
        }
    }
}

/// What an assignment stores.
#[derive(Debug, PartialEq, Eq)]
pub enum Native {
    /// This value, which is already in the field's exact representation.
    Value(FieldValue),
    /// The 64-bit float with these bits, narrowed to the field's 32 bits.
    Narrow(u64),
    /// The 32-bit float with these bits, widened to the field's 64 bits.
    Widen(u32),
    /// A deep copy of what the resolved source addresses at the time of the
    /// assignment.
    Copy(Resolved),
}

/// The mathematical value of a [`Native`].
pub enum NativeView {
    Value(FieldView),
    Narrow(u64),
    Widen(u32),
    Copy(ResolvedView),
}

impl View for Native {
    type V = NativeView;

    open spec fn view(&self) -> NativeView {
        match self {
            Native::Value(value) => NativeView::Value(value@),
            Native::Narrow(bits) => NativeView::Narrow(*bits),
            Native::Widen(bits) => NativeView::Widen(*bits),
            Native::Copy(source) => NativeView::Copy(source@),
        }
    }
}

/// How a resolved value surfaces in a script, given what its holder holds.
///
/// A composite surfaces as a reference to itself, whatever `current` is. A
/// terminal value must be one of the holder's kind. With a component attached
/// only that component surfaces; a whole vector surfaces as a handle on a
/// copy; scalars surface as [`Scalar::surfaced`] says, strings as strings.
pub open spec fn reading(resolved: ResolvedView, current: FieldView) -> Result<
    ScriptValueView,
    CoercionErrorView,
> {
    if resolved.holder == ValueKind::Composite {
        Ok(ScriptValueView::Reference(resolved.reference))
    } else if !current.fits(resolved.holder) {
        Err(
            CoercionErrorView::TypeMismatch {
                expected: resolved.holder.label(),
                got: current.label(),
            },
        )
    } else {
        match (resolved.lane, current) {
            (Some(lane), FieldView::Vector(lanes)) => if lane < lanes.len() {
                Ok(lanes[lane as int].surfaced())
            } else {
                Err(
                    CoercionErrorView::TypeMismatch {
                        expected: resolved.holder.label(),
                        got: current.label(),
                    },
                )
            },
            (Some(_), _) => Err(
                CoercionErrorView::TypeMismatch {
                    expected: resolved.holder.label(),
                    got: current.label(),
                },
            ),
            (None, FieldView::Scalar(scalar)) => Ok(scalar.surfaced()),
            (None, FieldView::Text(text)) => Ok(ScriptValueView::Text(text)),
            (None, FieldView::Vector(lanes)) => Ok(
                ScriptValueView::Vector(VectorView { kind: resolved.holder, lanes }),
            ),
        }
    }
}

/// The exact native value that a field of kind `kind` takes from `incoming`.
///
/// A float field takes a number: as it is where the widths agree, else marked
/// for narrowing or widening. An integer field takes an integer that it can
/// hold without loss. A string field takes a string, a vector field a vector
/// of its own kind. Kinds of script values that no field can take are an
/// `UnsupportedOperation`; every other pair is a `TypeMismatch`. A reference
/// is no literal: what it addresses is copied by an assignment, not coerced.
pub open spec fn coercion(kind: ValueKind, incoming: ScriptValueView) -> Result<
    NativeView,
    CoercionErrorView,
> {
    let mismatch = Err::<NativeView, CoercionErrorView>(
        CoercionErrorView::TypeMismatch { expected: kind.label(), got: incoming.label() },
    );
    match incoming {
        ScriptValueView::Number(Number::Single(bits)) => if kind == ValueKind::F32 {
            Ok(NativeView::Value(FieldView::Scalar(Scalar::Single(bits))))
        } else if kind == ValueKind::F64 {
            Ok(NativeView::Widen(bits))
        } else {
            mismatch
        },
        ScriptValueView::Number(Number::Double(bits)) => if kind == ValueKind::F64 {
            Ok(NativeView::Value(FieldView::Scalar(Scalar::Double(bits))))
        } else if kind == ValueKind::F32 {
            Ok(NativeView::Narrow(bits))
        } else {
            mismatch
        },
        ScriptValueView::Number(Number::Unsigned(value)) => if kind.unsigned() && kind.holds(
            value as int,
        ) {
            Ok(NativeView::Value(FieldView::Scalar(Scalar::Unsigned(value))))
        } else {
            mismatch
        },
        ScriptValueView::Integer(value) => if kind.signed() && kind.holds(value as int) {
            Ok(NativeView::Value(FieldView::Scalar(Scalar::Signed(value))))
        } else if kind.unsigned() && kind.holds(value as int) {
            Ok(NativeView::Value(FieldView::Scalar(Scalar::Unsigned(value as u64))))
        } else {
            mismatch
        },
        ScriptValueView::Text(text) => if kind == ValueKind::Text {
            Ok(NativeView::Value(FieldView::Text(text)))
        } else {
            mismatch
        },
        ScriptValueView::Vector(vector) => if vector.kind == kind && vector_fits(
            vector.lanes,
            kind,
        ) {
            Ok(NativeView::Value(FieldView::Vector(vector.lanes)))
        } else {
            mismatch
        },
        ScriptValueView::Nil | ScriptValueView::Boolean(_) | ScriptValueView::Reference(_) => mismatch,
        ScriptValueView::Table | ScriptValueView::Function | ScriptValueView::Thread
        | ScriptValueView::LightUserData | ScriptValueView::Error => Err(
            CoercionErrorView::UnsupportedOperation,
        ),
    }
}

/// Surfaces a resolved value in a script. `current` is what the holder that
/// `resolved` addresses holds now; for a composite it is not looked at.
pub fn read(resolved: &Resolved, current: &FieldValue) -> (result: Result<
    ScriptValue,
    CoercionError,
>)
    ensures
        match result {
            Ok(value) => reading(resolved@, current@) == Ok::<ScriptValueView, CoercionErrorView>(
                value@,
            ),
            Err(error) => reading(resolved@, current@) == Err::<
                ScriptValueView,
                CoercionErrorView,
            >(error@),
        },
{
    if resolved.holder == ValueKind::Composite {
        return Ok(ScriptValue::Reference(resolved.reference.clone()));
    }
    if current.is_of(resolved.holder) {
        match (resolved.lane, current) {
            (Some(lane), FieldValue::Vector(lanes)) => {
                if (lane as usize) < lanes.len() {
                    return Ok(lanes[lane as usize].surface());
                }
            },
            (Some(_), _) => {},
            (None, FieldValue::Scalar(scalar)) => {
                return Ok(scalar.surface());
            },
            (None, FieldValue::Text(text)) => {
                return Ok(ScriptValue::Text(text.clone()));
            },
            (None, FieldValue::Vector(lanes)) => {
                return Ok(
                    ScriptValue::Vector(
                        VectorValue { kind: resolved.holder, lanes: copy_lanes(lanes) },
                    ),
                );
            },
        }
    }
    Err(CoercionError::TypeMismatch { expected: resolved.holder.name(), got: current.name() })
}

/// Converts a script's value to the exact native value of a field of kind
/// `kind`.
pub fn coerce(kind: ValueKind, incoming: &ScriptValue) -> (result: Result<Native, CoercionError>)
    ensures
        match result {
            Ok(native) => coercion(kind, incoming@) == Ok::<NativeView, CoercionErrorView>(native@),
            Err(error) => coercion(kind, incoming@) == Err::<NativeView, CoercionErrorView>(
                error@,
            ),
        },
{
    match incoming {
        ScriptValue::Number(Number::Single(bits)) => {
            if kind == ValueKind::F32 {
                return Ok(Native::Value(FieldValue::Scalar(Scalar::Single(*bits))));
            } else if kind == ValueKind::F64 {
                return Ok(Native::Widen(*bits));
            }
        },
        ScriptValue::Number(Number::Double(bits)) => {
            if kind == ValueKind::F64 {
                return Ok(Native::Value(FieldValue::Scalar(Scalar::Double(*bits))));
            } else if kind == ValueKind::F32 {
                return Ok(Native::Narrow(*bits));
            }
        },
        ScriptValue::Number(Number::Unsigned(value)) => {
            if Scalar::Unsigned(*value).is_of(kind) {
                return Ok(Native::Value(FieldValue::Scalar(Scalar::Unsigned(*value))));
            }
        },
        ScriptValue::Integer(value) => {
            if kind.fits_signed(*value) {
                if kind.is_signed() {
                    return Ok(Native::Value(FieldValue::Scalar(Scalar::Signed(*value))));
                } else {
                    return Ok(Native::Value(FieldValue::Scalar(Scalar::Unsigned(*value as u64))));
                }
            }
        },
        ScriptValue::Text(text) => {
            if kind == ValueKind::Text {
                return Ok(Native::Value(FieldValue::Text(text.clone())));
            }
        },
        ScriptValue::Vector(vector) => {
            if vector.kind == kind && check_vector(&vector.lanes, kind) {
                return Ok(Native::Value(FieldValue::Vector(copy_lanes(&vector.lanes))));
            }
        },
        ScriptValue::Nil | ScriptValue::Boolean(_) | ScriptValue::Reference(_) => {},
        ScriptValue::Table | ScriptValue::Function | ScriptValue::Thread
        | ScriptValue::LightUserData | ScriptValue::Error => {
            return Err(CoercionError::UnsupportedOperation);
        },
    }
    Err(CoercionError::TypeMismatch { expected: kind.name(), got: incoming.name() })
}

/// What the place that `resolved` addresses holds, given that its holder
/// holds `held`: the attached component where there is one, else the holder's
/// whole value. Nothing where `held` is no value of the holder's kind.
pub open spec fn addressed(resolved: ResolvedView, held: FieldView) -> Option<FieldView> {
    if !held.fits(resolved.holder) {
        None
    } else {
        match (resolved.lane, held) {
            (Some(lane), FieldView::Vector(lanes)) => if lane < lanes.len() {
                Some(FieldView::Scalar(lanes[lane as int]))
            } else {
                None
            },
            (Some(_), _) => None,
            (None, _) => Some(held),
        }
    }
}

/// What the holder holds once `value` is stored at the place that `resolved`
/// addresses: with a component attached, what it held with that one
/// component replaced; else `value` itself. Nothing where the value is not
/// one that the place can hold.
pub open spec fn placed(resolved: ResolvedView, held: FieldView, value: FieldView) -> Option<
    FieldView,
> {
    match (resolved.lane, held, value) {
        (Some(lane), FieldView::Vector(lanes), FieldView::Scalar(scalar)) => if held.fits(
            resolved.holder,
        ) && lane < lanes.len() && scalar.fits(resolved.holder.lane_kind()) {
            Some(FieldView::Vector(lanes.update(lane as int, scalar)))
        } else {
            None
        },
        (Some(_), _, _) => None,
        (None, _, _) => if value.fits(resolved.holder) {
            Some(value)
        } else {
            None
        },
    }
}

/// Takes from `held`, the holder's value, what the place that `resolved`
/// addresses holds.
pub fn pick(resolved: &Resolved, held: &FieldValue) -> (taken: Option<FieldValue>)
    ensures
        match taken {
            Some(value) => addressed(resolved@, held@) == Some(value@),
            None => addressed(resolved@, held@).is_none(),
        },
{
    if !held.is_of(resolved.holder) {
        return None;
    }
    match (resolved.lane, held) {
        (Some(lane), FieldValue::Vector(lanes)) => {
            if (lane as usize) < lanes.len() {
                Some(FieldValue::Scalar(lanes[lane as usize]))
            } else {
                None
            }
        },
        (Some(_), _) => None,
        (None, FieldValue::Scalar(scalar)) => Some(FieldValue::Scalar(*scalar)),
        (None, FieldValue::Text(text)) => Some(FieldValue::Text(text.clone())),
        (None, FieldValue::Vector(lanes)) => Some(FieldValue::Vector(copy_lanes(lanes))),
    }
}

/// Works out what the holder holds once `value` is stored at the place that
/// `resolved` addresses. `held` is what the holder holds now; without a
/// component attached it is not looked at.
pub fn place(resolved: &Resolved, held: &FieldValue, value: FieldValue) -> (stored: Option<
    FieldValue,
>)
    ensures
        match stored {
            Some(now) => placed(resolved@, held@, value@) == Some(now@),
            None => placed(resolved@, held@, value@).is_none(),
        },
{
    match resolved.lane {
        Some(lane) => {
            match (held, value) {
                (FieldValue::Vector(lanes), FieldValue::Scalar(scalar)) => {
                    if check_vector(lanes, resolved.holder) && (lane as usize) < lanes.len()
                        && scalar.is_of(resolved.holder.component()) {
                        let mut changed = copy_lanes(lanes);
                        changed.set(lane as usize, scalar);
                        Some(FieldValue::Vector(changed))
                    } else {
                        None
                    }
                },
                _ => None,
            }
        },
        None => {
            if value.is_of(resolved.holder) {
                Some(value)
            } else {
                None
            }
        },
    }
}

/// Storing a value at a place leaves the holder with a value of its own kind.
pub proof fn lemma_placed_fits(resolved: ResolvedView, held: FieldView, value: FieldView)
    ensures
        placed(resolved, held, value) matches Some(now) ==> now.fits(resolved.holder),
{
    match (resolved.lane, held, value) {
        (Some(lane), FieldView::Vector(lanes), FieldView::Scalar(scalar)) => {
            if held.fits(resolved.holder) && lane < lanes.len() && scalar.fits(
                resolved.holder.lane_kind(),
            ) {
                let changed = lanes.update(lane as int, scalar);
                assert forall|i: int| 0 <= i < changed.len() implies (#[trigger] changed[i]).fits(
                    resolved.holder.lane_kind(),
                ) by {
                    if i != lane {
                        assert(changed[i] == lanes[i]);
                    }
                }
            }
        },
        _ => {},
    }
}

/// What surfaces from a terminal place is what the place holds: a scalar as
/// [`Scalar::surfaced`] says, a string as itself, a vector as a handle on its
/// components.
pub proof fn lemma_reading_addressed(resolved: ResolvedView, held: FieldView)
    requires
        resolved.holder.terminal(),
    ensures
        match addressed(resolved, held) {
            Some(FieldView::Scalar(scalar)) => reading(resolved, held) == Ok::<
                ScriptValueView,
                CoercionErrorView,
            >(scalar.surfaced()),
            Some(FieldView::Text(text)) => reading(resolved, held) == Ok::<
                ScriptValueView,
                CoercionErrorView,
            >(ScriptValueView::Text(text)),
            Some(FieldView::Vector(lanes)) => reading(resolved, held) == Ok::<
                ScriptValueView,
                CoercionErrorView,
            >(ScriptValueView::Vector(VectorView { kind: resolved.holder, lanes })),
            None => reading(resolved, held) is Err,
        },
{
}

/// Reading a terminal value and assigning what was read leaves the field
/// unchanged. What was read coerces to the very value that the place holds:
/// the same bits for a float of either width, the same integer, string or
/// vector, the same component where one was addressed; and storing it leaves
/// the holder with what it held before.
pub proof fn lemma_round_trip(resolved: ResolvedView, held: FieldView)
    requires
        resolved.wf(),
        resolved.holder.terminal(),
        held.fits(resolved.holder),
    ensures
        addressed(resolved, held) matches Some(at) && reading(resolved, held) matches Ok(value)
            && coercion(resolved.kind(), value) == Ok::<NativeView, CoercionErrorView>(
            NativeView::Value(at),
        ) && placed(resolved, held, at) == Some(held),
{
    match (resolved.lane, held) {
        (Some(lane), FieldView::Vector(lanes)) => {
            let scalar = lanes[lane as int];
            assert(scalar.fits(resolved.holder.lane_kind()));
            assert(lanes.update(lane as int, scalar) =~= lanes);
        },
        (Some(lane), _) => {},
        (None, _) => {},
    }
}

} // verus!
