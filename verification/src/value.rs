//! Values on both sides of the boundary: what a script holds, what a field
//! holds, and the conversions between the two.
//!
//! Floating-point numbers are carried by their bit patterns and never
//! computed with: where a conversion changes the width of a float, the result
//! says so and leaves the arithmetic to whoever stores or hands out the value.

use vstd::prelude::*;
use crate::kind::ValueKind;
use crate::reference::Reference;
use crate::reference::ReferenceView;
use crate::resolve::Resolved;
use crate::resolve::ResolvedView;

verus! {

/// A number of the scripting layer's one numeric kind.
#[derive(Clone, Copy, Debug, PartialEq, Eq, Structural)]
pub enum Number {
    /// The value of the 32-bit float with these bits.
    Single(u32),
    /// The value of the 64-bit float with these bits.
    Double(u64),
    /// An unsigned integer beyond the range of script integers.
    Unsigned(u64),
}

/// One native scalar, in the representation of its field.
#[derive(Clone, Copy, Debug, PartialEq, Eq, Structural)]
pub enum Scalar {
    /// The bits of a 32-bit float.
    Single(u32),
    /// The bits of a 64-bit float.
    Double(u64),
    Signed(i64),
    Unsigned(u64),
}

impl Scalar {
    /// Whether the scalar is a value of the scalar kind `kind`.
    pub open spec fn fits(self, kind: ValueKind) -> bool {
        match self {
            Scalar::Single(_) => kind == ValueKind::F32,
            Scalar::Double(_) => kind == ValueKind::F64,
            Scalar::Signed(value) => kind.signed() && kind.holds(value as int),
            Scalar::Unsigned(value) => kind.unsigned() && kind.holds(value as int),
        }
    }

    /// The name under which diagnostics mention the scalar.
    pub open spec fn label(self) -> Seq<char> {
        match self {
            Scalar::Single(_) => "f32"@,
            Scalar::Double(_) => "f64"@,
            Scalar::Signed(_) => "signed integer"@,
            Scalar::Unsigned(_) => "unsigned integer"@,
        }
    }

    /// How the scalar surfaces in a script: floats as numbers, integers as
    /// script integers where those can hold them, else as numbers.
    pub open spec fn surfaced(self) -> ScriptValueView {
        match self {
            Scalar::Single(bits) => ScriptValueView::Number(Number::Single(bits)),
            Scalar::Double(bits) => ScriptValueView::Number(Number::Double(bits)),
            Scalar::Signed(value) => ScriptValueView::Integer(value),
            Scalar::Unsigned(value) => if value <= 0x7fff_ffff_ffff_ffff {
                ScriptValueView::Integer(value as i64)
            } else {
                ScriptValueView::Number(Number::Unsigned(value))
            },
        }
    }

    pub fn is_of(self, kind: ValueKind) -> (yes: bool)
        ensures
            yes == self.fits(kind),
    {
        match self {
            Scalar::Single(_) => kind == ValueKind::F32,
            Scalar::Double(_) => kind == ValueKind::F64,
            Scalar::Signed(value) => kind.is_signed() && kind.fits_signed(value),
            Scalar::Unsigned(value) => match kind {
                ValueKind::U8 => value <= 0xff,
                ValueKind::U16 => value <= 0xffff,
                ValueKind::U32 => value <= 0xffff_ffff,
                ValueKind::U64 => true,
                _ => false,
            },
        }
    }

    pub fn name(self) -> (text: String)
        ensures
            text@ == self.label(),
    {
        match self {
            Scalar::Single(_) => String::from_str("f32"),
            Scalar::Double(_) => String::from_str("f64"),
            Scalar::Signed(_) => String::from_str("signed integer"),
            Scalar::Unsigned(_) => String::from_str("unsigned integer"),
        }
    }

    pub fn surface(self) -> (value: ScriptValue)
        ensures
            value@ == self.surfaced(),
    {
        match self {
            Scalar::Single(bits) => ScriptValue::Number(Number::Single(bits)),
            Scalar::Double(bits) => ScriptValue::Number(Number::Double(bits)),
            Scalar::Signed(value) => ScriptValue::Integer(value),
            Scalar::Unsigned(value) => if value <= 0x7fff_ffff_ffff_ffff {
                ScriptValue::Integer(value as i64)
            } else {
                ScriptValue::Number(Number::Unsigned(value))
            },
        }
    }
}

/// Whether every one of `lanes` is a value of the scalar kind `kind`.
pub open spec fn lanes_fit(lanes: Seq<Scalar>, kind: ValueKind) -> bool {
    forall|i: int| 0 <= i < lanes.len() ==> (#[trigger] lanes[i]).fits(kind)
}

/// Whether `lanes` are the components of a vector of kind `kind`.
pub open spec fn vector_fits(lanes: Seq<Scalar>, kind: ValueKind) -> bool {
    kind.vector() && lanes.len() == kind.lane_count() && lanes_fit(lanes, kind.lane_kind())
}

/// Checks that `lanes` are the components of a vector of kind `kind`.
pub fn check_vector(lanes: &Vec<Scalar>, kind: ValueKind) -> (yes: bool)
    ensures
        yes == vector_fits(lanes@, kind),
{
    if !kind.is_vector() || lanes.len() != kind.lanes() as usize {
        return false;
    }
    let lane_kind = kind.component();
    let mut at: usize = 0;
    while at < lanes.len()
        invariant
            at <= lanes@.len(),
            lane_kind == kind.lane_kind(),
            forall|i: int| 0 <= i < at ==> (#[trigger] lanes@[i]).fits(lane_kind),
        decreases lanes@.len() - at,
    {
        if !lanes[at].is_of(lane_kind) {
            return false;
        }
        at = at + 1;
    }
    true
}

/// Copies the components of a vector.
pub fn copy_lanes(lanes: &Vec<Scalar>) -> (copy: Vec<Scalar>)
    ensures
        copy@ == lanes@,
{
    let mut copy: Vec<Scalar> = Vec::new();
    let mut at: usize = 0;
    while at < lanes.len()
        invariant
            at <= lanes@.len(),
            copy@ == lanes@.take(at as int),
        decreases lanes@.len() - at,
    {
        copy.push(lanes[at]);
        assert(copy@ =~= lanes@.take(at + 1));
        at = at + 1;
    }
    assert(lanes@.take(lanes@.len() as int) =~= lanes@);
    copy
}

/// A small vector as a script holds it: an opaque handle on a copy of the
/// components.
#[derive(Debug, PartialEq, Eq)]
pub struct VectorValue {
    pub kind: ValueKind,
    pub lanes: Vec<Scalar>,
}

/// The mathematical value of a [`VectorValue`].
pub struct VectorView {
    pub kind: ValueKind,
    pub lanes: Seq<Scalar>,
}

impl View for VectorValue {
    type V = VectorView;

    open spec fn view(&self) -> VectorView {
        VectorView { kind: self.kind, lanes: self.lanes@ }
    }
}

/// A value of the scripting layer.
#[derive(Debug, PartialEq, Eq)]
pub enum ScriptValue {
    Nil,
    Boolean(bool),
    Integer(i64),
    Number(Number),
    Text(String),
    Vector(VectorValue),
    Reference(Reference),
    Table,
    Function,
    Thread,
    LightUserData,
    Error,
}

/// The mathematical value of a [`ScriptValue`].
pub enum ScriptValueView {
    Nil,
    Boolean(bool),
    Integer(i64),
    Number(Number),
    Text(Seq<char>),
    Vector(VectorView),
    Reference(ReferenceView),
    Table,
    Function,
    Thread,
    LightUserData,
    Error,
}

impl ScriptValueView {
    /// Whether the scripting layer has values of this kind that no field can
    /// take: there is no coercion for them at all.
    pub open spec fn unsupported(self) -> bool {
        self is Table || self is Function || self is Thread || self is LightUserData || self is Error
    }

    /// The name under which diagnostics mention the value's kind.
    pub open spec fn label(self) -> Seq<char> {
        match self {
            ScriptValueView::Nil => "nil"@,
            ScriptValueView::Boolean(_) => "boolean"@,
            ScriptValueView::Integer(_) => "integer"@,
            ScriptValueView::Number(_) => "number"@,
            ScriptValueView::Text(_) => "string"@,
            ScriptValueView::Vector(_) => "vector"@,
            ScriptValueView::Reference(_) => "reference"@,
            ScriptValueView::Table => "table"@,
            ScriptValueView::Function => "function"@,
            ScriptValueView::Thread => "thread"@,
            ScriptValueView::LightUserData => "userdata"@,
            ScriptValueView::Error => "error"@,
        }
    }
}

impl View for ScriptValue {
    type V = ScriptValueView;

    open spec fn view(&self) -> ScriptValueView {
        match self {
            ScriptValue::Nil => ScriptValueView::Nil,
            ScriptValue::Boolean(flag) => ScriptValueView::Boolean(*flag),
            ScriptValue::Integer(value) => ScriptValueView::Integer(*value),
            ScriptValue::Number(number) => ScriptValueView::Number(*number),
            ScriptValue::Text(text) => ScriptValueView::Text(text@),
            ScriptValue::Vector(vector) => ScriptValueView::Vector(vector@),
            ScriptValue::Reference(reference) => ScriptValueView::Reference(reference@),
            ScriptValue::Table => ScriptValueView::Table,
            ScriptValue::Function => ScriptValueView::Function,
            ScriptValue::Thread => ScriptValueView::Thread,
            ScriptValue::LightUserData => ScriptValueView::LightUserData,
            ScriptValue::Error => ScriptValueView::Error,
        }
    }
}

impl ScriptValue {
    pub fn is_unsupported(&self) -> (yes: bool)
        ensures
            yes == self@.unsupported(),
    {
        matches!(
            self,
            ScriptValue::Table | ScriptValue::Function | ScriptValue::Thread
                | ScriptValue::LightUserData | ScriptValue::Error
        )
    }

    pub fn name(&self) -> (text: String)
        ensures
            text@ == self@.label(),
    {
        let literal: &str = match self {
            ScriptValue::Nil => "nil",
            ScriptValue::Boolean(_) => "boolean",
            ScriptValue::Integer(_) => "integer",
            ScriptValue::Number(_) => "number",
            ScriptValue::Text(_) => "string",
            ScriptValue::Vector(_) => "vector",
            ScriptValue::Reference(_) => "reference",
            ScriptValue::Table => "table",
            ScriptValue::Function => "function",
            ScriptValue::Thread => "thread",
            ScriptValue::LightUserData => "userdata",
            ScriptValue::Error => "error",
        };
        String::from_str(literal)
    }
}

/// What a terminal field holds.
#[derive(Debug, PartialEq, Eq)]
pub enum FieldValue {
    Scalar(Scalar),
    Text(String),
    Vector(Vec<Scalar>),
}

/// The mathematical value of a [`FieldValue`].
pub enum FieldView {
    Scalar(Scalar),
    Text(Seq<char>),
    Vector(Seq<Scalar>),
}

impl FieldView {
    /// Whether the value is one of a field of kind `kind`. No value is one of
    /// a `Composite`.
    pub open spec fn fits(self, kind: ValueKind) -> bool {
        match self {
            FieldView::Scalar(scalar) => scalar.fits(kind),
            FieldView::Text(_) => kind == ValueKind::Text,
            FieldView::Vector(lanes) => vector_fits(lanes, kind),
        }
    }

    /// The name under which diagnostics mention the value.
    pub open spec fn label(self) -> Seq<char> {
        match self {
            FieldView::Scalar(scalar) => scalar.label(),
            FieldView::Text(_) => "string"@,
            FieldView::Vector(_) => "vector"@,
        }
    }
}

impl View for FieldValue {
    type V = FieldView;

    open spec fn view(&self) -> FieldView {
        match self {
            FieldValue::Scalar(scalar) => FieldView::Scalar(*scalar),
            FieldValue::Text(text) => FieldView::Text(text@),
            FieldValue::Vector(lanes) => FieldView::Vector(lanes@),
        }
    }
}

impl FieldValue {
    pub fn is_of(&self, kind: ValueKind) -> (yes: bool)
        ensures
            yes == self@.fits(kind),
    {
        match self {
            FieldValue::Scalar(scalar) => scalar.is_of(kind),
            FieldValue::Text(_) => kind == ValueKind::Text,
            FieldValue::Vector(lanes) => check_vector(lanes, kind),
        }
    }

    pub fn name(&self) -> (text: String)
        ensures
            text@ == self@.label(),
    {
        match self {
            FieldValue::Scalar(scalar) => scalar.name(),
            FieldValue::Text(_) => String::from_str("string"),
            FieldValue::Vector(_) => String::from_str("vector"),
        }
    }
}

} // verus!
