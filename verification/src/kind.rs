//! The terminal kind table: every classification a resolved value can have,
//! with the facts that resolution, coercion and display all read from it.

use vstd::prelude::*;

verus! {

/// Classification of a value addressed in the store.
///
/// Every variant but `Composite` is a terminal kind: a value with a native
/// representation in the scripting layer. `Composite` stands for anything
/// else, whose fields can only be addressed further.
#[derive(Clone, Copy, Debug, PartialEq, Eq, Structural)]
pub enum ValueKind {
    Composite,
    F32,
    F64,
    I8,
    I16,
    I32,
    I64,
    U8,
    U16,
    U32,
    U64,
    Text,
    Vec2,
    IVec2,
    UVec2,
    Vec3,
    IVec3,
    UVec3,
    Vec4,
    IVec4,
    UVec4,
}

impl ValueKind {
    /// Whether the kind has a native scripting representation.
    pub open spec fn terminal(self) -> bool {
        self != ValueKind::Composite
    }

    /// Number of numeric components of a vector kind, 0 for every other kind.
    pub open spec fn lane_count(self) -> nat {
        match self {
            ValueKind::Vec2 | ValueKind::IVec2 | ValueKind::UVec2 => 2,
            ValueKind::Vec3 | ValueKind::IVec3 | ValueKind::UVec3 => 3,
            ValueKind::Vec4 | ValueKind::IVec4 | ValueKind::UVec4 => 4,
            _ => 0,
        }
    }

    /// Whether the kind is a fixed-size vector.
    pub open spec fn vector(self) -> bool {
        self.lane_count() > 0
    }

    /// The scalar kind of one component of a vector kind; every other kind is
    /// its own component kind.
    pub open spec fn lane_kind(self) -> ValueKind {
        match self {
            ValueKind::Vec2 | ValueKind::Vec3 | ValueKind::Vec4 => ValueKind::F32,
            ValueKind::IVec2 | ValueKind::IVec3 | ValueKind::IVec4 => ValueKind::I32,
            ValueKind::UVec2 | ValueKind::UVec3 | ValueKind::UVec4 => ValueKind::U32,
            other => other,
        }
    }

    /// Whether the kind is a floating-point scalar.
    pub open spec fn float(self) -> bool {
        self == ValueKind::F32 || self == ValueKind::F64
    }

    /// Whether the kind is a signed integer scalar.
    pub open spec fn signed(self) -> bool {
        self == ValueKind::I8 || self == ValueKind::I16 || self == ValueKind::I32 || self
            == ValueKind::I64
    }

    /// Whether the kind is an unsigned integer scalar.
    pub open spec fn unsigned(self) -> bool {
        self == ValueKind::U8 || self == ValueKind::U16 || self == ValueKind::U32 || self
            == ValueKind::U64
    }

    /// Whether the kind is a numeric scalar.
    pub open spec fn numeric(self) -> bool {
        self.float() || self.signed() || self.unsigned()
    }

    /// Least value of an integer kind, 0 for every other kind.
    pub open spec fn least(self) -> int {
        match self {
            ValueKind::I8 => -0x80,
            ValueKind::I16 => -0x8000,
            ValueKind::I32 => -0x8000_0000,
            ValueKind::I64 => -0x8000_0000_0000_0000,
            _ => 0,
        }
    }

    /// Greatest value of an integer kind, 0 for every other kind.
    pub open spec fn greatest(self) -> int {
        match self {
            ValueKind::I8 => 0x7f,
            ValueKind::I16 => 0x7fff,
            ValueKind::I32 => 0x7fff_ffff,
            ValueKind::I64 => 0x7fff_ffff_ffff_ffff,
            ValueKind::U8 => 0xff,
            ValueKind::U16 => 0xffff,
            ValueKind::U32 => 0xffff_ffff,
            ValueKind::U64 => 0xffff_ffff_ffff_ffff,
            _ => 0,
        }
    }

    /// Whether an integer kind can hold `value` exactly.
    pub open spec fn holds(self, value: int) -> bool {
        (self.signed() || self.unsigned()) && self.least() <= value <= self.greatest()
    }

    /// The name under which diagnostics mention the kind.
    pub open spec fn label(self) -> Seq<char> {
        match self {
            ValueKind::Composite => "struct"@,
            ValueKind::F32 => "f32"@,
            ValueKind::F64 => "f64"@,
            ValueKind::I8 => "i8"@,
            ValueKind::I16 => "i16"@,
            ValueKind::I32 => "i32"@,
            ValueKind::I64 => "i64"@,
            ValueKind::U8 => "u8"@,
            ValueKind::U16 => "u16"@,
            ValueKind::U32 => "u32"@,
            ValueKind::U64 => "u64"@,
            ValueKind::Text => "string"@,
            ValueKind::Vec2 => "vec2"@,
            ValueKind::IVec2 => "ivec2"@,
            ValueKind::UVec2 => "uvec2"@,
            ValueKind::Vec3 => "vec3"@,
            ValueKind::IVec3 => "ivec3"@,
            ValueKind::UVec3 => "uvec3"@,
            ValueKind::Vec4 => "vec4"@,
            ValueKind::IVec4 => "ivec4"@,
            ValueKind::UVec4 => "uvec4"@,
        }
    }

    pub fn is_terminal(self) -> (yes: bool)
        ensures
            yes == self.terminal(),
    {
        !matches!(self, ValueKind::Composite)
    }

    pub fn lanes(self) -> (count: u8)
        ensures
            count == self.lane_count(),
    {
        match self {
            ValueKind::Vec2 | ValueKind::IVec2 | ValueKind::UVec2 => 2,
            ValueKind::Vec3 | ValueKind::IVec3 | ValueKind::UVec3 => 3,
            ValueKind::Vec4 | ValueKind::IVec4 | ValueKind::UVec4 => 4,
            _ => 0,
        }
    }

    pub fn is_vector(self) -> (yes: bool)
        ensures
            yes == self.vector(),
    {
        self.lanes() > 0
    }

    pub fn component(self) -> (kind: ValueKind)
        ensures
            kind == self.lane_kind(),
    {
        match self {
            ValueKind::Vec2 | ValueKind::Vec3 | ValueKind::Vec4 => ValueKind::F32,
            ValueKind::IVec2 | ValueKind::IVec3 | ValueKind::IVec4 => ValueKind::I32,
            ValueKind::UVec2 | ValueKind::UVec3 | ValueKind::UVec4 => ValueKind::U32,
            other => other,
        }
    }

    pub fn is_float(self) -> (yes: bool)
        ensures
            yes == self.float(),
    {
        matches!(self, ValueKind::F32 | ValueKind::F64)
    }

    pub fn is_signed(self) -> (yes: bool)
        ensures
            yes == self.signed(),
    {
        matches!(self, ValueKind::I8 | ValueKind::I16 | ValueKind::I32 | ValueKind::I64)
    }

    pub fn is_unsigned(self) -> (yes: bool)
        ensures
            yes == self.unsigned(),
    {
        matches!(self, ValueKind::U8 | ValueKind::U16 | ValueKind::U32 | ValueKind::U64)
    }

    /// Whether a script integer fits the integer kind without loss.
    pub fn fits_signed(self, value: i64) -> (yes: bool)
        ensures
            yes == self.holds(value as int),
    {
        match self {
            ValueKind::I8 => -0x80 <= value && value <= 0x7f,
            ValueKind::I16 => -0x8000 <= value && value <= 0x7fff,
            ValueKind::I32 => -0x8000_0000 <= value && value <= 0x7fff_ffff,
            ValueKind::I64 => true,
            ValueKind::U8 => 0 <= value && value <= 0xff,
            ValueKind::U16 => 0 <= value && value <= 0xffff,
            ValueKind::U32 => 0 <= value && value <= 0xffff_ffff,
            ValueKind::U64 => 0 <= value,
            _ => false,
        }
    }

    pub fn name(self) -> (text: String)
        ensures
            text@ == self.label(),
    {
        let literal: &str = match self {
            ValueKind::Composite => "struct",
            ValueKind::F32 => "f32",
            ValueKind::F64 => "f64",
            ValueKind::I8 => "i8",
            ValueKind::I16 => "i16",
            ValueKind::I32 => "i32",
            ValueKind::I64 => "i64",
            ValueKind::U8 => "u8",
            ValueKind::U16 => "u16",
            ValueKind::U32 => "u32",
            ValueKind::U64 => "u64",
            ValueKind::Text => "string",
            ValueKind::Vec2 => "vec2",
            ValueKind::IVec2 => "ivec2",
            ValueKind::UVec2 => "uvec2",
            ValueKind::Vec3 => "vec3",
            ValueKind::IVec3 => "ivec3",
            ValueKind::UVec3 => "uvec3",
            ValueKind::Vec4 => "vec4",
            ValueKind::IVec4 => "ivec4",
            ValueKind::UVec4 => "uvec4",
        };
        String::from_str(literal)
    }
}

/// Position of the component that an accessor letter names: `x`, `y`, `z`, `w`
/// stand for components 0 to 3; no other letter names one.
pub open spec fn lane_of_letter(letter: char) -> Option<u8> {
    if letter == 'x' {
        Some(0u8)
    } else if letter == 'y' {
        Some(1u8)
    } else if letter == 'z' {
        Some(2u8)
    } else if letter == 'w' {
        Some(3u8)
    } else {
        None
    }
}

pub fn accessor_lane(letter: char) -> (lane: Option<u8>)
    ensures
        lane == lane_of_letter(letter),
{
    if letter == 'x' {
        Some(0)
    } else if letter == 'y' {
        Some(1)
    } else if letter == 'z' {
        Some(2)
    } else if letter == 'w' {
        Some(3)
    } else {
        None
    }
}

/// Every vector kind has between two and four components, and its component
/// kind is a numeric scalar.
pub proof fn lemma_vector_shape(kind: ValueKind)
    requires
        kind.vector(),
    ensures
        2 <= kind.lane_count() <= 4,
        kind.lane_kind().numeric(),
        !kind.lane_kind().vector(),
        kind.terminal(),
{
}

} // verus!
