use lua_reflect::kind::accessor_lane;
use lua_reflect::kind::ValueKind;

const ALL: [ValueKind; 21] = [
    ValueKind::Composite,
    ValueKind::F32,
    ValueKind::F64,
    ValueKind::I8,
    ValueKind::I16,
    ValueKind::I32,
    ValueKind::I64,
    ValueKind::U8,
    ValueKind::U16,
    ValueKind::U32,
    ValueKind::U64,
    ValueKind::Text,
    ValueKind::Vec2,
    ValueKind::IVec2,
    ValueKind::UVec2,
    ValueKind::Vec3,
    ValueKind::IVec3,
    ValueKind::UVec3,
    ValueKind::Vec4,
    ValueKind::IVec4,
    ValueKind::UVec4,
];

#[test]
fn only_composite_is_not_terminal() {
    for kind in ALL {
        assert_eq!(kind.is_terminal(), kind != ValueKind::Composite);
    }
}

#[test]
fn vectors_have_two_to_four_lanes() {
    assert_eq!(ValueKind::Vec2.lanes(), 2);
    assert_eq!(ValueKind::IVec2.lanes(), 2);
    assert_eq!(ValueKind::UVec2.lanes(), 2);
    assert_eq!(ValueKind::Vec3.lanes(), 3);
    assert_eq!(ValueKind::IVec3.lanes(), 3);
    assert_eq!(ValueKind::UVec3.lanes(), 3);
    assert_eq!(ValueKind::Vec4.lanes(), 4);
    assert_eq!(ValueKind::IVec4.lanes(), 4);
    assert_eq!(ValueKind::UVec4.lanes(), 4);
    assert_eq!(ValueKind::F32.lanes(), 0);
    assert_eq!(ValueKind::Text.lanes(), 0);
    assert_eq!(ValueKind::Composite.lanes(), 0);
    for kind in ALL {
        assert_eq!(kind.is_vector(), kind.lanes() >= 2);
        assert!(kind.lanes() <= 4);
    }
}

#[test]
fn vector_components_are_numeric_scalars() {
    assert_eq!(ValueKind::Vec2.component(), ValueKind::F32);
    assert_eq!(ValueKind::Vec3.component(), ValueKind::F32);
    assert_eq!(ValueKind::Vec4.component(), ValueKind::F32);
    assert_eq!(ValueKind::IVec2.component(), ValueKind::I32);
    assert_eq!(ValueKind::IVec3.component(), ValueKind::I32);
    assert_eq!(ValueKind::IVec4.component(), ValueKind::I32);
    assert_eq!(ValueKind::UVec2.component(), ValueKind::U32);
    assert_eq!(ValueKind::UVec3.component(), ValueKind::U32);
    assert_eq!(ValueKind::UVec4.component(), ValueKind::U32);
    assert_eq!(ValueKind::F64.component(), ValueKind::F64);
    assert_eq!(ValueKind::Composite.component(), ValueKind::Composite);
}

#[test]
fn scalar_families_do_not_overlap() {
    for kind in ALL {
        let families = [kind.is_float(), kind.is_signed(), kind.is_unsigned()];
        assert!(families.iter().filter(|yes| **yes).count() <= 1);
    }
    assert!(ValueKind::F32.is_float());
    assert!(ValueKind::F64.is_float());
    assert!(ValueKind::I8.is_signed());
    assert!(ValueKind::I64.is_signed());
    assert!(ValueKind::U8.is_unsigned());
    assert!(ValueKind::U64.is_unsigned());
    assert!(!ValueKind::Vec3.is_float());
    assert!(!ValueKind::Text.is_signed());
}

#[test]
fn integer_kinds_hold_exactly_their_range() {
    assert!(ValueKind::I8.fits_signed(-128));
    assert!(ValueKind::I8.fits_signed(127));
    assert!(!ValueKind::I8.fits_signed(-129));
    assert!(!ValueKind::I8.fits_signed(128));
    assert!(ValueKind::I16.fits_signed(-32768));
    assert!(ValueKind::I16.fits_signed(32767));
    assert!(!ValueKind::I16.fits_signed(32768));
    assert!(ValueKind::I32.fits_signed(i32::MIN as i64));
    assert!(ValueKind::I32.fits_signed(i32::MAX as i64));
    assert!(!ValueKind::I32.fits_signed(i32::MAX as i64 + 1));
    assert!(!ValueKind::I32.fits_signed(i32::MIN as i64 - 1));
    assert!(ValueKind::I64.fits_signed(i64::MIN));
    assert!(ValueKind::I64.fits_signed(i64::MAX));
    assert!(ValueKind::U8.fits_signed(0));
    assert!(ValueKind::U8.fits_signed(255));
    assert!(!ValueKind::U8.fits_signed(256));
    assert!(!ValueKind::U8.fits_signed(-1));
    assert!(ValueKind::U16.fits_signed(65535));
    assert!(!ValueKind::U16.fits_signed(65536));
    assert!(ValueKind::U32.fits_signed(u32::MAX as i64));
    assert!(!ValueKind::U32.fits_signed(u32::MAX as i64 + 1));
    assert!(ValueKind::U64.fits_signed(i64::MAX));
    assert!(!ValueKind::U64.fits_signed(-1));
    assert!(!ValueKind::F32.fits_signed(0));
    assert!(!ValueKind::Text.fits_signed(0));
    assert!(!ValueKind::Vec3.fits_signed(0));
    assert!(!ValueKind::Composite.fits_signed(0));
}

#[test]
fn kinds_are_named_for_diagnostics() {
    assert_eq!(ValueKind::Composite.name(), "struct");
    assert_eq!(ValueKind::F32.name(), "f32");
    assert_eq!(ValueKind::F64.name(), "f64");
    assert_eq!(ValueKind::I8.name(), "i8");
    assert_eq!(ValueKind::I16.name(), "i16");
    assert_eq!(ValueKind::I32.name(), "i32");
    assert_eq!(ValueKind::I64.name(), "i64");
    assert_eq!(ValueKind::U8.name(), "u8");
    assert_eq!(ValueKind::U16.name(), "u16");
    assert_eq!(ValueKind::U32.name(), "u32");
    assert_eq!(ValueKind::U64.name(), "u64");
    assert_eq!(ValueKind::Text.name(), "string");
    assert_eq!(ValueKind::Vec2.name(), "vec2");
    assert_eq!(ValueKind::IVec2.name(), "ivec2");
    assert_eq!(ValueKind::UVec2.name(), "uvec2");
    assert_eq!(ValueKind::Vec3.name(), "vec3");
    assert_eq!(ValueKind::IVec3.name(), "ivec3");
    assert_eq!(ValueKind::UVec3.name(), "uvec3");
    assert_eq!(ValueKind::Vec4.name(), "vec4");
    assert_eq!(ValueKind::IVec4.name(), "ivec4");
    assert_eq!(ValueKind::UVec4.name(), "uvec4");
}

#[test]
fn accessor_letters_map_to_positions() {
    assert_eq!(accessor_lane('x'), Some(0));
    assert_eq!(accessor_lane('y'), Some(1));
    assert_eq!(accessor_lane('z'), Some(2));
    assert_eq!(accessor_lane('w'), Some(3));
    assert_eq!(accessor_lane('q'), None);
    assert_eq!(accessor_lane('X'), None);
    assert_eq!(accessor_lane('.'), None);
}
