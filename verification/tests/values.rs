use std::any::TypeId;

use lua_reflect::coerce::coerce;
use lua_reflect::coerce::pick;
use lua_reflect::coerce::place;
use lua_reflect::coerce::read;
use lua_reflect::coerce::CoercionError;
use lua_reflect::coerce::Native;
use lua_reflect::kind::ValueKind;
use lua_reflect::reference::RecordId;
use lua_reflect::reference::Reference;
use lua_reflect::resolve::Access;
use lua_reflect::resolve::Resolved;
use lua_reflect::value::check_vector;
use lua_reflect::value::copy_lanes;
use lua_reflect::value::FieldValue;
use lua_reflect::value::Number;
use lua_reflect::value::Scalar;
use lua_reflect::value::ScriptValue;
use lua_reflect::value::VectorValue;

fn resolved(holder: ValueKind, lane: Option<u8>) -> Resolved {
    Resolved {
        reference: Reference::new(RecordId::from_bits(3), "T").index("field"),
        type_id: TypeId::of::<()>(),
        holder,
        lane,
        access: Access::ReadOnly,
    }
}

fn mismatch(expected: &str, got: &str) -> CoercionError {
    CoercionError::TypeMismatch { expected: expected.to_string(), got: got.to_string() }
}

fn singles(values: &[f32]) -> Vec<Scalar> {
    values.iter().map(|value| Scalar::Single(value.to_bits())).collect()
}

#[test]
fn floats_surface_as_numbers_of_their_own_bits() {
    let narrow = read(&resolved(ValueKind::F32, None), &FieldValue::Scalar(Scalar::Single(0.1f32.to_bits())));
    assert_eq!(narrow, Ok(ScriptValue::Number(Number::Single(0.1f32.to_bits()))));
    let wide = read(&resolved(ValueKind::F64, None), &FieldValue::Scalar(Scalar::Double(0.1f64.to_bits())));
    assert_eq!(wide, Ok(ScriptValue::Number(Number::Double(0.1f64.to_bits()))));
}

#[test]
fn integers_surface_as_integers_when_representable() {
    assert_eq!(Scalar::Signed(-5).surface(), ScriptValue::Integer(-5));
    assert_eq!(Scalar::Signed(i64::MIN).surface(), ScriptValue::Integer(i64::MIN));
    assert_eq!(Scalar::Unsigned(0).surface(), ScriptValue::Integer(0));
    assert_eq!(Scalar::Unsigned(i64::MAX as u64).surface(), ScriptValue::Integer(i64::MAX));
    assert_eq!(
        Scalar::Unsigned(i64::MAX as u64 + 1).surface(),
        ScriptValue::Number(Number::Unsigned(i64::MAX as u64 + 1))
    );
    assert_eq!(Scalar::Unsigned(u64::MAX).surface(), ScriptValue::Number(Number::Unsigned(u64::MAX)));
    assert_eq!(
        read(&resolved(ValueKind::U64, None), &FieldValue::Scalar(Scalar::Unsigned(u64::MAX))),
        Ok(ScriptValue::Number(Number::Unsigned(u64::MAX)))
    );
    assert_eq!(
        read(&resolved(ValueKind::I16, None), &FieldValue::Scalar(Scalar::Signed(-300))),
        Ok(ScriptValue::Integer(-300))
    );
}

#[test]
fn strings_surface_as_strings() {
    assert_eq!(
        read(&resolved(ValueKind::Text, None), &FieldValue::Text("hello".to_string())),
        Ok(ScriptValue::Text("hello".to_string()))
    );
}

#[test]
fn whole_vector_surfaces_as_a_handle() {
    let lanes = singles(&[1.5, -2.25, 3.0]);
    assert_eq!(
        read(&resolved(ValueKind::Vec3, None), &FieldValue::Vector(lanes.clone())),
        Ok(ScriptValue::Vector(VectorValue { kind: ValueKind::Vec3, lanes }))
    );
}

#[test]
fn component_surfaces_as_that_single_number() {
    let lanes = singles(&[1.5, -2.25, 3.0]);
    assert_eq!(
        read(&resolved(ValueKind::Vec3, Some(0)), &FieldValue::Vector(lanes.clone())),
        Ok(ScriptValue::Number(Number::Single(1.5f32.to_bits())))
    );
    assert_eq!(
        read(&resolved(ValueKind::Vec3, Some(2)), &FieldValue::Vector(lanes.clone())),
        Ok(ScriptValue::Number(Number::Single(3.0f32.to_bits())))
    );
    let integers = vec![Scalar::Signed(7), Scalar::Signed(-8), Scalar::Signed(9)];
    assert_eq!(
        read(&resolved(ValueKind::IVec3, Some(1)), &FieldValue::Vector(integers)),
        Ok(ScriptValue::Integer(-8))
    );
}

#[test]
fn composite_surfaces_as_a_reference() {
    let composite = resolved(ValueKind::Composite, None);
    let value = read(&composite, &FieldValue::Text(String::new())).unwrap();
    match value {
        ScriptValue::Reference(reference) => assert!(reference.same(&composite.reference)),
        other => panic!("{:?}", other),
    }
}

#[test]
fn read_rejects_a_value_of_another_kind() {
    assert_eq!(
        read(&resolved(ValueKind::F32, None), &FieldValue::Scalar(Scalar::Double(0))),
        Err(mismatch("f32", "f64"))
    );
    assert_eq!(
        read(&resolved(ValueKind::I8, None), &FieldValue::Scalar(Scalar::Signed(128))),
        Err(mismatch("i8", "signed integer"))
    );
    assert_eq!(
        read(&resolved(ValueKind::U8, None), &FieldValue::Scalar(Scalar::Signed(1))),
        Err(mismatch("u8", "signed integer"))
    );
    assert_eq!(
        read(&resolved(ValueKind::I32, None), &FieldValue::Scalar(Scalar::Unsigned(1))),
        Err(mismatch("i32", "unsigned integer"))
    );
    assert_eq!(
        read(&resolved(ValueKind::Text, None), &FieldValue::Scalar(Scalar::Single(0))),
        Err(mismatch("string", "f32"))
    );
    assert_eq!(
        read(&resolved(ValueKind::Vec3, None), &FieldValue::Vector(singles(&[1.0, 2.0]))),
        Err(mismatch("vec3", "vector"))
    );
    assert_eq!(
        read(&resolved(ValueKind::Vec2, Some(0)), &FieldValue::Text("v".to_string())),
        Err(mismatch("vec2", "string"))
    );
    assert_eq!(
        read(&resolved(ValueKind::F32, Some(0)), &FieldValue::Scalar(Scalar::Single(0))),
        Err(mismatch("f32", "f32"))
    );
    assert_eq!(
        read(&resolved(ValueKind::Vec2, Some(2)), &FieldValue::Vector(singles(&[1.0, 2.0]))),
        Err(mismatch("vec2", "vector"))
    );
}

#[test]
fn number_is_narrowed_for_a_single_width_field() {
    let tenth = 0.1f64.to_bits();
    assert_eq!(coerce(ValueKind::F32, &ScriptValue::Number(Number::Double(tenth))), Ok(Native::Narrow(tenth)));
    let narrowed = match coerce(ValueKind::F32, &ScriptValue::Number(Number::Double(tenth))) {
        Ok(Native::Narrow(bits)) => f64::from_bits(bits) as f32,
        other => panic!("{:?}", other),
    };
    assert_eq!(narrowed.to_bits(), 0.1f32.to_bits());
    assert_ne!(narrowed as f64, 0.1f64);
}

#[test]
fn number_of_the_fields_width_is_stored_as_it_is() {
    assert_eq!(
        coerce(ValueKind::F64, &ScriptValue::Number(Number::Double(0.1f64.to_bits()))),
        Ok(Native::Value(FieldValue::Scalar(Scalar::Double(0.1f64.to_bits()))))
    );
    assert_eq!(
        coerce(ValueKind::F32, &ScriptValue::Number(Number::Single(0.1f32.to_bits()))),
        Ok(Native::Value(FieldValue::Scalar(Scalar::Single(0.1f32.to_bits()))))
    );
    assert_eq!(
        coerce(ValueKind::F64, &ScriptValue::Number(Number::Single(0.1f32.to_bits()))),
        Ok(Native::Widen(0.1f32.to_bits()))
    );
}

#[test]
fn integer_is_stored_only_where_it_fits() {
    assert_eq!(
        coerce(ValueKind::I8, &ScriptValue::Integer(-128)),
        Ok(Native::Value(FieldValue::Scalar(Scalar::Signed(-128))))
    );
    assert_eq!(coerce(ValueKind::I8, &ScriptValue::Integer(128)), Err(mismatch("i8", "integer")));
    assert_eq!(
        coerce(ValueKind::U8, &ScriptValue::Integer(255)),
        Ok(Native::Value(FieldValue::Scalar(Scalar::Unsigned(255))))
    );
    assert_eq!(coerce(ValueKind::U8, &ScriptValue::Integer(256)), Err(mismatch("u8", "integer")));
    assert_eq!(coerce(ValueKind::U64, &ScriptValue::Integer(-1)), Err(mismatch("u64", "integer")));
    assert_eq!(
        coerce(ValueKind::U64, &ScriptValue::Integer(i64::MAX)),
        Ok(Native::Value(FieldValue::Scalar(Scalar::Unsigned(i64::MAX as u64))))
    );
    assert_eq!(
        coerce(ValueKind::I64, &ScriptValue::Integer(i64::MIN)),
        Ok(Native::Value(FieldValue::Scalar(Scalar::Signed(i64::MIN))))
    );
    assert_eq!(
        coerce(ValueKind::U64, &ScriptValue::Number(Number::Unsigned(u64::MAX))),
        Ok(Native::Value(FieldValue::Scalar(Scalar::Unsigned(u64::MAX))))
    );
    assert_eq!(
        coerce(ValueKind::U32, &ScriptValue::Number(Number::Unsigned(u64::MAX))),
        Err(mismatch("u32", "number"))
    );
    assert_eq!(
        coerce(ValueKind::I64, &ScriptValue::Number(Number::Unsigned(u64::MAX))),
        Err(mismatch("i64", "number"))
    );
}

#[test]
fn numbers_and_integers_do_not_cross() {
    assert_eq!(coerce(ValueKind::F32, &ScriptValue::Integer(1)), Err(mismatch("f32", "integer")));
    assert_eq!(coerce(ValueKind::F64, &ScriptValue::Integer(1)), Err(mismatch("f64", "integer")));
    assert_eq!(
        coerce(ValueKind::I32, &ScriptValue::Number(Number::Double(1.0f64.to_bits()))),
        Err(mismatch("i32", "number"))
    );
    assert_eq!(
        coerce(ValueKind::U32, &ScriptValue::Number(Number::Single(1.0f32.to_bits()))),
        Err(mismatch("u32", "number"))
    );
    assert_eq!(
        coerce(ValueKind::F64, &ScriptValue::Number(Number::Unsigned(u64::MAX))),
        Err(mismatch("f64", "number"))
    );
}

#[test]
fn string_field_takes_only_a_string() {
    assert_eq!(
        coerce(ValueKind::Text, &ScriptValue::Text("abc".to_string())),
        Ok(Native::Value(FieldValue::Text("abc".to_string())))
    );
    assert_eq!(coerce(ValueKind::Text, &ScriptValue::Integer(1)), Err(mismatch("string", "integer")));
    assert_eq!(
        coerce(ValueKind::I32, &ScriptValue::Text("1".to_string())),
        Err(mismatch("i32", "string"))
    );
}

#[test]
fn vector_field_takes_only_a_vector_of_its_kind() {
    let lanes = singles(&[1.0, 2.0, 3.0]);
    assert_eq!(
        coerce(ValueKind::Vec3, &ScriptValue::Vector(VectorValue { kind: ValueKind::Vec3, lanes: lanes.clone() })),
        Ok(Native::Value(FieldValue::Vector(lanes.clone())))
    );
    assert_eq!(
        coerce(ValueKind::Vec4, &ScriptValue::Vector(VectorValue { kind: ValueKind::Vec3, lanes: lanes.clone() })),
        Err(mismatch("vec4", "vector"))
    );
    assert_eq!(
        coerce(ValueKind::Vec3, &ScriptValue::Vector(VectorValue { kind: ValueKind::Vec3, lanes: singles(&[1.0]) })),
        Err(mismatch("vec3", "vector"))
    );
    assert_eq!(
        coerce(
            ValueKind::IVec3,
            &ScriptValue::Vector(VectorValue { kind: ValueKind::IVec3, lanes: lanes.clone() })
        ),
        Err(mismatch("ivec3", "vector"))
    );
    assert_eq!(
        coerce(ValueKind::F32, &ScriptValue::Vector(VectorValue { kind: ValueKind::Vec3, lanes })),
        Err(mismatch("f32", "vector"))
    );
}

#[test]
fn literals_never_assign_to_a_composite() {
    assert_eq!(coerce(ValueKind::Composite, &ScriptValue::Nil), Err(mismatch("struct", "nil")));
    assert_eq!(
        coerce(ValueKind::Composite, &ScriptValue::Boolean(true)),
        Err(mismatch("struct", "boolean"))
    );
    assert_eq!(
        coerce(ValueKind::Composite, &ScriptValue::Integer(1)),
        Err(mismatch("struct", "integer"))
    );
    assert_eq!(
        coerce(ValueKind::Composite, &ScriptValue::Text(String::new())),
        Err(mismatch("struct", "string"))
    );
    assert_eq!(coerce(ValueKind::F32, &ScriptValue::Nil), Err(mismatch("f32", "nil")));
    assert_eq!(coerce(ValueKind::I32, &ScriptValue::Boolean(false)), Err(mismatch("i32", "boolean")));
    assert_eq!(
        coerce(
            ValueKind::Composite,
            &ScriptValue::Reference(Reference::new(RecordId::from_bits(1), "T"))
        ),
        Err(mismatch("struct", "reference"))
    );
}

#[test]
fn kinds_without_coercion_are_unsupported() {
    for kind in [ValueKind::F32, ValueKind::Text, ValueKind::Vec3, ValueKind::Composite] {
        assert_eq!(coerce(kind, &ScriptValue::Table), Err(CoercionError::UnsupportedOperation));
        assert_eq!(coerce(kind, &ScriptValue::Function), Err(CoercionError::UnsupportedOperation));
        assert_eq!(coerce(kind, &ScriptValue::Thread), Err(CoercionError::UnsupportedOperation));
        assert_eq!(coerce(kind, &ScriptValue::LightUserData), Err(CoercionError::UnsupportedOperation));
        assert_eq!(coerce(kind, &ScriptValue::Error), Err(CoercionError::UnsupportedOperation));
    }
    assert!(ScriptValue::Function.is_unsupported());
    assert!(!ScriptValue::Nil.is_unsupported());
    assert!(!ScriptValue::Integer(0).is_unsupported());
}

#[test]
fn reading_then_assigning_stores_the_same_value() {
    let cases = [
        (ValueKind::F32, Scalar::Single(0.1f32.to_bits())),
        (ValueKind::F32, Scalar::Single(f32::NAN.to_bits())),
        (ValueKind::F32, Scalar::Single(f32::MIN_POSITIVE.to_bits())),
        (ValueKind::F64, Scalar::Double(0.1f64.to_bits())),
        (ValueKind::F64, Scalar::Double(f64::MAX.to_bits())),
        (ValueKind::I8, Scalar::Signed(-128)),
        (ValueKind::I16, Scalar::Signed(32767)),
        (ValueKind::I32, Scalar::Signed(i32::MIN as i64)),
        (ValueKind::I64, Scalar::Signed(i64::MAX)),
        (ValueKind::U8, Scalar::Unsigned(255)),
        (ValueKind::U16, Scalar::Unsigned(0)),
        (ValueKind::U32, Scalar::Unsigned(u32::MAX as u64)),
        (ValueKind::U64, Scalar::Unsigned(i64::MAX as u64)),
        (ValueKind::U64, Scalar::Unsigned(i64::MAX as u64 + 1)),
        (ValueKind::U64, Scalar::Unsigned(u64::MAX)),
    ];
    for (kind, scalar) in cases {
        let target = resolved(kind, None);
        let value = read(&target, &FieldValue::Scalar(scalar)).unwrap();
        assert_eq!(coerce(target.kind(), &value), Ok(Native::Value(FieldValue::Scalar(scalar))));
    }
    let lanes = singles(&[1.5, -2.25, 3.0]);
    for lane in 0..3u8 {
        let target = resolved(ValueKind::Vec3, Some(lane));
        let value = read(&target, &FieldValue::Vector(lanes.clone())).unwrap();
        assert_eq!(target.kind(), ValueKind::F32);
        assert_eq!(
            coerce(target.kind(), &value),
            Ok(Native::Value(FieldValue::Scalar(lanes[lane as usize])))
        );
    }
    let whole = resolved(ValueKind::Vec3, None);
    let value = read(&whole, &FieldValue::Vector(lanes.clone())).unwrap();
    assert_eq!(coerce(whole.kind(), &value), Ok(Native::Value(FieldValue::Vector(lanes))));
    let text = resolved(ValueKind::Text, None);
    let value = read(&text, &FieldValue::Text("kept".to_string())).unwrap();
    assert_eq!(coerce(text.kind(), &value), Ok(Native::Value(FieldValue::Text("kept".to_string()))));
}

#[test]
fn scalars_fit_exactly_their_kind() {
    assert!(Scalar::Single(0).is_of(ValueKind::F32));
    assert!(!Scalar::Single(0).is_of(ValueKind::F64));
    assert!(Scalar::Double(0).is_of(ValueKind::F64));
    assert!(!Scalar::Double(0).is_of(ValueKind::F32));
    assert!(Scalar::Signed(127).is_of(ValueKind::I8));
    assert!(!Scalar::Signed(128).is_of(ValueKind::I8));
    assert!(!Scalar::Signed(1).is_of(ValueKind::U8));
    assert!(Scalar::Unsigned(255).is_of(ValueKind::U8));
    assert!(!Scalar::Unsigned(256).is_of(ValueKind::U8));
    assert!(Scalar::Unsigned(65535).is_of(ValueKind::U16));
    assert!(!Scalar::Unsigned(65536).is_of(ValueKind::U16));
    assert!(Scalar::Unsigned(u32::MAX as u64).is_of(ValueKind::U32));
    assert!(!Scalar::Unsigned(u32::MAX as u64 + 1).is_of(ValueKind::U32));
    assert!(Scalar::Unsigned(u64::MAX).is_of(ValueKind::U64));
    assert!(!Scalar::Unsigned(1).is_of(ValueKind::I64));
    assert!(!Scalar::Unsigned(1).is_of(ValueKind::Vec3));
    assert!(FieldValue::Text(String::new()).is_of(ValueKind::Text));
    assert!(!FieldValue::Text(String::new()).is_of(ValueKind::Composite));
    assert!(!FieldValue::Scalar(Scalar::Single(0)).is_of(ValueKind::Composite));
}

#[test]
fn vectors_fit_by_kind_length_and_lanes() {
    assert!(check_vector(&singles(&[1.0, 2.0]), ValueKind::Vec2));
    assert!(check_vector(&singles(&[1.0, 2.0, 3.0]), ValueKind::Vec3));
    assert!(check_vector(&singles(&[1.0, 2.0, 3.0, 4.0]), ValueKind::Vec4));
    assert!(!check_vector(&singles(&[1.0, 2.0, 3.0]), ValueKind::Vec2));
    assert!(!check_vector(&singles(&[1.0, 2.0, 3.0]), ValueKind::IVec3));
    assert!(!check_vector(&singles(&[]), ValueKind::F32));
    assert!(!check_vector(&singles(&[1.0]), ValueKind::F32));
    assert!(check_vector(&vec![Scalar::Signed(1), Scalar::Signed(-1), Scalar::Signed(0)], ValueKind::IVec3));
    assert!(!check_vector(
        &vec![Scalar::Signed(1), Scalar::Signed(i32::MAX as i64 + 1), Scalar::Signed(0)],
        ValueKind::IVec3
    ));
    assert!(check_vector(&vec![Scalar::Unsigned(1), Scalar::Unsigned(2)], ValueKind::UVec2));
    assert!(!check_vector(&vec![Scalar::Unsigned(1), Scalar::Signed(2)], ValueKind::UVec2));
    let lanes = singles(&[4.0, 5.0]);
    assert_eq!(copy_lanes(&lanes), lanes);
}

#[test]
fn values_are_named_for_diagnostics() {
    assert_eq!(ScriptValue::Nil.name(), "nil");
    assert_eq!(ScriptValue::Boolean(true).name(), "boolean");
    assert_eq!(ScriptValue::Integer(0).name(), "integer");
    assert_eq!(ScriptValue::Number(Number::Double(0)).name(), "number");
    assert_eq!(ScriptValue::Text(String::new()).name(), "string");
    assert_eq!(ScriptValue::Table.name(), "table");
    assert_eq!(ScriptValue::Function.name(), "function");
    assert_eq!(ScriptValue::Thread.name(), "thread");
    assert_eq!(ScriptValue::LightUserData.name(), "userdata");
    assert_eq!(ScriptValue::Error.name(), "error");
    assert_eq!(FieldValue::Vector(Vec::new()).name(), "vector");
    assert_eq!(FieldValue::Text(String::new()).name(), "string");
    assert_eq!(Scalar::Single(0).name(), "f32");
    assert_eq!(Scalar::Double(0).name(), "f64");
    assert_eq!(Scalar::Signed(0).name(), "signed integer");
    assert_eq!(Scalar::Unsigned(0).name(), "unsigned integer");
}

#[test]
fn single_width_float_survives_the_numeric_kind() {
    let samples = [0.1f32, -2.25, 1.0e-40, f32::MAX, f32::MIN_POSITIVE, f32::INFINITY, -0.0, 16777217.0];
    for sample in samples {
        let field = resolved(ValueKind::F32, None);
        let surfaced = match read(&field, &FieldValue::Scalar(Scalar::Single(sample.to_bits()))) {
            Ok(ScriptValue::Number(Number::Single(bits))) => f64::from(f32::from_bits(bits)),
            other => panic!("{:?}", other),
        };
        let stored = match coerce(ValueKind::F32, &ScriptValue::Number(Number::Double(surfaced.to_bits()))) {
            Ok(Native::Narrow(bits)) => f64::from_bits(bits) as f32,
            other => panic!("{:?}", other),
        };
        assert_eq!(stored.to_bits(), sample.to_bits());
    }
}

#[test]
fn pick_takes_the_addressed_place() {
    let lanes = singles(&[1.5, -2.25, 3.0]);
    assert_eq!(
        pick(&resolved(ValueKind::Vec3, Some(1)), &FieldValue::Vector(lanes.clone())),
        Some(FieldValue::Scalar(Scalar::Single((-2.25f32).to_bits())))
    );
    assert_eq!(
        pick(&resolved(ValueKind::Vec3, None), &FieldValue::Vector(lanes.clone())),
        Some(FieldValue::Vector(lanes.clone()))
    );
    assert_eq!(
        pick(&resolved(ValueKind::Text, None), &FieldValue::Text("t".to_string())),
        Some(FieldValue::Text("t".to_string()))
    );
    assert_eq!(
        pick(&resolved(ValueKind::I16, None), &FieldValue::Scalar(Scalar::Signed(-3))),
        Some(FieldValue::Scalar(Scalar::Signed(-3)))
    );
    assert_eq!(pick(&resolved(ValueKind::Vec2, Some(1)), &FieldValue::Vector(lanes.clone())), None);
    assert_eq!(pick(&resolved(ValueKind::F32, Some(0)), &FieldValue::Scalar(Scalar::Single(0))), None);
    assert_eq!(pick(&resolved(ValueKind::F32, None), &FieldValue::Scalar(Scalar::Double(0))), None);
    assert_eq!(pick(&resolved(ValueKind::Composite, None), &FieldValue::Text(String::new())), None);
}

#[test]
fn place_replaces_one_component_or_the_whole_value() {
    let lanes = singles(&[1.5, -2.25, 3.0]);
    assert_eq!(
        place(
            &resolved(ValueKind::Vec3, Some(2)),
            &FieldValue::Vector(lanes.clone()),
            FieldValue::Scalar(Scalar::Single(9.0f32.to_bits()))
        ),
        Some(FieldValue::Vector(singles(&[1.5, -2.25, 9.0])))
    );
    assert_eq!(
        place(
            &resolved(ValueKind::Vec3, None),
            &FieldValue::Vector(lanes.clone()),
            FieldValue::Vector(singles(&[4.0, 5.0, 6.0]))
        ),
        Some(FieldValue::Vector(singles(&[4.0, 5.0, 6.0])))
    );
    assert_eq!(
        place(
            &resolved(ValueKind::U8, None),
            &FieldValue::Scalar(Scalar::Unsigned(1)),
            FieldValue::Scalar(Scalar::Unsigned(255))
        ),
        Some(FieldValue::Scalar(Scalar::Unsigned(255)))
    );
    assert_eq!(
        place(
            &resolved(ValueKind::U8, None),
            &FieldValue::Scalar(Scalar::Unsigned(1)),
            FieldValue::Scalar(Scalar::Unsigned(256))
        ),
        None
    );
    assert_eq!(
        place(
            &resolved(ValueKind::Vec3, Some(0)),
            &FieldValue::Vector(lanes.clone()),
            FieldValue::Scalar(Scalar::Double(0))
        ),
        None
    );
    assert_eq!(
        place(
            &resolved(ValueKind::Vec3, Some(0)),
            &FieldValue::Vector(singles(&[1.0, 2.0])),
            FieldValue::Scalar(Scalar::Single(0))
        ),
        None
    );
    assert_eq!(
        place(
            &resolved(ValueKind::Vec3, Some(0)),
            &FieldValue::Vector(lanes.clone()),
            FieldValue::Vector(lanes.clone())
        ),
        None
    );
    assert_eq!(
        place(
            &resolved(ValueKind::Composite, None),
            &FieldValue::Text(String::new()),
            FieldValue::Text(String::new())
        ),
        None
    );
}

#[test]
fn storing_what_was_read_leaves_the_holder_unchanged() {
    let lanes = vec![Scalar::Signed(7), Scalar::Signed(-8), Scalar::Signed(9)];
    for lane in 0..3u8 {
        let target = resolved(ValueKind::IVec3, Some(lane));
        let held = FieldValue::Vector(lanes.clone());
        let value = read(&target, &held).unwrap();
        let stored = match coerce(target.kind(), &value) {
            Ok(Native::Value(stored)) => stored,
            other => panic!("{:?}", other),
        };
        assert_eq!(Some(&stored), pick(&target, &held).as_ref());
        assert_eq!(place(&target, &held, stored), Some(FieldValue::Vector(lanes.clone())));
    }
    let target = resolved(ValueKind::U64, None);
    let held = FieldValue::Scalar(Scalar::Unsigned(u64::MAX));
    let stored = match coerce(target.kind(), &read(&target, &held).unwrap()) {
        Ok(Native::Value(stored)) => stored,
        other => panic!("{:?}", other),
    };
    assert_eq!(place(&target, &held, stored), Some(FieldValue::Scalar(Scalar::Unsigned(u64::MAX))));
}
