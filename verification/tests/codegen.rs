use covalent::codegen::runtime::{
    mk_basic_obj, mk_float, mk_int, mk_val, new_obj, use_float, use_int, Obj, Scalar, NULL,
    TAG_FLOAT, TAG_INT,
};
use covalent::codegen::tools::{
    any_type_to_basic, boxed_constant, boxed_type_in, build_boxed, conv_rule, get_type_name,
    has_name, helper_label, helper_name, helper_takes, helper_yields, layout_in, loaded_tag,
    payload_from, reading, tag_bits, tag_for, tag_from, unboxing, yielded, AnyShape, BasicShape,
    BasicType, BasicValue, Boxed, Conversion, CovaLLVMObj, CovaObj, Direction, FloatBits, Kind,
    Loaded, Site, Source,
};
use covalent::source::ErrKind;
use inkwell::context::Context;
use inkwell::values::BasicValueEnum;

fn source<'ctx>(context: &'ctx Context) -> Source<'ctx> {
    Source {
        context,
        module: context.create_module("unit"),
        builder: context.create_builder(),
        line: 3,
        column: 7,
        diagnostics: vec![],
    }
}

/// A source whose builder stands in the entry block of a fresh function.
fn positioned<'ctx>(context: &'ctx Context) -> Source<'ctx> {
    let src = source(context);
    let fn_type = context.void_type().fn_type(&[], false);
    let function = src.module.add_function("entry", fn_type, None);
    let block = context.append_basic_block(function, "start");
    src.builder.position_at_end(block);
    src
}

fn declare_helpers<'ctx>(src: &mut Source<'ctx>) {
    let obj = src.obj_type();
    let i32_type = src.context.i32_type();
    let f32_type = src.context.f32_type();
    let bytes = src.context.i8_type().array_type(4);
    src.module.add_function("use_int", obj.fn_type(&[i32_type.into()], false), None);
    src.module.add_function("use_float", obj.fn_type(&[f32_type.into()], false), None);
    src.module.add_function("mk_int", i32_type.fn_type(&[bytes.into()], false), None);
    src.module.add_function("mk_float", f32_type.fn_type(&[bytes.into()], false), None);
}

#[test]
fn mk_int_reads_little_endian() {
    assert_eq!(mk_int(&[0x78, 0x56, 0x34, 0x12]), 0x12345678);
    assert_eq!(mk_int(&[0xff, 0xff, 0xff, 0xff]), -1);
    assert_eq!(mk_int(&[0, 0, 0, 0x80]), i32::MIN);
    assert_eq!(mk_int(&[1, 0, 0, 0]), 1);
}

#[test]
fn mk_float_reads_the_bit_pattern() {
    let bits = 1.5f32.to_bits();
    assert_eq!(mk_float(&bits.to_le_bytes()), bits);
    assert_eq!(f32::from_bits(mk_float(&[0, 0, 0xc0, 0x3f])), 1.5);
}

#[test]
fn new_obj_keeps_its_fields() {
    assert_eq!(new_obj([1, 2, 3, 4], 1, 0), Obj { bytes: [1, 2, 3, 4], tag: 1, text: 0 });
}

#[test]
fn use_int_keeps_the_low_byte_alone() {
    assert_eq!(use_int(7), Obj { bytes: [7, 0, 0, 0], tag: TAG_INT, text: NULL });
    assert_eq!(use_int(0x1234), Obj { bytes: [0x34, 0, 0, 0], tag: TAG_INT, text: NULL });
    assert_eq!(use_int(-1), Obj { bytes: [0xff, 0, 0, 0], tag: TAG_INT, text: NULL });
}

#[test]
fn use_float_keeps_the_low_byte_alone() {
    assert_eq!(use_float(0x3fc0_0012), Obj { bytes: [0x12, 0, 0, 0], tag: TAG_FLOAT, text: NULL });
}

#[test]
fn small_integers_round_trip() {
    for n in [0, 1, 42, 255] {
        assert_eq!(mk_val(&use_int(n)), Some(Scalar::Int(n)));
    }
}

#[test]
fn larger_integers_do_not_round_trip() {
    assert_eq!(mk_val(&use_int(256)), Some(Scalar::Int(0)));
    assert_eq!(mk_val(&use_int(-1)), Some(Scalar::Int(255)));
}

#[test]
fn floats_round_trip_only_with_a_small_pattern() {
    assert_eq!(mk_val(&use_float(200)), Some(Scalar::Float(200)));
    let bits = 1.5f32.to_bits();
    assert_eq!(mk_val(&use_float(bits)), Some(Scalar::Float(bits & 0xff)));
}

#[test]
fn mk_basic_obj_boxes_by_kind() {
    assert_eq!(mk_basic_obj(Scalar::Int(9)), use_int(9));
    assert_eq!(mk_basic_obj(Scalar::Float(9)), use_float(9));
}

#[test]
fn mk_val_refuses_reserved_tags() {
    assert_eq!(mk_val(&Obj { bytes: [1, 0, 0, 0], tag: 2, text: NULL }), None);
    assert_eq!(mk_val(&Obj { bytes: [1, 0, 0, 0], tag: -1, text: NULL }), None);
}

#[test]
fn conv_rule_follows_the_table() {
    assert_eq!(conv_rule(true, Kind::Struct, Kind::Struct), Ok(Conversion::Keep));
    assert_eq!(conv_rule(true, Kind::Int, Kind::Int), Ok(Conversion::Keep));
    assert_eq!(conv_rule(false, Kind::Float, Kind::Int), Ok(Conversion::FloatToInt));
    assert_eq!(conv_rule(false, Kind::Int, Kind::Float), Ok(Conversion::IntToFloat));
    assert_eq!(conv_rule(false, Kind::Int, Kind::Int), Err(ErrKind::CannotConvertRight));
    assert_eq!(conv_rule(false, Kind::Pointer, Kind::Int), Err(ErrKind::CannotConvertRight));
    assert_eq!(conv_rule(false, Kind::Float, Kind::Array), Err(ErrKind::CannotConvertRight));
}

#[test]
fn helpers_are_named_by_kind_and_direction() {
    assert_eq!(helper_name(Kind::Int, Direction::Boxing), Some("use_int"));
    assert_eq!(helper_name(Kind::Float, Direction::Boxing), Some("use_float"));
    assert_eq!(helper_name(Kind::Int, Direction::Unboxing), Some("mk_int"));
    assert_eq!(helper_name(Kind::Float, Direction::Unboxing), Some("mk_float"));
    assert_eq!(helper_name(Kind::Array, Direction::Boxing), None);
    assert_eq!(helper_name(Kind::Struct, Direction::Unboxing), None);
    assert_eq!(helper_label(Kind::Int, Direction::Boxing), Some("iuse"));
    assert_eq!(helper_label(Kind::Float, Direction::Boxing), Some("fuse"));
    assert_eq!(helper_label(Kind::Int, Direction::Unboxing), Some("int"));
    assert_eq!(helper_label(Kind::Float, Direction::Unboxing), Some("float"));
    assert_eq!(helper_label(Kind::Pointer, Direction::Unboxing), None);
}

#[test]
fn tags_are_handed_over_in_twos_complement() {
    assert_eq!(tag_bits(0), 0);
    assert_eq!(tag_bits(1), 1);
    assert_eq!(tag_bits(127), 127);
    assert_eq!(tag_bits(-1), u64::MAX);
    assert_eq!(tag_bits(-128), u64::MAX - 127);
}

#[test]
fn loaded_tag_defaults_to_integer() {
    assert_eq!(loaded_tag(None), Some(0));
    assert_eq!(loaded_tag(Some(1)), Some(1));
    assert_eq!(loaded_tag(Some(1000)), None);
}

#[test]
fn reading_by_tag() {
    assert_eq!(reading(0), Some(Kind::Int));
    assert_eq!(reading(1), Some(Kind::Float));
    assert_eq!(reading(2), None);
}

#[test]
fn tag_for_kind_names() {
    assert_eq!(tag_for("int"), Some(0));
    assert_eq!(tag_for("float"), Some(1));
    assert_eq!(tag_for("str"), None);
}

#[test]
fn integers_give_their_bytes_least_first() {
    assert_eq!(0x12345678i32.to_bytes(), [0x78, 0x56, 0x34, 0x12]);
    assert_eq!((-2i32).to_bytes(), [0xfe, 0xff, 0xff, 0xff]);
    assert_eq!(0x12345678i32.get_type(), "int");
    assert_eq!(mk_int(&(-2i32).to_bytes()), -2);
}

#[test]
fn constants_are_boxed_least_byte_first() {
    assert_eq!(
        boxed_constant(&0x0102_0304i32),
        Some(Obj { bytes: [4, 3, 2, 1], tag: TAG_INT, text: NULL })
    );
    let bits = 1.5f32.to_bits();
    assert_eq!(
        boxed_constant(&FloatBits(bits)),
        Some(Obj { bytes: bits.to_le_bytes(), tag: TAG_FLOAT, text: NULL })
    );
    for n in [0, 1, -1, 256, i32::MIN, i32::MAX] {
        assert_eq!(mk_val(&boxed_constant(&n).unwrap()), Some(Scalar::Int(n)));
    }
}

#[test]
fn floats_give_their_bytes_least_first() {
    let x = FloatBits(1.5f32.to_bits());
    assert_eq!(x.to_bytes(), 1.5f32.to_le_bytes());
    assert_eq!(x.get_type(), "float");
}

#[test]
fn types_are_named_by_shape() {
    assert_eq!(get_type_name(BasicShape::Int(32)), "_i32");
    assert_eq!(get_type_name(BasicShape::Int(8)), "_i8");
    assert_eq!(get_type_name(BasicShape::Float), "_float");
    assert_eq!(
        get_type_name(BasicShape::Array(Box::new(BasicShape::Int(8)))),
        "_arr__i8"
    );
    assert_eq!(
        get_type_name(BasicShape::Pointer(Box::new(AnyShape::Array(Box::new(BasicShape::Float))))),
        "_ptr__arr__float"
    );
    assert_eq!(
        get_type_name(BasicShape::Pointer(Box::new(AnyShape::Pointer(Box::new(AnyShape::Int(
            64
        )))))),
        "_ptr__ptr__i64"
    );
}

#[test]
fn any_type_to_basic_keeps_the_shape() {
    assert_eq!(any_type_to_basic(AnyShape::Int(16)), BasicShape::Int(16));
    assert_eq!(any_type_to_basic(AnyShape::Float), BasicShape::Float);
    assert_eq!(
        any_type_to_basic(AnyShape::Pointer(Box::new(AnyShape::Void))),
        BasicShape::Pointer(Box::new(AnyShape::Void))
    );
    assert_eq!(
        any_type_to_basic(AnyShape::Array(Box::new(BasicShape::Int(1)))),
        BasicShape::Array(Box::new(BasicShape::Int(1)))
    );
}

#[test]
fn obj_type_has_the_layout() {
    let context = Context::create();
    let mut src = source(&context);
    let ty = src.obj_type();
    assert_eq!(ty.count_fields(), 3);
    assert!(!ty.is_packed());
    let payload = ty.get_field_type_at_index(0).unwrap().into_array_type();
    assert_eq!(payload.len(), 4);
    assert_eq!(payload.get_element_type().into_int_type().get_bit_width(), 8);
    assert_eq!(ty.get_field_type_at_index(1).unwrap().into_int_type().get_bit_width(), 8);
    assert!(ty.get_field_type_at_index(2).unwrap().is_pointer_type());
}

#[test]
fn conv_into_keeps_a_value_of_the_type() {
    let context = Context::create();
    let mut src = source(&context);
    let five = context.i32_type().const_int(5, false);
    let r = src.conv_into(BasicValue::Int(five), BasicType::Int(context.i32_type()));
    assert_eq!(r, Some(BasicValue::Int(five)));
    assert!(src.diagnostics.is_empty());
}

#[test]
fn conv_into_turns_integers_into_floats_and_back() {
    let context = Context::create();
    let mut src = positioned(&context);
    let five = context.i32_type().const_int(5, false);
    match src.conv_into(BasicValue::Int(five), BasicType::Float(context.f32_type())) {
        Some(BasicValue::Float(f)) => {
            assert_eq!(f.get_type(), context.f32_type());
            assert_eq!(f.get_constant().map(|c| c.0), Some(5.0));
        }
        other => panic!("not a float: {:?}", other),
    }
    let half = context.f32_type().const_float(2.5);
    match src.conv_into(BasicValue::Float(half), BasicType::Int(context.i32_type())) {
        Some(BasicValue::Int(i)) => {
            assert_eq!(i.get_type(), context.i32_type());
            assert_eq!(i.get_sign_extended_constant(), Some(2));
        }
        other => panic!("not an integer: {:?}", other),
    }
    assert!(src.diagnostics.is_empty());
}

#[test]
fn conv_into_needs_a_position() {
    let context = Context::create();
    let mut src = source(&context);
    let five = context.i32_type().const_int(5, false);
    let r = src.conv_into(BasicValue::Int(five), BasicType::Float(context.f32_type()));
    assert_eq!(r, None);
    assert!(src.diagnostics.is_empty());
}

#[test]
fn classification_keeps_the_value() {
    let context = Context::create();
    let mut src = positioned(&context);
    let five = context.i32_type().const_int(5, false);
    let raw: BasicValueEnum = five.into();
    let r = src.conv_into(BasicValue::Int(five), BasicType::Int(context.i32_type()));
    match r {
        Some(BasicValue::Int(i)) => assert_eq!(BasicValueEnum::IntValue(i), raw),
        other => panic!("not an integer: {:?}", other),
    }
}

#[test]
fn structs_and_vectors_have_no_name() {
    assert!(has_name(&BasicShape::Int(1)));
    assert!(has_name(&BasicShape::Array(Box::new(BasicShape::Float))));
    assert!(!has_name(&BasicShape::Struct));
    assert!(!has_name(&BasicShape::Vector));
    assert!(!has_name(&BasicShape::Array(Box::new(BasicShape::Struct))));
    assert!(!has_name(&BasicShape::Pointer(Box::new(AnyShape::Void))));
    assert!(!has_name(&BasicShape::Pointer(Box::new(AnyShape::Function))));
    assert!(has_name(&BasicShape::Pointer(Box::new(AnyShape::Pointer(Box::new(AnyShape::Float))))));
}

#[test]
fn values_are_told_apart_by_kind() {
    let context = Context::create();
    let five = context.i32_type().const_int(5, false);
    let half = context.f32_type().const_float(0.5);
    assert_eq!(BasicValue::Int(five).get_kind(), Kind::Int);
    assert_eq!(BasicValue::Float(half).get_kind(), Kind::Float);
    assert_eq!(BasicValue::Int(five).as_int(), Some(five));
    assert_eq!(BasicValue::Int(five).as_float(), None);
    assert_eq!(BasicValue::Float(half).as_float(), Some(half));
    assert_eq!(BasicValue::Float(half).as_struct(), None);
    assert_eq!(BasicValue::Float(half).as_array(), None);
    assert_eq!(BasicType::Int(context.i32_type()).get_kind(), Kind::Int);
    assert_eq!(BasicType::Float(context.f32_type()).get_kind(), Kind::Float);
}

#[test]
fn conv_into_reports_what_does_not_convert() {
    let context = Context::create();
    let mut src = positioned(&context);
    let boxed = src.mk_obj(1i32).unwrap().as_struct().unwrap();
    let r = src.conv_into(BasicValue::Struct(boxed), BasicType::Int(context.i32_type()));
    assert_eq!(r, None);
    assert_eq!(src.diagnostics.len(), 1);
    assert_eq!(src.diagnostics[0].kind, ErrKind::CannotConvertRight);
    assert_eq!(src.diagnostics[0].line, 3);
    assert_eq!(src.diagnostics[0].column, 7);
    assert_eq!(
        src.diagnostics[0].msg,
        "cannot convert right to left (usually in binary expressions)"
    );
    let wide = context.i64_type().const_int(1, false);
    let r = src.conv_into(BasicValue::Int(wide), BasicType::Int(context.i32_type()));
    assert_eq!(r, None);
    assert_eq!(src.diagnostics.len(), 2);
}

#[test]
fn tag_from_what_is_known() {
    assert_eq!(tag_from(Some(1), None), Some(1));
    assert_eq!(tag_from(Some(-7), Some(Loaded::Int(Some(3)))), Some(-7));
    assert_eq!(tag_from(None, Some(Loaded::Int(Some(1)))), Some(1));
    assert_eq!(tag_from(None, Some(Loaded::Int(Some(300)))), None);
    assert_eq!(tag_from(None, Some(Loaded::Int(None))), Some(0));
    assert_eq!(tag_from(None, Some(Loaded::Other)), None);
    assert_eq!(tag_from(None, None), None);
}

#[test]
fn payload_from_what_is_known() {
    let context = Context::create();
    let byte = context.i8_type();
    let ones = byte.const_array(&[byte.const_int(1, false); 4]);
    let twos = byte.const_array(&[byte.const_int(2, false); 4]);
    assert_eq!(payload_from(Some(ones), None), Some(ones));
    assert_eq!(payload_from(Some(ones), Some(BasicValue::Array(twos))), Some(ones));
    assert_eq!(payload_from(None, Some(BasicValue::Array(twos))), Some(twos));
    assert_eq!(payload_from(None, Some(BasicValue::Int(byte.const_int(1, false)))), None);
    assert_eq!(payload_from(None, None), None);
}

#[test]
fn what_came_back_must_be_of_the_kind() {
    let context = Context::create();
    let five = BasicValue::Int(context.i32_type().const_int(5, false));
    let half = BasicValue::Float(context.f32_type().const_float(0.5));
    assert_eq!(yielded(Kind::Int, Direction::Unboxing, Some(five)), Some(five));
    assert_eq!(yielded(Kind::Int, Direction::Unboxing, Some(half)), None);
    assert_eq!(yielded(Kind::Float, Direction::Unboxing, Some(half)), Some(half));
    assert_eq!(yielded(Kind::Float, Direction::Unboxing, None), None);
    assert_eq!(yielded(Kind::Int, Direction::Boxing, Some(five)), None);
    let mut src = source(&context);
    let boxed = BasicValue::Struct(src.mk_obj(1i32).unwrap().as_struct().unwrap());
    assert_eq!(yielded(Kind::Int, Direction::Boxing, Some(boxed)), Some(boxed));
    assert_eq!(yielded(Kind::Float, Direction::Boxing, Some(boxed)), Some(boxed));
}

#[test]
fn unboxing_goes_by_the_tag() {
    let context = Context::create();
    let byte = context.i8_type();
    let ones = byte.const_array(&[byte.const_int(1, false); 4]);
    assert_eq!(unboxing(Some(0), Some(ones)), Some((Kind::Int, ones)));
    assert_eq!(unboxing(Some(1), Some(ones)), Some((Kind::Float, ones)));
    assert_eq!(unboxing(Some(2), Some(ones)), None);
    assert_eq!(unboxing(Some(-1), Some(ones)), None);
    assert_eq!(unboxing(None, Some(ones)), None);
    assert_eq!(unboxing(Some(0), None), None);
}

#[test]
fn the_layout_is_four_bytes_a_tag_and_a_pointer() {
    let context = Context::create();
    let layout = layout_in(&context);
    assert_eq!(layout.first, context.i8_type().array_type(4));
    assert_eq!(layout.second, context.i8_type());
    assert_eq!(
        layout.third,
        context.i8_type().ptr_type(inkwell::AddressSpace::default())
    );
    assert!(!layout.packed);
    let ty = boxed_type_in(&context);
    assert_eq!(
        ty.print_to_string().to_string(),
        "{ [4 x i8], i8, i8* }"
    );
    let mut src = source(&context);
    assert_eq!(src.obj_type(), ty);
}

#[test]
fn helpers_have_the_types_of_the_runtime() {
    let context = Context::create();
    let word = BasicType::Int(context.i32_type());
    let single = BasicType::Float(context.f32_type());
    let bytes = BasicType::Array(context.i8_type().array_type(4));
    let boxed = BasicType::Struct(boxed_type_in(&context));
    assert_eq!(helper_takes(&context, Kind::Int, Direction::Boxing), Some(word));
    assert_eq!(helper_takes(&context, Kind::Float, Direction::Boxing), Some(single));
    assert_eq!(helper_takes(&context, Kind::Int, Direction::Unboxing), Some(bytes));
    assert_eq!(helper_takes(&context, Kind::Float, Direction::Unboxing), Some(bytes));
    assert_eq!(helper_takes(&context, Kind::Array, Direction::Boxing), None);
    assert_eq!(helper_yields(&context, Kind::Int, Direction::Boxing), Some(boxed));
    assert_eq!(helper_yields(&context, Kind::Float, Direction::Boxing), Some(boxed));
    assert_eq!(helper_yields(&context, Kind::Int, Direction::Unboxing), Some(word));
    assert_eq!(helper_yields(&context, Kind::Float, Direction::Unboxing), Some(single));
    assert_eq!(helper_yields(&context, Kind::Struct, Direction::Unboxing), None);
}

#[test]
fn mk_obj_boxes_an_integer_constant() {
    let context = Context::create();
    let mut src = source(&context);
    let boxed = src.mk_obj(0x0102_0304i32).unwrap();
    let byte = context.i8_type();
    let payload = byte.const_array(&[
        byte.const_int(4, false),
        byte.const_int(3, false),
        byte.const_int(2, false),
        byte.const_int(1, false),
    ]);
    let null = byte.ptr_type(inkwell::AddressSpace::default()).const_null();
    let value = src.obj_type().const_named_struct(&[
        payload.into(),
        byte.const_int(0, false).into(),
        null.into(),
    ]);
    assert_eq!(boxed.context, &context);
    assert_eq!(boxed.site, Site::Const { value, bytes: payload, tag: 0 });
    assert_eq!(boxed.as_struct(), Some(value));
    assert_eq!(boxed.get_ty(&src), Some(0));
    assert_eq!(boxed.get_value(&src), Some(payload));
    assert_eq!(value.get_field_at_index(1).unwrap().into_int_value(), byte.const_int(0, false));
}

#[test]
fn mk_obj_boxes_a_float_constant() {
    let context = Context::create();
    let mut src = source(&context);
    let boxed = src.mk_obj(FloatBits(1.5f32.to_bits())).unwrap();
    assert_eq!(boxed.get_ty(&src), Some(1));
    let bytes = 1.5f32.to_le_bytes();
    let byte = context.i8_type();
    let expected = byte.const_array(&[
        byte.const_int(bytes[0] as u64, false),
        byte.const_int(bytes[1] as u64, false),
        byte.const_int(bytes[2] as u64, false),
        byte.const_int(bytes[3] as u64, false),
    ]);
    assert_eq!(boxed.get_value(&src), Some(expected));
    let value = boxed.as_struct().unwrap();
    assert_eq!(
        value.get_field_at_index(1).unwrap().into_int_value().get_sign_extended_constant(),
        Some(1)
    );
    assert_eq!(value.get_field_at_index(0).unwrap().into_array_value(), expected);
}

#[test]
fn constants_are_built_once() {
    let context = Context::create();
    let mut src = source(&context);
    assert_eq!(src.mk_obj(5i32), src.mk_obj(5i32));
    assert_ne!(src.mk_obj(5i32), src.mk_obj(6i32));
    assert_ne!(src.mk_obj(5i32), src.mk_obj(FloatBits(5)));
    assert!(src.diagnostics.is_empty());
    assert_eq!((src.line, src.column), (3, 7));
}

#[test]
fn set_type_and_set_bytes_replace_one_field() {
    let context = Context::create();
    let mut src = source(&context);
    let mut boxed = src.mk_obj(5i32).unwrap();
    let mut retagged = boxed.set_type(1).unwrap();
    assert_eq!(retagged.get_ty(&src), Some(1));
    assert_eq!(retagged.get_value(&src), boxed.get_value(&src));
    assert_eq!(Some(retagged), src.mk_obj(FloatBits(5)));
    let payload = src.mk_obj(9i32).unwrap().get_value(&src).unwrap();
    let refilled = retagged.set_bytes(payload).unwrap();
    assert_eq!(refilled.get_ty(&src), Some(1));
    assert_eq!(refilled.get_value(&src), Some(payload));
    assert_eq!(Some(refilled), src.mk_obj(FloatBits(9)));
    assert_eq!(boxed.get_ty(&src), Some(0));
    let mut negative = boxed.set_type(-2).unwrap();
    assert_eq!(negative.get_ty(&src), Some(-2));
    let value = negative.as_struct().unwrap();
    assert_eq!(
        value.get_field_at_index(1).unwrap().into_int_value().get_sign_extended_constant(),
        Some(-2)
    );
    assert_eq!(negative.set_type(0), Some(boxed));
}

#[test]
fn a_payload_must_be_a_constant_of_four_bytes() {
    let context = Context::create();
    let mut src = positioned(&context);
    let byte = context.i8_type();
    let three = byte.const_array(&[byte.const_int(1, false); 3]);
    let words = context.i32_type().const_array(&[context.i32_type().const_int(1, false); 4]);
    assert_eq!(build_boxed(&context, three, 0), None);
    assert_eq!(build_boxed(&context, words, 0), None);
    assert_eq!(Boxed::constant(&context, three, 0), None);
    let mut boxed = src.mk_obj(5i32).unwrap();
    assert_eq!(boxed.set_bytes(three), None);
    let slot = src.builder.build_alloca(byte.array_type(4), "bytes").unwrap();
    let loaded = src.builder.build_load(slot, "loaded").unwrap().into_array_value();
    assert_eq!(boxed.set_bytes(loaded), None);
    let four = byte.const_array(&[byte.const_int(1, false); 4]);
    assert!(build_boxed(&context, four, 3).is_some());
}

#[test]
fn only_a_constant_gets_a_field_replaced() {
    let context = Context::create();
    let mut src = positioned(&context);
    declare_helpers(&mut src);
    let five = context.i32_type().const_int(5, false);
    let mut emitted = src.use_int(five).unwrap();
    assert_eq!(emitted.set_type(1), None);
    let payload = context.i8_type().array_type(4).const_zero();
    assert_eq!(emitted.set_bytes(payload), None);
}

#[test]
fn defaults_are_zero_and_null() {
    let context = Context::create();
    let mut src = source(&context);
    let boxed = src.mk_obj(5i32).unwrap();
    assert_eq!(boxed.zero(), BasicValue::Int(context.i8_type().const_zero()));
    assert_eq!(
        boxed.zero_arr(),
        BasicValue::Array(context.i8_type().array_type(4).const_zero())
    );
    match boxed.null() {
        BasicValue::Pointer(p) => {
            assert!(p.is_null());
            assert_eq!(p.get_type(), context.i8_type().ptr_type(inkwell::AddressSpace::default()));
        }
        other => panic!("not a pointer: {:?}", other),
    }
}

#[test]
fn helpers_must_be_declared() {
    let context = Context::create();
    let mut src = positioned(&context);
    let five = context.i32_type().const_int(5, false);
    assert_eq!(src.use_int(five), None);
    assert_eq!(src.use_float(context.f32_type().const_float(1.0)), None);
    let payload = context.i8_type().array_type(4).const_zero();
    assert_eq!(src.mk_int(payload), None);
    assert_eq!(src.mk_float(payload), None);
}

#[test]
fn helpers_must_have_the_types_of_the_runtime() {
    let context = Context::create();
    let mut src = positioned(&context);
    let obj = src.obj_type();
    let word = context.i32_type();
    let wide = context.i64_type();
    src.module.add_function("use_int", obj.fn_type(&[wide.into()], false), None);
    src.module.add_function("use_float", context.void_type().fn_type(&[context.f32_type().into()], false), None);
    src.module.add_function("mk_int", word.fn_type(&[], false), None);
    src.module.add_function(
        "mk_float",
        context.metadata_type().fn_type(&[context.i8_type().array_type(4).into()], false),
        None,
    );
    assert_eq!(src.use_int(word.const_int(5, false)), None);
    assert_eq!(src.use_int(wide.const_int(5, false)), None);
    assert_eq!(src.use_float(context.f32_type().const_float(1.0)), None);
    let payload = context.i8_type().array_type(4).const_zero();
    assert_eq!(src.mk_int(payload), None);
    assert_eq!(src.mk_float(payload), None);
    let text = src.module.print_to_string().to_string();
    assert!(!text.contains("call"), "{}", text);
}

#[test]
fn an_argument_must_have_the_type_that_the_helper_takes() {
    let context = Context::create();
    let mut src = positioned(&context);
    declare_helpers(&mut src);
    assert_eq!(src.use_int(context.i64_type().const_int(5, false)), None);
    assert_eq!(src.use_float(context.f64_type().const_float(1.0)), None);
    assert_eq!(src.mk_int(context.i8_type().array_type(3).const_zero()), None);
    assert_eq!(src.mk_float(context.i32_type().array_type(4).const_zero()), None);
    let text = src.module.print_to_string().to_string();
    assert!(!text.contains("call"), "{}", text);
}

#[test]
fn use_int_emits_a_call() {
    let context = Context::create();
    let mut src = positioned(&context);
    declare_helpers(&mut src);
    let five = context.i32_type().const_int(5, false);
    let boxed = src.use_int(five).unwrap();
    let value = match boxed.site {
        Site::Value(value) => value,
        other => panic!("not a computed value: {:?}", other),
    };
    assert!(value.as_instruction().is_some());
    assert_eq!(value.get_type(), src.obj_type());
    let text = src.module.print_to_string().to_string();
    assert!(text.contains("call { [4 x i8], i8, i8* } @use_int(i32 5)"), "{}", text);
}

#[test]
fn mk_basic_obj_boxes_scalars_only() {
    let context = Context::create();
    let mut src = positioned(&context);
    declare_helpers(&mut src);
    let five = context.i32_type().const_int(5, false);
    assert!(src.mk_basic_obj(BasicValue::Int(five)).is_some());
    assert!(src.mk_basic_obj(BasicValue::Float(context.f32_type().const_float(1.0))).is_some());
    let boxed = src.mk_obj(1i32).unwrap().as_struct().unwrap();
    assert_eq!(src.mk_basic_obj(BasicValue::Struct(boxed)), None);
    let text = src.module.print_to_string().to_string();
    assert!(text.contains("@use_float(float 1.0"), "{}", text);
}

#[test]
fn mk_val_reads_a_constant_by_its_tag() {
    let context = Context::create();
    let mut src = positioned(&context);
    declare_helpers(&mut src);
    let int_box = src.mk_obj(7i32).unwrap();
    match src.mk_val(int_box) {
        Some(BasicValue::Int(i)) => assert_eq!(i.get_type(), context.i32_type()),
        other => panic!("not an integer: {:?}", other),
    }
    let float_box = src.mk_obj(FloatBits(1.5f32.to_bits())).unwrap();
    match src.mk_val(float_box) {
        Some(BasicValue::Float(f)) => assert_eq!(f.get_type(), context.f32_type()),
        other => panic!("not a float: {:?}", other),
    }
    let text = src.module.print_to_string().to_string();
    assert!(text.contains("@mk_int([4 x i8] c\"\\07\\00\\00\\00\")"), "{}", text);
    assert!(text.contains("@mk_float("), "{}", text);
    assert!(!text.contains("alloca"), "{}", text);
}

#[test]
fn a_reserved_tag_is_not_unboxed() {
    let context = Context::create();
    let mut src = positioned(&context);
    declare_helpers(&mut src);
    let mut boxed = src.mk_obj(5i32).unwrap();
    for tag in [2i8, -1, 127] {
        assert_eq!(src.mk_val(boxed.set_type(tag).unwrap()), None);
    }
    assert!(src.diagnostics.is_empty());
    assert_eq!((src.line, src.column), (3, 7));
    let text = src.module.print_to_string().to_string();
    assert!(!text.contains("call"), "{}", text);
}

#[test]
fn mk_val_goes_through_a_stack_slot_for_a_computed_value() {
    let context = Context::create();
    let mut src = positioned(&context);
    declare_helpers(&mut src);
    let five = context.i32_type().const_int(5, false);
    let boxed = src.use_int(five).unwrap();
    assert_eq!(boxed.get_ty(&src), Some(0));
    let payload = boxed.get_value(&src).unwrap();
    assert!(!payload.is_const());
    match src.mk_val(boxed) {
        Some(BasicValue::Int(i)) => assert!(!i.is_const()),
        other => panic!("not an integer: {:?}", other),
    }
    let text = src.module.print_to_string().to_string();
    assert!(text.contains("alloca { [4 x i8], i8, i8* }"), "{}", text);
    assert!(text.contains("getelementptr"), "{}", text);
    assert!(text.contains("@mk_int("), "{}", text);
}

#[test]
fn a_value_in_memory_is_read_through_its_pointer() {
    let context = Context::create();
    let mut src = positioned(&context);
    let ty = src.obj_type();
    let slot = src.builder.build_alloca(ty, "variable").unwrap();
    let boxed = Boxed::slot(&context, slot);
    assert_eq!(boxed.as_struct(), None);
    assert_eq!(boxed.get_ty(&src), Some(0));
    let payload = boxed.get_value(&src).unwrap();
    assert!(!payload.is_const());
    let text = src.module.print_to_string().to_string();
    assert_eq!(text.matches("alloca").count(), 1, "{}", text);
    assert!(text.contains("getelementptr inbounds { [4 x i8], i8, i8* }"), "{}", text);
    assert!(text.contains("i32 0, i32 1"), "{}", text);
    assert!(text.contains("i32 0, i32 0"), "{}", text);
}

#[test]
fn what_is_no_boxed_value_is_not_read() {
    let context = Context::create();
    let mut src = positioned(&context);
    let other = context.struct_type(&[context.i32_type().into()], false);
    let slot = src.builder.build_alloca(other, "other").unwrap();
    let behind = Boxed::slot(&context, slot);
    assert_eq!(behind.get_ty(&src), None);
    assert_eq!(behind.get_value(&src), None);
    let value = Boxed::value(&context, other.const_zero());
    assert_eq!(value.get_ty(&src), None);
    assert_eq!(value.get_value(&src), None);
    assert_eq!(src.mk_val(value), None);
    let text = src.module.print_to_string().to_string();
    assert_eq!(text.matches("alloca").count(), 1, "{}", text);
    assert!(!text.contains("load"), "{}", text);
}

#[test]
fn a_value_with_blocks_among_its_operands_is_read_through_a_slot() {
    let context = Context::create();
    let mut src = positioned(&context);
    let obj = src.obj_type();
    let make = src.module.add_function("make", obj.fn_type(&[], false), None);
    let here = src.builder.get_insert_block().unwrap().get_parent().unwrap();
    let then = context.append_basic_block(here, "then");
    let catch = context.append_basic_block(here, "catch");
    let made = src
        .builder
        .build_invoke(make, &[], then, catch, "made")
        .unwrap()
        .try_as_basic_value()
        .left()
        .unwrap()
        .into_struct_value();
    src.builder.position_at_end(then);
    let boxed = Boxed::value(&context, made);
    assert_eq!(boxed.get_ty(&src), Some(0));
    assert!(boxed.get_value(&src).is_some());
}

#[test]
fn nothing_is_read_while_the_builder_stands_nowhere() {
    let context = Context::create();
    let src = source(&context);
    let value = Boxed::value(&context, boxed_type_in(&context).const_zero());
    assert_eq!(value.get_ty(&src), None);
    assert_eq!(value.get_value(&src), None);
}

#[test]
fn a_value_has_its_type_and_no_other() {
    let context = Context::create();
    let five = BasicValue::Int(context.i32_type().const_int(5, false));
    assert!(covalent::codegen::tools::has_type(&five, &BasicType::Int(context.i32_type())));
    assert!(!covalent::codegen::tools::has_type(&five, &BasicType::Int(context.i64_type())));
    assert!(!covalent::codegen::tools::has_type(&five, &BasicType::Float(context.f32_type())));
    let zeros = BasicValue::Array(context.i8_type().array_type(4).const_zero());
    assert!(covalent::codegen::tools::has_type(
        &zeros,
        &BasicType::Array(context.i8_type().array_type(4))
    ));
    assert!(!covalent::codegen::tools::has_type(
        &zeros,
        &BasicType::Array(context.i8_type().array_type(3))
    ));
}
