//! What the lowering takes from `inkwell` on trust.
//!
//! Every type of `inkwell` that the lowering holds is declared here, and
//! every call into it stands here in a function of its own whose body Verus
//! does not read. Types, constants and the opcode of an instruction are
//! never changed once they are made, and LLVM keeps one of each type and of
//! each constant, so what such a call hands back has a name by which the
//! contracts of the lowering speak of it. What the builder writes, and what
//! a value holds that can be rewritten in place, has none.

use vstd::prelude::*;
use inkwell::AddressSpace;
use inkwell::builder::Builder;
use inkwell::context::Context;
use inkwell::module::Module;
use inkwell::types::{
    ArrayType, BasicTypeEnum, FloatType, FunctionType, IntType, PointerType, StructType,
    VectorType,
};
use inkwell::values::{
    ArrayValue, BasicValueEnum, FloatValue, FunctionValue, IntValue, PointerValue, StructValue,
    VectorValue,
};
use crate::codegen::tools::{BasicType, BasicValue};

verus! {

/// `inkwell::context::Context`: the owner of every type and constant. Like
/// the other types of `inkwell` declared here it is carried through as it
/// is: nothing is known of what it holds.
#[verifier::external_type_specification]
#[verifier::external_body]
pub struct ExContext(Context);

/// `inkwell::module::Module`: the functions under construction.
#[verifier::external_type_specification]
#[verifier::external_body]
pub struct ExModule<'ctx>(Module<'ctx>);

/// `inkwell::builder::Builder`: the cursor that instructions are written at.
#[verifier::external_type_specification]
#[verifier::external_body]
pub struct ExBuilder<'ctx>(Builder<'ctx>);

/// `inkwell::types::BasicTypeEnum`: a type of any basic kind.
#[verifier::external_type_specification]
#[verifier::external_body]
pub struct ExBasicTypeEnum<'ctx>(BasicTypeEnum<'ctx>);

/// `inkwell::types::ArrayType`.
#[verifier::external_type_specification]
#[verifier::external_body]
pub struct ExArrayType<'ctx>(ArrayType<'ctx>);

/// `inkwell::types::FloatType`.
#[verifier::external_type_specification]
#[verifier::external_body]
pub struct ExFloatType<'ctx>(FloatType<'ctx>);

/// `inkwell::types::FunctionType`.
#[verifier::external_type_specification]
#[verifier::external_body]
pub struct ExFunctionType<'ctx>(FunctionType<'ctx>);

/// `inkwell::types::IntType`.
#[verifier::external_type_specification]
#[verifier::external_body]
pub struct ExIntType<'ctx>(IntType<'ctx>);

/// `inkwell::types::PointerType`.
#[verifier::external_type_specification]
#[verifier::external_body]
pub struct ExPointerType<'ctx>(PointerType<'ctx>);

/// `inkwell::types::StructType`.
#[verifier::external_type_specification]
#[verifier::external_body]
pub struct ExStructType<'ctx>(StructType<'ctx>);

/// `inkwell::types::VectorType`.
#[verifier::external_type_specification]
#[verifier::external_body]
pub struct ExVectorType<'ctx>(VectorType<'ctx>);

/// `inkwell::values::BasicValueEnum`: a value of any basic kind.
#[verifier::external_type_specification]
#[verifier::external_body]
pub struct ExBasicValueEnum<'ctx>(BasicValueEnum<'ctx>);

/// `inkwell::values::ArrayValue`.
#[verifier::external_type_specification]
#[verifier::external_body]
pub struct ExArrayValue<'ctx>(ArrayValue<'ctx>);

/// `inkwell::values::IntValue`.
#[verifier::external_type_specification]
#[verifier::external_body]
pub struct ExIntValue<'ctx>(IntValue<'ctx>);

/// `inkwell::values::FloatValue`.
#[verifier::external_type_specification]
#[verifier::external_body]
pub struct ExFloatValue<'ctx>(FloatValue<'ctx>);

/// `inkwell::values::FunctionValue`.
#[verifier::external_type_specification]
#[verifier::external_body]
pub struct ExFunctionValue<'ctx>(FunctionValue<'ctx>);

/// `inkwell::values::PointerValue`.
#[verifier::external_type_specification]
#[verifier::external_body]
pub struct ExPointerValue<'ctx>(PointerValue<'ctx>);

/// `inkwell::values::StructValue`.
#[verifier::external_type_specification]
#[verifier::external_body]
pub struct ExStructValue<'ctx>(StructValue<'ctx>);

/// `inkwell::values::VectorValue`.
#[verifier::external_type_specification]
#[verifier::external_body]
pub struct ExVectorValue<'ctx>(VectorValue<'ctx>);

/// Tells the variants of `inkwell`'s `BasicValueEnum` apart. Each variant
/// becomes the variant of the same kind and keeps its value.
#[verifier::external_body]
pub(crate) fn classify<'ctx>(v: BasicValueEnum<'ctx>) -> (r: BasicValue<'ctx>) {
    match v {
        BasicValueEnum::ArrayValue(a) => BasicValue::Array(a),
        BasicValueEnum::IntValue(i) => BasicValue::Int(i),
        BasicValueEnum::FloatValue(f) => BasicValue::Float(f),
        BasicValueEnum::PointerValue(p) => BasicValue::Pointer(p),
        BasicValueEnum::StructValue(s) => BasicValue::Struct(s),
        BasicValueEnum::VectorValue(x) => BasicValue::Vector(x),
    }
}

/// Puts a value back into `inkwell`'s `BasicValueEnum`, in the variant of
/// its kind.
#[verifier::external_body]
pub(crate) fn declassify<'ctx>(v: BasicValue<'ctx>) -> (r: BasicValueEnum<'ctx>) {
    match v {
        BasicValue::Array(a) => BasicValueEnum::ArrayValue(a),
        BasicValue::Int(i) => BasicValueEnum::IntValue(i),
        BasicValue::Float(f) => BasicValueEnum::FloatValue(f),
        BasicValue::Pointer(p) => BasicValueEnum::PointerValue(p),
        BasicValue::Struct(s) => BasicValueEnum::StructValue(s),
        BasicValue::Vector(x) => BasicValueEnum::VectorValue(x),
    }
}

/// Puts a type into `inkwell`'s `BasicTypeEnum`, in the variant of its
/// kind.
#[verifier::external_body]
pub(crate) fn declassify_type<'ctx>(t: BasicType<'ctx>) -> (r: BasicTypeEnum<'ctx>) {
    match t {
        BasicType::Array(a) => BasicTypeEnum::ArrayType(a),
        BasicType::Float(f) => BasicTypeEnum::FloatType(f),
        BasicType::Int(i) => BasicTypeEnum::IntType(i),
        BasicType::Pointer(p) => BasicTypeEnum::PointerType(p),
        BasicType::Struct(s) => BasicTypeEnum::StructType(s),
        BasicType::Vector(x) => BasicTypeEnum::VectorType(x),
    }
}

/// Whether the array `v` has exactly the type `t`, as LLVM tells types
/// apart. The type of a value never changes, so this and the five that
/// follow are a matter of the two alone.
pub uninterp spec fn array_typed(v: ArrayValue, t: ArrayType) -> bool;

/// Whether the integer `v` has exactly the type `t`.
pub uninterp spec fn int_typed(v: IntValue, t: IntType) -> bool;

/// Whether the float `v` has exactly the type `t`.
pub uninterp spec fn float_typed(v: FloatValue, t: FloatType) -> bool;

/// Whether the pointer `v` has exactly the type `t`.
pub uninterp spec fn pointer_typed(v: PointerValue, t: PointerType) -> bool;

/// Whether the struct `v` has exactly the type `t`.
pub uninterp spec fn struct_typed(v: StructValue, t: StructType) -> bool;

/// Whether the vector `v` has exactly the type `t`.
pub uninterp spec fn vector_typed(v: VectorValue, t: VectorType) -> bool;

/// Whether the value `from` has exactly the type `into`. A value never
/// has a type of another kind than its own.
pub open spec fn same_type<'ctx>(from: BasicValue<'ctx>, into: BasicType<'ctx>) -> bool {
    match (from, into) {
        (BasicValue::Array(v), BasicType::Array(t)) => array_typed(v, t),
        (BasicValue::Int(v), BasicType::Int(t)) => int_typed(v, t),
        (BasicValue::Float(v), BasicType::Float(t)) => float_typed(v, t),
        (BasicValue::Pointer(v), BasicType::Pointer(t)) => pointer_typed(v, t),
        (BasicValue::Struct(v), BasicType::Struct(t)) => struct_typed(v, t),
        (BasicValue::Vector(v), BasicType::Vector(t)) => vector_typed(v, t),
        _ => false,
    }
}

/// `ArrayValue::get_type` and `==` of `inkwell`'s array types.
#[verifier::external_body]
pub(crate) fn array_has_type<'ctx>(v: &ArrayValue<'ctx>, t: &ArrayType<'ctx>) -> (r: bool)
    ensures
        r == array_typed(*v, *t),
{
    v.get_type() == *t
}

/// `IntValue::get_type` and `==` of `inkwell`'s integer types.
#[verifier::external_body]
pub(crate) fn int_has_type<'ctx>(v: &IntValue<'ctx>, t: &IntType<'ctx>) -> (r: bool)
    ensures
        r == int_typed(*v, *t),
{
    v.get_type() == *t
}

/// `FloatValue::get_type` and `==` of `inkwell`'s float types.
#[verifier::external_body]
pub(crate) fn float_has_type<'ctx>(v: &FloatValue<'ctx>, t: &FloatType<'ctx>) -> (r: bool)
    ensures
        r == float_typed(*v, *t),
{
    v.get_type() == *t
}

/// `PointerValue::get_type` and `==` of `inkwell`'s pointer types.
#[verifier::external_body]
pub(crate) fn pointer_has_type<'ctx>(v: &PointerValue<'ctx>, t: &PointerType<'ctx>) -> (r: bool)
    ensures
        r == pointer_typed(*v, *t),
{
    v.get_type() == *t
}

/// `StructValue::get_type` and `==` of `inkwell`'s struct types.
#[verifier::external_body]
pub(crate) fn struct_has_type<'ctx>(v: &StructValue<'ctx>, t: &StructType<'ctx>) -> (r: bool)
    ensures
        r == struct_typed(*v, *t),
{
    v.get_type() == *t
}

/// `VectorValue::get_type` and `==` of `inkwell`'s vector types.
#[verifier::external_body]
pub(crate) fn vector_has_type<'ctx>(v: &VectorValue<'ctx>, t: &VectorType<'ctx>) -> (r: bool)
    ensures
        r == vector_typed(*v, *t),
{
    v.get_type() == *t
}

/// `Builder::build_float_to_signed_int` under the name `fcon`; none where
/// the builder refuses, as it does while it stands in no block.
#[verifier::external_body]
pub(crate) fn float_to_int<'ctx>(
    builder: &Builder<'ctx>,
    from: FloatValue<'ctx>,
    into: IntType<'ctx>,
) -> (r: Option<IntValue<'ctx>>) {
    builder.build_float_to_signed_int(from, into, "fcon").ok()
}

/// `Builder::build_signed_int_to_float` under the name `icon`; none where
/// the builder refuses, as it does while it stands in no block.
#[verifier::external_body]
pub(crate) fn int_to_float<'ctx>(
    builder: &Builder<'ctx>,
    from: IntValue<'ctx>,
    into: FloatType<'ctx>,
) -> (r: Option<FloatValue<'ctx>>) {
    builder.build_signed_int_to_float(from, into, "icon").ok()
}

/// The 8-bit integer type of `context`.
pub uninterp spec fn byte_type(context: &Context) -> IntType;

/// The 32-bit integer type of `context`.
pub uninterp spec fn word_type(context: &Context) -> IntType;

/// The 32-bit float type of `context`.
pub uninterp spec fn single_type(context: &Context) -> FloatType;

/// The type of arrays of `len` elements of the type `elem`.
pub uninterp spec fn array_type_of(elem: IntType, len: u32) -> ArrayType;

/// The type of pointers to the type `elem` in the default address space.
pub uninterp spec fn pointer_type_of(elem: IntType) -> PointerType;

/// The type of pointers to the struct type `ty` in the default address
/// space.
pub uninterp spec fn struct_pointer(ty: StructType) -> PointerType;

/// The fields of a struct type of three fields, in their order, and
/// whether it is packed.
pub struct Layout<'ctx> {
    pub context: &'ctx Context,
    pub first: ArrayType<'ctx>,
    pub second: IntType<'ctx>,
    pub third: PointerType<'ctx>,
    pub packed: bool,
}

/// The struct type of `layout.context` with the three fields of `layout`
/// in their order.
pub uninterp spec fn struct_type_of(layout: Layout) -> StructType;

/// `Context::i8_type`.
#[verifier::external_body]
pub(crate) fn i8_type<'ctx>(context: &'ctx Context) -> (r: IntType<'ctx>)
    ensures
        r == byte_type(context),
{
    context.i8_type()
}

/// `Context::i32_type`.
#[verifier::external_body]
pub(crate) fn i32_type<'ctx>(context: &'ctx Context) -> (r: IntType<'ctx>)
    ensures
        r == word_type(context),
{
    context.i32_type()
}

/// `Context::f32_type`.
#[verifier::external_body]
pub(crate) fn f32_type<'ctx>(context: &'ctx Context) -> (r: FloatType<'ctx>)
    ensures
        r == single_type(context),
{
    context.f32_type()
}

/// `IntType::array_type`.
#[verifier::external_body]
pub(crate) fn array_type<'ctx>(elem: IntType<'ctx>, len: u32) -> (r: ArrayType<'ctx>)
    ensures
        r == array_type_of(elem, len),
{
    elem.array_type(len)
}

/// `IntType::ptr_type`, in the default address space.
#[verifier::external_body]
pub(crate) fn ptr_type<'ctx>(elem: IntType<'ctx>) -> (r: PointerType<'ctx>)
    ensures
        r == pointer_type_of(elem),
{
    elem.ptr_type(AddressSpace::default())
}

/// `StructType::ptr_type`, in the default address space.
#[verifier::external_body]
pub(crate) fn struct_ptr_type<'ctx>(ty: StructType<'ctx>) -> (r: PointerType<'ctx>)
    ensures
        r == struct_pointer(ty),
{
    ty.ptr_type(AddressSpace::default())
}

/// `Context::struct_type` of the three fields of `layout`, in their order.
#[verifier::external_body]
pub(crate) fn struct_type<'ctx>(layout: &Layout<'ctx>) -> (r: StructType<'ctx>)
    ensures
        r == struct_type_of(*layout),
{
    layout.context.struct_type(
        &[layout.first.into(), layout.second.into(), layout.third.into()],
        layout.packed,
    )
}

/// The integer that `of` is known to be while compiling, if it is a
/// constant integer. An integer value stays the constant or the
/// instruction it is.
pub uninterp spec fn int_constant_of(of: IntValue) -> Option<i64>;

/// Whether the integer `of` is a constant.
pub uninterp spec fn int_const(of: IntValue) -> bool;

/// Whether the array `of` is a constant.
pub uninterp spec fn array_const(of: ArrayValue) -> bool;

/// Whether the pointer `of` is a constant.
pub uninterp spec fn pointer_const(of: PointerValue) -> bool;

/// `IntValue::get_sign_extended_constant`: the value of a constant
/// integer of at most 64 bits, none for any other integer.
#[verifier::external_body]
pub(crate) fn int_constant<'ctx>(of: &IntValue<'ctx>) -> (r: Option<i64>)
    ensures
        r == int_constant_of(*of),
{
    of.get_sign_extended_constant()
}

/// `ArrayValue::is_const`.
#[verifier::external_body]
pub(crate) fn array_is_const<'ctx>(of: &ArrayValue<'ctx>) -> (r: bool)
    ensures
        r == array_const(*of),
{
    of.is_const()
}

/// The constant of the integer type `ty` that `IntType::const_int` gives
/// for `value`.
pub uninterp spec fn const_int_of(ty: IntType, value: u64, sign_extend: bool) -> IntValue;

/// The constant array of the four bytes `bytes`, each a constant of the
/// integer type `ty`.
pub uninterp spec fn const_bytes_of(ty: IntType, bytes: Seq<u8>) -> ArrayValue;

/// The constant of the array type `ty` with every element zero.
pub uninterp spec fn zero_array_of(ty: ArrayType) -> ArrayValue;

/// The null pointer of the pointer type `ty`.
pub uninterp spec fn null_of(ty: PointerType) -> PointerValue;

/// `IntType::const_int`: a constant of the type `ty`.
#[verifier::external_body]
pub(crate) fn const_int<'ctx>(ty: IntType<'ctx>, value: u64, sign_extend: bool) -> (r: IntValue<
    'ctx,
>)
    ensures
        r == const_int_of(ty, value, sign_extend),
        int_const(r),
        same_type(BasicValue::Int(r), BasicType::Int(ty)),
{
    ty.const_int(value, sign_extend)
}

/// The constant array of the four bytes given, by `IntType::const_int` for
/// each byte and `IntType::const_array` for the four: a constant of the
/// type of arrays of four elements of the type `ty`.
#[verifier::external_body]
pub(crate) fn const_bytes<'ctx>(ty: IntType<'ctx>, bytes: &[u8; 4]) -> (r: ArrayValue<'ctx>)
    ensures
        r == const_bytes_of(ty, bytes@),
        array_const(r),
        same_type(BasicValue::Array(r), BasicType::Array(array_type_of(ty, 4))),
{
    ty.const_array(
        &[
            ty.const_int(bytes[0] as u64, false),
            ty.const_int(bytes[1] as u64, false),
            ty.const_int(bytes[2] as u64, false),
            ty.const_int(bytes[3] as u64, false),
        ],
    )
}

/// `ArrayType::const_zero`: the constant of the type `ty` with every
/// element zero.
#[verifier::external_body]
pub(crate) fn zero_array<'ctx>(ty: ArrayType<'ctx>) -> (r: ArrayValue<'ctx>)
    ensures
        r == zero_array_of(ty),
        array_const(r),
        same_type(BasicValue::Array(r), BasicType::Array(ty)),
{
    ty.const_zero()
}

/// `PointerType::const_null`: the null pointer of the type `ty`, a
/// constant.
#[verifier::external_body]
pub(crate) fn null_pointer<'ctx>(ty: PointerType<'ctx>) -> (r: PointerValue<'ctx>)
    ensures
        r == null_of(ty),
        pointer_const(r),
        same_type(BasicValue::Pointer(r), BasicType::Pointer(ty)),
{
    ty.const_null()
}

/// The struct type and the three fields that a constant struct is built
/// from, with the layout that the type was made with.
pub struct Build<'ctx> {
    pub layout: Layout<'ctx>,
    pub ty: StructType<'ctx>,
    pub first: ArrayValue<'ctx>,
    pub second: IntValue<'ctx>,
    pub third: PointerValue<'ctx>,
}

/// Whether `build` holds a struct type of its layout and three constants
/// of the types of the three fields.
pub open spec fn well_built(build: Build) -> bool {
    &&& build.ty == struct_type_of(build.layout)
    &&& same_type(BasicValue::Array(build.first), BasicType::Array(build.layout.first))
    &&& same_type(BasicValue::Int(build.second), BasicType::Int(build.layout.second))
    &&& same_type(BasicValue::Pointer(build.third), BasicType::Pointer(build.layout.third))
    &&& array_const(build.first)
    &&& int_const(build.second)
    &&& pointer_const(build.third)
}

/// The constant that `StructType::const_named_struct` gives for the type
/// and the three fields of `build`.
pub uninterp spec fn named_struct(build: Build) -> StructValue;

/// `StructType::const_named_struct` of the three fields of `build`, in
/// their order. Only constants of the types of the fields are handed in.
#[verifier::external_body]
pub(crate) fn const_struct<'ctx>(build: &Build<'ctx>) -> (r: StructValue<'ctx>)
    requires
        well_built(*build),
    ensures
        r == named_struct(*build),
        same_type(BasicValue::Struct(r), BasicType::Struct(build.ty)),
{
    build.ty.const_named_struct(&[build.first.into(), build.second.into(), build.third.into()])
}

/// Whether `ptr` points to a struct whose every field is an array of
/// integers, an integer or a pointer to an integer: a struct type made of
/// some layout.
pub open spec fn points_to_fields(ptr: PointerValue) -> bool {
    exists|layout: Layout| #[trigger]
        same_type(
            BasicValue::Pointer(ptr),
            BasicType::Pointer(struct_pointer(struct_type_of(layout))),
        )
}

/// A fresh stack slot that holds `of`, by `Builder::build_alloca` and
/// `build_store`; none where the builder refuses, as it does while it
/// stands in no block.
#[verifier::external_body]
pub(crate) fn stack_slot<'ctx>(builder: &Builder<'ctx>, of: StructValue<'ctx>) -> (r: Option<
    PointerValue<'ctx>,
>) {
    let slot = builder.build_alloca(of.get_type(), "alloc_val").ok()?;
    builder.build_store(slot, of).ok()?;
    Some(slot)
}

/// Loads the field `index` of the struct that `ptr` points to, by
/// `Builder::build_struct_gep` and `build_load`; none where the builder
/// refuses, as it does while it stands in no block and where the struct has
/// no such field. What is loaded is an array, an integer or a pointer.
#[verifier::external_body]
pub(crate) fn load_field<'ctx>(
    builder: &Builder<'ctx>,
    ptr: PointerValue<'ctx>,
    index: u32,
    name: &str,
) -> (r: Option<BasicValueEnum<'ctx>>)
    requires
        points_to_fields(ptr),
{
    let field = builder.build_struct_gep(ptr, index, "gep").ok()?;
    builder.build_load(field, name).ok()
}

/// What a function takes and what it yields, for a function of one
/// parameter.
pub struct Shape<'ctx> {
    pub yields: BasicTypeEnum<'ctx>,
    pub takes: BasicTypeEnum<'ctx>,
}

/// The type of functions that take one value of the type `shape.takes` and
/// yield one of the type `shape.yields`.
pub uninterp spec fn function_type_of(shape: Shape) -> FunctionType;

/// The type of the function `f`.
pub uninterp spec fn type_of_function(f: FunctionValue) -> FunctionType;

/// Whether the function `f` yields a basic value: its type is that of
/// some shape.
pub open spec fn yields_basic(f: FunctionValue) -> bool {
    exists|shape: Shape| type_of_function(f) == #[trigger] function_type_of(shape)
}

/// `BasicTypeEnum::fn_type` of one parameter, not variadic.
#[verifier::external_body]
pub(crate) fn function_type<'ctx>(shape: &Shape<'ctx>) -> (r: FunctionType<'ctx>)
    ensures
        r == function_type_of(*shape),
{
    inkwell::types::BasicType::fn_type(&shape.yields, &[shape.takes.into()], false)
}

/// `Module::get_function`: the function of the module that goes by
/// `name`, if there is one.
#[verifier::external_body]
pub(crate) fn find_function<'ctx>(module: &Module<'ctx>, name: &str) -> (r: Option<
    FunctionValue<'ctx>,
>) {
    module.get_function(name)
}

/// Whether the function `f` has the type `ty`, by `FunctionValue::get_type`
/// and `==` of `inkwell`'s function types.
#[verifier::external_body]
pub(crate) fn function_has_type<'ctx>(f: &FunctionValue<'ctx>, ty: &FunctionType<'ctx>) -> (r: bool)
    ensures
        r == (type_of_function(*f) == *ty),
{
    f.get_type() == *ty
}

/// Calls `f` on one argument, by `Builder::build_call`, and hands back the
/// value that the call yields; none where the builder refuses, as it does
/// while it stands in no block.
#[verifier::external_body]
pub(crate) fn call_function<'ctx>(
    builder: &Builder<'ctx>,
    f: FunctionValue<'ctx>,
    arg: BasicValueEnum<'ctx>,
    label: &str,
) -> (r: Option<BasicValueEnum<'ctx>>)
    requires
        yields_basic(f),
{
    builder.build_call(f, &[arg.into()], label).ok()?.try_as_basic_value().left()
}

} // verus!
