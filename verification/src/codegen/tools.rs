//! Lowering through the LLVM builder.
//!
//! What a lowering step decides is written on plain values and proved:
//! which conversion a pair of kinds calls for, what the tag of a boxed value
//! is, which helper boxes a scalar and what type it must have, how a type is
//! named. A boxed value says of itself where it stands: a constant that the
//! lowering built keeps the payload and the tag it was built from, so that
//! nothing is read back from LLVM to know them. What the builder writes is
//! its own to decide, and of that the contracts say only what holds whatever
//! it hands back.

use vstd::prelude::*;
use vstd::string::*;
use inkwell::builder::Builder;
use inkwell::context::Context;
use inkwell::module::Module;
use inkwell::types::{ArrayType, FloatType, IntType, PointerType, StructType, VectorType};
use inkwell::values::{ArrayValue, FloatValue, IntValue, PointerValue, StructValue, VectorValue};
use crate::source::{ATErr, ATErrView, ErrKind};
use crate::analysis::diagnostics_view;
use crate::text::{decimal, decimal_text, reads};
use crate::codegen::runtime::{NULL, Obj, TAG_FLOAT, TAG_INT, le_bytes, pattern};
use crate::codegen::llvm::{
    array_has_type, float_has_type, int_has_type, pointer_has_type, struct_has_type,
    vector_has_type, Build, Layout, Shape, array_const, array_is_const, array_type, array_type_of, byte_type,
    call_function, classify, const_bytes, const_bytes_of, const_int, const_int_of, const_struct,
    declassify, declassify_type, f32_type, find_function, float_to_int, function_has_type,
    function_type, function_type_of, i32_type, i8_type, int_constant, int_constant_of,
    int_to_float, load_field, named_struct, null_of, null_pointer, pointer_type_of, ptr_type,
    same_type, single_type, stack_slot, struct_pointer, struct_ptr_type, struct_type,
    struct_type_of, type_of_function, word_type, zero_array,
    zero_array_of,
};

verus! {

/// The kinds that basic types and values come in.
#[derive(Clone, Copy, Debug, PartialEq, Eq, Structural)]
pub enum Kind {
    Array,
    Int,
    Float,
    Pointer,
    Struct,
    Vector,
}

/// A basic value, told apart by its kind.
#[derive(Clone, Copy, Debug, PartialEq)]
pub enum BasicValue<'ctx> {
    Array(ArrayValue<'ctx>),
    Int(IntValue<'ctx>),
    Float(FloatValue<'ctx>),
    Pointer(PointerValue<'ctx>),
    Struct(StructValue<'ctx>),
    Vector(VectorValue<'ctx>),
}

/// A basic type, told apart by its kind.
#[derive(Clone, Copy, Debug, PartialEq)]
pub enum BasicType<'ctx> {
    Array(ArrayType<'ctx>),
    Float(FloatType<'ctx>),
    Int(IntType<'ctx>),
    Pointer(PointerType<'ctx>),
    Struct(StructType<'ctx>),
    Vector(VectorType<'ctx>),
}

impl<'ctx> BasicValue<'ctx> {
    /// The kind of this value.
    pub open spec fn kind(self) -> Kind {
        match self {
            BasicValue::Array(_) => Kind::Array,
            BasicValue::Int(_) => Kind::Int,
            BasicValue::Float(_) => Kind::Float,
            BasicValue::Pointer(_) => Kind::Pointer,
            BasicValue::Struct(_) => Kind::Struct,
            BasicValue::Vector(_) => Kind::Vector,
        }
    }

    /// The kind of this value.
    pub fn get_kind(&self) -> (k: Kind)
        ensures
            k == self.kind(),
    {
        match self {
            BasicValue::Array(_) => Kind::Array,
            BasicValue::Int(_) => Kind::Int,
            BasicValue::Float(_) => Kind::Float,
            BasicValue::Pointer(_) => Kind::Pointer,
            BasicValue::Struct(_) => Kind::Struct,
            BasicValue::Vector(_) => Kind::Vector,
        }
    }
}

impl<'ctx> BasicValue<'ctx> {
    /// The array that this value is, if it is one.
    pub fn as_array(self) -> (r: Option<ArrayValue<'ctx>>)
        ensures
            r == (match self {
                BasicValue::Array(a) => Some(a),
                _ => None,
            }),
    {
        match self {
            BasicValue::Array(a) => Some(a),
            _ => None,
        }
    }

    /// The integer that this value is, if it is one.
    pub fn as_int(self) -> (r: Option<IntValue<'ctx>>)
        ensures
            r == (match self {
                BasicValue::Int(i) => Some(i),
                _ => None,
            }),
    {
        match self {
            BasicValue::Int(i) => Some(i),
            _ => None,
        }
    }

    /// The float that this value is, if it is one.
    pub fn as_float(self) -> (r: Option<FloatValue<'ctx>>)
        ensures
            r == (match self {
                BasicValue::Float(f) => Some(f),
                _ => None,
            }),
    {
        match self {
            BasicValue::Float(f) => Some(f),
            _ => None,
        }
    }

    /// The struct that this value is, if it is one.
    pub fn as_struct(self) -> (r: Option<StructValue<'ctx>>)
        ensures
            r == (match self {
                BasicValue::Struct(s) => Some(s),
                _ => None,
            }),
    {
        match self {
            BasicValue::Struct(s) => Some(s),
            _ => None,
        }
    }
}

impl<'ctx> BasicType<'ctx> {
    /// The kind of this type.
    pub open spec fn kind(self) -> Kind {
        match self {
            BasicType::Array(_) => Kind::Array,
            BasicType::Int(_) => Kind::Int,
            BasicType::Float(_) => Kind::Float,
            BasicType::Pointer(_) => Kind::Pointer,
            BasicType::Struct(_) => Kind::Struct,
            BasicType::Vector(_) => Kind::Vector,
        }
    }

    /// The kind of this type.
    pub fn get_kind(&self) -> (k: Kind)
        ensures
            k == self.kind(),
    {
        match self {
            BasicType::Array(_) => Kind::Array,
            BasicType::Int(_) => Kind::Int,
            BasicType::Float(_) => Kind::Float,
            BasicType::Pointer(_) => Kind::Pointer,
            BasicType::Struct(_) => Kind::Struct,
            BasicType::Vector(_) => Kind::Vector,
        }
    }
}

/// Whether `from` has exactly the type `into`.
pub fn has_type<'ctx>(from: &BasicValue<'ctx>, into: &BasicType<'ctx>) -> (same: bool)
    ensures
        same == same_type(*from, *into),
        same ==> from.kind() == into.kind(),
{
    match (from, into) {
        (BasicValue::Array(v), BasicType::Array(t)) => array_has_type(v, t),
        (BasicValue::Int(v), BasicType::Int(t)) => int_has_type(v, t),
        (BasicValue::Float(v), BasicType::Float(t)) => float_has_type(v, t),
        (BasicValue::Pointer(v), BasicType::Pointer(t)) => pointer_has_type(v, t),
        (BasicValue::Struct(v), BasicType::Struct(t)) => struct_has_type(v, t),
        (BasicValue::Vector(v), BasicType::Vector(t)) => vector_has_type(v, t),
        _ => false,
    }
}

/// What a conversion between two scalars takes.
#[derive(Clone, Copy, Debug, PartialEq, Eq, Structural)]
pub enum Conversion {
    /// The value has the type asked for already.
    Keep,
    /// A float is turned into a signed integer.
    FloatToInt,
    /// A signed integer is turned into a float.
    IntToFloat,
}

/// Whether values of kind `from` convert into types of kind `into`: floats
/// into integers and integers into floats.
pub open spec fn converts(from: Kind, into: Kind) -> bool {
    from == Kind::Float && into == Kind::Int || from == Kind::Int && into == Kind::Float
}

/// The conversion that takes a value of kind `from` to a type of kind
/// `into`, where `same` says whether the value has that very type already.
pub open spec fn conversion(same: bool, from: Kind, into: Kind) -> Result<Conversion, ErrKind> {
    if same {
        Ok(Conversion::Keep)
    } else if from == Kind::Float && into == Kind::Int {
        Ok(Conversion::FloatToInt)
    } else if from == Kind::Int && into == Kind::Float {
        Ok(Conversion::IntToFloat)
    } else {
        Err(ErrKind::CannotConvertRight)
    }
}

/// The conversion that takes a value of kind `from` to a type of kind
/// `into`, where `same` says whether the value has that very type already.
/// Floats and integers convert into each other; nothing else converts.
pub fn conv_rule(same: bool, from: Kind, into: Kind) -> (r: Result<Conversion, ErrKind>)
    ensures
        r == conversion(same, from, into),
{
    if same {
        Ok(Conversion::Keep)
    } else {
        match (from, into) {
            (Kind::Float, Kind::Int) => Ok(Conversion::FloatToInt),
            (Kind::Int, Kind::Float) => Ok(Conversion::IntToFloat),
            _ => Err(ErrKind::CannotConvertRight),
        }
    }
}

/// The state of a lowering: the LLVM context, the module under
/// construction and the builder that writes into it, together with the
/// position last seen in the source and the diagnostics reported so far.
pub struct Source<'ctx> {
    pub context: &'ctx Context,
    pub module: Module<'ctx>,
    pub builder: Builder<'ctx>,
    pub line: u32,
    pub column: u32,
    pub diagnostics: Vec<ATErr>,
}

impl<'ctx> Source<'ctx> {
    /// The diagnostics reported so far.
    pub open spec fn reported(&self) -> Seq<ATErrView> {
        diagnostics_view(self.diagnostics@)
    }

    /// The diagnostic that a failure of kind `kind` leaves at the position
    /// this lowering stands at.
    pub open spec fn report_of(&self, kind: ErrKind, msg: Seq<char>) -> ATErrView {
        ATErrView { kind, msg, line: self.line, column: self.column }
    }

    /// Reports a failure at the position last seen.
    pub fn err(&mut self, kind: ErrKind, msg: String)
        ensures
            final(self).reported() == old(self).reported().push(old(self).report_of(kind, msg@)),
            final(self).line == old(self).line,
            final(self).column == old(self).column,
    {
        let err = ATErr { kind, msg, line: self.line, column: self.column };
        self.diagnostics.push(err);
        assert(self.reported() =~= old(self).reported().push(err@));
    }

    /// Converts `from` into the type `into`. A value that has the type
    /// already is handed back as it is and nothing is written. Else a float
    /// becomes a signed integer and a signed integer a float, if the builder
    /// takes the instruction: it refuses while it stands in no block, and of
    /// that nothing is reported. Every other pair gives none and is reported
    /// as `CannotConvertRight`.
    pub fn conv_into(&mut self, from: BasicValue<'ctx>, into: BasicType<'ctx>) -> (r: Option<
        BasicValue<'ctx>,
    >)
        ensures
            final(self).line == old(self).line,
            final(self).column == old(self).column,
            same_type(from, into) ==> {
                &&& from.kind() == into.kind()
                &&& r == Some(from)
                &&& final(self).reported() == old(self).reported()
            },
            !same_type(from, into) && converts(from.kind(), into.kind()) ==> {
                &&& final(self).reported() == old(self).reported()
                &&& r matches Some(v) ==> v.kind() == into.kind()
            },
            !same_type(from, into) && !converts(from.kind(), into.kind()) ==> {
                &&& r is None
                &&& final(self).reported() == old(self).reported().push(
                    old(self).report_of(ErrKind::CannotConvertRight, cannot_convert_text()),
                )
            },
    {
        let same = has_type(&from, &into);
        match conv_rule(same, from.get_kind(), into.get_kind()) {
            Ok(Conversion::Keep) => Some(from),
            Ok(Conversion::FloatToInt) => {
                match (from, into) {
                    (BasicValue::Float(f), BasicType::Int(t)) => {
                        match float_to_int(&self.builder, f, t) {
                            Some(i) => Some(BasicValue::Int(i)),
                            None => None,
                        }
                    },
                    _ => None,
                }
            },
            Ok(Conversion::IntToFloat) => {
                match (from, into) {
                    (BasicValue::Int(i), BasicType::Float(t)) => {
                        match int_to_float(&self.builder, i, t) {
                            Some(f) => Some(BasicValue::Float(f)),
                            None => None,
                        }
                    },
                    _ => None,
                }
            },
            Err(kind) => {
                self.err(
                    kind,
                    String::from_str(
                        "cannot convert right to left (usually in binary expressions)",
                    ),
                );
                None
            },
        }
    }
}

/// The message for a pair of kinds that do not convert.
pub open spec fn cannot_convert_text() -> Seq<char> {
    "cannot convert right to left (usually in binary expressions)"@
}

/// The kind of scalar that a tag says the payload holds.
pub open spec fn reading_of(tag: i8) -> Option<Kind> {
    if tag == TAG_INT {
        Some(Kind::Int)
    } else if tag == TAG_FLOAT {
        Some(Kind::Float)
    } else {
        None
    }
}

/// The kind of scalar that a tag says the payload holds; none for the
/// tags that are reserved.
pub fn reading(tag: i8) -> (kind: Option<Kind>)
    ensures
        kind == reading_of(tag),
{
    if tag == TAG_INT {
        Some(Kind::Int)
    } else if tag == TAG_FLOAT {
        Some(Kind::Float)
    } else {
        None
    }
}

/// The tag that boxed values of the kind named `text` carry.
pub open spec fn tag_of_text(text: Seq<char>) -> Option<i8> {
    if text == "int"@ {
        Some(TAG_INT)
    } else if text == "float"@ {
        Some(TAG_FLOAT)
    } else {
        None
    }
}

/// The tag that boxed values of the kind named `text` carry; none for a
/// name that is neither `int` nor `float`.
pub fn tag_for(text: &str) -> (tag: Option<i8>)
    ensures
        tag == tag_of_text(text@),
{
    let text = String::from_str(text);
    if reads(&text, "int") {
        Some(TAG_INT)
    } else if reads(&text, "float") {
        Some(TAG_FLOAT)
    } else {
        None
    }
}

/// The tag that the constant `c` is, if it fits a tag.
pub open spec fn tag_in(c: i64) -> Option<i8> {
    if -128 <= c <= 127 {
        Some(c as i8)
    } else {
        None
    }
}

/// The tag that a loaded tag field stands for at compile time: the
/// constant it is, and the tag of an integer where it is none.
pub fn loaded_tag(c: Option<i64>) -> (tag: Option<i8>)
    ensures
        tag == (match c {
            Some(c) => tag_in(c),
            None => Some(TAG_INT),
        }),
{
    match c {
        Some(c) => {
            if -128 <= c && c <= 127 {
                Some(c as i8)
            } else {
                None
            }
        },
        None => Some(TAG_INT),
    }
}

/// What the lowering reads of a value that was loaded from the place of a
/// tag: for an integer the constant it is, if it is one.
#[derive(Clone, Copy, Debug, PartialEq, Eq)]
pub enum Loaded {
    Int(Option<i64>),
    Other,
}

/// The tag of a boxed value, from all that is known of it: `held` is the
/// tag that a constant was built with; `loaded` is what was loaded from the
/// tag's place of any other value, if the builder took the load. A constant
/// has its tag. What was loaded gives the tag of the integer it is; none
/// where nothing was loaded, and where what was loaded is no integer.
pub open spec fn tag_from_of(held: Option<i8>, loaded: Option<Loaded>) -> Option<i8> {
    match held {
        Some(tag) => Some(tag),
        None => match loaded {
            Some(Loaded::Int(Some(c))) => tag_in(c),
            Some(Loaded::Int(None)) => Some(TAG_INT),
            _ => None,
        },
    }
}

/// The tag of a boxed value, from all that is known of it.
pub fn tag_from(held: Option<i8>, loaded: Option<Loaded>) -> (tag: Option<i8>)
    ensures
        tag == tag_from_of(held, loaded),
{
    match held {
        Some(tag) => Some(tag),
        None => {
            match loaded {
                Some(Loaded::Int(c)) => loaded_tag(c),
                _ => None,
            }
        },
    }
}

/// The payload of a boxed value, from all that is known of it: `held` is
/// the payload that a constant was built with; `loaded` is what was loaded
/// from the payload's place of any other value, if the builder took the
/// load. None where nothing was loaded, and where what was loaded is no
/// array.
pub open spec fn payload_from_of<'ctx>(
    held: Option<ArrayValue<'ctx>>,
    loaded: Option<BasicValue<'ctx>>,
) -> Option<ArrayValue<'ctx>> {
    match held {
        Some(bytes) => Some(bytes),
        None => match loaded {
            Some(BasicValue::Array(a)) => Some(a),
            _ => None,
        },
    }
}

/// The payload of a boxed value, from all that is known of it.
pub fn payload_from<'ctx>(held: Option<ArrayValue<'ctx>>, loaded: Option<BasicValue<'ctx>>) -> (bytes:
    Option<ArrayValue<'ctx>>)
    ensures
        bytes == payload_from_of(held, loaded),
{
    match held {
        Some(bytes) => Some(bytes),
        None => {
            match loaded {
                Some(v) => v.as_array(),
                None => None,
            }
        },
    }
}

/// The 64 bits that `IntType::const_int` is handed for the tag `ty`: the
/// tag itself, in two's complement where it is negative.
pub open spec fn tag_bits_of(ty: i8) -> u64 {
    if ty >= 0 {
        ty as u64
    } else {
        (0x1_0000_0000_0000_0000 + ty) as u64
    }
}

/// The 64 bits that `IntType::const_int` is handed for the tag `ty`.
pub fn tag_bits(ty: i8) -> (bits: u64)
    ensures
        bits == tag_bits_of(ty),
{
    if ty >= 0 {
        ty as u64
    } else {
        let below: u64 = (-(ty as i64)) as u64;
        u64::MAX - below + 1
    }
}

/// The layout of a boxed value: four bytes of payload, a one-byte tag and
/// a pointer to a byte, in this order and not packed.
pub open spec fn boxed_layout<'ctx>(context: &'ctx Context) -> Layout<'ctx> {
    Layout {
        context,
        first: array_type_of(byte_type(context), 4),
        second: byte_type(context),
        third: pointer_type_of(byte_type(context)),
        packed: false,
    }
}

/// The type of a boxed value in `context`.
pub open spec fn boxed_type<'ctx>(context: &'ctx Context) -> StructType<'ctx> {
    struct_type_of(boxed_layout(context))
}

/// The layout of a boxed value in `context`.
pub fn layout_in<'ctx>(context: &'ctx Context) -> (layout: Layout<'ctx>)
    ensures
        layout == boxed_layout(context),
{
    let byte = i8_type(context);
    Layout {
        context,
        first: array_type(byte, 4),
        second: byte,
        third: ptr_type(byte),
        packed: false,
    }
}

/// The type of a boxed value in `context`.
pub fn boxed_type_in<'ctx>(context: &'ctx Context) -> (ty: StructType<'ctx>)
    ensures
        ty == boxed_type(context),
{
    let layout = layout_in(context);
    struct_type(&layout)
}

/// Whether `bytes` can be the payload of a constant boxed value of
/// `context`: it is a constant array of four bytes.
pub open spec fn payload_fits<'ctx>(context: &'ctx Context, bytes: ArrayValue<'ctx>) -> bool {
    array_const(bytes) && same_type(
        BasicValue::Array(bytes),
        BasicType::Array(array_type_of(byte_type(context), 4)),
    )
}

/// The constant boxed value of `context` with the payload `bytes`, the
/// tag `tag` and no string.
pub open spec fn boxed_value<'ctx>(context: &'ctx Context, bytes: ArrayValue<'ctx>, tag: i8)
    -> StructValue<'ctx> {
    named_struct(
        Build {
            layout: boxed_layout(context),
            ty: boxed_type(context),
            first: bytes,
            second: const_int_of(byte_type(context), tag_bits_of(tag), true),
            third: null_of(pointer_type_of(byte_type(context))),
        },
    )
}

/// The constant boxed value of `context` with the payload `bytes`, the
/// tag `tag` and no string; none where `bytes` is no constant array of four
/// bytes.
pub fn build_boxed<'ctx>(context: &'ctx Context, bytes: ArrayValue<'ctx>, tag: i8) -> (r: Option<
    StructValue<'ctx>,
>)
    ensures
        r == (if payload_fits(context, bytes) {
            Some(boxed_value(context, bytes, tag))
        } else {
            None
        }),
        r matches Some(v) ==> same_type(
            BasicValue::Struct(v),
            BasicType::Struct(boxed_type(context)),
        ),
{
    let layout = layout_in(context);
    if !array_is_const(&bytes) || !has_type(
        &BasicValue::Array(bytes),
        &BasicType::Array(layout.first),
    ) {
        return None;
    }
    let ty = struct_type(&layout);
    let second = const_int(layout.second, tag_bits(tag), true);
    let third = null_pointer(layout.third);
    Some(const_struct(&Build { layout, ty, first: bytes, second, third }))
}

/// Where a boxed value stands.
#[derive(Clone, Copy, Debug, PartialEq)]
pub enum Site<'ctx> {
    /// A constant that the lowering built, with the payload and the tag it
    /// was built from.
    Const { value: StructValue<'ctx>, bytes: ArrayValue<'ctx>, tag: i8 },
    /// A boxed value in memory, behind a pointer.
    Slot(PointerValue<'ctx>),
    /// A boxed value that the program computes, of which nothing is known
    /// while compiling.
    Value(StructValue<'ctx>),
}

/// A boxed value at the level of the builder: the context it belongs to
/// and where it stands.
#[derive(Clone, Copy, Debug, PartialEq)]
pub struct Boxed<'ctx> {
    pub context: &'ctx Context,
    pub site: Site<'ctx>,
}

/// What a boxed value at the level of the builder offers: its defaults,
/// its tag and payload, and copies with one field replaced.
pub trait CovaLLVMObj<'ctx>: Sized {
    /// The tag that this value is known to have while compiling.
    spec fn held_tag(&self) -> Option<i8>;

    /// The payload that this value is known to have while compiling.
    spec fn held_bytes(&self) -> Option<ArrayValue<'ctx>>;

    /// The 8-bit zero: what a missing tag reads as.
    fn zero(&self) -> (r: BasicValue<'ctx>)
        ensures
            r.kind() == Kind::Int,
    ;

    /// The payload of four zero bytes: what a missing payload reads as.
    fn zero_arr(&self) -> (r: BasicValue<'ctx>)
        ensures
            r.kind() == Kind::Array,
    ;

    /// The null string pointer: what a missing string reads as.
    fn null(&self) -> (r: BasicValue<'ctx>)
        ensures
            r.kind() == Kind::Pointer,
    ;

    /// The tag: that of a constant as it was built, and else what a load
    /// from the tag's place gives while compiling.
    fn get_ty(&self, src: &Source<'ctx>) -> (tag: Option<i8>)
        ensures
            self.held_tag() is Some ==> tag == self.held_tag(),
    ;

    /// The payload: that of a constant as it was built, and else what a
    /// load from the payload's place gives.
    fn get_value(&self, src: &Source<'ctx>) -> (bytes: Option<ArrayValue<'ctx>>)
        ensures
            self.held_bytes() is Some ==> bytes == self.held_bytes(),
    ;

    /// A constant with the tag replaced; none of a value that is no
    /// constant, and of one whose payload is no constant array of four
    /// bytes.
    fn set_type(&mut self, ty: i8) -> (r: Option<Self>)
        ensures
            *final(self) == *old(self),
            r is Some ==> old(self).held_tag() is Some,
            r matches Some(b) ==> b.held_tag() == Some(ty) && b.held_bytes() == old(
                self,
            ).held_bytes(),
    ;

    /// A constant with the payload replaced; none of a value that is no
    /// constant, and where `bytes` is no constant array of four bytes.
    fn set_bytes(&mut self, bytes: ArrayValue<'ctx>) -> (r: Option<Self>)
        ensures
            *final(self) == *old(self),
            r is Some ==> old(self).held_tag() is Some,
            r matches Some(b) ==> b.held_bytes() == Some(bytes) && b.held_tag() == old(
                self,
            ).held_tag(),
    ;
}

/// What the lowering reads of a value that was loaded.
pub open spec fn seen<'ctx>(v: BasicValue<'ctx>) -> Loaded {
    match v {
        BasicValue::Int(i) => Loaded::Int(int_constant_of(i)),
        _ => Loaded::Other,
    }
}

/// What the lowering reads of a value that was loaded.
fn observe<'ctx>(v: &BasicValue<'ctx>) -> (r: Loaded)
    ensures
        r == seen(*v),
{
    match v {
        BasicValue::Int(i) => Loaded::Int(int_constant(i)),
        _ => Loaded::Other,
    }
}

/// Whether `ptr` is a pointer to a boxed value of `context`.
pub open spec fn points_to_boxed<'ctx>(context: &'ctx Context, ptr: PointerValue<'ctx>) -> bool {
    same_type(BasicValue::Pointer(ptr), BasicType::Pointer(struct_pointer(boxed_type(context))))
}

/// Whether `value` has the type of a boxed value of `context`.
pub open spec fn is_boxed<'ctx>(context: &'ctx Context, value: StructValue<'ctx>) -> bool {
    same_type(BasicValue::Struct(value), BasicType::Struct(boxed_type(context)))
}

/// Whether a lowering in `context` can reach the fields of a boxed value
/// that stands at `site`: it is no constant, and it is a pointer to a boxed
/// value of `context` or a value of its boxed type.
pub open spec fn in_reach<'ctx>(context: &'ctx Context, site: Site<'ctx>) -> bool {
    match site {
        Site::Const { .. } => false,
        Site::Slot(ptr) => points_to_boxed(context, ptr),
        Site::Value(value) => is_boxed(context, value),
    }
}

/// Loads the field `index` of the boxed value that `ptr` points to; none
/// where `ptr` is no pointer to a boxed value, and where the builder
/// refuses.
fn load_from<'ctx>(
    src: &Source<'ctx>,
    context: &'ctx Context,
    ptr: PointerValue<'ctx>,
    index: u32,
    name: &str,
) -> (r: Option<BasicValue<'ctx>>)
    ensures
        !points_to_boxed(context, ptr) ==> r is None,
{
    let want = struct_ptr_type(boxed_type_in(context));
    if !has_type(&BasicValue::Pointer(ptr), &BasicType::Pointer(want)) {
        return None;
    }
    assert(same_type(
        BasicValue::Pointer(ptr),
        BasicType::Pointer(struct_pointer(struct_type_of(boxed_layout(context)))),
    ));
    match load_field(&src.builder, ptr, index, name) {
        Some(v) => Some(classify(v)),
        None => None,
    }
}

/// Loads the field `index` of the boxed value that stands at `site`: that
/// of a value in memory through its pointer, that of a value that the
/// program computes through a fresh stack slot. None of a constant, of what
/// has not the type of a boxed value, and where the builder refuses.
fn load_at<'ctx>(
    src: &Source<'ctx>,
    context: &'ctx Context,
    site: Site<'ctx>,
    index: u32,
    name: &str,
) -> (r: Option<BasicValue<'ctx>>)
    ensures
        !in_reach(context, site) ==> r is None,
{
    match site {
        Site::Const { .. } => None,
        Site::Slot(ptr) => load_from(src, context, ptr, index, name),
        Site::Value(value) => {
            let want = boxed_type_in(context);
            if !has_type(&BasicValue::Struct(value), &BasicType::Struct(want)) {
                return None;
            }
            match stack_slot(&src.builder, value) {
                Some(slot) => load_from(src, context, slot, index, name),
                None => None,
            }
        },
    }
}

impl<'ctx> Boxed<'ctx> {
    /// The constant boxed value of `context` with the payload `bytes` and
    /// the tag `tag`, if `bytes` can be a payload: it keeps both beside the
    /// constant that LLVM holds of them.
    pub open spec fn made(context: &'ctx Context, bytes: ArrayValue<'ctx>, tag: i8) -> Option<
        Boxed<'ctx>,
    > {
        if payload_fits(context, bytes) {
            Some(
                Boxed {
                    context,
                    site: Site::Const { value: boxed_value(context, bytes, tag), bytes, tag },
                },
            )
        } else {
            None
        }
    }

    /// A boxed value in memory, behind `ptr`.
    pub fn slot(context: &'ctx Context, ptr: PointerValue<'ctx>) -> (r: Boxed<'ctx>)
        ensures
            r == (Boxed { context, site: Site::Slot(ptr) }),
    {
        Boxed { context, site: Site::Slot(ptr) }
    }

    /// A boxed value that the program computes.
    pub fn value(context: &'ctx Context, value: StructValue<'ctx>) -> (r: Boxed<'ctx>)
        ensures
            r == (Boxed { context, site: Site::Value(value) }),
    {
        Boxed { context, site: Site::Value(value) }
    }

    /// The constant boxed value with the payload `bytes` and the tag `tag`;
    /// none where `bytes` is no constant array of four bytes.
    pub fn constant(context: &'ctx Context, bytes: ArrayValue<'ctx>, tag: i8) -> (r: Option<
        Boxed<'ctx>,
    >)
        ensures
            r == Boxed::made(context, bytes, tag),
    {
        match build_boxed(context, bytes, tag) {
            Some(value) => Some(Boxed { context, site: Site::Const { value, bytes, tag } }),
            None => None,
        }
    }

    /// The value of LLVM that this boxed value is, where it is one: a
    /// value in memory is none.
    pub fn as_struct(&self) -> (r: Option<StructValue<'ctx>>)
        ensures
            r == (match self.site {
                Site::Const { value, .. } => Some(value),
                Site::Slot(_) => None,
                Site::Value(value) => Some(value),
            }),
    {
        match self.site {
            Site::Const { value, .. } => Some(value),
            Site::Slot(_) => None,
            Site::Value(value) => Some(value),
        }
    }
}

impl<'ctx> CovaLLVMObj<'ctx> for Boxed<'ctx> {
    open spec fn held_tag(&self) -> Option<i8> {
        match self.site {
            Site::Const { tag, .. } => Some(tag),
            _ => None,
        }
    }

    open spec fn held_bytes(&self) -> Option<ArrayValue<'ctx>> {
        match self.site {
            Site::Const { bytes, .. } => Some(bytes),
            _ => None,
        }
    }

    fn zero(&self) -> (r: BasicValue<'ctx>)
        ensures
            r == BasicValue::Int(const_int_of(byte_type(self.context), 0, false)),
    {
        BasicValue::Int(const_int(i8_type(self.context), 0, false))
    }

    fn zero_arr(&self) -> (r: BasicValue<'ctx>)
        ensures
            r == BasicValue::Array(zero_array_of(array_type_of(byte_type(self.context), 4))),
    {
        BasicValue::Array(zero_array(array_type(i8_type(self.context), 4)))
    }

    fn null(&self) -> (r: BasicValue<'ctx>)
        ensures
            r == BasicValue::Pointer(null_of(pointer_type_of(byte_type(self.context)))),
    {
        BasicValue::Pointer(null_pointer(ptr_type(i8_type(self.context))))
    }

    fn get_ty(&self, src: &Source<'ctx>) -> (tag: Option<i8>)
        ensures
            self.held_tag() is None && !in_reach(src.context, self.site) ==> tag is None,
    {
        let held = match self.site {
            Site::Const { tag, .. } => Some(tag),
            _ => None,
        };
        let loaded = match load_at(src, src.context, self.site, 1, "load_type") {
            Some(v) => Some(observe(&v)),
            None => None,
        };
        tag_from(held, loaded)
    }

    fn get_value(&self, src: &Source<'ctx>) -> (bytes: Option<ArrayValue<'ctx>>)
        ensures
            self.held_bytes() is None && !in_reach(src.context, self.site) ==> bytes is None,
    {
        let held = match self.site {
            Site::Const { bytes, .. } => Some(bytes),
            _ => None,
        };
        let loaded = load_at(src, src.context, self.site, 0, "load_bytes");
        payload_from(held, loaded)
    }

    fn set_type(&mut self, ty: i8) -> (r: Option<Self>)
        ensures
            r == (match old(self).site {
                Site::Const { value, bytes, tag } => Boxed::made(old(self).context, bytes, ty),
                _ => None,
            }),
    {
        match self.site {
            Site::Const { value, bytes, tag } => Boxed::constant(self.context, bytes, ty),
            _ => None,
        }
    }

    fn set_bytes(&mut self, bytes: ArrayValue<'ctx>) -> (r: Option<Self>)
        ensures
            r == (match old(self).site {
                Site::Const { value, bytes: replaced, tag } => Boxed::made(
                    old(self).context,
                    bytes,
                    tag,
                ),
                _ => None,
            }),
    {
        match self.site {
            Site::Const { value, bytes: replaced, tag } => Boxed::constant(
                self.context,
                bytes,
                tag,
            ),
            _ => None,
        }
    }
}

/// A plain value that can be boxed while compiling: it names its kind and
/// gives its payload.
pub trait CovaObj {
    /// The name of the kind.
    spec fn type_text(&self) -> Seq<char>;

    /// The payload, the least byte first.
    spec fn payload(&self) -> Seq<u8>;

    /// The name of the kind.
    fn get_type(&self) -> (s: &str)
        ensures
            s@ == self.type_text(),
    ;

    /// The payload, the least byte first.
    fn to_bytes(&self) -> (bytes: [u8; 4])
        ensures
            bytes@ == self.payload(),
    ;
}

/// The bytes of a 32-bit pattern, the least byte first.
fn bytes_of(bits: u32) -> (bytes: [u8; 4])
    ensures
        bytes@ == le_bytes(bits as int),
{
    let b0 = (bits & 0xff) as u8;
    let b1 = ((bits >> 8u32) & 0xff) as u8;
    let b2 = ((bits >> 16u32) & 0xff) as u8;
    let b3 = ((bits >> 24u32) & 0xff) as u8;
    assert((bits & 0xff) == bits % 256) by (bit_vector);
    assert(((bits >> 8u32) & 0xff) == bits / 256 % 256) by (bit_vector);
    assert(((bits >> 16u32) & 0xff) == bits / 65536 % 256) by (bit_vector);
    assert(((bits >> 24u32) & 0xff) == bits / 16777216 % 256) by (bit_vector);
    let bytes = [b0, b1, b2, b3];
    assert(bytes@ =~= le_bytes(bits as int));
    bytes
}

impl CovaObj for i32 {
    open spec fn type_text(&self) -> Seq<char> {
        "int"@
    }

    open spec fn payload(&self) -> Seq<u8> {
        le_bytes(pattern(*self as int))
    }

    fn get_type(&self) -> (s: &str) {
        "int"
    }

    fn to_bytes(&self) -> (bytes: [u8; 4]) {
        let n = *self;
        assert(n as u32 == pattern(n as int)) by (bit_vector);
        bytes_of(n as u32)
    }
}

/// A float, kept as the bit pattern of its IEEE-754 single-precision
/// value.
#[derive(Clone, Copy, Debug, PartialEq, Eq)]
pub struct FloatBits(pub u32);

impl CovaObj for FloatBits {
    open spec fn type_text(&self) -> Seq<char> {
        "float"@
    }

    open spec fn payload(&self) -> Seq<u8> {
        le_bytes(self.0 as int)
    }

    fn get_type(&self) -> (s: &str) {
        "float"
    }

    fn to_bytes(&self) -> (bytes: [u8; 4]) {
        bytes_of(self.0)
    }
}

/// Which way a helper of the generated code goes: from a scalar to a
/// boxed value, or from a payload to a scalar.
#[derive(Clone, Copy, Debug, PartialEq, Eq)]
pub enum Direction {
    Boxing,
    Unboxing,
}

/// The name of the helper that takes scalars of kind `kind` the way
/// `direction`; integers and floats have helpers, nothing else has.
pub open spec fn helper_of(kind: Kind, direction: Direction) -> Option<Seq<char>> {
    match (kind, direction) {
        (Kind::Int, Direction::Boxing) => Some("use_int"@),
        (Kind::Float, Direction::Boxing) => Some("use_float"@),
        (Kind::Int, Direction::Unboxing) => Some("mk_int"@),
        (Kind::Float, Direction::Unboxing) => Some("mk_float"@),
        _ => None,
    }
}

/// The kind of value that the helper for `kind` and `direction` yields: a
/// boxed value where it boxes, a scalar of the kind where it unboxes.
pub open spec fn yielded_by(kind: Kind, direction: Direction) -> Kind {
    match direction {
        Direction::Boxing => Kind::Struct,
        Direction::Unboxing => kind,
    }
}

/// The name that the result of the helper for `kind` and `direction` goes
/// under in the generated code.
pub open spec fn label_of(kind: Kind, direction: Direction) -> Option<Seq<char>> {
    match (kind, direction) {
        (Kind::Int, Direction::Boxing) => Some("iuse"@),
        (Kind::Float, Direction::Boxing) => Some("fuse"@),
        (Kind::Int, Direction::Unboxing) => Some("int"@),
        (Kind::Float, Direction::Unboxing) => Some("float"@),
        _ => None,
    }
}

/// The names of text, where there is one.
pub open spec fn text_of(name: Option<&'static str>) -> Option<Seq<char>> {
    match name {
        Some(n) => Some(n@),
        None => None,
    }
}

/// The name of the helper that takes scalars of kind `kind` the way
/// `direction`.
pub fn helper_name(kind: Kind, direction: Direction) -> (name: Option<&'static str>)
    ensures
        text_of(name) == helper_of(kind, direction),
{
    match (kind, direction) {
        (Kind::Int, Direction::Boxing) => Some("use_int"),
        (Kind::Float, Direction::Boxing) => Some("use_float"),
        (Kind::Int, Direction::Unboxing) => Some("mk_int"),
        (Kind::Float, Direction::Unboxing) => Some("mk_float"),
        _ => None,
    }
}

/// The name that the result of the helper for `kind` and `direction` goes
/// under.
pub fn helper_label(kind: Kind, direction: Direction) -> (name: Option<&'static str>)
    ensures
        text_of(name) == label_of(kind, direction),
{
    match (kind, direction) {
        (Kind::Int, Direction::Boxing) => Some("iuse"),
        (Kind::Float, Direction::Boxing) => Some("fuse"),
        (Kind::Int, Direction::Unboxing) => Some("int"),
        (Kind::Float, Direction::Unboxing) => Some("float"),
        _ => None,
    }
}

/// What the helper for `kind` and `direction` yields of what came back
/// of the call: the value, if one came back and it is of the kind that the
/// helper yields.
pub open spec fn yielded_of<'ctx>(
    kind: Kind,
    direction: Direction,
    got: Option<BasicValue<'ctx>>,
) -> Option<BasicValue<'ctx>> {
    match got {
        Some(v) => if v.kind() == yielded_by(kind, direction) {
            Some(v)
        } else {
            None
        },
        None => None,
    }
}

/// What the helper for `kind` and `direction` yields of what came back of
/// the call.
pub fn yielded<'ctx>(kind: Kind, direction: Direction, got: Option<BasicValue<'ctx>>) -> (r: Option<
    BasicValue<'ctx>,
>)
    ensures
        r == yielded_of(kind, direction, got),
{
    let wanted = match direction {
        Direction::Boxing => Kind::Struct,
        Direction::Unboxing => kind,
    };
    match got {
        Some(v) => {
            if v.get_kind() == wanted {
                Some(v)
            } else {
                None
            }
        },
        None => None,
    }
}

/// The kind that a boxed value is unboxed as and the payload that is
/// handed to the helper, from the tag and the payload that were read: none
/// where either could not be read, and where the tag is one of the
/// reserved ones.
pub open spec fn unboxing_of<'ctx>(tag: Option<i8>, bytes: Option<ArrayValue<'ctx>>) -> Option<
    (Kind, ArrayValue<'ctx>),
> {
    match (tag, bytes) {
        (Some(t), Some(b)) => match reading_of(t) {
            Some(kind) => Some((kind, b)),
            None => None,
        },
        _ => None,
    }
}

/// The kind that a boxed value is unboxed as and the payload that is
/// handed to the helper, from the tag and the payload that were read.
pub fn unboxing<'ctx>(tag: Option<i8>, bytes: Option<ArrayValue<'ctx>>) -> (r: Option<
    (Kind, ArrayValue<'ctx>),
>)
    ensures
        r == unboxing_of(tag, bytes),
{
    match (tag, bytes) {
        (Some(t), Some(b)) => {
            match reading(t) {
                Some(kind) => Some((kind, b)),
                None => None,
            }
        },
        _ => None,
    }
}

/// The type of what the helper for `kind` and `direction` takes: a scalar
/// of 32 bits of the kind to box it, a payload of four bytes to unbox it.
pub open spec fn helper_takes_of<'ctx>(context: &'ctx Context, kind: Kind, direction: Direction)
    -> Option<BasicType<'ctx>> {
    match (kind, direction) {
        (Kind::Int, Direction::Boxing) => Some(BasicType::Int(word_type(context))),
        (Kind::Float, Direction::Boxing) => Some(BasicType::Float(single_type(context))),
        (Kind::Int, Direction::Unboxing) => Some(
            BasicType::Array(array_type_of(byte_type(context), 4)),
        ),
        (Kind::Float, Direction::Unboxing) => Some(
            BasicType::Array(array_type_of(byte_type(context), 4)),
        ),
        _ => None,
    }
}

/// The type of what the helper for `kind` and `direction` yields: a boxed
/// value where it boxes, a scalar of 32 bits of the kind where it unboxes.
pub open spec fn helper_yields_of<'ctx>(context: &'ctx Context, kind: Kind, direction: Direction)
    -> Option<BasicType<'ctx>> {
    match (kind, direction) {
        (Kind::Int, Direction::Boxing) => Some(BasicType::Struct(boxed_type(context))),
        (Kind::Float, Direction::Boxing) => Some(BasicType::Struct(boxed_type(context))),
        (Kind::Int, Direction::Unboxing) => Some(BasicType::Int(word_type(context))),
        (Kind::Float, Direction::Unboxing) => Some(BasicType::Float(single_type(context))),
        _ => None,
    }
}

/// The type of what the helper for `kind` and `direction` takes.
pub fn helper_takes<'ctx>(context: &'ctx Context, kind: Kind, direction: Direction) -> (r: Option<
    BasicType<'ctx>,
>)
    ensures
        r == helper_takes_of(context, kind, direction),
{
    match (kind, direction) {
        (Kind::Int, Direction::Boxing) => Some(BasicType::Int(i32_type(context))),
        (Kind::Float, Direction::Boxing) => Some(BasicType::Float(f32_type(context))),
        (Kind::Int, Direction::Unboxing) => Some(
            BasicType::Array(array_type(i8_type(context), 4)),
        ),
        (Kind::Float, Direction::Unboxing) => Some(
            BasicType::Array(array_type(i8_type(context), 4)),
        ),
        _ => None,
    }
}

/// The type of what the helper for `kind` and `direction` yields.
pub fn helper_yields<'ctx>(context: &'ctx Context, kind: Kind, direction: Direction) -> (r: Option<
    BasicType<'ctx>,
>)
    ensures
        r == helper_yields_of(context, kind, direction),
{
    match (kind, direction) {
        (Kind::Int, Direction::Boxing) => Some(BasicType::Struct(boxed_type_in(context))),
        (Kind::Float, Direction::Boxing) => Some(BasicType::Struct(boxed_type_in(context))),
        (Kind::Int, Direction::Unboxing) => Some(BasicType::Int(i32_type(context))),
        (Kind::Float, Direction::Unboxing) => Some(BasicType::Float(f32_type(context))),
        _ => None,
    }
}

/// The boxed value of `obj`, on plain values: its payload, the tag of its
/// kind and no string. None for a kind that is neither `int` nor `float`.
pub fn boxed_constant<T: CovaObj>(obj: &T) -> (r: Option<Obj>)
    ensures
        r is Some <==> tag_of_text(obj.type_text()) is Some,
        r matches Some(b) ==> b.bytes@ == obj.payload() && Some(b.tag) == tag_of_text(
            obj.type_text(),
        ) && b.text == NULL,
{
    match tag_for(obj.get_type()) {
        Some(tag) => Some(Obj { bytes: obj.to_bytes(), tag, text: NULL }),
        None => None,
    }
}


impl<'ctx> Source<'ctx> {
    /// Whether this lowering stands where `other` stands and has reported
    /// what `other` has.
    pub open spec fn stands_as(&self, other: &Source<'ctx>) -> bool {
        &&& self.line == other.line
        &&& self.column == other.column
        &&& self.reported() == other.reported()
    }

    /// The type of a boxed value: four bytes of payload, a one-byte tag and
    /// a pointer to a byte, in this order and not packed.
    pub fn obj_type(&mut self) -> (r: StructType<'ctx>)
        ensures
            r == struct_type_of(
                Layout {
                    context: old(self).context,
                    first: array_type_of(byte_type(old(self).context), 4),
                    second: byte_type(old(self).context),
                    third: pointer_type_of(byte_type(old(self).context)),
                    packed: false,
                },
            ),
            *final(self) == *old(self),
    {
        boxed_type_in(self.context)
    }

    /// The constant boxed value of `obj`: the constant with the payload
    /// and the tag that `boxed_constant` gives, and no string. None for a
    /// kind that is neither `int` nor `float`.
    pub fn mk_obj<T: CovaObj>(&mut self, obj: T) -> (r: Option<Boxed<'ctx>>)
        ensures
            r == (match tag_of_text(obj.type_text()) {
                Some(tag) => Boxed::made(
                    old(self).context,
                    const_bytes_of(byte_type(old(self).context), obj.payload()),
                    tag,
                ),
                None => None,
            }),
            r is Some <==> tag_of_text(obj.type_text()) is Some,
            *final(self) == *old(self),
    {
        let plain = match boxed_constant(&obj) {
            Some(plain) => plain,
            None => {
                return None;
            },
        };
        let payload = const_bytes(i8_type(self.context), &plain.bytes);
        Boxed::constant(self.context, payload, plain.tag)
    }

    /// Calls the helper that takes scalars of kind `kind` the way
    /// `direction` on `arg`, and hands back what `yielded` makes of what
    /// comes of the call. The helper is called only if the module has a
    /// function of its name that takes what the helper is to take and yields
    /// what it is to yield, and if `arg` is of the type that it takes. None
    /// also where the builder refuses.
    fn call(&mut self, kind: Kind, direction: Direction, arg: BasicValue<'ctx>) -> (r: Option<
        BasicValue<'ctx>,
    >)
        ensures
            helper_of(kind, direction) is None ==> r is None,
            helper_takes_of(old(self).context, kind, direction) matches Some(takes) ==> !same_type(
                arg,
                takes,
            ) ==> r is None,
            r matches Some(v) ==> v.kind() == yielded_by(kind, direction),
            *final(self) == *old(self),
    {
        let name = match helper_name(kind, direction) {
            Some(name) => name,
            None => {
                return None;
            },
        };
        let label = match helper_label(kind, direction) {
            Some(label) => label,
            None => {
                return None;
            },
        };
        let takes = match helper_takes(self.context, kind, direction) {
            Some(takes) => takes,
            None => {
                return None;
            },
        };
        let yields = match helper_yields(self.context, kind, direction) {
            Some(yields) => yields,
            None => {
                return None;
            },
        };
        if !has_type(&arg, &takes) {
            return None;
        }
        let shape = Shape { yields: declassify_type(yields), takes: declassify_type(takes) };
        let wanted = function_type(&shape);
        let got = match find_function(&self.module, name) {
            Some(f) => {
                if function_has_type(&f, &wanted) {
                    assert(type_of_function(f) == function_type_of(shape));
                    match call_function(&self.builder, f, declassify(arg), label) {
                        Some(v) => Some(classify(v)),
                        None => None,
                    }
                } else {
                    None
                }
            },
            None => None,
        };
        yielded(kind, direction, got)
    }

    /// Emits the call that boxes the integer `val` when the program runs:
    /// a call of the boxing helper for integers. None where `val` has not 32
    /// bits, where the module lacks the helper, and where the builder
    /// refuses.
    pub fn use_int(&mut self, val: IntValue<'ctx>) -> (r: Option<Boxed<'ctx>>)
        ensures
            !same_type(BasicValue::Int(val), BasicType::Int(word_type(old(self).context)))
                ==> r is None,
            r matches Some(b) ==> b.context == old(self).context && b.site is Value,
            *final(self) == *old(self),
    {
        match self.call(Kind::Int, Direction::Boxing, BasicValue::Int(val)) {
            Some(BasicValue::Struct(value)) => Some(Boxed::value(self.context, value)),
            _ => None,
        }
    }

    /// Emits the call that boxes the float `val` when the program runs: a
    /// call of the boxing helper for floats. None where `val` has not 32
    /// bits, where the module lacks the helper, and where the builder
    /// refuses.
    pub fn use_float(&mut self, val: FloatValue<'ctx>) -> (r: Option<Boxed<'ctx>>)
        ensures
            !same_type(BasicValue::Float(val), BasicType::Float(single_type(old(self).context)))
                ==> r is None,
            r matches Some(b) ==> b.context == old(self).context && b.site is Value,
            *final(self) == *old(self),
    {
        match self.call(Kind::Float, Direction::Boxing, BasicValue::Float(val)) {
            Some(BasicValue::Struct(value)) => Some(Boxed::value(self.context, value)),
            _ => None,
        }
    }

    /// Emits the call that reads a payload as an integer when the program
    /// runs: a call of the unboxing helper for integers. None where `val`
    /// is no array of four bytes, where the module lacks the helper, and
    /// where the builder refuses.
    pub fn mk_int(&mut self, val: ArrayValue<'ctx>) -> (r: Option<IntValue<'ctx>>)
        ensures
            !same_type(
                BasicValue::Array(val),
                BasicType::Array(array_type_of(byte_type(old(self).context), 4)),
            ) ==> r is None,
            *final(self) == *old(self),
    {
        match self.call(Kind::Int, Direction::Unboxing, BasicValue::Array(val)) {
            Some(read) => read.as_int(),
            None => None,
        }
    }

    /// Emits the call that reads a payload as a float when the program
    /// runs: a call of the unboxing helper for floats. None where `val` is
    /// no array of four bytes, where the module lacks the helper, and where
    /// the builder refuses.
    pub fn mk_float(&mut self, val: ArrayValue<'ctx>) -> (r: Option<FloatValue<'ctx>>)
        ensures
            !same_type(
                BasicValue::Array(val),
                BasicType::Array(array_type_of(byte_type(old(self).context), 4)),
            ) ==> r is None,
            *final(self) == *old(self),
    {
        match self.call(Kind::Float, Direction::Unboxing, BasicValue::Array(val)) {
            Some(read) => read.as_float(),
            None => None,
        }
    }

    /// Boxes a scalar when the program runs, through the boxing helper for
    /// its kind. None for a value that is neither an integer nor a float
    /// of 32 bits.
    pub fn mk_basic_obj(&mut self, obj: BasicValue<'ctx>) -> (r: Option<Boxed<'ctx>>)
        ensures
            helper_of(obj.kind(), Direction::Boxing) is None ==> r is None,
            helper_takes_of(old(self).context, obj.kind(), Direction::Boxing) matches Some(takes)
                ==> !same_type(obj, takes) ==> r is None,
            r matches Some(b) ==> b.context == old(self).context && b.site is Value,
            *final(self) == *old(self),
    {
        match self.call(obj.get_kind(), Direction::Boxing, obj) {
            Some(BasicValue::Struct(value)) => Some(Boxed::value(self.context, value)),
            _ => None,
        }
    }

    /// Unboxes `val`: its payload is read as its tag says, through the
    /// unboxing helper for integers or for floats. None where the tag or
    /// the payload cannot be read while compiling, as of a value that the
    /// lowering cannot reach, and where the tag is one of the reserved ones.
    pub fn mk_val(&mut self, val: Boxed<'ctx>) -> (r: Option<BasicValue<'ctx>>)
        ensures
            r matches Some(v) ==> v.kind() == Kind::Int || v.kind() == Kind::Float,
            val.held_tag() matches Some(tag) ==> {
                &&& reading_of(tag) is None ==> r is None
                &&& r matches Some(v) ==> Some(v.kind()) == reading_of(tag)
            },
            val.held_tag() is None && !in_reach(old(self).context, val.site) ==> r is None,
            *final(self) == *old(self),
    {
        let tag = val.get_ty(self);
        let readable = match tag {
            Some(t) => reading(t).is_some(),
            None => false,
        };
        let bytes = if readable {
            val.get_value(self)
        } else {
            None
        };
        match unboxing(tag, bytes) {
            Some((kind, payload)) => self.call(
                kind,
                Direction::Unboxing,
                BasicValue::Array(payload),
            ),
            None => None,
        }
    }
}

/// What the naming of a type reads of it, for a type of any kind.
#[derive(Debug, PartialEq)]
pub enum AnyShape {
    Array(Box<BasicShape>),
    Float,
    Function,
    /// An integer of so many bits.
    Int(u32),
    /// A pointer to a value of the type given.
    Pointer(Box<AnyShape>),
    Struct,
    Vector,
    Void,
}

/// What the naming of a type reads of it, for a basic type.
#[derive(Debug, PartialEq)]
pub enum BasicShape {
    /// An array of elements of the type given.
    Array(Box<BasicShape>),
    Float,
    /// An integer of so many bits.
    Int(u32),
    /// A pointer to a value of the type given.
    Pointer(Box<AnyShape>),
    Struct,
    Vector,
}

/// Whether a type of any kind is one of the basic types that have a name:
/// a pointer, an integer, a float or an array.
pub open spec fn is_basic(ty: AnyShape) -> bool {
    ty is Pointer || ty is Int || ty is Float || ty is Array
}

/// The basic type that a type of any kind is; none for a type that is no
/// pointer, integer, float or array.
pub open spec fn as_basic(ty: AnyShape) -> Option<BasicShape> {
    match ty {
        AnyShape::Pointer(p) => Some(BasicShape::Pointer(p)),
        AnyShape::Int(bits) => Some(BasicShape::Int(bits)),
        AnyShape::Float => Some(BasicShape::Float),
        AnyShape::Array(t) => Some(BasicShape::Array(t)),
        _ => None,
    }
}

/// The basic type that `ty` is.
pub fn any_type_to_basic(ty: AnyShape) -> (r: BasicShape)
    requires
        is_basic(ty),
    ensures
        as_basic(ty) == Some(r),
{
    match ty {
        AnyShape::Pointer(p) => BasicShape::Pointer(p),
        AnyShape::Int(bits) => BasicShape::Int(bits),
        AnyShape::Float => BasicShape::Float,
        AnyShape::Array(t) => BasicShape::Array(t),
        _ => unreached(),
    }
}

/// Whether a basic type has a name: integers and floats have, and arrays
/// of and pointers to what has.
pub open spec fn nameable(ty: BasicShape) -> bool
    decreases ty,
{
    match ty {
        BasicShape::Int(_) => true,
        BasicShape::Float => true,
        BasicShape::Array(t) => nameable(*t),
        BasicShape::Pointer(t) => any_nameable(*t),
        _ => false,
    }
}

/// Whether a type of any kind is a basic type that has a name.
pub open spec fn any_nameable(ty: AnyShape) -> bool
    decreases ty,
{
    match ty {
        AnyShape::Int(_) => true,
        AnyShape::Float => true,
        AnyShape::Array(t) => nameable(*t),
        AnyShape::Pointer(t) => any_nameable(*t),
        _ => false,
    }
}

/// The name of a basic type: `_i` and the width for an integer, `_float`
/// for a float, `_arr_` before the name of what an array holds, `_ptr_`
/// before the name of what a pointer points to.
pub open spec fn name_text(ty: BasicShape) -> Seq<char>
    decreases ty,
{
    match ty {
        BasicShape::Int(bits) => "_i"@ + decimal_text(bits as nat),
        BasicShape::Float => "_float"@,
        BasicShape::Array(t) => "_arr_"@ + name_text(*t),
        BasicShape::Pointer(t) => "_ptr_"@ + any_name_text(*t),
        _ => Seq::empty(),
    }
}

/// The name of the basic type that a type of any kind is.
pub open spec fn any_name_text(ty: AnyShape) -> Seq<char>
    decreases ty,
{
    match ty {
        AnyShape::Int(bits) => "_i"@ + decimal_text(bits as nat),
        AnyShape::Float => "_float"@,
        AnyShape::Array(t) => "_arr_"@ + name_text(*t),
        AnyShape::Pointer(t) => "_ptr_"@ + any_name_text(*t),
        _ => Seq::empty(),
    }
}

/// A type of any kind that is basic has the name of the basic type it is.
pub proof fn lemma_any_type_name(ty: AnyShape)
    requires
        is_basic(ty),
    ensures
        as_basic(ty) is Some,
        any_name_text(ty) == name_text(as_basic(ty)->Some_0),
        any_nameable(ty) == nameable(as_basic(ty)->Some_0),
{
}

/// Whether a type of any kind is a basic type that has a name.
fn any_has_name(ty: &AnyShape) -> (b: bool)
    ensures
        b == any_nameable(*ty),
    decreases ty,
{
    match ty {
        AnyShape::Int(_) => true,
        AnyShape::Float => true,
        AnyShape::Array(t) => has_name(t),
        AnyShape::Pointer(t) => any_has_name(t),
        _ => false,
    }
}

/// Whether a basic type has a name.
pub fn has_name(ty: &BasicShape) -> (b: bool)
    ensures
        b == nameable(*ty),
    decreases ty,
{
    match ty {
        BasicShape::Int(_) => true,
        BasicShape::Float => true,
        BasicShape::Array(t) => has_name(t),
        BasicShape::Pointer(t) => any_has_name(t),
        _ => false,
    }
}

/// The name of the basic type that `ty` is.
fn name_of_any(ty: &AnyShape) -> (name: String)
    requires
        any_nameable(*ty),
    ensures
        name@ == any_name_text(*ty),
    decreases ty,
{
    match ty {
        AnyShape::Int(bits) => String::from_str("_i").concat(decimal(*bits as u64).as_str()),
        AnyShape::Float => String::from_str("_float"),
        AnyShape::Array(t) => String::from_str("_arr_").concat(name_of(t).as_str()),
        AnyShape::Pointer(t) => String::from_str("_ptr_").concat(name_of_any(t).as_str()),
        _ => String::new(),
    }
}

/// The name of `ty`.
fn name_of(ty: &BasicShape) -> (name: String)
    requires
        nameable(*ty),
    ensures
        name@ == name_text(*ty),
    decreases ty,
{
    match ty {
        BasicShape::Int(bits) => String::from_str("_i").concat(decimal(*bits as u64).as_str()),
        BasicShape::Float => String::from_str("_float"),
        BasicShape::Array(t) => String::from_str("_arr_").concat(name_of(t).as_str()),
        BasicShape::Pointer(t) => String::from_str("_ptr_").concat(name_of_any(t).as_str()),
        _ => String::new(),
    }
}

/// The name under which the helpers for values of the type `ty` go.
pub fn get_type_name(ty: BasicShape) -> (name: String)
    requires
        nameable(ty),
    ensures
        name@ == name_text(ty),
{
    name_of(&ty)
}

} // verus!

