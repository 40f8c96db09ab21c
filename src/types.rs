//! The type model and the compatibility oracle: which types may cross the
//! foreign boundary, and in what role.
use vstd::prelude::*;
use crate::text::same_text;

verus! {

/// A type as written in a declaration: the parts of its syntax that decide
/// how it crosses the boundary, and its source text.
pub struct RustType {
    pub shape: TypeShape,
    pub text: String,
}

pub enum TypeShape {
    /// A path type: the identifier of its last segment and the type
    /// arguments given to that segment, in order.
    Path { ident: String, args: Vec<RustType> },
    /// The empty tuple `()`.
    Unit,
    /// A raw pointer, `*const T` or `*mut T`.
    Pointer,
    /// Anything else: references, arrays, slices, non-empty tuples, ...
    Other,
}

/// How a single type crosses the boundary on its own.
#[derive(Clone, Copy, Debug, PartialEq, Eq, Structural)]
pub enum Kind {
    /// A fixed-width integer, a float, `bool` or `char`: passed unchanged.
    Primitive,
    /// A raw pointer: passed unchanged.
    OpaquePointer,
    /// `()`.
    Unit,
    /// `String` or `Vec`: accepted only as a record field, copied on read.
    Container,
    Unsupported,
}

/// How a type crosses the boundary, with the two-variant and one-variant
/// shapes taken apart.
#[derive(Clone, Copy, Debug, PartialEq, Eq, Structural)]
pub enum TypeDescriptor {
    Plain(Kind),
    /// `Result<ok, err>`, with the kinds of its two payloads.
    ErrorShape(Kind, Kind),
    /// `Option<inner>`, with the kind of its payload.
    OptionalShape(Kind),
}

pub open spec fn is_primitive_name(s: Seq<char>) -> bool {
    ||| s == "i8"@
    ||| s == "i16"@
    ||| s == "i32"@
    ||| s == "i64"@
    ||| s == "i128"@
    ||| s == "u8"@
    ||| s == "u16"@
    ||| s == "u32"@
    ||| s == "u64"@
    ||| s == "u128"@
    ||| s == "f32"@
    ||| s == "f64"@
    ||| s == "bool"@
    ||| s == "char"@
    ||| s == "usize"@
    ||| s == "isize"@
}

pub open spec fn is_container_name(s: Seq<char>) -> bool {
    s == "String"@ || s == "Vec"@
}

/// The kind of a type taken on its own, without looking into type arguments.
pub open spec fn kind_of(t: RustType) -> Kind {
    match t.shape {
        TypeShape::Path { ident, .. } => if is_primitive_name(ident@) {
            Kind::Primitive
        } else if is_container_name(ident@) {
            Kind::Container
        } else {
            Kind::Unsupported
        },
        TypeShape::Unit => Kind::Unit,
        TypeShape::Pointer => Kind::OpaquePointer,
        TypeShape::Other => Kind::Unsupported,
    }
}

/// `Result` with at least two type arguments: the first two are its payloads.
pub open spec fn is_result_shape(t: RustType) -> bool {
    t.shape matches TypeShape::Path { ident, args } && ident@ == "Result"@ && args@.len() >= 2
}

/// `Option` with at least one type argument: the first is its payload.
pub open spec fn is_option_shape(t: RustType) -> bool {
    t.shape matches TypeShape::Path { ident, args } && ident@ == "Option"@ && args@.len() >= 1
}

pub open spec fn type_args(t: RustType) -> Seq<RustType> {
    match t.shape {
        TypeShape::Path { args, .. } => args@,
        _ => Seq::empty(),
    }
}

/// The classification of a type.  The payloads of the two shapes are
/// classified on their own, so a shape nested in a shape is `Unsupported`.
pub open spec fn descriptor_of(t: RustType) -> TypeDescriptor {
    if is_result_shape(t) {
        TypeDescriptor::ErrorShape(kind_of(type_args(t)[0]), kind_of(type_args(t)[1]))
    } else if is_option_shape(t) {
        TypeDescriptor::OptionalShape(kind_of(type_args(t)[0]))
    } else {
        TypeDescriptor::Plain(kind_of(t))
    }
}

/// Passed through the boundary unchanged, as a parameter or a return value.
pub open spec fn is_ffi_kind(k: Kind) -> bool {
    k is Primitive || k is OpaquePointer || k is Unit
}

/// May stand in a slot of an error or optional record: it must be
/// self-contained and have an all-zero value.
pub open spec fn is_payload_kind(k: Kind) -> bool {
    k is Primitive || k is Unit
}

/// Gets an accessor pair when it is the type of a record field.
pub open spec fn is_field_kind(k: Kind) -> bool {
    is_ffi_kind(k) || k is Container
}

fn is_primitive_ident(s: &str) -> (r: bool)
    ensures
        r == is_primitive_name(s@),
{
    same_text(s, "i8") || same_text(s, "i16") || same_text(s, "i32") || same_text(s, "i64")
        || same_text(s, "i128") || same_text(s, "u8") || same_text(s, "u16") || same_text(s, "u32")
        || same_text(s, "u64") || same_text(s, "u128") || same_text(s, "f32") || same_text(s, "f64")
        || same_text(s, "bool") || same_text(s, "char") || same_text(s, "usize") || same_text(
        s,
        "isize",
    )
}

/// Whether the type passes the C ABI unchanged: a primitive, `()` or a raw pointer.
pub fn is_ffi_compatible_type(t: &RustType) -> (r: bool)
    ensures
        r == is_ffi_kind(kind_of(*t)),
{
    match &t.shape {
        TypeShape::Path { ident, .. } => is_primitive_ident(ident.as_str()),
        TypeShape::Unit => true,
        TypeShape::Pointer => true,
        TypeShape::Other => false,
    }
}

/// Whether a getter of a field of this type must hand out a copy: `String` or `Vec`.
pub fn needs_clone_for_getter(t: &RustType) -> (r: bool)
    ensures
        r == (kind_of(*t) is Container),
{
    match &t.shape {
        TypeShape::Path { ident, .. } => {
            !is_primitive_ident(ident.as_str()) && (same_text(ident.as_str(), "String")
                || same_text(ident.as_str(), "Vec"))
        },
        _ => false,
    }
}

/// The kind of a type taken on its own.
pub fn kind(t: &RustType) -> (k: Kind)
    ensures
        k == kind_of(*t),
{
    if is_ffi_compatible_type(t) {
        match &t.shape {
            TypeShape::Unit => Kind::Unit,
            TypeShape::Pointer => Kind::OpaquePointer,
            _ => Kind::Primitive,
        }
    } else if needs_clone_for_getter(t) {
        Kind::Container
    } else {
        Kind::Unsupported
    }
}

/// The success and failure payloads of a `Result`, if the type is one.
pub fn extract_result_type(t: &RustType) -> (r: Option<(&RustType, &RustType)>)
    ensures
        r is Some == is_result_shape(*t),
        r matches Some((ok, err)) ==> *ok == type_args(*t)[0] && *err == type_args(*t)[1],
{
    match &t.shape {
        TypeShape::Path { ident, args } => {
            if same_text(ident.as_str(), "Result") && args.len() >= 2 {
                Some((&args[0], &args[1]))
            } else {
                None
            }
        },
        _ => None,
    }
}

/// The payload of an `Option`, if the type is one.
pub fn extract_option_type(t: &RustType) -> (r: Option<&RustType>)
    ensures
        r is Some == is_option_shape(*t),
        r matches Some(inner) ==> *inner == type_args(*t)[0],
{
    match &t.shape {
        TypeShape::Path { ident, args } => {
            if same_text(ident.as_str(), "Option") && args.len() >= 1 {
                Some(&args[0])
            } else {
                None
            }
        },
        _ => None,
    }
}

/// Classifies a type.
pub fn classify(t: &RustType) -> (d: TypeDescriptor)
    ensures
        d == descriptor_of(*t),
{
    if let Some((ok, err)) = extract_result_type(t) {
        TypeDescriptor::ErrorShape(kind(ok), kind(err))
    } else if let Some(inner) = extract_option_type(t) {
        TypeDescriptor::OptionalShape(kind(inner))
    } else {
        TypeDescriptor::Plain(kind(t))
    }
}

} // verus!
