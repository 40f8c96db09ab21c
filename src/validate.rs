//! Which declarations can be exported: the checks that turn a declaration
//! away before any wrapper is written.
use vstd::prelude::*;
use crate::decl::{Diagnostic, DiagnosticKind, FunctionDecl, Method, Param};
use crate::roles::{is_self_type, returns_owner};
use crate::text::owned;
use crate::types::{
    classify, descriptor_of, is_ffi_kind, is_payload_kind, Kind, RustType, TypeDescriptor,
};

verus! {

/// The type passes the boundary unchanged.
pub open spec fn passes(t: RustType) -> bool {
    descriptor_of(t) matches TypeDescriptor::Plain(k) && is_ffi_kind(k)
}

/// A parameter that a wrapper can take: a receiver, or a typed parameter
/// whose type passes the boundary unchanged.
pub open spec fn param_ok(p: Param) -> bool {
    match p {
        Param::SelfRef { .. } => true,
        Param::Typed { ty, .. } => passes(ty),
    }
}

pub open spec fn params_ok(ps: Seq<Param>) -> bool {
    forall|i: int| 0 <= i < ps.len() ==> param_ok(#[trigger] ps[i])
}

/// A free function has no receiver.
pub open spec fn free_params_ok(ps: Seq<Param>) -> bool {
    forall|i: int| 0 <= i < ps.len() ==> (#[trigger] ps[i] is Typed && param_ok(ps[i]))
}

/// A return type that a free function's wrapper can hand out: one that passes
/// unchanged, or a two-variant or one-variant shape whose payloads are
/// primitives or `()`.
pub open spec fn descriptor_ok(d: TypeDescriptor) -> bool {
    match d {
        TypeDescriptor::Plain(k) => is_ffi_kind(k),
        TypeDescriptor::ErrorShape(ok, err) => is_payload_kind(ok) && is_payload_kind(err),
        TypeDescriptor::OptionalShape(inner) => is_payload_kind(inner),
    }
}

pub open spec fn fn_return_ok(ret: Option<RustType>) -> bool {
    match ret {
        None => true,
        Some(t) => descriptor_ok(descriptor_of(t)),
    }
}

/// A return type that a method's wrapper can hand out: the owner type, which
/// is boxed, or one that a free function's wrapper can hand out (passed
/// unchanged, or a `Result` or `Option` of primitives or `()`, reshaped).
pub open spec fn method_return_ok(ret: Option<RustType>, owner: Seq<char>) -> bool {
    match ret {
        None => true,
        Some(t) => returns_owner(ret, owner) || descriptor_ok(descriptor_of(t)),
    }
}

/// The text a type diagnostic gives for a parameter.
pub open spec fn param_text(p: Param) -> Seq<char> {
    match p {
        Param::SelfRef { .. } => "self"@,
        Param::Typed { ty, .. } => ty.text@,
    }
}

/// The subject of a type diagnostic is the text of an offending parameter or
/// return type.
pub open spec fn blames_param_or_return(
    subject: Seq<char>,
    ps: Seq<Param>,
    ret: Option<RustType>,
) -> bool {
    ||| exists|i: int| 0 <= i < ps.len() && param_text(#[trigger] ps[i]) == subject
    ||| ret matches Some(t) && subject == t.text@
}

/// The function can be exported as it stands.
pub open spec fn function_ok(f: FunctionDecl) -> bool {
    !f.is_unsafe && free_params_ok(f.params@) && fn_return_ok(f.ret)
}

/// The method's wrapper can be generated.
pub open spec fn method_ok(m: Method, owner: Seq<char>) -> bool {
    !m.is_unsafe && params_ok(m.params@) && method_return_ok(m.ret, owner)
}

/// The diagnostic a declaration fails with, judged by its kind and text.
pub open spec fn failure_matches(
    d: Diagnostic,
    is_unsafe: bool,
    ps: Seq<Param>,
    ret: Option<RustType>,
) -> bool {
    if is_unsafe {
        d.kind == DiagnosticKind::Safety
    } else {
        d.kind == DiagnosticKind::Type && blames_param_or_return(d.subject@, ps, ret)
    }
}

pub fn type_error(t: &RustType) -> (d: Diagnostic)
    ensures
        d.kind == DiagnosticKind::Type,
        d.subject@ == t.text@,
{
    Diagnostic { kind: DiagnosticKind::Type, subject: t.text.clone() }
}

pub fn safety_error() -> (d: Diagnostic)
    ensures
        d.kind == DiagnosticKind::Safety,
{
    Diagnostic { kind: DiagnosticKind::Safety, subject: String::new() }
}

fn passes_unchanged(t: &RustType) -> (r: bool)
    ensures
        r == passes(*t),
{
    match classify(t) {
        TypeDescriptor::Plain(k) => matches!(k, Kind::Primitive)
            || matches!(k, Kind::OpaquePointer) || matches!(k, Kind::Unit),
        _ => false,
    }
}

/// Checks the parameters: `Err` names the first offending one.
pub fn check_params(ps: &Vec<Param>, allow_receiver: bool) -> (r: Result<(), Diagnostic>)
    ensures
        r is Ok <==> (if allow_receiver {
            params_ok(ps@)
        } else {
            free_params_ok(ps@)
        }),
        r matches Err(d) ==> d.kind == DiagnosticKind::Type && blames_param_or_return(
            d.subject@,
            ps@,
            None,
        ),
{
    let mut i: usize = 0;
    while i < ps.len()
        invariant
            i <= ps.len(),
            forall|j: int|
                0 <= j < i ==> param_ok(#[trigger] ps@[j]) && (allow_receiver || ps@[j] is Typed),
        decreases ps.len() - i,
    {
        match &ps[i] {
            Param::SelfRef { .. } => {
                if !allow_receiver {
                    let d = Diagnostic { kind: DiagnosticKind::Type, subject: owned("self") };
                    assert(ps@[i as int] is SelfRef);
                    return Err(d);
                }
            },
            Param::Typed { ty, .. } => {
                if !passes_unchanged(ty) {
                    assert(!param_ok(ps@[i as int]));
                    return Err(type_error(ty));
                }
            },
        }
        i = i + 1;
    }
    Ok(())
}

fn descriptor_accepted(d: TypeDescriptor) -> (r: bool)
    ensures
        r == descriptor_ok(d),
{
    match d {
        TypeDescriptor::Plain(k) => matches!(k, Kind::Primitive) || matches!(k, Kind::OpaquePointer)
            || matches!(k, Kind::Unit),
        TypeDescriptor::ErrorShape(ok, err) => (matches!(ok, Kind::Primitive) || matches!(
            ok,
            Kind::Unit,
        )) && (matches!(err, Kind::Primitive) || matches!(err, Kind::Unit)),
        TypeDescriptor::OptionalShape(inner) => matches!(inner, Kind::Primitive) || matches!(
            inner,
            Kind::Unit,
        ),
    }
}

/// Checks a free function: not `unsafe`, and every type it names can cross
/// the boundary.
pub fn check_function(f: &FunctionDecl) -> (r: Result<(), Diagnostic>)
    ensures
        r is Ok <==> function_ok(*f),
        r matches Err(d) ==> failure_matches(d, f.is_unsafe, f.params@, f.ret),
{
    if f.is_unsafe {
        return Err(safety_error());
    }
    check_params(&f.params, false)?;
    match &f.ret {
        Some(t) => {
            if !descriptor_accepted(classify(t)) {
                return Err(type_error(t));
            }
        },
        None => {},
    }
    Ok(())
}

/// Checks a method of the collection owned by `owner`: not `unsafe`, its
/// typed parameters pass the boundary unchanged, and it returns nothing, the
/// owner type (which is boxed), a type that passes unchanged, or a `Result`
/// or `Option` of primitives or `()` (reshaped into a flag record).
pub fn check_method(m: &Method, owner: &str) -> (r: Result<(), Diagnostic>)
    ensures
        r is Ok <==> method_ok(*m, owner@),
        r matches Err(d) ==> failure_matches(d, m.is_unsafe, m.params@, m.ret),
{
    if m.is_unsafe {
        return Err(safety_error());
    }
    check_params(&m.params, true)?;
    match &m.ret {
        Some(t) => {
            if !is_self_type(t, owner) && !descriptor_accepted(classify(t)) {
                return Err(type_error(t));
            }
        },
        None => {},
    }
    Ok(())
}

} // verus!
