//! The role of each method of a method collection, and how its result
//! crosses the boundary.
use vstd::prelude::*;
use crate::decl::{receiver, receiver_of, Method, Receiver};
use crate::text::same_text;
use crate::types::{
    extract_option_type, extract_result_type, is_option_shape, is_result_shape, RustType, TypeShape,
};

verus! {

#[derive(Clone, Copy, Debug, PartialEq, Eq, Structural)]
pub enum MethodRole {
    /// Makes a new instance of the owner, handed out boxed.
    Constructor,
    /// Needs no instance, and makes none.
    StaticFunction,
    /// Works on an instance it receives by reference.
    InstanceMethod,
}

/// How a wrapper hands out what the method returns.
#[derive(Clone, Copy, Debug, PartialEq, Eq, Structural)]
pub enum ReturnHandling {
    /// The method returns nothing.
    Nothing,
    /// The value is returned as it is.
    Plain,
    /// The value, an instance of the owner, is moved to the heap and an
    /// owning pointer to it is returned.
    Boxed,
    /// The `Result` is reshaped into a flag record with a success and a
    /// failure slot, the inactive one zero-filled.
    ErrorRecord,
    /// The `Option` is reshaped into a flag record with a payload slot,
    /// zero-filled when absent.
    OptionRecord,
}

/// The type names the owner: its last segment is `Self` or the owner's name.
pub open spec fn is_owner_type(t: RustType, owner: Seq<char>) -> bool {
    t.shape matches TypeShape::Path { ident, .. } && (ident@ == "Self"@ || ident@ == owner)
}

pub open spec fn returns_owner(ret: Option<RustType>, owner: Seq<char>) -> bool {
    ret matches Some(t) && is_owner_type(t, owner)
}

/// The role of a method with this name, receiver and return type.  A receiver
/// makes a method an instance method whatever its name and return type.
pub open spec fn role_of(
    name: Seq<char>,
    recv: Receiver,
    ret: Option<RustType>,
    owner: Seq<char>,
) -> MethodRole {
    if recv is NoReceiver && (name == "new"@ || returns_owner(ret, owner)) {
        MethodRole::Constructor
    } else if !(recv is NoReceiver) {
        MethodRole::InstanceMethod
    } else {
        MethodRole::StaticFunction
    }
}

pub open spec fn method_role(m: Method, owner: Seq<char>) -> MethodRole {
    role_of(m.name@, receiver_of(m.params@), m.ret, owner)
}

/// What crosses the boundary in place of the result: every value of the owner
/// type, whichever role made it, is boxed; a `Result` or an `Option` is
/// reshaped into a flag record as a free function's is.
pub open spec fn handling_of(
    role: MethodRole,
    ret: Option<RustType>,
    owner: Seq<char>,
) -> ReturnHandling {
    if role is Constructor || returns_owner(ret, owner) {
        ReturnHandling::Boxed
    } else if ret is None {
        ReturnHandling::Nothing
    } else if is_result_shape(ret->0) {
        ReturnHandling::ErrorRecord
    } else if is_option_shape(ret->0) {
        ReturnHandling::OptionRecord
    } else {
        ReturnHandling::Plain
    }
}

/// Whether the type names the owner.
pub fn is_self_type(t: &RustType, owner: &str) -> (r: bool)
    ensures
        r == is_owner_type(*t, owner@),
{
    match &t.shape {
        TypeShape::Path { ident, .. } => same_text(ident.as_str(), "Self") || same_text(
            ident.as_str(),
            owner,
        ),
        _ => false,
    }
}

fn returns_self(ret: &Option<RustType>, owner: &str) -> (r: bool)
    ensures
        r == returns_owner(*ret, owner@),
{
    match ret {
        Some(t) => is_self_type(t, owner),
        None => false,
    }
}

/// The role of a method of the collection owned by `owner`.
pub fn classify_method(m: &Method, owner: &str) -> (role: MethodRole)
    ensures
        role == method_role(*m, owner@),
{
    let recv = receiver(&m.params);
    match recv {
        Receiver::NoReceiver => {
            if same_text(m.name.as_str(), "new") || returns_self(&m.ret, owner) {
                MethodRole::Constructor
            } else {
                MethodRole::StaticFunction
            }
        },
        _ => MethodRole::InstanceMethod,
    }
}

/// How the wrapper of a method in the given role hands out its result.
pub fn return_handling(role: MethodRole, ret: &Option<RustType>, owner: &str) -> (h:
    ReturnHandling)
    ensures
        h == handling_of(role, *ret, owner@),
{
    if matches!(role, MethodRole::Constructor) || returns_self(ret, owner) {
        ReturnHandling::Boxed
    } else {
        match ret {
            None => ReturnHandling::Nothing,
            Some(t) => if extract_result_type(t).is_some() {
                ReturnHandling::ErrorRecord
            } else if extract_option_type(t).is_some() {
                ReturnHandling::OptionRecord
            } else {
                ReturnHandling::Plain
            },
        }
    }
}

} // verus!
