//! The declarations that wrappers are generated for.
use vstd::prelude::*;
use crate::types::RustType;

verus! {

/// An outer attribute: the identifier its path consists of (empty when the
/// path is not a single identifier) and its source text.
pub struct Attribute {
    pub name: String,
    pub text: String,
}

/// A parameter of a function or a method.
pub enum Param {
    /// `&self` (shared) or `&mut self` (exclusive).
    SelfRef { mutable: bool },
    /// A typed parameter: the identifier its pattern binds, if the pattern is a
    /// plain identifier, its type, and its source text (`a: i32`).
    Typed { binding: Option<String>, ty: RustType, text: String },
}

/// A free function.
pub struct FunctionDecl {
    /// The outer attributes as source text.
    pub attrs: String,
    pub is_unsafe: bool,
    pub name: String,
    pub params: Vec<Param>,
    /// The declared return type; `None` when there is none.
    pub ret: Option<RustType>,
    /// The body, braces included.
    pub body: String,
}

pub struct Field {
    /// `None` for a field of a tuple record.
    pub name: Option<String>,
    pub ty: RustType,
    /// The field's source text, attributes and visibility included.
    pub text: String,
}

#[derive(Clone, Copy, Debug, PartialEq, Eq, Structural)]
pub enum FieldsStyle {
    Named,
    Tuple,
    Unit,
}

/// A plain data record.
pub struct DataRecord {
    /// The outer attributes as source text.
    pub attrs: String,
    pub name: String,
    pub style: FieldsStyle,
    pub fields: Vec<Field>,
}

/// A method of a method collection.
pub struct Method {
    pub attrs: Vec<Attribute>,
    pub is_unsafe: bool,
    pub name: String,
    pub params: Vec<Param>,
    pub ret: Option<RustType>,
    /// Visibility and signature as source text (`pub fn get(&self) -> i32`).
    pub head: String,
    /// The body, braces included.
    pub body: String,
}

/// An item of a method collection.
pub enum ImplEntry {
    Method(Method),
    /// Any other item, as source text.
    Other(String),
}

/// The methods attached to a data record.
pub struct MethodCollection {
    /// Everything before the opening brace: attributes and `impl ... Owner`.
    pub header: String,
    /// The owner type's name: the last segment of its path, or `None` when
    /// the owner is not a nameable path.
    pub owner: Option<String>,
    pub entries: Vec<ImplEntry>,
}

/// The input of the generator.
pub enum Decl {
    Function(FunctionDecl),
    DataRecord(DataRecord),
    MethodCollection(MethodCollection),
    /// Anything that is none of the three.
    Unrecognized,
}

/// Why no wrapper code can be generated for a declaration.
#[derive(Clone, Copy, Debug, PartialEq, Eq, Structural)]
pub enum DiagnosticKind {
    /// The input is not a function, a data record or a method collection.
    Shape,
    /// A parameter, a return type or a payload of a shape cannot cross the boundary.
    Type,
    /// The declaration is `unsafe`.
    Safety,
    /// The owner of a method collection is not a nameable path.
    ImplTarget,
    /// A wrapper would export a symbol that the build exports already.
    Collision,
}

pub struct Diagnostic {
    pub kind: DiagnosticKind,
    /// The source text of the type at fault for a `Type` diagnostic, the
    /// symbol for a `Collision`.
    pub subject: String,
}

/// How a method receives its owner.
#[derive(Clone, Copy, Debug, PartialEq, Eq, Structural)]
pub enum Receiver {
    NoReceiver,
    Shared,
    Exclusive,
}

/// The receiver of a parameter list: that of its first receiver parameter.
pub open spec fn receiver_of(params: Seq<Param>) -> Receiver
    decreases params.len(),
{
    if params.len() == 0 {
        Receiver::NoReceiver
    } else {
        match params[0] {
            Param::SelfRef { mutable } => if mutable {
                Receiver::Exclusive
            } else {
                Receiver::Shared
            },
            _ => receiver_of(params.drop_first()),
        }
    }
}

/// The receiver of a parameter list.
pub fn receiver(params: &Vec<Param>) -> (r: Receiver)
    ensures
        r == receiver_of(params@),
{
    let mut i: usize = 0;
    assert(params@.skip(0) =~= params@);
    while i < params.len()
        invariant
            i <= params.len(),
            receiver_of(params@) == receiver_of(params@.skip(i as int)),
        decreases params.len() - i,
    {
        assert(params@.skip(i as int).drop_first() =~= params@.skip(i + 1));
        match &params[i] {
            Param::SelfRef { mutable } => {
                return if *mutable {
                    Receiver::Exclusive
                } else {
                    Receiver::Shared
                };
            },
            _ => {},
        }
        i = i + 1;
    }
    Receiver::NoReceiver
}

} // verus!
