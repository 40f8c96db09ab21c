//! Source text of the C-ABI wrappers.
use vstd::prelude::*;
use vstd::string::*;
use crate::decl::{Param, Receiver};
use crate::text::{decimal, decimal_text, join, joined, owned, views};
use crate::types::RustType;

verus! {

/// A generated item: the name it defines, whether that name is a symbol
/// exported to the foreign caller, and its source text.
pub struct Artifact {
    pub symbol: String,
    pub exported: bool,
    pub text: String,
}

/// What an artifact holds, as character sequences.
pub struct ArtifactView {
    pub symbol: Seq<char>,
    pub exported: bool,
    pub text: Seq<char>,
}

impl View for Artifact {
    type V = ArtifactView;

    open spec fn view(&self) -> ArtifactView {
        ArtifactView { symbol: self.symbol@, exported: self.exported, text: self.text@ }
    }
}

pub open spec fn artifact_views(v: Seq<Artifact>) -> Seq<ArtifactView> {
    v.map_values(|a: Artifact| a@)
}

pub open spec fn export_head() -> Seq<char> {
    "#[no_mangle] pub extern \"C\" fn "@
}

/// ` -> T` for a declared return type, nothing otherwise.
pub open spec fn ret_suffix(ret: Option<RustType>) -> Seq<char> {
    match ret {
        Some(t) => " -> "@ + t.text@,
        None => Seq::empty(),
    }
}

pub open spec fn source_param(p: Param) -> Seq<char> {
    match p {
        Param::SelfRef { mutable } => if mutable {
            "&mut self"@
        } else {
            "&self"@
        },
        Param::Typed { text, .. } => text@,
    }
}

/// The parameter list as it was written.
pub open spec fn source_params(ps: Seq<Param>) -> Seq<char> {
    joined(ps.map_values(|p: Param| source_param(p)), ", "@)
}

/// The name a wrapper gives the parameter at `i`: the identifier its pattern
/// binds, or `arg` followed by its position.
pub open spec fn arg_name(p: Param, i: int) -> Seq<char> {
    match p {
        Param::Typed { binding: Some(b), .. } => b@,
        _ => "arg"@ + decimal(i as nat),
    }
}

/// A parameter of a wrapper: a receiver becomes a pointer to the owner.
pub open spec fn wrapper_param(p: Param, i: int, owner: Seq<char>) -> Seq<char> {
    match p {
        Param::SelfRef { mutable } => if mutable {
            "ptr: *mut "@ + owner
        } else {
            "ptr: *const "@ + owner
        },
        Param::Typed { ty, .. } => arg_name(p, i) + ": "@ + ty.text@,
    }
}

pub open spec fn wrapper_params(ps: Seq<Param>, owner: Seq<char>) -> Seq<char> {
    joined(ps.map(|i: int, p: Param| wrapper_param(p, i, owner)), ", "@)
}

/// The names of the typed parameters among the first `n`, in order.
pub open spec fn call_arg_list(ps: Seq<Param>, n: nat) -> Seq<Seq<char>>
    decreases n,
{
    if n == 0 || n > ps.len() {
        Seq::empty()
    } else {
        let before = call_arg_list(ps, (n - 1) as nat);
        if ps[n - 1] is Typed {
            before.push(arg_name(ps[n - 1], n - 1))
        } else {
            before
        }
    }
}

/// The arguments a wrapper passes on: every typed parameter, by name.
pub open spec fn call_args(ps: Seq<Param>) -> Seq<char> {
    joined(call_arg_list(ps, ps.len()), ", "@)
}

/// The line that turns the pointer a wrapper receives into the receiver.
pub open spec fn self_line(r: Receiver) -> Seq<char> {
    match r {
        Receiver::NoReceiver => Seq::empty(),
        Receiver::Shared => "let self_ref = unsafe { &*ptr }; "@,
        Receiver::Exclusive => "let self_ref = unsafe { &mut *ptr }; "@,
    }
}

pub fn ret_suffix_text(ret: &Option<RustType>) -> (r: String)
    ensures
        r@ == ret_suffix(*ret),
{
    match ret {
        Some(t) => {
            let mut s = owned(" -> ");
            s.append(t.text.as_str());
            s
        },
        None => String::new(),
    }
}

pub fn source_params_text(ps: &Vec<Param>) -> (r: String)
    ensures
        r@ == source_params(ps@),
{
    let mut pieces: Vec<String> = Vec::new();
    let mut i: usize = 0;
    while i < ps.len()
        invariant
            i <= ps.len(),
            views(pieces@) =~= ps@.take(i as int).map_values(|p: Param| source_param(p)),
        decreases ps.len() - i,
    {
        let piece = match &ps[i] {
            Param::SelfRef { mutable } => if *mutable {
                owned("&mut self")
            } else {
                owned("&self")
            },
            Param::Typed { text, .. } => text.clone(),
        };
        assert(piece@ == source_param(ps@[i as int]));
        let ghost before = pieces@;
        pieces.push(piece);
        assert(views(pieces@) =~= views(before).push(piece@));
        assert(ps@.take(i + 1).map_values(|p: Param| source_param(p)) =~= ps@.take(
            i as int,
        ).map_values(|p: Param| source_param(p)).push(source_param(ps@[i as int])));
        i = i + 1;
    }
    assert(ps@.take(ps.len() as int) =~= ps@);
    join(&pieces, ", ")
}

pub fn arg_name_text(p: &Param, i: usize) -> (r: String)
    ensures
        r@ == arg_name(*p, i as int),
{
    match p {
        Param::Typed { binding: Some(b), .. } => b.clone(),
        _ => {
            let mut s = owned("arg");
            let d = decimal_text(i);
            s.append(d.as_str());
            s
        },
    }
}

pub fn wrapper_params_text(ps: &Vec<Param>, owner: &str) -> (r: String)
    ensures
        r@ == wrapper_params(ps@, owner@),
{
    let mut pieces: Vec<String> = Vec::new();
    let mut i: usize = 0;
    while i < ps.len()
        invariant
            i <= ps.len(),
            views(pieces@) =~= ps@.take(i as int).map(
                |j: int, p: Param| wrapper_param(p, j, owner@),
            ),
        decreases ps.len() - i,
    {
        let piece = match &ps[i] {
            Param::SelfRef { mutable } => {
                let mut s = if *mutable {
                    owned("ptr: *mut ")
                } else {
                    owned("ptr: *const ")
                };
                s.append(owner);
                s
            },
            Param::Typed { ty, .. } => {
                let mut s = arg_name_text(&ps[i], i);
                s.append(": ");
                s.append(ty.text.as_str());
                s
            },
        };
        assert(piece@ == wrapper_param(ps@[i as int], i as int, owner@));
        let ghost before = pieces@;
        pieces.push(piece);
        assert(views(pieces@) =~= views(before).push(piece@));
        assert(ps@.take(i + 1).map(|j: int, p: Param| wrapper_param(p, j, owner@)) =~= ps@.take(
            i as int,
        ).map(|j: int, p: Param| wrapper_param(p, j, owner@)).push(
            wrapper_param(ps@[i as int], i as int, owner@),
        ));
        i = i + 1;
    }
    assert(ps@.take(ps.len() as int) =~= ps@);
    join(&pieces, ", ")
}

pub fn call_args_text(ps: &Vec<Param>) -> (r: String)
    ensures
        r@ == call_args(ps@),
{
    let mut pieces: Vec<String> = Vec::new();
    let mut i: usize = 0;
    while i < ps.len()
        invariant
            i <= ps.len(),
            views(pieces@) =~= call_arg_list(ps@, i as nat),
        decreases ps.len() - i,
    {
        match &ps[i] {
            Param::Typed { .. } => {
                let name = arg_name_text(&ps[i], i);
                pieces.push(name);
            },
            _ => {},
        }
        i = i + 1;
    }
    join(&pieces, ", ")
}

pub fn self_line_text(r: Receiver) -> (s: String)
    ensures
        s@ == self_line(r),
{
    match r {
        Receiver::NoReceiver => String::new(),
        Receiver::Shared => owned("let self_ref = unsafe { &*ptr }; "),
        Receiver::Exclusive => owned("let self_ref = unsafe { &mut *ptr }; "),
    }
}

} // verus!
