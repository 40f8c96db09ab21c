//! Wrappers of free functions: passed through when their types cross the
//! boundary unchanged, reshaped into a flag record when they return `Result`
//! or `Option`.
use vstd::prelude::*;
use vstd::string::*;
use crate::decl::{Diagnostic, FunctionDecl};
use crate::emit::{
    artifact_views, call_args, call_args_text, export_head, ret_suffix, ret_suffix_text,
    source_params, source_params_text, wrapper_params, wrapper_params_text, Artifact,
    ArtifactView,
};
use crate::text::owned;
use crate::types::{extract_option_type, extract_result_type, is_option_shape, is_result_shape, type_args, RustType};
use crate::validate::{check_function, failure_matches, function_ok};

verus! {

/// The function exported as it is, under its own name.
pub open spec fn pass_through_text(f: FunctionDecl) -> Seq<char> {
    "#[no_mangle] "@ + f.attrs@ + "pub extern \"C\" fn "@ + f.name@ + "("@ + source_params(
        f.params@,
    ) + ")"@ + ret_suffix(f.ret) + " "@ + f.body@
}

pub open spec fn result_record_name(name: Seq<char>) -> Seq<char> {
    "CResult_"@ + name
}

pub open spec fn option_record_name(name: Seq<char>) -> Seq<char> {
    "COption_"@ + name
}

pub open spec fn inner_name(name: Seq<char>) -> Seq<char> {
    name + "_inner"@
}

/// The record a `Result` crosses in: flag, success slot, failure slot.
pub open spec fn result_record_text(name: Seq<char>, ok: Seq<char>, err: Seq<char>) -> Seq<char> {
    "#[repr(C)] pub struct "@ + result_record_name(name) + " { pub is_ok: u8, pub ok_value: "@ + ok
        + ", pub err_value: "@ + err + ", }"@
}

/// The record an `Option` crosses in: flag, payload slot.
pub open spec fn option_record_text(name: Seq<char>, inner: Seq<char>) -> Seq<char> {
    "#[repr(C)] pub struct "@ + option_record_name(name) + " { pub is_some: u8, pub value: "@
        + inner + ", }"@
}

/// The original body under the hidden inner name.
pub open spec fn result_inner_text(f: FunctionDecl, ok: Seq<char>, err: Seq<char>) -> Seq<char> {
    "fn "@ + inner_name(f.name@) + "("@ + source_params(f.params@) + ") -> Result<"@ + ok + ", "@
        + err + "> "@ + f.body@
}

pub open spec fn option_inner_text(f: FunctionDecl, inner: Seq<char>) -> Seq<char> {
    "fn "@ + inner_name(f.name@) + "("@ + source_params(f.params@) + ") -> Option<"@ + inner
        + "> "@ + f.body@
}

/// The exported wrapper: it calls the inner function and fills every slot of
/// the record, the inactive one with zero bits.
pub open spec fn result_wrapper_text(f: FunctionDecl) -> Seq<char> {
    let rec = result_record_name(f.name@);
    export_head() + f.name@ + "("@ + wrapper_params(f.params@, f.name@) + ") -> "@ + rec
        + " { match "@ + inner_name(f.name@) + "("@ + call_args(f.params@) + ") { Ok(value) => "@
        + rec + " { is_ok: 1, ok_value: value, err_value: unsafe { std::mem::zeroed() } }, Err(err) => "@
        + rec + " { is_ok: 0, ok_value: unsafe { std::mem::zeroed() }, err_value: err }, } }"@
}

pub open spec fn option_wrapper_text(f: FunctionDecl) -> Seq<char> {
    let rec = option_record_name(f.name@);
    export_head() + f.name@ + "("@ + wrapper_params(f.params@, f.name@) + ") -> "@ + rec
        + " { match "@ + inner_name(f.name@) + "("@ + call_args(f.params@) + ") { Some(value) => "@
        + rec + " { is_some: 1, value }, None => "@ + rec
        + " { is_some: 0, value: unsafe { std::mem::zeroed() } }, } }"@
}

/// What a function that can be exported turns into.
pub open spec fn function_artifacts(f: FunctionDecl) -> Seq<ArtifactView> {
    match f.ret {
        Some(t) => if is_result_shape(t) {
            let ok = type_args(t)[0].text@;
            let err = type_args(t)[1].text@;
            seq![
                ArtifactView { symbol: result_record_name(f.name@), exported: false, text: result_record_text(f.name@, ok, err) },
                ArtifactView { symbol: inner_name(f.name@), exported: false, text: result_inner_text(f, ok, err) },
                ArtifactView { symbol: f.name@, exported: true, text: result_wrapper_text(f) },
            ]
        } else if is_option_shape(t) {
            let inner = type_args(t)[0].text@;
            seq![
                ArtifactView { symbol: option_record_name(f.name@), exported: false, text: option_record_text(f.name@, inner) },
                ArtifactView { symbol: inner_name(f.name@), exported: false, text: option_inner_text(f, inner) },
                ArtifactView { symbol: f.name@, exported: true, text: option_wrapper_text(f) },
            ]
        } else {
            seq![ArtifactView { symbol: f.name@, exported: true, text: pass_through_text(f) }]
        },
        None => seq![ArtifactView { symbol: f.name@, exported: true, text: pass_through_text(f) }],
    }
}

fn inner_name_text(name: &str) -> (r: String)
    ensures
        r@ == inner_name(name@),
{
    let mut s = owned(name);
    s.append("_inner");
    s
}

/// The definition of the record a `Result` of the function crosses in.
pub fn generate_c_result_type(name: &str, ok: &RustType, err: &RustType) -> (a: Artifact)
    ensures
        a@ == (ArtifactView {
            symbol: result_record_name(name@),
            exported: false,
            text: result_record_text(name@, ok.text@, err.text@),
        }),
{
    let mut symbol = owned("CResult_");
    symbol.append(name);
    let mut text = owned("#[repr(C)] pub struct ");
    text.append(symbol.as_str());
    text.append(" { pub is_ok: u8, pub ok_value: ");
    text.append(ok.text.as_str());
    text.append(", pub err_value: ");
    text.append(err.text.as_str());
    text.append(", }");
    Artifact { symbol, exported: false, text }
}

/// The definition of the record an `Option` of the function crosses in.
pub fn generate_c_option_type(name: &str, inner: &RustType) -> (a: Artifact)
    ensures
        a@ == (ArtifactView {
            symbol: option_record_name(name@),
            exported: false,
            text: option_record_text(name@, inner.text@),
        }),
{
    let mut symbol = owned("COption_");
    symbol.append(name);
    let mut text = owned("#[repr(C)] pub struct ");
    text.append(symbol.as_str());
    text.append(" { pub is_some: u8, pub value: ");
    text.append(inner.text.as_str());
    text.append(", }");
    Artifact { symbol, exported: false, text }
}

/// The function under its own name, made `pub extern "C"` and unmangled.
pub fn transform_simple_function(f: &FunctionDecl) -> (a: Artifact)
    ensures
        a@ == (ArtifactView { symbol: f.name@, exported: true, text: pass_through_text(*f) }),
{
    let mut text = owned("#[no_mangle] ");
    text.append(f.attrs.as_str());
    text.append("pub extern \"C\" fn ");
    text.append(f.name.as_str());
    text.append("(");
    let params = source_params_text(&f.params);
    text.append(params.as_str());
    text.append(")");
    let ret = ret_suffix_text(&f.ret);
    text.append(ret.as_str());
    text.append(" ");
    text.append(f.body.as_str());
    Artifact { symbol: f.name.clone(), exported: true, text }
}

/// Record, inner function and wrapper for a function returning `Result<ok, err>`.
pub fn transform_result_function(f: &FunctionDecl, ok: &RustType, err: &RustType) -> (r: Vec<
    Artifact,
>)
    ensures
        artifact_views(r@) == seq![
            ArtifactView { symbol: result_record_name(f.name@), exported: false, text: result_record_text(f.name@, ok.text@, err.text@) },
            ArtifactView { symbol: inner_name(f.name@), exported: false, text: result_inner_text(*f, ok.text@, err.text@) },
            ArtifactView { symbol: f.name@, exported: true, text: result_wrapper_text(*f) },
        ],
{
    let record = generate_c_result_type(f.name.as_str(), ok, err);
    let rec = record.symbol.clone();
    let inner = inner_name_text(f.name.as_str());
    let params = source_params_text(&f.params);
    let wparams = wrapper_params_text(&f.params, f.name.as_str());
    let args = call_args_text(&f.params);

    let mut inner_text = owned("fn ");
    inner_text.append(inner.as_str());
    inner_text.append("(");
    inner_text.append(params.as_str());
    inner_text.append(") -> Result<");
    inner_text.append(ok.text.as_str());
    inner_text.append(", ");
    inner_text.append(err.text.as_str());
    inner_text.append("> ");
    inner_text.append(f.body.as_str());

    let mut text = owned("#[no_mangle] pub extern \"C\" fn ");
    text.append(f.name.as_str());
    text.append("(");
    text.append(wparams.as_str());
    text.append(") -> ");
    text.append(rec.as_str());
    text.append(" { match ");
    text.append(inner.as_str());
    text.append("(");
    text.append(args.as_str());
    text.append(") { Ok(value) => ");
    text.append(rec.as_str());
    text.append(" { is_ok: 1, ok_value: value, err_value: unsafe { std::mem::zeroed() } }, Err(err) => ");
    text.append(rec.as_str());
    text.append(" { is_ok: 0, ok_value: unsafe { std::mem::zeroed() }, err_value: err }, } }");

    let mut out: Vec<Artifact> = Vec::new();
    out.push(record);
    out.push(Artifact { symbol: inner, exported: false, text: inner_text });
    out.push(Artifact { symbol: f.name.clone(), exported: true, text });
    proof {
        assert(artifact_views(out@) =~= seq![
            ArtifactView { symbol: result_record_name(f.name@), exported: false, text: result_record_text(f.name@, ok.text@, err.text@) },
            ArtifactView { symbol: inner_name(f.name@), exported: false, text: result_inner_text(*f, ok.text@, err.text@) },
            ArtifactView { symbol: f.name@, exported: true, text: result_wrapper_text(*f) },
        ]);
    }
    out
}

/// Record, inner function and wrapper for a function returning `Option<inner>`.
pub fn transform_option_function(f: &FunctionDecl, inner_ty: &RustType) -> (r: Vec<Artifact>)
    ensures
        artifact_views(r@) == seq![
            ArtifactView { symbol: option_record_name(f.name@), exported: false, text: option_record_text(f.name@, inner_ty.text@) },
            ArtifactView { symbol: inner_name(f.name@), exported: false, text: option_inner_text(*f, inner_ty.text@) },
            ArtifactView { symbol: f.name@, exported: true, text: option_wrapper_text(*f) },
        ],
{
    let record = generate_c_option_type(f.name.as_str(), inner_ty);
    let rec = record.symbol.clone();
    let inner = inner_name_text(f.name.as_str());
    let params = source_params_text(&f.params);
    let wparams = wrapper_params_text(&f.params, f.name.as_str());
    let args = call_args_text(&f.params);

    let mut inner_text = owned("fn ");
    inner_text.append(inner.as_str());
    inner_text.append("(");
    inner_text.append(params.as_str());
    inner_text.append(") -> Option<");
    inner_text.append(inner_ty.text.as_str());
    inner_text.append("> ");
    inner_text.append(f.body.as_str());

    let mut text = owned("#[no_mangle] pub extern \"C\" fn ");
    text.append(f.name.as_str());
    text.append("(");
    text.append(wparams.as_str());
    text.append(") -> ");
    text.append(rec.as_str());
    text.append(" { match ");
    text.append(inner.as_str());
    text.append("(");
    text.append(args.as_str());
    text.append(") { Some(value) => ");
    text.append(rec.as_str());
    text.append(" { is_some: 1, value }, None => ");
    text.append(rec.as_str());
    text.append(" { is_some: 0, value: unsafe { std::mem::zeroed() } }, } }");

    let mut out: Vec<Artifact> = Vec::new();
    out.push(record);
    out.push(Artifact { symbol: inner, exported: false, text: inner_text });
    out.push(Artifact { symbol: f.name.clone(), exported: true, text });
    proof {
        assert(artifact_views(out@) =~= seq![
            ArtifactView { symbol: option_record_name(f.name@), exported: false, text: option_record_text(f.name@, inner_ty.text@) },
            ArtifactView { symbol: inner_name(f.name@), exported: false, text: option_inner_text(*f, inner_ty.text@) },
            ArtifactView { symbol: f.name@, exported: true, text: option_wrapper_text(*f) },
        ]);
    }
    out
}

/// The C-ABI artifacts of a free function, or why it cannot be exported.
pub fn transform_function(f: &FunctionDecl) -> (r: Result<Vec<Artifact>, Diagnostic>)
    ensures
        r is Ok <==> function_ok(*f),
        r matches Ok(v) ==> artifact_views(v@) == function_artifacts(*f),
        r matches Err(d) ==> failure_matches(d, f.is_unsafe, f.params@, f.ret),
{
    check_function(f)?;
    match &f.ret {
        Some(t) => {
            if let Some((ok, err)) = extract_result_type(t) {
                return Ok(transform_result_function(f, ok, err));
            }
            if let Some(inner) = extract_option_type(t) {
                return Ok(transform_option_function(f, inner));
            }
        },
        None => {},
    }
    let mut out: Vec<Artifact> = Vec::new();
    out.push(transform_simple_function(f));
    proof {
        assert(artifact_views(out@) =~= function_artifacts(*f));
    }
    Ok(out)
}

} // verus!
