//! Wrappers of the methods of a method collection, named `Owner_method`.
use vstd::prelude::*;
use vstd::string::*;
use crate::decl::{receiver, receiver_of, Attribute, Diagnostic, ImplEntry, Method, Receiver};
use crate::function::{
    generate_c_option_type, generate_c_result_type, option_record_name, option_record_text,
    result_record_name, result_record_text,
};
use crate::emit::{
    artifact_views, call_args, call_args_text, export_head, ret_suffix, ret_suffix_text,
    self_line, self_line_text, wrapper_params, wrapper_params_text, Artifact, ArtifactView,
};
use crate::roles::{classify_method, handling_of, method_role, return_handling, ReturnHandling};
use crate::text::{join, joined, owned, same_text, views};
use crate::types::{extract_option_type, extract_result_type, type_args};
use crate::validate::{check_method, failure_matches, method_ok};

verus! {

pub open spec fn method_wrapper_name(owner: Seq<char>, name: Seq<char>) -> Seq<char> {
    owner + "_"@ + name
}

/// The call a wrapper makes: through the owner's path when the method has no
/// receiver, through the dereferenced pointer otherwise.
pub open spec fn callee(r: Receiver, owner: Seq<char>, name: Seq<char>, args: Seq<char>) -> Seq<
    char,
> {
    if r is NoReceiver {
        owner + "::"@ + name + "("@ + args + ")"@
    } else {
        "self_ref."@ + name + "("@ + args + ")"@
    }
}

pub open spec fn method_wrapper_head(m: Method, owner: Seq<char>) -> Seq<char> {
    export_head() + method_wrapper_name(owner, m.name@) + "("@ + wrapper_params(m.params@, owner)
        + ")"@
}

pub open spec fn method_handling(m: Method, owner: Seq<char>) -> ReturnHandling {
    handling_of(method_role(m, owner), m.ret, owner)
}

/// The flag record a reshaped result of the method crosses in.
pub open spec fn method_record_name(m: Method, owner: Seq<char>) -> Seq<char> {
    if method_handling(m, owner) is ErrorRecord {
        result_record_name(method_wrapper_name(owner, m.name@))
    } else {
        option_record_name(method_wrapper_name(owner, m.name@))
    }
}

/// The arms that fill the record `rec` from the method's result: the flag,
/// the active slot, and zero bits in the inactive one.
pub open spec fn record_arms(rec: Seq<char>, is_result: bool) -> Seq<char> {
    if is_result {
        " { Ok(value) => "@ + rec
            + " { is_ok: 1, ok_value: value, err_value: unsafe { std::mem::zeroed() } }, Err(err) => "@
            + rec + " { is_ok: 0, ok_value: unsafe { std::mem::zeroed() }, err_value: err }, }"@
    } else {
        " { Some(value) => "@ + rec + " { is_some: 1, value }, None => "@ + rec
            + " { is_some: 0, value: unsafe { std::mem::zeroed() } }, }"@
    }
}

/// The wrapper of a method: a boxed result is handed out as an owning
/// pointer, a `Result` or an `Option` as a flag record.
pub open spec fn method_wrapper_text(m: Method, owner: Seq<char>) -> Seq<char> {
    let r = receiver_of(m.params@);
    let head = method_wrapper_head(m, owner);
    let call = callee(r, owner, m.name@, call_args(m.params@));
    let h = method_handling(m, owner);
    match h {
        ReturnHandling::Boxed => head + " -> *mut "@ + owner + " { "@ + self_line(r) + "let obj = "@
            + call + "; Box::into_raw(Box::new(obj)) }"@,
        ReturnHandling::Nothing => head + " { "@ + self_line(r) + call + "; }"@,
        ReturnHandling::Plain => head + ret_suffix(m.ret) + " { "@ + self_line(r) + call + " }"@,
        _ => head + " -> "@ + method_record_name(m, owner) + " { "@ + self_line(r) + "match "@ + call
            + record_arms(method_record_name(m, owner), h is ErrorRecord) + " }"@,
    }
}

pub open spec fn method_wrapper_view(m: Method, owner: Seq<char>) -> ArtifactView {
    ArtifactView {
        symbol: method_wrapper_name(owner, m.name@),
        exported: true,
        text: method_wrapper_text(m, owner),
    }
}

/// What a method turns into: its wrapper, after the definition of the flag
/// record when its result is reshaped.
pub open spec fn method_artifacts(m: Method, owner: Seq<char>) -> Seq<ArtifactView> {
    let wn = method_wrapper_name(owner, m.name@);
    match method_handling(m, owner) {
        ReturnHandling::ErrorRecord => seq![
            ArtifactView {
                symbol: result_record_name(wn),
                exported: false,
                text: result_record_text(wn, type_args(m.ret->0)[0].text@, type_args(m.ret->0)[1].text@),
            },
            method_wrapper_view(m, owner),
        ],
        ReturnHandling::OptionRecord => seq![
            ArtifactView {
                symbol: option_record_name(wn),
                exported: false,
                text: option_record_text(wn, type_args(m.ret->0)[0].text@),
            },
            method_wrapper_view(m, owner),
        ],
        _ => seq![method_wrapper_view(m, owner)],
    }
}

/// The attribute that marks a method in a collection.
pub open spec fn is_marker(a: Attribute) -> bool {
    a.name@ == "julia"@
}

/// Every method of a collection gets a wrapper; other items get none.
pub open spec fn selected(e: ImplEntry) -> bool {
    e is Method
}

/// The texts of the first `k` attributes, each followed by a space; with
/// `strip` the marker attributes are left out.
pub open spec fn attrs_text(attrs: Seq<Attribute>, strip: bool, k: nat) -> Seq<char>
    decreases k,
{
    if k == 0 || k > attrs.len() {
        Seq::empty()
    } else {
        let before = attrs_text(attrs, strip, (k - 1) as nat);
        if strip && is_marker(attrs[k - 1]) {
            before
        } else {
            before + attrs[k - 1].text@ + " "@
        }
    }
}

pub open spec fn method_source(m: Method, strip: bool) -> Seq<char> {
    attrs_text(m.attrs@, strip, m.attrs@.len()) + m.head@ + " "@ + m.body@
}

pub open spec fn entry_source(e: ImplEntry, strip: bool) -> Seq<char> {
    match e {
        ImplEntry::Method(m) => method_source(m, strip),
        ImplEntry::Other(t) => t@,
    }
}

/// The method collection as written, with the marker attributes removed when
/// `strip` holds.
pub open spec fn impl_text(header: Seq<char>, entries: Seq<ImplEntry>, strip: bool) -> Seq<char> {
    header + " { "@ + joined(entries.map_values(|e: ImplEntry| entry_source(e, strip)), " "@)
        + " }"@
}

/// The artifacts of the methods among the first `k` entries.
pub open spec fn method_wrappers(
    entries: Seq<ImplEntry>,
    owner: Seq<char>,
    k: nat,
) -> Seq<ArtifactView>
    decreases k,
{
    if k == 0 || k > entries.len() {
        Seq::empty()
    } else {
        let before = method_wrappers(entries, owner, (k - 1) as nat);
        if selected(entries[k - 1]) {
            before + method_artifacts(entries[k - 1]->Method_0, owner)
        } else {
            before
        }
    }
}

/// Every method of the collection can have a wrapper.
pub open spec fn entries_ok(entries: Seq<ImplEntry>, owner: Seq<char>) -> bool {
    forall|i: int|
        0 <= i < entries.len() && selected(#[trigger] entries[i]) ==> method_ok(
            entries[i]->Method_0,
            owner,
        )
}

/// The diagnostic is that of some method that cannot be wrapped.
pub open spec fn blames_some_method(
    d: Diagnostic,
    entries: Seq<ImplEntry>,
    owner: Seq<char>,
) -> bool {
    exists|i: int|
        0 <= i < entries.len() && selected(#[trigger] entries[i]) && !method_ok(
            entries[i]->Method_0,
            owner,
        ) && failure_matches(
            d,
            entries[i]->Method_0.is_unsafe,
            entries[i]->Method_0.params@,
            entries[i]->Method_0.ret,
        )
}

/// The wrapper of one method of the collection owned by `owner`.
pub fn generate_method_wrapper(owner: &str, m: &Method) -> (a: Artifact)
    ensures
        a@ == method_wrapper_view(*m, owner@),
{
    let r = receiver(&m.params);
    let role = classify_method(m, owner);
    let handling = return_handling(role, &m.ret, owner);

    let mut symbol = owned(owner);
    symbol.append("_");
    symbol.append(m.name.as_str());

    let params = wrapper_params_text(&m.params, owner);
    let mut head = owned("#[no_mangle] pub extern \"C\" fn ");
    head.append(symbol.as_str());
    head.append("(");
    head.append(params.as_str());
    head.append(")");

    let args = call_args_text(&m.params);
    let mut call = match r {
        Receiver::NoReceiver => {
            let mut c = owned(owner);
            c.append("::");
            c
        },
        _ => owned("self_ref."),
    };
    call.append(m.name.as_str());
    call.append("(");
    call.append(args.as_str());
    call.append(")");

    let line = self_line_text(r);
    let mut text = head;
    match handling {
        ReturnHandling::Boxed => {
            text.append(" -> *mut ");
            text.append(owner);
            text.append(" { ");
            text.append(line.as_str());
            text.append("let obj = ");
            text.append(call.as_str());
            text.append("; Box::into_raw(Box::new(obj)) }");
        },
        ReturnHandling::Nothing => {
            text.append(" { ");
            text.append(line.as_str());
            text.append(call.as_str());
            text.append("; }");
        },
        ReturnHandling::Plain => {
            let ret = ret_suffix_text(&m.ret);
            text.append(ret.as_str());
            text.append(" { ");
            text.append(line.as_str());
            text.append(call.as_str());
            text.append(" }");
        },
        _ => {
            let is_result = matches!(handling, ReturnHandling::ErrorRecord);
            let mut rec = if is_result {
                owned("CResult_")
            } else {
                owned("COption_")
            };
            rec.append(symbol.as_str());
            let arms = record_arms_text(&rec, is_result);
            text.append(" -> ");
            text.append(rec.as_str());
            text.append(" { ");
            text.append(line.as_str());
            text.append("match ");
            text.append(call.as_str());
            text.append(arms.as_str());
            text.append(" }");
        },
    }
    Artifact { symbol, exported: true, text }
}

fn record_arms_text(rec: &String, is_result: bool) -> (r: String)
    ensures
        r@ == record_arms(rec@, is_result),
{
    if is_result {
        let mut out = owned(" { Ok(value) => ");
        out.append(rec.as_str());
        out.append(
            " { is_ok: 1, ok_value: value, err_value: unsafe { std::mem::zeroed() } }, Err(err) => ",
        );
        out.append(rec.as_str());
        out.append(" { is_ok: 0, ok_value: unsafe { std::mem::zeroed() }, err_value: err }, }");
        out
    } else {
        let mut out = owned(" { Some(value) => ");
        out.append(rec.as_str());
        out.append(" { is_some: 1, value }, None => ");
        out.append(rec.as_str());
        out.append(" { is_some: 0, value: unsafe { std::mem::zeroed() } }, }");
        out
    }
}

/// The artifacts of one method: its wrapper, after the definition of the
/// flag record when its result is reshaped.
pub fn method_artifacts_of(owner: &str, m: &Method) -> (r: Vec<Artifact>)
    ensures
        artifact_views(r@) == method_artifacts(*m, owner@),
{
    let role = classify_method(m, owner);
    let handling = return_handling(role, &m.ret, owner);
    let wrapper = generate_method_wrapper(owner, m);
    let mut out: Vec<Artifact> = Vec::new();
    match handling {
        ReturnHandling::ErrorRecord | ReturnHandling::OptionRecord => {
            match &m.ret {
                Some(t) => {
                    if let Some((ok, err)) = extract_result_type(t) {
                        out.push(generate_c_result_type(wrapper.symbol.as_str(), ok, err));
                    } else if let Some(inner) = extract_option_type(t) {
                        out.push(generate_c_option_type(wrapper.symbol.as_str(), inner));
                    }
                },
                None => {},
            }
        },
        _ => {},
    }
    out.push(wrapper);
    proof {
        assert(artifact_views(out@) =~= method_artifacts(*m, owner@));
    }
    out
}

fn is_marker_attr(a: &Attribute) -> (r: bool)
    ensures
        r == is_marker(*a),
{
    same_text(a.name.as_str(), "julia")
}

fn attrs_source(attrs: &Vec<Attribute>, strip: bool) -> (r: String)
    ensures
        r@ == attrs_text(attrs@, strip, attrs@.len()),
{
    let mut out = String::new();
    let mut i: usize = 0;
    while i < attrs.len()
        invariant
            i <= attrs.len(),
            out@ == attrs_text(attrs@, strip, i as nat),
        decreases attrs.len() - i,
    {
        if !(strip && is_marker_attr(&attrs[i])) {
            out.append(attrs[i].text.as_str());
            out.append(" ");
        }
        i = i + 1;
    }
    out
}

/// The source of a method, its attributes first.
pub fn method_source_text(m: &Method, strip: bool) -> (r: String)
    ensures
        r@ == method_source(*m, strip),
{
    let mut out = attrs_source(&m.attrs, strip);
    out.append(m.head.as_str());
    out.append(" ");
    out.append(m.body.as_str());
    out
}

/// The method collection as written, with the marker attributes removed when
/// `strip` holds.
pub fn impl_source(header: &String, entries: &Vec<ImplEntry>, strip: bool) -> (r: String)
    ensures
        r@ == impl_text(header@, entries@, strip),
{
    let mut pieces: Vec<String> = Vec::new();
    let mut i: usize = 0;
    while i < entries.len()
        invariant
            i <= entries.len(),
            views(pieces@) =~= entries@.take(i as int).map_values(
                |e: ImplEntry| entry_source(e, strip),
            ),
        decreases entries.len() - i,
    {
        let piece = match &entries[i] {
            ImplEntry::Method(m) => method_source_text(m, strip),
            ImplEntry::Other(t) => t.clone(),
        };
        let ghost before = pieces@;
        pieces.push(piece);
        assert(views(pieces@) =~= views(before).push(entry_source(entries@[i as int], strip)));
        assert(entries@.take(i + 1).map_values(|e: ImplEntry| entry_source(e, strip))
            =~= entries@.take(i as int).map_values(|e: ImplEntry| entry_source(e, strip)).push(
            entry_source(entries@[i as int], strip),
        ));
        i = i + 1;
    }
    assert(entries@.take(entries.len() as int) =~= entries@);
    let body = join(&pieces, " ");
    let mut out = header.clone();
    out.append(" { ");
    out.append(body.as_str());
    out.append(" }");
    out
}

/// The wrappers of all methods, in order, or the diagnostic of the first one
/// that cannot be wrapped.
pub fn method_wrapper_list(entries: &Vec<ImplEntry>, owner: &str) -> (r: Result<
    Vec<Artifact>,
    Diagnostic,
>)
    ensures
        r is Ok <==> entries_ok(entries@, owner@),
        r matches Ok(v) ==> artifact_views(v@) == method_wrappers(entries@, owner@, entries@.len()),
        r matches Err(d) ==> blames_some_method(d, entries@, owner@),
{
    let mut out: Vec<Artifact> = Vec::new();
    let mut i: usize = 0;
    while i < entries.len()
        invariant
            i <= entries.len(),
            artifact_views(out@) =~= method_wrappers(entries@, owner@, i as nat),
            forall|j: int|
                0 <= j < i && selected(#[trigger] entries@[j]) ==> method_ok(
                    entries@[j]->Method_0,
                    owner@,
                ),
        decreases entries.len() - i,
    {
        match &entries[i] {
            ImplEntry::Method(m) => {
                match check_method(m, owner) {
                    Ok(()) => {},
                    Err(d) => {
                        assert(selected(entries@[i as int]));
                        return Err(d);
                    },
                }
                let ghost before = out@;
                let mut more = method_artifacts_of(owner, m);
                let ghost added = more@;
                out.append(&mut more);
                assert(artifact_views(out@) =~= artifact_views(before) + artifact_views(added));
            },
            ImplEntry::Other(_) => {},
        }
        i = i + 1;
    }
    proof {
        assert forall|j: int|
            0 <= j < entries@.len() && selected(#[trigger] entries@[j]) implies method_ok(
            entries@[j]->Method_0,
            owner@,
        ) by {}
    }
    Ok(out)
}

} // verus!
