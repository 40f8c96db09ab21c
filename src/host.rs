//! Bindings for the dynamic host's own extension protocol.  The host takes
//! `Result` and `Option` values and record fields as they are, so nothing is
//! reshaped: each declaration is re-emitted with the protocol's attributes.
use vstd::prelude::*;
use vstd::string::*;
use crate::collection::attrs_text;
use crate::decl::{receiver, receiver_of, DataRecord, FunctionDecl, ImplEntry, Method, Receiver};
use crate::emit::{
    ret_suffix, ret_suffix_text, source_params, source_params_text, Artifact, ArtifactView,
};
use crate::record::{record_def_text, record_definition};
use crate::text::{join, joined, owned, same_text, views};

verus! {

/// The function as a host function.
pub open spec fn host_function_text(f: FunctionDecl) -> Seq<char> {
    "#[pyo3::pyfunction] "@ + f.attrs@ + "pub fn "@ + f.name@ + "("@ + source_params(f.params@)
        + ")"@ + ret_suffix(f.ret) + " "@ + f.body@
}

/// The record as a host class whose fields the host reads and writes directly.
pub open spec fn host_record_text(d: DataRecord) -> Seq<char> {
    "#[pyo3::pyclass(get_all, set_all)] "@ + record_def_text(d)
}

/// A method without receiver named `new` is the host's constructor hook.
pub open spec fn is_host_constructor(m: Method) -> bool {
    receiver_of(m.params@) is NoReceiver && m.name@ == "new"@
}

pub open spec fn host_method_text(m: Method) -> Seq<char> {
    attrs_text(m.attrs@, false, m.attrs@.len()) + (if is_host_constructor(m) {
        "#[new] "@
    } else {
        Seq::empty()
    }) + m.head@ + " "@ + m.body@
}

/// The host texts of the methods among the first `k` entries.
pub open spec fn host_methods(entries: Seq<ImplEntry>, k: nat) -> Seq<Seq<char>>
    decreases k,
{
    if k == 0 || k > entries.len() {
        Seq::empty()
    } else {
        let before = host_methods(entries, (k - 1) as nat);
        match entries[k - 1] {
            ImplEntry::Method(m) => before.push(host_method_text(m)),
            ImplEntry::Other(_) => before,
        }
    }
}

/// The methods of the collection as a host method block.
pub open spec fn host_impl_text(owner: Seq<char>, entries: Seq<ImplEntry>) -> Seq<char> {
    "#[pyo3::pymethods] impl "@ + owner + " { "@ + joined(host_methods(entries, entries.len()), " "@)
        + " }"@
}

/// The host binding of a free function.
pub fn host_function(f: &FunctionDecl) -> (a: Artifact)
    ensures
        a@ == (ArtifactView { symbol: f.name@, exported: false, text: host_function_text(*f) }),
{
    let mut text = owned("#[pyo3::pyfunction] ");
    text.append(f.attrs.as_str());
    text.append("pub fn ");
    text.append(f.name.as_str());
    text.append("(");
    let params = source_params_text(&f.params);
    text.append(params.as_str());
    text.append(")");
    let ret = ret_suffix_text(&f.ret);
    text.append(ret.as_str());
    text.append(" ");
    text.append(f.body.as_str());
    Artifact { symbol: f.name.clone(), exported: false, text }
}

/// The record as a host class.
pub fn host_record(d: &DataRecord) -> (a: Artifact)
    ensures
        a@ == (ArtifactView { symbol: d.name@, exported: false, text: host_record_text(*d) }),
{
    let def = record_definition(d);
    let mut text = owned("#[pyo3::pyclass(get_all, set_all)] ");
    text.append(def.text.as_str());
    Artifact { symbol: def.symbol, exported: false, text }
}

/// One method in the host's method block.
pub fn generate_pyo3_method_impl(m: &Method) -> (r: String)
    ensures
        r@ == host_method_text(*m),
{
    let hook = matches!(receiver(&m.params), Receiver::NoReceiver) && same_text(
        m.name.as_str(),
        "new",
    );
    let mut attrs = String::new();
    let mut i: usize = 0;
    while i < m.attrs.len()
        invariant
            i <= m.attrs.len(),
            attrs@ == attrs_text(m.attrs@, false, i as nat),
        decreases m.attrs.len() - i,
    {
        attrs.append(m.attrs[i].text.as_str());
        attrs.append(" ");
        i = i + 1;
    }
    let hook_text = if hook {
        owned("#[new] ")
    } else {
        String::new()
    };
    let mut out = attrs;
    out.append(hook_text.as_str());
    out.append(m.head.as_str());
    out.append(" ");
    out.append(m.body.as_str());
    out
}

/// The host method block of a method collection owned by `owner`.
pub fn host_impl(owner: &str, entries: &Vec<ImplEntry>) -> (a: Artifact)
    ensures
        a@ == (ArtifactView {
            symbol: owner@,
            exported: false,
            text: host_impl_text(owner@, entries@),
        }),
{
    let mut pieces: Vec<String> = Vec::new();
    let mut i: usize = 0;
    while i < entries.len()
        invariant
            i <= entries.len(),
            views(pieces@) =~= host_methods(entries@, i as nat),
        decreases entries.len() - i,
    {
        match &entries[i] {
            ImplEntry::Method(m) => {
                let ghost before = pieces@;
                pieces.push(generate_pyo3_method_impl(m));
                assert(views(pieces@) =~= views(before).push(host_method_text(*m)));
            },
            ImplEntry::Other(_) => {},
        }
        i = i + 1;
    }
    let body = join(&pieces, " ");
    let mut text = owned("#[pyo3::pymethods] impl ");
    text.append(owner);
    text.append(" { ");
    text.append(body.as_str());
    text.append(" }");
    Artifact { symbol: owned(owner), exported: false, text }
}

} // verus!
