//! Properties of the generator that hold for every declaration.
use vstd::prelude::*;
use crate::collection::{method_artifacts, method_wrapper_name, method_wrappers, selected};
use crate::decl::{receiver_of, DiagnosticKind, DataRecord, Decl, FunctionDecl, ImplEntry, Method, MethodCollection};
use crate::emit::{ret_suffix, source_params, ArtifactView};
use crate::function::function_artifacts;
use crate::generate::{
    belongs_to, c_artifacts, collection_artifacts, decl_failure, decl_ok, dual_emissions, selected_for, tagged, EmissionView, Surface,
    Target,
};
use crate::host::{host_function_text, host_record_text};
use crate::record::{
    accessor_pair, accessors, free_name, free_text, getter_name, has_accessors, record_artifacts,
    record_def_text, setter_name,
};
use crate::roles::{handling_of, method_role, returns_owner, MethodRole, ReturnHandling};
use crate::types::{is_option_shape, is_payload_kind, is_result_shape, kind_of, type_args, RustType};
use crate::validate::{function_ok, passes};

verus! {

/// `s` ends with `b`.
pub open spec fn ends_with(s: Seq<char>, b: Seq<char>) -> bool {
    s.len() >= b.len() && s.subrange(s.len() - b.len(), s.len() as int) == b
}

proof fn lemma_ends_with_concat(a: Seq<char>, b: Seq<char>)
    ensures
        ends_with(a + b, b),
{
    assert((a + b).subrange(a.len() as int, (a + b).len() as int) =~= b);
}

/// A function that is not `unsafe` and whose parameters and result pass the
/// boundary unchanged is exported under its own name with its parameters,
/// return type and body as written: the wrapper is the original function, so
/// it returns what the original body returns.  Under the two-consumer
/// attribute the C build holds the same single wrapper and the host build the
/// same signature and body as a host function, so either build runs the
/// original body.
pub proof fn pass_through_identity(f: FunctionDecl)
    requires
        function_ok(f),
        f.ret matches Some(t) ==> passes(t),
    ensures
        c_artifacts(Decl::Function(f)) == seq![
            ArtifactView {
                symbol: f.name@,
                exported: true,
                text: "#[no_mangle] "@ + f.attrs@ + "pub extern \"C\" fn "@ + f.name@ + "("@
                    + source_params(f.params@) + ")"@ + ret_suffix(f.ret) + " "@ + f.body@,
            },
        ],
        selected_for(
            dual_emissions(Decl::Function(f)),
            Target::CAbi,
            dual_emissions(Decl::Function(f)).len(),
        ) == c_artifacts(Decl::Function(f)),
        selected_for(
            dual_emissions(Decl::Function(f)),
            Target::HostExtension,
            dual_emissions(Decl::Function(f)).len(),
        ) == seq![
            ArtifactView {
                symbol: f.name@,
                exported: false,
                text: "#[pyo3::pyfunction] "@ + f.attrs@ + "pub fn "@ + f.name@ + "("@
                    + source_params(f.params@) + ")"@ + ret_suffix(f.ret) + " "@ + f.body@,
            },
        ],
{
    dual_function_paths(f);
}

/// A method without receiver named `new` is a constructor, and its result is
/// handed out boxed.
pub proof fn new_without_receiver_is_constructor(m: Method, owner: Seq<char>)
    requires
        receiver_of(m.params@) is NoReceiver,
        m.name@ == "new"@,
    ensures
        method_role(m, owner) == MethodRole::Constructor,
        handling_of(method_role(m, owner), m.ret, owner) == ReturnHandling::Boxed,
{
}

/// A method with a receiver is never a constructor, whatever its name and
/// return type, and unless it returns the owner type its result is not boxed.
pub proof fn receiver_is_never_constructor(m: Method, owner: Seq<char>)
    requires
        !(receiver_of(m.params@) is NoReceiver),
    ensures
        method_role(m, owner) == MethodRole::InstanceMethod,
        !returns_owner(m.ret, owner) ==> handling_of(method_role(m, owner), m.ret, owner)
            != ReturnHandling::Boxed,
{
}

proof fn lemma_accessor_symbols(n: Seq<char>, fields: Seq<crate::decl::Field>, k: nat)
    requires
        k <= fields.len(),
    ensures
        forall|i: int|
            0 <= i < accessors(n, fields, k).len() ==> names_field(
                n,
                fields,
                k as int,
                #[trigger] accessors(n, fields, k)[i].symbol,
            ),
    decreases k,
{
    if k > 0 {
        lemma_accessor_symbols(n, fields, (k - 1) as nat);
        let before = accessors(n, fields, (k - 1) as nat);
        let now = accessors(n, fields, k);
        assert forall|i: int| 0 <= i < before.len() implies names_field(
            n,
            fields,
            k as int,
            #[trigger] before[i].symbol,
        ) by {
            assert(names_field(n, fields, k - 1, before[i].symbol));
            let idx = choose|idx: int|
                0 <= idx < k - 1 && has_accessors(#[trigger] fields[idx]) && (before[i].symbol
                    == getter_name(n, fields[idx].name->0@) || before[i].symbol == setter_name(
                    n,
                    fields[idx].name->0@,
                ));
            assert(0 <= idx < k && has_accessors(fields[idx]));
        }
        if has_accessors(fields[k - 1]) {
            let pair = accessor_pair(n, fields[k - 1]);
            assert(now == before + pair);
            assert forall|i: int| 0 <= i < now.len() implies names_field(
                n,
                fields,
                k as int,
                #[trigger] now[i].symbol,
            ) by {
                if i < before.len() {
                    assert(now[i] == before[i]);
                } else {
                    if i == before.len() {
                        assert(now[i] == pair[0]);
                    } else {
                        assert(now[i] == pair[1]);
                    }
                    assert(has_accessors(fields[k - 1]));
                }
            }
        } else {
            assert(now == before);
        }
    }
}

proof fn lemma_accessor_is_not_free(n: Seq<char>, f: Seq<char>)
    ensures
        getter_name(n, f) != free_name(n),
        setter_name(n, f) != free_name(n),
{
    reveal_strlit("_get_");
    reveal_strlit("_set_");
    reveal_strlit("_free");
    let i: int = n.len() + 1int;
    assert(getter_name(n, f)[i] == 'g');
    assert(setter_name(n, f)[i] == 's');
    assert(free_name(n)[i] == 'f');
}

/// Every data record yields exactly one deallocation wrapper, which leaves a
/// null pointer alone.
pub proof fn one_deallocation_wrapper(d: DataRecord)
    ensures
        record_artifacts(d)[1] == (ArtifactView {
            symbol: free_name(d.name@),
            exported: true,
            text: free_text(d.name@),
        }),
        forall|i: int|
            0 <= i < record_artifacts(d).len() && #[trigger] record_artifacts(d)[i].symbol
                == free_name(d.name@) ==> i == 1,
{
    let n = d.name@;
    let all = record_artifacts(d);
    let acc = accessors(n, d.fields@, d.fields@.len());
    lemma_accessor_symbols(n, d.fields@, d.fields@.len());
    reveal_strlit("_free");
    assert forall|i: int| 0 <= i < all.len() && #[trigger] all[i].symbol == free_name(n) implies i
        == 1 by {
        if i == 0 {
            assert(all[0].symbol.len() < free_name(n).len());
        } else if i >= 2 {
            assert(all[i] == acc[i - 2]);
            assert(names_field(n, d.fields@, d.fields@.len() as int, acc[i - 2].symbol));
            let idx = choose|idx: int|
                0 <= idx < d.fields@.len() && has_accessors(#[trigger] d.fields@[idx]) && (
                acc[i - 2].symbol == getter_name(n, d.fields@[idx].name->0@)
                    || acc[i - 2].symbol == setter_name(n, d.fields@[idx].name->0@));
            let f = d.fields@[idx].name->0@;
            lemma_accessor_is_not_free(n, f);
        }
    }
}

proof fn lemma_accessors_grow(n: Seq<char>, fields: Seq<crate::decl::Field>, k: int, m: nat)
    requires
        0 <= k < m <= fields.len(),
        has_accessors(fields[k]),
    ensures
        accessors(n, fields, m).contains(accessor_pair(n, fields[k])[0]),
        accessors(n, fields, m).contains(accessor_pair(n, fields[k])[1]),
    decreases m,
{
    let pair = accessor_pair(n, fields[k]);
    let before = accessors(n, fields, (m - 1) as nat);
    let now = accessors(n, fields, m);
    if m == k + 1 {
        assert(now == before + pair);
        assert(now[before.len() as int] == pair[0]);
        assert(now[before.len() + 1int] == pair[1]);
    } else {
        lemma_accessors_grow(n, fields, k, (m - 1) as nat);
        let i0 = choose|i: int| 0 <= i < before.len() && before[i] == pair[0];
        let i1 = choose|i: int| 0 <= i < before.len() && before[i] == pair[1];
        if has_accessors(fields[m - 1]) {
            assert(now == before + accessor_pair(n, fields[m - 1]));
        }
        assert(now[i0] == pair[0]);
        assert(now[i1] == pair[1]);
    }
}

/// Every named field whose type is accepted gets both a getter and a setter,
/// and the two name the same field with the same type: the setter overwrites
/// in place exactly what the getter reads.
pub proof fn accessor_pair_for_each_field(d: DataRecord, k: int)
    requires
        0 <= k < d.fields@.len(),
        has_accessors(d.fields@[k]),
    ensures
        record_artifacts(d).contains(accessor_pair(d.name@, d.fields@[k])[0]),
        record_artifacts(d).contains(accessor_pair(d.name@, d.fields@[k])[1]),
{
    let n = d.name@;
    let pair = accessor_pair(n, d.fields@[k]);
    let head = seq![
        ArtifactView { symbol: d.name@, exported: false, text: crate::record::record_def_text(d) },
        ArtifactView { symbol: free_name(d.name@), exported: true, text: free_text(d.name@) },
    ];
    let acc = accessors(n, d.fields@, d.fields@.len());
    lemma_accessors_grow(n, d.fields@, k, d.fields@.len());
    assert(record_artifacts(d) == head + acc);
    let i0 = choose|i: int| 0 <= i < acc.len() && acc[i] == pair[0];
    let i1 = choose|i: int| 0 <= i < acc.len() && acc[i] == pair[1];
    assert(record_artifacts(d)[i0 + 2] == pair[0]);
    assert(record_artifacts(d)[i1 + 2] == pair[1]);
}

/// A `Result` or `Option` return type with a payload that is not a primitive
/// or `()` (a container, a nested shape, anything else) makes the whole
/// function fail to export, for either consumer: no record, inner function or
/// wrapper is generated, only a type diagnostic (a safety one if the function
/// is also `unsafe`).
pub proof fn non_primitive_payload_is_rejected(f: FunctionDecl, t: RustType)
    requires
        f.ret == Some(t),
        (is_result_shape(t) && !(is_payload_kind(kind_of(type_args(t)[0])) && is_payload_kind(
            kind_of(type_args(t)[1]),
        ))) || (!is_result_shape(t) && is_option_shape(t) && !is_payload_kind(
            kind_of(type_args(t)[0]),
        )),
    ensures
        !decl_ok(Decl::Function(f)),
        forall|e: crate::decl::Diagnostic|
            #[trigger] decl_failure(e, Decl::Function(f)) ==> e.kind == if f.is_unsafe {
                DiagnosticKind::Safety
            } else {
                DiagnosticKind::Type
            },
{
}

/// Both consumers run the same original body: the C-ABI artifacts hold it
/// unchanged, and so does the host binding.
pub proof fn both_targets_share_the_body(f: FunctionDecl)
    requires
        function_ok(f),
    ensures
        exists|i: int|
            0 <= i < function_artifacts(f).len() && ends_with(
                #[trigger] function_artifacts(f)[i].text,
                f.body@,
            ),
        ends_with(host_function_text(f), f.body@),
{
    let arts = function_artifacts(f);
    lemma_ends_with_concat(
        "#[pyo3::pyfunction] "@ + f.attrs@ + "pub fn "@ + f.name@ + "("@ + source_params(f.params@)
            + ")"@ + ret_suffix(f.ret) + " "@,
        f.body@,
    );
    match f.ret {
        Some(t) => {
            if is_result_shape(t) {
                let ok = type_args(t)[0].text@;
                let err = type_args(t)[1].text@;
                lemma_ends_with_concat(
                    "fn "@ + crate::function::inner_name(f.name@) + "("@ + source_params(f.params@)
                        + ") -> Result<"@ + ok + ", "@ + err + "> "@,
                    f.body@,
                );
                assert(ends_with(arts[1].text, f.body@));
            } else if is_option_shape(t) {
                let inner = type_args(t)[0].text@;
                lemma_ends_with_concat(
                    "fn "@ + crate::function::inner_name(f.name@) + "("@ + source_params(f.params@)
                        + ") -> Option<"@ + inner + "> "@,
                    f.body@,
                );
                assert(ends_with(arts[1].text, f.body@));
            } else {
                lemma_ends_with_concat(
                    "#[no_mangle] "@ + f.attrs@ + "pub extern \"C\" fn "@ + f.name@ + "("@
                        + source_params(f.params@) + ")"@ + ret_suffix(f.ret) + " "@,
                    f.body@,
                );
                assert(ends_with(arts[0].text, f.body@));
            }
        },
        None => {
            lemma_ends_with_concat(
                "#[no_mangle] "@ + f.attrs@ + "pub extern \"C\" fn "@ + f.name@ + "("@
                    + source_params(f.params@) + ")"@ + ret_suffix(f.ret) + " "@,
                f.body@,
            );
            assert(ends_with(arts[0].text, f.body@));
        },
    }
}

proof fn lemma_selected_concat(a: Seq<EmissionView>, b: Seq<EmissionView>, t: Target)
    ensures
        selected_for(a + b, t, (a + b).len()) == selected_for(a, t, a.len()) + selected_for(
            b,
            t,
            b.len(),
        ),
    decreases b.len(),
{
    if b.len() == 0 {
        assert(a + b =~= a);
        assert(selected_for(a, t, a.len()) + selected_for(b, t, 0) =~= selected_for(a, t, a.len()));
    } else {
        let b0 = b.drop_last();
        lemma_selected_concat(a, b0, t);
        assert((a + b).drop_last() =~= a + b0);
        lemma_selected_prefix(a + b, t, ((a + b).len() - 1) as nat);
        lemma_selected_prefix(b, t, (b.len() - 1) as nat);
        assert((a + b)[(a + b).len() - 1] == b[b.len() - 1]);
        if belongs_to(b[b.len() - 1].surface, t) {
            assert(selected_for(a, t, a.len()) + selected_for(b, t, b.len()) =~= (selected_for(
                a,
                t,
                a.len(),
            ) + selected_for(b0, t, b0.len())).push(b[b.len() - 1].artifact));
        }
    }
}

/// Selecting from the first `k` emissions only looks at those `k`.
proof fn lemma_selected_prefix(v: Seq<EmissionView>, t: Target, k: nat)
    requires
        k <= v.len(),
    ensures
        selected_for(v, t, k) == selected_for(v.take(k as int), t, k),
    decreases k,
{
    if k > 0 {
        lemma_selected_prefix(v, t, (k - 1) as nat);
        lemma_selected_prefix(v.take(k as int), t, (k - 1) as nat);
        assert(v.take(k as int).take(k - 1) =~= v.take(k - 1));
    }
}

proof fn lemma_selected_tagged(v: Seq<ArtifactView>, s: Surface, t: Target)
    ensures
        selected_for(tagged(v, s), t, v.len()) == if belongs_to(s, t) {
            v
        } else {
            Seq::empty()
        },
    decreases v.len(),
{
    if v.len() > 0 {
        let v0 = v.drop_last();
        lemma_selected_tagged(v0, s, t);
        lemma_selected_prefix(tagged(v, s), t, v0.len());
        assert(tagged(v, s).take(v0.len() as int) =~= tagged(v0, s));
        if belongs_to(s, t) {
            assert(v0.push(v.last()) =~= v);
        }
    }
}

/// A function's build for the C ABI under the two-consumer attribute is the
/// same as under the C-ABI attribute, and its host build holds the host
/// binding alone.
pub proof fn dual_function_paths(f: FunctionDecl)
    ensures
        selected_for(
            dual_emissions(Decl::Function(f)),
            Target::CAbi,
            dual_emissions(Decl::Function(f)).len(),
        ) == c_artifacts(Decl::Function(f)),
        selected_for(
            dual_emissions(Decl::Function(f)),
            Target::HostExtension,
            dual_emissions(Decl::Function(f)).len(),
        ) == seq![ArtifactView { symbol: f.name@, exported: false, text: host_function_text(f) }],
{
    let a = tagged(function_artifacts(f), Surface::CAbiOnly);
    let host = ArtifactView { symbol: f.name@, exported: false, text: host_function_text(f) };
    let b = seq![EmissionView { surface: Surface::HostOnly, artifact: host }];
    lemma_selected_concat(a, b, Target::CAbi);
    lemma_selected_concat(a, b, Target::HostExtension);
    lemma_selected_tagged(function_artifacts(f), Surface::CAbiOnly, Target::CAbi);
    lemma_selected_tagged(function_artifacts(f), Surface::CAbiOnly, Target::HostExtension);
    assert(a.len() == function_artifacts(f).len());
    reveal_with_fuel(selected_for, 2);
    assert(selected_for(b, Target::CAbi, 1) =~= Seq::empty());
    assert(selected_for(b, Target::HostExtension, 1) =~= seq![host]);
    assert(function_artifacts(f) + Seq::<ArtifactView>::empty() =~= function_artifacts(f));
    assert(Seq::<ArtifactView>::empty() + seq![host] =~= seq![host]);
}

/// A data record's build for the C ABI under the two-consumer attribute is
/// the same as under the C-ABI attribute; its host build holds the host class
/// and the same deallocation wrapper.
pub proof fn dual_record_paths(d: DataRecord)
    ensures
        selected_for(
            dual_emissions(Decl::DataRecord(d)),
            Target::CAbi,
            dual_emissions(Decl::DataRecord(d)).len(),
        ) == c_artifacts(Decl::DataRecord(d)),
        selected_for(
            dual_emissions(Decl::DataRecord(d)),
            Target::HostExtension,
            dual_emissions(Decl::DataRecord(d)).len(),
        ) == seq![
            ArtifactView { symbol: d.name@, exported: false, text: host_record_text(d) },
            ArtifactView { symbol: free_name(d.name@), exported: true, text: free_text(d.name@) },
        ],
{
    let def = ArtifactView { symbol: d.name@, exported: false, text: record_def_text(d) };
    let hdef = ArtifactView { symbol: d.name@, exported: false, text: host_record_text(d) };
    let free = ArtifactView { symbol: free_name(d.name@), exported: true, text: free_text(d.name@) };
    let acc = accessors(d.name@, d.fields@, d.fields@.len());
    let a = seq![
        EmissionView { surface: Surface::CAbiOnly, artifact: def },
        EmissionView { surface: Surface::HostOnly, artifact: hdef },
        EmissionView { surface: Surface::Both, artifact: free },
    ];
    let b = tagged(acc, Surface::CAbiOnly);
    lemma_selected_concat(a, b, Target::CAbi);
    lemma_selected_concat(a, b, Target::HostExtension);
    lemma_selected_tagged(acc, Surface::CAbiOnly, Target::CAbi);
    lemma_selected_tagged(acc, Surface::CAbiOnly, Target::HostExtension);
    assert(b.len() == acc.len());
    reveal_with_fuel(selected_for, 4);
    assert(selected_for(a, Target::CAbi, 3) =~= seq![def, free]);
    assert(selected_for(a, Target::HostExtension, 3) =~= seq![hdef, free]);
    assert(seq![def, free] + acc =~= record_artifacts(d));
    assert(seq![hdef, free] + Seq::<ArtifactView>::empty() =~= seq![hdef, free]);
}

/// Named fields have pairwise distinct names.
pub open spec fn field_names_distinct(fields: Seq<crate::decl::Field>) -> bool {
    forall|i: int, j: int|
        0 <= i < j < fields.len() && (#[trigger] fields[i]).name is Some && (#[trigger] fields[
            j
        ]).name is Some ==> fields[i].name->0@ != fields[j].name->0@
}

proof fn lemma_accessor_names(n: Seq<char>, a: Seq<char>, b: Seq<char>)
    ensures
        getter_name(n, a) == getter_name(n, b) ==> a == b,
        setter_name(n, a) == setter_name(n, b) ==> a == b,
        getter_name(n, a) != setter_name(n, b),
{
    reveal_strlit("_get_");
    reveal_strlit("_set_");
    let p = n + "_get_"@;
    let q = n + "_set_"@;
    assert(getter_name(n, a).subrange(p.len() as int, getter_name(n, a).len() as int) =~= a);
    assert(getter_name(n, b).subrange(p.len() as int, getter_name(n, b).len() as int) =~= b);
    assert(setter_name(n, a).subrange(q.len() as int, setter_name(n, a).len() as int) =~= a);
    assert(setter_name(n, b).subrange(q.len() as int, setter_name(n, b).len() as int) =~= b);
    assert(getter_name(n, a)[n.len() + 1int] == 'g');
    assert(setter_name(n, b)[n.len() + 1int] == 's');
}

/// `s` is the getter or the setter name of one of the first `k` fields.
spec fn names_field(n: Seq<char>, fields: Seq<crate::decl::Field>, k: int, s: Seq<char>) -> bool {
    exists|idx: int|
        0 <= idx < k && has_accessors(#[trigger] fields[idx]) && (s == getter_name(
            n,
            fields[idx].name->0@,
        ) || s == setter_name(n, fields[idx].name->0@))
}

/// The accessor symbols of the first `k` fields name fields among them, and
/// no two are alike.
proof fn lemma_accessors_distinct(n: Seq<char>, fields: Seq<crate::decl::Field>, k: nat)
    requires
        k <= fields.len(),
        field_names_distinct(fields),
    ensures
        forall|i: int, j: int|
            0 <= i < j < accessors(n, fields, k).len() ==> (#[trigger] accessors(n, fields, k)[i]).symbol
                != (#[trigger] accessors(n, fields, k)[j]).symbol,
    decreases k,
{
    if k > 0 {
        let before = accessors(n, fields, (k - 1) as nat);
        let now = accessors(n, fields, k);
        lemma_accessors_distinct(n, fields, (k - 1) as nat);
        lemma_accessor_symbols(n, fields, (k - 1) as nat);
        let fk = fields[k - 1];
        if has_accessors(fk) {
            let name = fk.name->0@;
            let pair = accessor_pair(n, fk);
            assert(now == before + pair);
            assert forall|i: int, j: int| 0 <= i < j < now.len() implies (#[trigger] now[i]).symbol
                != (#[trigger] now[j]).symbol by {
                if j < before.len() {
                    assert(now[i] == before[i] && now[j] == before[j]);
                } else if i >= before.len() {
                    lemma_accessor_names(n, name, name);
                } else {
                    assert(now[i] == before[i]);
                    assert(names_field(n, fields, k - 1, before[i].symbol));
                    let idx = choose|idx: int|
                        0 <= idx < k - 1 && has_accessors(#[trigger] fields[idx]) && (
                        before[i].symbol == getter_name(n, fields[idx].name->0@)
                            || before[i].symbol == setter_name(n, fields[idx].name->0@));
                    let other = fields[idx].name->0@;
                    assert(other != name);
                    lemma_accessor_names(n, other, name);
                    lemma_accessor_names(n, name, other);
                }
            }
        } else {
            assert(now == before);
        }
    }
}

/// The names a data record's wrappers define are pairwise distinct when its
/// fields are: one build never exports a symbol of one record twice.
pub proof fn record_symbols_distinct(d: DataRecord)
    requires
        field_names_distinct(d.fields@),
    ensures
        forall|i: int, j: int|
            0 <= i < j < record_artifacts(d).len() ==> (#[trigger] record_artifacts(d)[i]).symbol
                != (#[trigger] record_artifacts(d)[j]).symbol,
{
    let n = d.name@;
    let all = record_artifacts(d);
    let acc = accessors(n, d.fields@, d.fields@.len());
    lemma_accessors_distinct(n, d.fields@, d.fields@.len());
    lemma_accessor_symbols(n, d.fields@, d.fields@.len());
    reveal_strlit("_free");
    reveal_strlit("_get_");
    reveal_strlit("_set_");
    assert forall|i: int, j: int| 0 <= i < j < all.len() implies (#[trigger] all[i]).symbol != (
    #[trigger] all[j]).symbol by {
        if j >= 2 {
            assert(all[j] == acc[j - 2]);
            assert(names_field(n, d.fields@, d.fields@.len() as int, acc[j - 2].symbol));
            let idx = choose|idx: int|
                0 <= idx < d.fields@.len() && has_accessors(#[trigger] d.fields@[idx]) && (
                acc[j - 2].symbol == getter_name(n, d.fields@[idx].name->0@)
                    || acc[j - 2].symbol == setter_name(n, d.fields@[idx].name->0@));
            let f = d.fields@[idx].name->0@;
            if i == 0 {
                assert(all[i].symbol.len() < all[j].symbol.len());
            } else if i == 1 {
                lemma_accessor_is_not_free(n, f);
            } else {
                assert(all[i] == acc[i - 2]);
            }
        } else {
            assert(all[0].symbol.len() < all[1].symbol.len());
        }
    }
}

/// The methods of the entries have pairwise distinct names.
pub open spec fn method_names_distinct(entries: Seq<ImplEntry>) -> bool {
    forall|i: int, j: int|
        0 <= i < j < entries.len() && (#[trigger] entries[i]) is Method && (#[trigger] entries[
            j
        ]) is Method ==> entries[i]->Method_0.name@ != entries[j]->Method_0.name@
}

spec fn names_method(entries: Seq<ImplEntry>, owner: Seq<char>, k: int, s: Seq<char>) -> bool {
    exists|idx: int|
        0 <= idx < k && (#[trigger] entries[idx]) is Method && s == method_wrapper_name(
            owner,
            entries[idx]->Method_0.name@,
        )
}

proof fn lemma_wrapper_names(owner: Seq<char>, a: Seq<char>, b: Seq<char>)
    ensures
        method_wrapper_name(owner, a) == method_wrapper_name(owner, b) ==> a == b,
{
    let p = owner + "_"@;
    assert(method_wrapper_name(owner, a).subrange(p.len() as int, method_wrapper_name(owner, a).len() as int) =~= a);
    assert(method_wrapper_name(owner, b).subrange(p.len() as int, method_wrapper_name(owner, b).len() as int) =~= b);
}

/// Of a method's artifacts only the wrapper is exported.
proof fn lemma_method_artifacts(m: Method, owner: Seq<char>)
    ensures
        forall|t: int|
            0 <= t < method_artifacts(m, owner).len() && (#[trigger] method_artifacts(m, owner)[t]).exported
                ==> method_artifacts(m, owner)[t].symbol == method_wrapper_name(owner, m.name@),
        forall|t1: int, t2: int|
            0 <= t1 < t2 < method_artifacts(m, owner).len() ==> !((#[trigger] method_artifacts(
                m,
                owner,
            )[t1]).exported && (#[trigger] method_artifacts(m, owner)[t2]).exported),
{
}

/// The exported symbols among the artifacts of the first `k` entries are the
/// wrapper names of methods among them, and no two are alike.
proof fn lemma_wrappers_distinct(entries: Seq<ImplEntry>, owner: Seq<char>, k: nat)
    requires
        k <= entries.len(),
        method_names_distinct(entries),
    ensures
        forall|i: int|
            0 <= i < method_wrappers(entries, owner, k).len() && (#[trigger] method_wrappers(
                entries,
                owner,
                k,
            )[i]).exported ==> names_method(
                entries,
                owner,
                k as int,
                method_wrappers(entries, owner, k)[i].symbol,
            ),
        forall|i: int, j: int|
            0 <= i < j < method_wrappers(entries, owner, k).len() && (#[trigger] method_wrappers(
                entries,
                owner,
                k,
            )[i]).exported && (#[trigger] method_wrappers(entries, owner, k)[j]).exported ==> method_wrappers(
                entries,
                owner,
                k,
            )[i].symbol != method_wrappers(entries, owner, k)[j].symbol,
    decreases k,
{
    if k > 0 {
        let before = method_wrappers(entries, owner, (k - 1) as nat);
        let now = method_wrappers(entries, owner, k);
        lemma_wrappers_distinct(entries, owner, (k - 1) as nat);
        assert forall|i: int| 0 <= i < before.len() && (#[trigger] before[i]).exported implies names_method(
            entries,
            owner,
            k as int,
            before[i].symbol,
        ) by {
            assert(names_method(entries, owner, k - 1, before[i].symbol));
            let idx = choose|idx: int|
                0 <= idx < k - 1 && (#[trigger] entries[idx]) is Method && before[i].symbol
                    == method_wrapper_name(owner, entries[idx]->Method_0.name@);
            assert(0 <= idx < k && entries[idx] is Method);
        }
        if selected(entries[k - 1]) {
            let m = entries[k - 1]->Method_0;
            let ma = method_artifacts(m, owner);
            lemma_method_artifacts(m, owner);
            assert(now == before + ma);
            assert forall|i: int| 0 <= i < now.len() && (#[trigger] now[i]).exported implies names_method(
                entries,
                owner,
                k as int,
                now[i].symbol,
            ) by {
                if i < before.len() {
                    assert(now[i] == before[i]);
                } else {
                    assert(now[i] == ma[i - before.len()]);
                    assert(entries[k - 1] is Method);
                }
            }
            assert forall|i: int, j: int|
                0 <= i < j < now.len() && (#[trigger] now[i]).exported && (
                #[trigger] now[j]).exported implies now[i].symbol != now[j].symbol by {
                if j < before.len() {
                    assert(now[i] == before[i] && now[j] == before[j]);
                } else if i >= before.len() {
                    assert(now[i] == ma[i - before.len()] && now[j] == ma[j - before.len()]);
                } else {
                    assert(now[i] == before[i]);
                    assert(now[j] == ma[j - before.len()]);
                    assert(names_method(entries, owner, k - 1, before[i].symbol));
                    let idx = choose|idx: int|
                        0 <= idx < k - 1 && (#[trigger] entries[idx]) is Method && before[i].symbol
                            == method_wrapper_name(owner, entries[idx]->Method_0.name@);
                    assert(entries[idx]->Method_0.name@ != m.name@);
                    lemma_wrapper_names(owner, entries[idx]->Method_0.name@, m.name@);
                }
            }
        } else {
            assert(now == before);
        }
    }
}

/// The symbols a method collection's wrappers export are pairwise distinct
/// when its methods' names are: one build never exports a symbol of one
/// collection twice.
pub proof fn collection_symbols_distinct(c: MethodCollection, owner: Seq<char>, strip: bool)
    requires
        method_names_distinct(c.entries@),
    ensures
        forall|i: int, j: int|
            0 <= i < j < collection_artifacts(c, owner, strip).len() && (
            #[trigger] collection_artifacts(c, owner, strip)[i]).exported && (
            #[trigger] collection_artifacts(c, owner, strip)[j]).exported ==> collection_artifacts(
                c,
                owner,
                strip,
            )[i].symbol != collection_artifacts(c, owner, strip)[j].symbol,
{
    let all = collection_artifacts(c, owner, strip);
    let ws = method_wrappers(c.entries@, owner, c.entries@.len());
    lemma_wrappers_distinct(c.entries@, owner, c.entries@.len());
    assert forall|i: int, j: int|
        0 <= i < j < all.len() && (#[trigger] all[i]).exported && (#[trigger] all[j]).exported implies all[i].symbol
        != all[j].symbol by {
        assert(all[j] == ws[j - 1]);
        assert(i >= 1);
        assert(all[i] == ws[i - 1]);
    }
}

} // verus!
