//! The generator's entry points: one declaration in, its wrappers out, for
//! the C ABI alone or for the C ABI and the host extension protocol together.
use vstd::prelude::*;
use vstd::string::*;
use crate::collection::{
    blames_some_method, entries_ok, impl_source, method_wrapper_list, method_wrappers, impl_text,
};
use crate::decl::{DataRecord, Decl, Diagnostic, DiagnosticKind, FunctionDecl, MethodCollection};
use crate::emit::{artifact_views, Artifact, ArtifactView};
use crate::function::{function_artifacts, transform_function};
use crate::host::{
    host_function, host_function_text, host_impl, host_impl_text, host_record, host_record_text,
};
use crate::record::{accessors, free_name, free_text, record_artifacts, record_def_text, transform_struct};
use crate::text::owned;
use crate::validate::{failure_matches, function_ok};

verus! {

/// The consumer a build is for.
#[derive(Clone, Copy, Debug, PartialEq, Eq, Structural)]
pub enum Target {
    /// Foreign callers through the C ABI.
    CAbi,
    /// The dynamic host through its own extension protocol.
    HostExtension,
}

/// The builds an emitted item belongs to.
#[derive(Clone, Copy, Debug, PartialEq, Eq, Structural)]
pub enum Surface {
    Both,
    CAbiOnly,
    HostOnly,
}

pub struct Emission {
    pub surface: Surface,
    pub artifact: Artifact,
}

pub struct EmissionView {
    pub surface: Surface,
    pub artifact: ArtifactView,
}

impl View for Emission {
    type V = EmissionView;

    open spec fn view(&self) -> EmissionView {
        EmissionView { surface: self.surface, artifact: self.artifact@ }
    }
}

pub open spec fn emission_views(v: Seq<Emission>) -> Seq<EmissionView> {
    v.map_values(|e: Emission| e@)
}

pub open spec fn tagged(v: Seq<ArtifactView>, s: Surface) -> Seq<EmissionView> {
    v.map_values(|a: ArtifactView| EmissionView { surface: s, artifact: a })
}

pub open spec fn belongs_to(s: Surface, t: Target) -> bool {
    match s {
        Surface::Both => true,
        Surface::CAbiOnly => t is CAbi,
        Surface::HostOnly => t is HostExtension,
    }
}

/// The artifacts among the first `k` emissions that a build for `t` gets.
pub open spec fn selected_for(v: Seq<EmissionView>, t: Target, k: nat) -> Seq<ArtifactView>
    decreases k,
{
    if k == 0 || k > v.len() {
        Seq::empty()
    } else {
        let before = selected_for(v, t, (k - 1) as nat);
        if belongs_to(v[k - 1].surface, t) {
            before.push(v[k - 1].artifact)
        } else {
            before
        }
    }
}

/// What a method collection turns into: the collection itself, with the
/// marker attributes removed when `strip` holds, then one wrapper for each of
/// its methods.
pub open spec fn collection_artifacts(
    c: MethodCollection,
    owner: Seq<char>,
    strip: bool,
) -> Seq<ArtifactView> {
    seq![
        ArtifactView {
            symbol: owner,
            exported: false,
            text: impl_text(c.header@, c.entries@, strip),
        },
    ] + method_wrappers(c.entries@, owner, c.entries@.len())
}

/// Wrappers can be generated for the declaration.
pub open spec fn decl_ok(d: Decl) -> bool {
    match d {
        Decl::Function(f) => function_ok(f),
        Decl::DataRecord(_) => true,
        Decl::MethodCollection(c) => c.owner matches Some(o) && entries_ok(c.entries@, o@),
        Decl::Unrecognized => false,
    }
}

/// The diagnostic is the one the declaration fails with.
pub open spec fn decl_failure(e: Diagnostic, d: Decl) -> bool {
    match d {
        Decl::Function(f) => failure_matches(e, f.is_unsafe, f.params@, f.ret),
        Decl::DataRecord(_) => false,
        Decl::MethodCollection(c) => match c.owner {
            None => e.kind == DiagnosticKind::ImplTarget,
            Some(o) => blames_some_method(e, c.entries@, o@),
        },
        Decl::Unrecognized => e.kind == DiagnosticKind::Shape,
    }
}

/// The C-ABI artifacts of a declaration.
pub open spec fn c_artifacts(d: Decl) -> Seq<ArtifactView> {
    match d {
        Decl::Function(f) => function_artifacts(f),
        Decl::DataRecord(r) => record_artifacts(r),
        Decl::MethodCollection(c) => collection_artifacts(c, c.owner->0@, true),
        Decl::Unrecognized => Seq::empty(),
    }
}

/// The emissions of a declaration for both consumers.  The deallocation
/// wrapper is in every build; the rest goes to one of the two.
pub open spec fn dual_emissions(d: Decl) -> Seq<EmissionView> {
    match d {
        Decl::Function(f) => tagged(function_artifacts(f), Surface::CAbiOnly) + seq![
            EmissionView {
                surface: Surface::HostOnly,
                artifact: ArtifactView { symbol: f.name@, exported: false, text: host_function_text(f) },
            },
        ],
        Decl::DataRecord(r) => seq![
            EmissionView {
                surface: Surface::CAbiOnly,
                artifact: ArtifactView { symbol: r.name@, exported: false, text: record_def_text(r) },
            },
            EmissionView {
                surface: Surface::HostOnly,
                artifact: ArtifactView { symbol: r.name@, exported: false, text: host_record_text(r) },
            },
            EmissionView {
                surface: Surface::Both,
                artifact: ArtifactView { symbol: free_name(r.name@), exported: true, text: free_text(r.name@) },
            },
        ] + tagged(accessors(r.name@, r.fields@, r.fields@.len()), Surface::CAbiOnly),
        Decl::MethodCollection(c) => {
            let o = c.owner->0@;
            seq![
                EmissionView {
                    surface: Surface::CAbiOnly,
                    artifact: ArtifactView { symbol: o, exported: false, text: impl_text(c.header@, c.entries@, false) },
                },
                EmissionView {
                    surface: Surface::HostOnly,
                    artifact: ArtifactView { symbol: o, exported: false, text: host_impl_text(o, c.entries@) },
                },
            ] + tagged(method_wrappers(c.entries@, o, c.entries@.len()), Surface::CAbiOnly)
        },
        Decl::Unrecognized => Seq::empty(),
    }
}

/// The collection, with the marker attributes removed when `strip` holds,
/// and the wrappers of all its methods, or why they cannot be generated.
pub fn transform_impl(c: &MethodCollection, strip: bool) -> (r: Result<
    Vec<Artifact>,
    Diagnostic,
>)
    ensures
        r is Ok <==> decl_ok(Decl::MethodCollection(*c)),
        r matches Ok(v) ==> artifact_views(v@) == collection_artifacts(*c, c.owner->0@, strip),
        r matches Err(e) ==> decl_failure(e, Decl::MethodCollection(*c)),
{
    let owner = match &c.owner {
        Some(o) => o,
        None => {
            return Err(Diagnostic { kind: DiagnosticKind::ImplTarget, subject: String::new() });
        },
    };
    let wrappers = method_wrapper_list(&c.entries, owner.as_str())?;
    let mut out: Vec<Artifact> = Vec::new();
    out.push(
        Artifact {
            symbol: owner.clone(),
            exported: false,
            text: impl_source(&c.header, &c.entries, strip),
        },
    );
    let ghost head = out@;
    let mut i: usize = 0;
    while i < wrappers.len()
        invariant
            i <= wrappers.len(),
            artifact_views(out@) =~= artifact_views(head) + artifact_views(wrappers@.take(i as int)),
        decreases wrappers.len() - i,
    {
        let ghost before = out@;
        out.push(copy_artifact(&wrappers[i]));
        assert(artifact_views(out@) =~= artifact_views(before).push(wrappers@[i as int]@));
        assert(wrappers@.take(i + 1) =~= wrappers@.take(i as int).push(wrappers@[i as int]));
        i = i + 1;
    }
    assert(wrappers@.take(wrappers.len() as int) =~= wrappers@);
    assert(artifact_views(out@) =~= artifact_views(head) + artifact_views(wrappers@));
    Ok(out)
}

fn unrecognized() -> (e: Diagnostic)
    ensures
        e.kind == DiagnosticKind::Shape,
{
    Diagnostic { kind: DiagnosticKind::Shape, subject: String::new() }
}

/// The C-ABI wrappers of a declaration.  A function is passed through or
/// reshaped, a record gets its layout, deallocation wrapper and accessors,
/// and every method of a collection gets a wrapper named `Owner_method`; the
/// collection itself is re-emitted without the marker attributes.
pub fn julia(d: &Decl) -> (r: Result<Vec<Artifact>, Diagnostic>)
    ensures
        r is Ok <==> decl_ok(*d),
        r matches Ok(v) ==> artifact_views(v@) == c_artifacts(*d),
        r matches Err(e) ==> decl_failure(e, *d),
{
    match d {
        Decl::Function(f) => transform_function(f),
        Decl::DataRecord(rec) => Ok(transform_struct(rec)),
        Decl::MethodCollection(c) => transform_impl(c, true),
        Decl::Unrecognized => Err(unrecognized()),
    }
}

fn copy_artifact(a: &Artifact) -> (r: Artifact)
    ensures
        r@ == a@,
{
    Artifact { symbol: a.symbol.clone(), exported: a.exported, text: a.text.clone() }
}

/// Appends the artifacts of `v` from `start` on, each tagged with `s`.
fn tag_from(v: &Vec<Artifact>, start: usize, s: Surface, out: &mut Vec<Emission>)
    requires
        start <= v@.len(),
    ensures
        emission_views(final(out)@) == emission_views(old(out)@) + tagged(
            artifact_views(v@).skip(start as int),
            s,
        ),
{
    let ghost begin = emission_views(out@);
    let ghost all = artifact_views(v@).skip(start as int);
    let mut i: usize = start;
    while i < v.len()
        invariant
            start <= i <= v@.len(),
            all == artifact_views(v@).skip(start as int),
            emission_views(out@) =~= begin + tagged(all.take(i - start), s),
        decreases v.len() - i,
    {
        let ghost before = emission_views(out@);
        out.push(Emission { surface: s, artifact: copy_artifact(&v[i]) });
        assert(emission_views(out@) =~= before.push(EmissionView { surface: s, artifact: v@[i as int]@ }));
        assert(all.take(i + 1 - start) =~= all.take(i - start).push(v@[i as int]@));
        i = i + 1;
    }
    assert(all.take(i - start) =~= all);
}

fn dual_function(f: &FunctionDecl) -> (r: Result<Vec<Emission>, Diagnostic>)
    ensures
        r is Ok <==> function_ok(*f),
        r matches Ok(v) ==> emission_views(v@) == dual_emissions(Decl::Function(*f)),
        r matches Err(e) ==> failure_matches(e, f.is_unsafe, f.params@, f.ret),
{
    let c = transform_function(f)?;
    let mut out: Vec<Emission> = Vec::new();
    tag_from(&c, 0, Surface::CAbiOnly, &mut out);
    assert(artifact_views(c@).skip(0) =~= artifact_views(c@));
    let ghost mid = emission_views(out@);
    out.push(Emission { surface: Surface::HostOnly, artifact: host_function(f) });
    assert(emission_views(out@) =~= mid.push(emission_views(out@).last()));
    Ok(out)
}

fn dual_record(rec: &DataRecord) -> (r: Vec<Emission>)
    ensures
        emission_views(r@) == dual_emissions(Decl::DataRecord(*rec)),
{
    let c = transform_struct(rec);
    assert(artifact_views(c@).len() == record_artifacts(*rec).len());
    let mut out: Vec<Emission> = Vec::new();
    out.push(Emission { surface: Surface::CAbiOnly, artifact: copy_artifact(&c[0]) });
    out.push(Emission { surface: Surface::HostOnly, artifact: host_record(rec) });
    out.push(Emission { surface: Surface::Both, artifact: copy_artifact(&c[1]) });
    proof {
        assert(artifact_views(c@)[0] == record_artifacts(*rec)[0]);
        assert(artifact_views(c@)[1] == record_artifacts(*rec)[1]);
        assert(artifact_views(c@).skip(2) =~= accessors(rec.name@, rec.fields@, rec.fields@.len()));
    }
    tag_from(&c, 2, Surface::CAbiOnly, &mut out);
    assert(emission_views(out@) =~= dual_emissions(Decl::DataRecord(*rec)));
    out
}

fn dual_impl(c: &MethodCollection) -> (r: Result<Vec<Emission>, Diagnostic>)
    ensures
        r is Ok <==> decl_ok(Decl::MethodCollection(*c)),
        r matches Ok(v) ==> emission_views(v@) == dual_emissions(Decl::MethodCollection(*c)),
        r matches Err(e) ==> decl_failure(e, Decl::MethodCollection(*c)),
{
    let all = transform_impl(c, false)?;
    let owner = match &c.owner {
        Some(o) => o,
        None => {
            return Err(Diagnostic { kind: DiagnosticKind::ImplTarget, subject: String::new() });
        },
    };
    assert(artifact_views(all@).len() == collection_artifacts(*c, owner@, false).len());
    let mut out: Vec<Emission> = Vec::new();
    out.push(Emission { surface: Surface::CAbiOnly, artifact: copy_artifact(&all[0]) });
    out.push(Emission { surface: Surface::HostOnly, artifact: host_impl(owner.as_str(), &c.entries) });
    proof {
        assert(artifact_views(all@)[0] == collection_artifacts(*c, owner@, false)[0]);
        assert(artifact_views(all@).skip(1) =~= method_wrappers(c.entries@, owner@, c.entries@.len()));
    }
    tag_from(&all, 1, Surface::CAbiOnly, &mut out);
    assert(emission_views(out@) =~= dual_emissions(Decl::MethodCollection(*c)));
    Ok(out)
}

/// The wrappers of a declaration for both consumers, each tagged with the
/// builds it belongs to.  Every method of a collection is wrapped.
pub fn julia_pyo3(d: &Decl) -> (r: Result<Vec<Emission>, Diagnostic>)
    ensures
        r is Ok <==> decl_ok(*d),
        r matches Ok(v) ==> emission_views(v@) == dual_emissions(*d),
        r matches Err(e) ==> decl_failure(e, *d),
{
    match d {
        Decl::Function(f) => dual_function(f),
        Decl::DataRecord(rec) => Ok(dual_record(rec)),
        Decl::MethodCollection(c) => dual_impl(c),
        Decl::Unrecognized => Err(unrecognized()),
    }
}

/// The artifacts that a build for `t` gets, in order.
pub fn select(v: &Vec<Emission>, t: Target) -> (r: Vec<Artifact>)
    ensures
        artifact_views(r@) == selected_for(emission_views(v@), t, v@.len()),
{
    let mut out: Vec<Artifact> = Vec::new();
    let mut i: usize = 0;
    while i < v.len()
        invariant
            i <= v.len(),
            artifact_views(out@) =~= selected_for(emission_views(v@), t, i as nat),
        decreases v.len() - i,
    {
        let keep = match v[i].surface {
            Surface::Both => true,
            Surface::CAbiOnly => matches!(t, Target::CAbi),
            Surface::HostOnly => matches!(t, Target::HostExtension),
        };
        if keep {
            let ghost before = out@;
            out.push(
                Artifact {
                    symbol: v[i].artifact.symbol.clone(),
                    exported: v[i].artifact.exported,
                    text: v[i].artifact.text.clone(),
                },
            );
            assert(artifact_views(out@) =~= artifact_views(before).push(v@[i as int].artifact@));
        }
        i = i + 1;
    }
    out
}

/// The attribute that puts an item in the builds of its surface only.
pub open spec fn guard(s: Surface) -> Seq<char> {
    match s {
        Surface::Both => Seq::empty(),
        Surface::CAbiOnly => "#[cfg(not(feature = \"python\"))] "@,
        Surface::HostOnly => "#[cfg(feature = \"python\")] "@,
    }
}

/// The item's text behind the build-time switch of its surface.
pub fn guarded_text(e: &Emission) -> (r: String)
    ensures
        r@ == guard(e.surface) + e.artifact.text@,
{
    let mut out = match e.surface {
        Surface::Both => String::new(),
        Surface::CAbiOnly => owned("#[cfg(not(feature = \"python\"))] "),
        Surface::HostOnly => owned("#[cfg(feature = \"python\")] "),
    };
    out.append(e.artifact.text.as_str());
    out
}

pub open spec fn message_text(kind: DiagnosticKind, attribute: Seq<char>, subject: Seq<char>) -> Seq<
    char,
> {
    match kind {
        DiagnosticKind::Shape => "#["@ + attribute
            + "] can only be applied to functions, structs, or impl blocks"@,
        DiagnosticKind::Type => "#["@ + attribute + "] cannot export `"@ + subject
            + "`: only primitives, (), raw pointers, and Result or Option of primitives or () cross the C ABI"@,
        DiagnosticKind::Safety => "#["@ + attribute
            + "] cannot be applied to unsafe functions directly. The function will be made extern \"C\" which has its own safety semantics."@,
        DiagnosticKind::ImplTarget => "#["@ + attribute
            + "] on impl block requires a simple type path"@,
        DiagnosticKind::Collision => "#["@ + attribute + "] would export `"@ + subject
            + "` a second time in this build"@,
    }
}

impl Diagnostic {
    /// The message reported for the attribute named `attribute`.
    pub fn message(&self, attribute: &str) -> (r: String)
        ensures
            r@ == message_text(self.kind, attribute@, self.subject@),
    {
        let mut out = owned("#[");
        out.append(attribute);
        match self.kind {
            DiagnosticKind::Shape => {
                out.append("] can only be applied to functions, structs, or impl blocks");
            },
            DiagnosticKind::Type => {
                out.append("] cannot export `");
                out.append(self.subject.as_str());
                out.append(
                    "`: only primitives, (), raw pointers, and Result or Option of primitives or () cross the C ABI",
                );
            },
            DiagnosticKind::Safety => {
                out.append(
                    "] cannot be applied to unsafe functions directly. The function will be made extern \"C\" which has its own safety semantics.",
                );
            },
            DiagnosticKind::ImplTarget => {
                out.append("] on impl block requires a simple type path");
            },
            DiagnosticKind::Collision => {
                out.append("] would export `");
                out.append(self.subject.as_str());
                out.append("` a second time in this build");
            },
        }
        out
    }
}

} // verus!
