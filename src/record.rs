//! Wrappers of a data record: a fixed layout, one deallocation wrapper, and
//! an accessor pair for each field whose type can cross the boundary.
use vstd::prelude::*;
use vstd::string::*;
use crate::decl::{DataRecord, Field, FieldsStyle};
use crate::emit::{artifact_views, export_head, Artifact, ArtifactView};
use crate::text::{join, joined, owned, views};
use crate::types::{is_field_kind, kind, kind_of, needs_clone_for_getter, Kind};

verus! {

pub open spec fn field_texts(fields: Seq<Field>) -> Seq<Seq<char>> {
    fields.map_values(|f: Field| f.text@)
}

pub open spec fn fields_block(style: FieldsStyle, fields: Seq<Field>) -> Seq<char> {
    match style {
        FieldsStyle::Named => " { "@ + joined(field_texts(fields), ", "@) + " }"@,
        FieldsStyle::Tuple => "("@ + joined(field_texts(fields), ", "@) + ");"@,
        FieldsStyle::Unit => ";"@,
    }
}

/// The record in declaration order with the C layout forced on it.
pub open spec fn record_def_text(d: DataRecord) -> Seq<char> {
    "#[repr(C)] "@ + d.attrs@ + "pub struct "@ + d.name@ + fields_block(d.style, d.fields@)
}

pub open spec fn free_name(n: Seq<char>) -> Seq<char> {
    n + "_free"@
}

/// Takes back an owning pointer and releases it; a null pointer is left alone.
pub open spec fn free_text(n: Seq<char>) -> Seq<char> {
    export_head() + free_name(n) + "(ptr: *mut "@ + n
        + ") { if !ptr.is_null() { unsafe { drop(Box::from_raw(ptr)); } } }"@
}

pub open spec fn getter_name(n: Seq<char>, f: Seq<char>) -> Seq<char> {
    n + "_get_"@ + f
}

pub open spec fn setter_name(n: Seq<char>, f: Seq<char>) -> Seq<char> {
    n + "_set_"@ + f
}

/// Reads the field through a shared pointer; a container is copied.
pub open spec fn getter_text(n: Seq<char>, f: Seq<char>, ty: Seq<char>, copy: bool) -> Seq<char> {
    export_head() + getter_name(n, f) + "(ptr: *const "@ + n + ") -> "@ + ty
        + " { unsafe { (*ptr)."@ + f + (if copy {
        ".clone()"@
    } else {
        Seq::empty()
    }) + " } }"@
}

/// Overwrites the field in place through an exclusive pointer.
pub open spec fn setter_text(n: Seq<char>, f: Seq<char>, ty: Seq<char>) -> Seq<char> {
    export_head() + setter_name(n, f) + "(ptr: *mut "@ + n + ", value: "@ + ty
        + ") { unsafe { (*ptr)."@ + f + " = value; } }"@
}

/// The field gets a getter and a setter: it is named and its type is accepted.
pub open spec fn has_accessors(f: Field) -> bool {
    f.name is Some && is_field_kind(kind_of(f.ty))
}

/// The accessor pair of a field.
pub open spec fn accessor_pair(n: Seq<char>, f: Field) -> Seq<ArtifactView> {
    let name = f.name->0@;
    seq![
        ArtifactView {
            symbol: getter_name(n, name),
            exported: true,
            text: getter_text(n, name, f.ty.text@, kind_of(f.ty) is Container),
        },
        ArtifactView { symbol: setter_name(n, name), exported: true, text: setter_text(n, name, f.ty.text@) },
    ]
}

/// The accessors of the first `k` fields, in field order.
pub open spec fn accessors(n: Seq<char>, fields: Seq<Field>, k: nat) -> Seq<ArtifactView>
    decreases k,
{
    if k == 0 || k > fields.len() {
        Seq::empty()
    } else {
        let before = accessors(n, fields, (k - 1) as nat);
        if has_accessors(fields[k - 1]) {
            before + accessor_pair(n, fields[k - 1])
        } else {
            before
        }
    }
}

/// What a data record turns into: its definition, its deallocation wrapper,
/// then the accessors.
pub open spec fn record_artifacts(d: DataRecord) -> Seq<ArtifactView> {
    seq![
        ArtifactView { symbol: d.name@, exported: false, text: record_def_text(d) },
        ArtifactView { symbol: free_name(d.name@), exported: true, text: free_text(d.name@) },
    ] + accessors(d.name@, d.fields@, d.fields@.len())
}

/// The definition of the record, with the C layout forced on it.
pub fn record_definition(d: &DataRecord) -> (a: Artifact)
    ensures
        a@ == (ArtifactView { symbol: d.name@, exported: false, text: record_def_text(*d) }),
{
    let mut pieces: Vec<String> = Vec::new();
    let mut i: usize = 0;
    while i < d.fields.len()
        invariant
            i <= d.fields.len(),
            views(pieces@) =~= field_texts(d.fields@.take(i as int)),
        decreases d.fields.len() - i,
    {
        let ghost before = pieces@;
        pieces.push(d.fields[i].text.clone());
        assert(views(pieces@) =~= views(before).push(d.fields@[i as int].text@));
        assert(d.fields@.take(i + 1) =~= d.fields@.take(i as int).push(d.fields@[i as int]));
        i = i + 1;
    }
    assert(d.fields@.take(d.fields.len() as int) =~= d.fields@);
    let list = join(&pieces, ", ");
    let block = match d.style {
        FieldsStyle::Named => {
            let mut b = owned(" { ");
            b.append(list.as_str());
            b.append(" }");
            b
        },
        FieldsStyle::Tuple => {
            let mut b = owned("(");
            b.append(list.as_str());
            b.append(");");
            b
        },
        FieldsStyle::Unit => owned(";"),
    };
    let mut text = owned("#[repr(C)] ");
    text.append(d.attrs.as_str());
    text.append("pub struct ");
    text.append(d.name.as_str());
    text.append(block.as_str());
    Artifact { symbol: d.name.clone(), exported: false, text }
}

/// The deallocation wrapper of the record named `n`.
pub fn free_function(n: &str) -> (a: Artifact)
    ensures
        a@ == (ArtifactView { symbol: free_name(n@), exported: true, text: free_text(n@) }),
{
    let mut symbol = owned(n);
    symbol.append("_free");
    let mut text = owned("#[no_mangle] pub extern \"C\" fn ");
    text.append(symbol.as_str());
    text.append("(ptr: *mut ");
    text.append(n);
    text.append(") { if !ptr.is_null() { unsafe { drop(Box::from_raw(ptr)); } } }");
    Artifact { symbol, exported: true, text }
}

/// The getter and the setter of a field of the record named `n`.
pub fn accessor_functions(n: &str, field: &Field, name: &String) -> (r: (Artifact, Artifact))
    requires
        field.name == Some(*name),
    ensures
        seq![r.0@, r.1@] == accessor_pair(n@, *field),
{
    let copy = needs_clone_for_getter(&field.ty);
    let mut getter = owned(n);
    getter.append("_get_");
    getter.append(name.as_str());
    let mut gtext = owned("#[no_mangle] pub extern \"C\" fn ");
    gtext.append(getter.as_str());
    gtext.append("(ptr: *const ");
    gtext.append(n);
    gtext.append(") -> ");
    gtext.append(field.ty.text.as_str());
    gtext.append(" { unsafe { (*ptr).");
    gtext.append(name.as_str());
    if copy {
        gtext.append(".clone()");
    }
    gtext.append(" } }");

    let mut setter = owned(n);
    setter.append("_set_");
    setter.append(name.as_str());
    let mut stext = owned("#[no_mangle] pub extern \"C\" fn ");
    stext.append(setter.as_str());
    stext.append("(ptr: *mut ");
    stext.append(n);
    stext.append(", value: ");
    stext.append(field.ty.text.as_str());
    stext.append(") { unsafe { (*ptr).");
    stext.append(name.as_str());
    stext.append(" = value; } }");
    let r = (
        Artifact { symbol: getter, exported: true, text: gtext },
        Artifact { symbol: setter, exported: true, text: stext },
    );
    assert(seq![r.0@, r.1@] =~= accessor_pair(n@, *field));
    r
}

/// The record with its C layout, its deallocation wrapper and its accessors.
/// Fields whose type cannot cross the boundary get no accessor.
pub fn transform_struct(d: &DataRecord) -> (r: Vec<Artifact>)
    ensures
        artifact_views(r@) == record_artifacts(*d),
{
    let mut out: Vec<Artifact> = Vec::new();
    out.push(record_definition(d));
    out.push(free_function(d.name.as_str()));
    let ghost head = seq![
        ArtifactView { symbol: d.name@, exported: false, text: record_def_text(*d) },
        ArtifactView { symbol: free_name(d.name@), exported: true, text: free_text(d.name@) },
    ];
    assert(artifact_views(out@) =~= head + accessors(d.name@, d.fields@, 0));
    let mut i: usize = 0;
    while i < d.fields.len()
        invariant
            i <= d.fields.len(),
            artifact_views(out@) =~= head + accessors(d.name@, d.fields@, i as nat),
        decreases d.fields.len() - i,
    {
        let field = &d.fields[i];
        match &field.name {
            Some(name) => {
                let k = kind(&field.ty);
                if matches!(k, Kind::Primitive) || matches!(k, Kind::OpaquePointer) || matches!(
                    k,
                    Kind::Unit,
                ) || matches!(k, Kind::Container) {
                    let (g, s) = accessor_functions(d.name.as_str(), field, name);
                    let ghost before = out@;
                    out.push(g);
                    out.push(s);
                    assert(artifact_views(out@) =~= artifact_views(before) + seq![
                        out@[before.len() as int]@,
                        out@[before.len() + 1int]@,
                    ]);
                }
            },
            None => {},
        }
        i = i + 1;
    }
    out
}

} // verus!
