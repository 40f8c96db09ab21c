use lastcall_codegen::collection::generate_method_wrapper;
use lastcall_codegen::decl::{
    receiver, Attribute, DataRecord, Decl, DiagnosticKind, Field, FieldsStyle, FunctionDecl,
    ImplEntry, Method, MethodCollection, Param, Receiver,
};
use lastcall_codegen::emit::Artifact;
use lastcall_codegen::registry::SymbolRegistry;
use lastcall_codegen::generate::{guarded_text, julia, julia_pyo3, select, Surface, Target};
use lastcall_codegen::roles::{classify_method, return_handling, MethodRole, ReturnHandling};
use lastcall_codegen::text::{decimal_text, join, same_text};
use lastcall_codegen::types::{
    classify, extract_option_type, extract_result_type, is_ffi_compatible_type, kind,
    needs_clone_for_getter, Kind, RustType, TypeDescriptor, TypeShape,
};

fn path(ident: &str, args: Vec<RustType>, text: &str) -> RustType {
    RustType {
        shape: TypeShape::Path { ident: ident.to_string(), args },
        text: text.to_string(),
    }
}

fn prim(ident: &str) -> RustType {
    path(ident, vec![], ident)
}

fn unit() -> RustType {
    RustType { shape: TypeShape::Unit, text: "()".to_string() }
}

fn result_of(ok: RustType, err: RustType) -> RustType {
    let text = format!("Result<{}, {}>", ok.text, err.text);
    path("Result", vec![ok, err], &text)
}

fn option_of(inner: RustType) -> RustType {
    let text = format!("Option<{}>", inner.text);
    path("Option", vec![inner], &text)
}

fn typed(name: &str, ty: RustType) -> Param {
    let text = format!("{}: {}", name, ty.text);
    Param::Typed { binding: Some(name.to_string()), ty, text }
}

fn function(name: &str, params: Vec<Param>, ret: Option<RustType>, body: &str) -> FunctionDecl {
    FunctionDecl {
        attrs: String::new(),
        is_unsafe: false,
        name: name.to_string(),
        params,
        ret,
        body: body.to_string(),
    }
}

fn marker() -> Attribute {
    Attribute { name: "julia".to_string(), text: "#[julia]".to_string() }
}

fn method(name: &str, params: Vec<Param>, ret: Option<RustType>, head: &str) -> Method {
    Method {
        attrs: vec![marker()],
        is_unsafe: false,
        name: name.to_string(),
        params,
        ret,
        head: head.to_string(),
        body: "{ self_check() }".to_string(),
    }
}

fn field(name: &str, ty: RustType) -> Field {
    let text = format!("pub {}: {}", name, ty.text);
    Field { name: Some(name.to_string()), ty, text }
}

fn texts(v: &[Artifact]) -> Vec<String> {
    v.iter().map(|a| a.text.clone()).collect()
}

fn symbols(v: &[Artifact]) -> Vec<String> {
    v.iter().map(|a| a.symbol.clone()).collect()
}

fn divide() -> FunctionDecl {
    function(
        "divide",
        vec![typed("a", prim("f64")), typed("b", prim("f64"))],
        Some(result_of(prim("f64"), prim("i32"))),
        "{ if b == 0.0 { Err(-1) } else { Ok(a / b) } }",
    )
}

fn safe_sqrt() -> FunctionDecl {
    function(
        "safe_sqrt",
        vec![typed("n", prim("f64"))],
        Some(option_of(prim("f64"))),
        "{ if n < 0.0 { None } else { Some(n.sqrt()) } }",
    )
}

fn builder() -> MethodCollection {
    let owner = || prim("Self");
    MethodCollection {
        header: "impl Builder".to_string(),
        owner: Some("Builder".to_string()),
        entries: vec![
            ImplEntry::Method(method("new", vec![], Some(owner()), "pub fn new() -> Self")),
            ImplEntry::Method(method(
                "set_x",
                vec![Param::SelfRef { mutable: true }, typed("x", prim("i32"))],
                Some(prim("i32")),
                "pub fn set_x(&mut self, x: i32) -> i32",
            )),
            ImplEntry::Method(method(
                "create_default",
                vec![],
                Some(prim("Builder")),
                "pub fn create_default() -> Builder",
            )),
            ImplEntry::Method(method(
                "get_x",
                vec![Param::SelfRef { mutable: false }],
                Some(prim("i32")),
                "pub fn get_x(&self) -> i32",
            )),
        ],
    }
}

fn point() -> DataRecord {
    DataRecord {
        attrs: String::new(),
        name: "Point".to_string(),
        style: FieldsStyle::Named,
        fields: vec![field("x", prim("f64")), field("y", prim("f64"))],
    }
}

#[test]
fn primitive_names_are_ffi_compatible() {
    for name in [
        "i8", "i16", "i32", "i64", "i128", "u8", "u16", "u32", "u64", "u128", "f32", "f64",
        "bool", "char", "usize", "isize",
    ] {
        assert!(is_ffi_compatible_type(&prim(name)), "{}", name);
        assert_eq!(kind(&prim(name)), Kind::Primitive);
    }
    assert!(is_ffi_compatible_type(&unit()));
    let ptr = RustType { shape: TypeShape::Pointer, text: "*mut u8".to_string() };
    assert!(is_ffi_compatible_type(&ptr));
    assert_eq!(kind(&ptr), Kind::OpaquePointer);
    assert_eq!(kind(&unit()), Kind::Unit);
}

#[test]
fn other_types_are_not_ffi_compatible() {
    assert!(!is_ffi_compatible_type(&prim("String")));
    assert!(!is_ffi_compatible_type(&prim("Point")));
    let slice = RustType { shape: TypeShape::Other, text: "&[u8]".to_string() };
    assert!(!is_ffi_compatible_type(&slice));
    assert_eq!(kind(&slice), Kind::Unsupported);
    assert_eq!(kind(&prim("HashMap")), Kind::Unsupported);
}

#[test]
fn containers_are_copied_on_read() {
    assert!(needs_clone_for_getter(&prim("String")));
    assert!(needs_clone_for_getter(&path("Vec", vec![prim("i32")], "Vec<i32>")));
    assert!(!needs_clone_for_getter(&prim("i32")));
    assert!(!needs_clone_for_getter(&unit()));
    assert_eq!(kind(&prim("String")), Kind::Container);
}

#[test]
fn shapes_are_taken_apart() {
    let r = result_of(prim("f64"), prim("i32"));
    let (ok, err) = extract_result_type(&r).unwrap();
    assert_eq!(ok.text, "f64");
    assert_eq!(err.text, "i32");
    assert!(extract_option_type(&r).is_none());
    let o = option_of(prim("u8"));
    assert_eq!(extract_option_type(&o).unwrap().text, "u8");
    assert!(extract_result_type(&o).is_none());
    assert!(extract_result_type(&path("Result", vec![prim("i32")], "Result<i32>")).is_none());
}

#[test]
fn classify_gives_each_descriptor() {
    assert_eq!(classify(&prim("i32")), TypeDescriptor::Plain(Kind::Primitive));
    assert_eq!(
        classify(&result_of(prim("f64"), prim("i32"))),
        TypeDescriptor::ErrorShape(Kind::Primitive, Kind::Primitive)
    );
    assert_eq!(
        classify(&result_of(prim("String"), prim("i32"))),
        TypeDescriptor::ErrorShape(Kind::Container, Kind::Primitive)
    );
    assert_eq!(
        classify(&option_of(option_of(prim("i32")))),
        TypeDescriptor::OptionalShape(Kind::Unsupported)
    );
    assert_eq!(classify(&option_of(unit())), TypeDescriptor::OptionalShape(Kind::Unit));
    assert_eq!(classify(&prim("Vec")), TypeDescriptor::Plain(Kind::Container));
}

#[test]
fn primitive_function_passes_through() {
    let f = function(
        "add",
        vec![typed("a", prim("i32")), typed("b", prim("i32"))],
        Some(prim("i32")),
        "{ a + b }",
    );
    let out = julia(&Decl::Function(f)).ok().unwrap();
    assert_eq!(symbols(&out), vec!["add"]);
    assert!(out[0].exported);
    assert_eq!(
        out[0].text,
        "#[no_mangle] pub extern \"C\" fn add(a: i32, b: i32) -> i32 { a + b }"
    );
}

#[test]
fn function_without_return_type_passes_through() {
    let mut f = function("reset", vec![], None, "{ }");
    f.attrs = "#[inline] ".to_string();
    let out = julia(&Decl::Function(f)).ok().unwrap();
    assert_eq!(out[0].text, "#[no_mangle] #[inline] pub extern \"C\" fn reset() { }");
}

#[test]
fn divide_returns_a_zero_filled_error_record() {
    let out = julia(&Decl::Function(divide())).ok().unwrap();
    assert_eq!(symbols(&out), vec!["CResult_divide", "divide_inner", "divide"]);
    assert_eq!(
        out[0].text,
        "#[repr(C)] pub struct CResult_divide { pub is_ok: u8, pub ok_value: f64, pub err_value: i32, }"
    );
    assert_eq!(
        out[1].text,
        "fn divide_inner(a: f64, b: f64) -> Result<f64, i32> { if b == 0.0 { Err(-1) } else { Ok(a / b) } }"
    );
    assert_eq!(
        out[2].text,
        "#[no_mangle] pub extern \"C\" fn divide(a: f64, b: f64) -> CResult_divide { match divide_inner(a, b) { \
         Ok(value) => CResult_divide { is_ok: 1, ok_value: value, err_value: unsafe { std::mem::zeroed() } }, \
         Err(err) => CResult_divide { is_ok: 0, ok_value: unsafe { std::mem::zeroed() }, err_value: err }, } }"
    );
    assert_eq!(out.iter().filter(|a| a.exported).count(), 1);
}

#[test]
fn safe_sqrt_returns_a_zero_filled_option_record() {
    let out = julia(&Decl::Function(safe_sqrt())).ok().unwrap();
    assert_eq!(symbols(&out), vec!["COption_safe_sqrt", "safe_sqrt_inner", "safe_sqrt"]);
    assert_eq!(
        out[0].text,
        "#[repr(C)] pub struct COption_safe_sqrt { pub is_some: u8, pub value: f64, }"
    );
    assert_eq!(
        out[2].text,
        "#[no_mangle] pub extern \"C\" fn safe_sqrt(n: f64) -> COption_safe_sqrt { match safe_sqrt_inner(n) { \
         Some(value) => COption_safe_sqrt { is_some: 1, value }, \
         None => COption_safe_sqrt { is_some: 0, value: unsafe { std::mem::zeroed() } }, } }"
    );
}

#[test]
fn container_success_payload_fails_to_build() {
    let f = function(
        "bad_result",
        vec![typed("a", prim("i32"))],
        Some(result_of(prim("String"), prim("i32"))),
        "{ Err(-1) }",
    );
    let e = julia(&Decl::Function(f)).err().unwrap();
    assert_eq!(e.kind, DiagnosticKind::Type);
    assert_eq!(e.subject, "Result<String, i32>");
    assert_eq!(
        e.message("julia"),
        "#[julia] cannot export `Result<String, i32>`: only primitives, (), raw pointers, and Result or Option of primitives or () cross the C ABI"
    );
}

#[test]
fn container_option_payload_fails_to_build() {
    let vec_i32 = path("Vec", vec![prim("i32")], "Vec<i32>");
    let f = function("bad_option", vec![typed("a", prim("i32"))], Some(option_of(vec_i32)), "{ None }");
    let e = julia(&Decl::Function(f)).err().unwrap();
    assert_eq!(e.kind, DiagnosticKind::Type);
    let f2 = function("bad_option", vec![], Some(option_of(prim("String"))), "{ None }");
    assert!(julia_pyo3(&Decl::Function(f2)).is_err());
}

#[test]
fn unsupported_parameter_fails_to_build() {
    let f = function("greet", vec![typed("name", prim("String"))], None, "{ }");
    let e = julia(&Decl::Function(f)).err().unwrap();
    assert_eq!(e.kind, DiagnosticKind::Type);
    assert_eq!(e.subject, "String");
}

#[test]
fn unsupported_return_fails_to_build() {
    let f = function("name", vec![], Some(prim("String")), "{ String::new() }");
    let e = julia(&Decl::Function(f)).err().unwrap();
    assert_eq!(e.kind, DiagnosticKind::Type);
    assert_eq!(e.subject, "String");
}

#[test]
fn unsafe_function_is_refused() {
    let mut f = function("danger", vec![], None, "{ }");
    f.is_unsafe = true;
    let e = julia(&Decl::Function(f)).err().unwrap();
    assert_eq!(e.kind, DiagnosticKind::Safety);
    assert_eq!(
        e.message("julia"),
        "#[julia] cannot be applied to unsafe functions directly. The function will be made extern \"C\" which has its own safety semantics."
    );
}

#[test]
fn unrecognized_declaration_is_a_structural_error() {
    let e = julia(&Decl::Unrecognized).err().unwrap();
    assert_eq!(e.kind, DiagnosticKind::Shape);
    assert_eq!(
        e.message("julia_pyo3"),
        "#[julia_pyo3] can only be applied to functions, structs, or impl blocks"
    );
}

#[test]
fn unnamed_parameter_pattern_gets_a_positional_name() {
    let p = Param::Typed {
        binding: None,
        ty: prim("i32"),
        text: "_: i32".to_string(),
    };
    let f = function("first", vec![typed("a", prim("i32")), p], Some(option_of(prim("i32"))), "{ Some(a) }");
    let out = julia(&Decl::Function(f)).ok().unwrap();
    assert!(out[1].text.starts_with("fn first_inner(a: i32, _: i32) -> Option<i32> "));
    assert!(out[2].text.contains("fn first(a: i32, arg1: i32) -> COption_first"));
    assert!(out[2].text.contains("match first_inner(a, arg1)"));
}

#[test]
fn record_gets_layout_free_and_accessors() {
    let out = julia(&Decl::DataRecord(point())).ok().unwrap();
    assert_eq!(
        symbols(&out),
        vec!["Point", "Point_free", "Point_get_x", "Point_set_x", "Point_get_y", "Point_set_y"]
    );
    assert_eq!(out[0].text, "#[repr(C)] pub struct Point { pub x: f64, pub y: f64 }");
    assert_eq!(
        out[1].text,
        "#[no_mangle] pub extern \"C\" fn Point_free(ptr: *mut Point) { if !ptr.is_null() { unsafe { drop(Box::from_raw(ptr)); } } }"
    );
    assert_eq!(
        out[2].text,
        "#[no_mangle] pub extern \"C\" fn Point_get_x(ptr: *const Point) -> f64 { unsafe { (*ptr).x } }"
    );
    assert_eq!(
        out[3].text,
        "#[no_mangle] pub extern \"C\" fn Point_set_x(ptr: *mut Point, value: f64) { unsafe { (*ptr).x = value; } }"
    );
}

#[test]
fn record_skips_unsupported_fields_and_copies_containers() {
    let rec = DataRecord {
        attrs: "#[derive(Clone)] ".to_string(),
        name: "Person".to_string(),
        style: FieldsStyle::Named,
        fields: vec![
            field("name", prim("String")),
            field("tags", path("HashSet", vec![prim("u8")], "HashSet<u8>")),
            field("age", prim("u32")),
        ],
    };
    let out = julia(&Decl::DataRecord(rec)).ok().unwrap();
    assert_eq!(
        symbols(&out),
        vec!["Person", "Person_free", "Person_get_name", "Person_set_name", "Person_get_age", "Person_set_age"]
    );
    assert!(out[0].text.starts_with("#[repr(C)] #[derive(Clone)] pub struct Person { "));
    assert_eq!(
        out[2].text,
        "#[no_mangle] pub extern \"C\" fn Person_get_name(ptr: *const Person) -> String { unsafe { (*ptr).name.clone() } }"
    );
    assert_eq!(out.iter().filter(|a| a.symbol.ends_with("_free")).count(), 1);
}

#[test]
fn tuple_and_unit_records_get_only_free() {
    let tuple = DataRecord {
        attrs: String::new(),
        name: "Meters".to_string(),
        style: FieldsStyle::Tuple,
        fields: vec![Field { name: None, ty: prim("f64"), text: "pub f64".to_string() }],
    };
    let out = julia(&Decl::DataRecord(tuple)).ok().unwrap();
    assert_eq!(symbols(&out), vec!["Meters", "Meters_free"]);
    assert_eq!(out[0].text, "#[repr(C)] pub struct Meters(pub f64);");
    let unit_rec = DataRecord {
        attrs: String::new(),
        name: "Marker".to_string(),
        style: FieldsStyle::Unit,
        fields: vec![],
    };
    let out = julia(&Decl::DataRecord(unit_rec)).ok().unwrap();
    assert_eq!(out[0].text, "#[repr(C)] pub struct Marker;");
    assert_eq!(symbols(&out), vec!["Marker", "Marker_free"]);
}

#[test]
fn constructor_classification_follows_receiver_first() {
    let b = builder();
    let roles: Vec<MethodRole> = b
        .entries
        .iter()
        .map(|e| match e {
            ImplEntry::Method(m) => classify_method(m, "Builder"),
            ImplEntry::Other(_) => unreachable!(),
        })
        .collect();
    assert_eq!(
        roles,
        vec![
            MethodRole::Constructor,
            MethodRole::InstanceMethod,
            MethodRole::Constructor,
            MethodRole::InstanceMethod
        ]
    );
    let chained = method(
        "new",
        vec![Param::SelfRef { mutable: true }],
        Some(prim("Self")),
        "pub fn new(&mut self) -> Self",
    );
    assert_eq!(classify_method(&chained, "Builder"), MethodRole::InstanceMethod);
    assert_eq!(
        return_handling(MethodRole::InstanceMethod, &chained.ret, "Builder"),
        ReturnHandling::Boxed
    );
    let helper = method("version", vec![], Some(prim("u32")), "pub fn version() -> u32");
    assert_eq!(classify_method(&helper, "Builder"), MethodRole::StaticFunction);
    assert_eq!(
        return_handling(MethodRole::StaticFunction, &helper.ret, "Builder"),
        ReturnHandling::Plain
    );
    assert_eq!(return_handling(MethodRole::InstanceMethod, &None, "Builder"), ReturnHandling::Nothing);
}

#[test]
fn builder_wrappers() {
    let out = julia(&Decl::MethodCollection(builder())).ok().unwrap();
    assert_eq!(
        symbols(&out),
        vec!["Builder", "Builder_new", "Builder_set_x", "Builder_create_default", "Builder_get_x"]
    );
    assert_eq!(
        out[1].text,
        "#[no_mangle] pub extern \"C\" fn Builder_new() -> *mut Builder { let obj = Builder::new(); Box::into_raw(Box::new(obj)) }"
    );
    assert_eq!(
        out[2].text,
        "#[no_mangle] pub extern \"C\" fn Builder_set_x(ptr: *mut Builder, x: i32) -> i32 { let self_ref = unsafe { &mut *ptr }; self_ref.set_x(x) }"
    );
    assert_eq!(
        out[3].text,
        "#[no_mangle] pub extern \"C\" fn Builder_create_default() -> *mut Builder { let obj = Builder::create_default(); Box::into_raw(Box::new(obj)) }"
    );
    assert_eq!(
        out[4].text,
        "#[no_mangle] pub extern \"C\" fn Builder_get_x(ptr: *const Builder) -> i32 { let self_ref = unsafe { &*ptr }; self_ref.get_x() }"
    );
    assert!(!out[0].text.contains("#[julia]"));
    assert!(out[0].text.starts_with("impl Builder { pub fn new() -> Self { self_check() } pub fn set_x"));
}

#[test]
fn unit_returning_methods_and_static_functions() {
    let counter = MethodCollection {
        header: "impl Counter".to_string(),
        owner: Some("Counter".to_string()),
        entries: vec![
            ImplEntry::Method(method(
                "increment",
                vec![Param::SelfRef { mutable: true }],
                None,
                "pub fn increment(&mut self)",
            )),
            ImplEntry::Method(method("log", vec![typed("level", prim("u8"))], None, "pub fn log(level: u8)")),
            ImplEntry::Method(method(
                "version",
                vec![],
                Some(prim("u32")),
                "pub fn version() -> u32",
            )),
        ],
    };
    let out = julia(&Decl::MethodCollection(counter)).ok().unwrap();
    assert_eq!(
        out[1].text,
        "#[no_mangle] pub extern \"C\" fn Counter_increment(ptr: *mut Counter) { let self_ref = unsafe { &mut *ptr }; self_ref.increment(); }"
    );
    assert_eq!(
        out[2].text,
        "#[no_mangle] pub extern \"C\" fn Counter_log(level: u8) { Counter::log(level); }"
    );
    assert_eq!(
        out[3].text,
        "#[no_mangle] pub extern \"C\" fn Counter_version() -> u32 { Counter::version() }"
    );
}

#[test]
fn every_method_is_wrapped_and_markers_are_removed() {
    let mut unmarked = method("secret", vec![], Some(prim("i32")), "fn secret() -> i32");
    unmarked.attrs = vec![Attribute { name: "inline".to_string(), text: "#[inline]".to_string() }];
    let mut plain = method(
        "get",
        vec![Param::SelfRef { mutable: false }],
        Some(prim("i32")),
        "pub fn get(&self) -> i32",
    );
    plain.attrs = vec![];
    let c = MethodCollection {
        header: "impl Vault".to_string(),
        owner: Some("Vault".to_string()),
        entries: vec![
            ImplEntry::Other("const LIMIT: u32 = 3;".to_string()),
            ImplEntry::Method(unmarked),
            ImplEntry::Method(method("open", vec![], Some(prim("bool")), "pub fn open() -> bool")),
            ImplEntry::Method(plain),
        ],
    };
    let out = julia(&Decl::MethodCollection(c)).ok().unwrap();
    assert_eq!(symbols(&out), vec!["Vault", "Vault_secret", "Vault_open", "Vault_get"]);
    assert_eq!(
        out[0].text,
        "impl Vault { const LIMIT: u32 = 3; #[inline] fn secret() -> i32 { self_check() } pub fn open() -> bool { self_check() } pub fn get(&self) -> i32 { self_check() } }"
    );
    assert_eq!(
        out[3].text,
        "#[no_mangle] pub extern \"C\" fn Vault_get(ptr: *const Vault) -> i32 { let self_ref = unsafe { &*ptr }; self_ref.get() }"
    );
}

#[test]
fn method_returning_a_shape_gets_a_flag_record() {
    let c = MethodCollection {
        header: "impl Gauge".to_string(),
        owner: Some("Gauge".to_string()),
        entries: vec![
            ImplEntry::Method(method(
                "read",
                vec![Param::SelfRef { mutable: false }],
                Some(option_of(prim("f64"))),
                "pub fn read(&self) -> Option<f64>",
            )),
            ImplEntry::Method(method(
                "parse",
                vec![typed("n", prim("i32"))],
                Some(result_of(prim("u32"), prim("i32"))),
                "pub fn parse(n: i32) -> Result<u32, i32>",
            )),
        ],
    };
    let out = julia(&Decl::MethodCollection(c)).ok().unwrap();
    assert_eq!(
        symbols(&out),
        vec!["Gauge", "COption_Gauge_read", "Gauge_read", "CResult_Gauge_parse", "Gauge_parse"]
    );
    assert_eq!(
        out.iter().map(|a| a.exported).collect::<Vec<bool>>(),
        vec![false, false, true, false, true]
    );
    assert_eq!(
        out[1].text,
        "#[repr(C)] pub struct COption_Gauge_read { pub is_some: u8, pub value: f64, }"
    );
    assert_eq!(
        out[2].text,
        "#[no_mangle] pub extern \"C\" fn Gauge_read(ptr: *const Gauge) -> COption_Gauge_read { \
         let self_ref = unsafe { &*ptr }; match self_ref.read() { \
         Some(value) => COption_Gauge_read { is_some: 1, value }, \
         None => COption_Gauge_read { is_some: 0, value: unsafe { std::mem::zeroed() } }, } }"
    );
    assert_eq!(
        out[3].text,
        "#[repr(C)] pub struct CResult_Gauge_parse { pub is_ok: u8, pub ok_value: u32, pub err_value: i32, }"
    );
    assert_eq!(
        out[4].text,
        "#[no_mangle] pub extern \"C\" fn Gauge_parse(n: i32) -> CResult_Gauge_parse { match Gauge::parse(n) { \
         Ok(value) => CResult_Gauge_parse { is_ok: 1, ok_value: value, err_value: unsafe { std::mem::zeroed() } }, \
         Err(err) => CResult_Gauge_parse { is_ok: 0, ok_value: unsafe { std::mem::zeroed() }, err_value: err }, } }"
    );
    assert_eq!(
        return_handling(MethodRole::InstanceMethod, &Some(option_of(prim("f64"))), "Gauge"),
        ReturnHandling::OptionRecord
    );
    assert_eq!(
        return_handling(MethodRole::StaticFunction, &Some(result_of(prim("u32"), prim("i32"))), "Gauge"),
        ReturnHandling::ErrorRecord
    );
}

#[test]
fn method_shape_with_container_payload_is_refused() {
    let c = MethodCollection {
        header: "impl Gauge".to_string(),
        owner: Some("Gauge".to_string()),
        entries: vec![ImplEntry::Method(method(
            "label",
            vec![Param::SelfRef { mutable: false }],
            Some(option_of(prim("String"))),
            "pub fn label(&self) -> Option<String>",
        ))],
    };
    let e = julia(&Decl::MethodCollection(c)).err().unwrap();
    assert_eq!(e.kind, DiagnosticKind::Type);
    assert_eq!(e.subject, "Option<String>");
}

#[test]
fn dual_method_shape_is_reshaped_only_in_the_c_build() {
    let c = MethodCollection {
        header: "impl Gauge".to_string(),
        owner: Some("Gauge".to_string()),
        entries: vec![ImplEntry::Method(method(
            "read",
            vec![Param::SelfRef { mutable: false }],
            Some(option_of(prim("f64"))),
            "pub fn read(&self) -> Option<f64>",
        ))],
    };
    let out = julia_pyo3(&Decl::MethodCollection(c)).ok().unwrap();
    let cb = select(&out, Target::CAbi);
    assert_eq!(symbols(&cb), vec!["Gauge", "COption_Gauge_read", "Gauge_read"]);
    let h = select(&out, Target::HostExtension);
    assert_eq!(
        texts(&h),
        vec!["#[pyo3::pymethods] impl Gauge { #[julia] pub fn read(&self) -> Option<f64> { self_check() } }"]
    );
}

#[test]
fn method_with_unsupported_type_fails() {
    let c = MethodCollection {
        header: "impl Doc".to_string(),
        owner: Some("Doc".to_string()),
        entries: vec![ImplEntry::Method(method(
            "title",
            vec![Param::SelfRef { mutable: false }],
            Some(prim("String")),
            "pub fn title(&self) -> String",
        ))],
    };
    let e = julia(&Decl::MethodCollection(c)).err().unwrap();
    assert_eq!(e.kind, DiagnosticKind::Type);
    assert_eq!(e.subject, "String");
}

#[test]
fn impl_on_unnameable_owner_fails() {
    let c = MethodCollection { header: "impl [u8; 4]".to_string(), owner: None, entries: vec![] };
    let e = julia(&Decl::MethodCollection(c)).err().unwrap();
    assert_eq!(e.kind, DiagnosticKind::ImplTarget);
    assert_eq!(e.message("julia"), "#[julia] on impl block requires a simple type path");
}

#[test]
fn dual_function_has_one_path_per_target() {
    let out = julia_pyo3(&Decl::Function(divide())).ok().unwrap();
    assert_eq!(out.len(), 4);
    assert!(out[..3].iter().all(|e| e.surface == Surface::CAbiOnly));
    assert_eq!(out[3].surface, Surface::HostOnly);
    assert_eq!(
        out[3].artifact.text,
        "#[pyo3::pyfunction] pub fn divide(a: f64, b: f64) -> Result<f64, i32> { if b == 0.0 { Err(-1) } else { Ok(a / b) } }"
    );
    let c = select(&out, Target::CAbi);
    assert_eq!(symbols(&c), vec!["CResult_divide", "divide_inner", "divide"]);
    let h = select(&out, Target::HostExtension);
    assert_eq!(texts(&h), vec![out[3].artifact.text.clone()]);
    assert_eq!(
        guarded_text(&out[3]),
        format!("#[cfg(feature = \"python\")] {}", out[3].artifact.text)
    );
    assert_eq!(
        guarded_text(&out[0]),
        format!("#[cfg(not(feature = \"python\"))] {}", out[0].artifact.text)
    );
}

#[test]
fn dual_record_keeps_free_in_both() {
    let out = julia_pyo3(&Decl::DataRecord(point())).ok().unwrap();
    let surfaces: Vec<Surface> = out.iter().map(|e| e.surface).collect();
    assert_eq!(
        surfaces,
        vec![
            Surface::CAbiOnly,
            Surface::HostOnly,
            Surface::Both,
            Surface::CAbiOnly,
            Surface::CAbiOnly,
            Surface::CAbiOnly,
            Surface::CAbiOnly
        ]
    );
    assert_eq!(
        out[1].artifact.text,
        "#[pyo3::pyclass(get_all, set_all)] #[repr(C)] pub struct Point { pub x: f64, pub y: f64 }"
    );
    let h = select(&out, Target::HostExtension);
    assert_eq!(symbols(&h), vec!["Point", "Point_free"]);
    assert_eq!(guarded_text(&out[2]), out[2].artifact.text);
}

#[test]
fn dual_impl_marks_new_as_host_constructor() {
    let mut b = builder();
    b.entries.push(ImplEntry::Other("type Item = u8;".to_string()));
    if let ImplEntry::Method(m) = &mut b.entries[0] {
        m.attrs = vec![Attribute { name: "doc".to_string(), text: "#[doc = \"make\"]".to_string() }];
    }
    let out = julia_pyo3(&Decl::MethodCollection(b)).ok().unwrap();
    assert_eq!(out[0].surface, Surface::CAbiOnly);
    assert_eq!(out[1].surface, Surface::HostOnly);
    let host = &out[1].artifact.text;
    assert!(host.starts_with(
        "#[pyo3::pymethods] impl Builder { #[doc = \"make\"] #[new] pub fn new() -> Self { self_check() } #[julia] pub fn set_x"
    ));
    assert!(!host.contains("type Item"));
    assert!(!host.contains("#[new] pub fn create_default"));
    let c = select(&out, Target::CAbi);
    assert_eq!(
        symbols(&c),
        vec!["Builder", "Builder_new", "Builder_set_x", "Builder_create_default", "Builder_get_x"]
    );
    assert!(c[0].text.contains("#[julia] pub fn set_x"));
}

#[test]
fn receiver_and_marker_helpers() {
    assert_eq!(receiver(&vec![]), Receiver::NoReceiver);
    assert_eq!(receiver(&vec![Param::SelfRef { mutable: false }]), Receiver::Shared);
    assert_eq!(
        receiver(&vec![Param::SelfRef { mutable: true }, typed("a", prim("i8"))]),
        Receiver::Exclusive
    );
    let m = method("scaled", vec![Param::SelfRef { mutable: false }, typed("k", prim("f64"))], Some(prim("Self")), "pub fn scaled(&self, k: f64) -> Self");
    let a = generate_method_wrapper("Point", &m);
    assert_eq!(
        a.text,
        "#[no_mangle] pub extern \"C\" fn Point_scaled(ptr: *const Point, k: f64) -> *mut Point { let self_ref = unsafe { &*ptr }; let obj = self_ref.scaled(k); Box::into_raw(Box::new(obj)) }"
    );
}

#[test]
fn text_helpers() {
    assert!(same_text("abc", "abc"));
    assert!(!same_text("abc", "abd"));
    assert!(!same_text("ab", "abc"));
    assert_eq!(join(&vec!["a".to_string(), "b".to_string(), "c".to_string()], ", "), "a, b, c");
    assert_eq!(join(&vec![], ", "), "");
    assert_eq!(decimal_text(0), "0");
    assert_eq!(decimal_text(7), "7");
    assert_eq!(decimal_text(1203), "1203");
}

#[test]
fn registry_refuses_a_second_export_of_a_symbol() {
    let mut reg = SymbolRegistry::new();
    let point_out = julia(&Decl::DataRecord(point())).ok().unwrap();
    assert!(reg.register(&point_out).is_ok());
    assert!(reg.contains("Point_free"));
    assert!(reg.contains("Point_get_y"));
    assert!(!reg.contains("Point"));
    let again = reg.register(&point_out).err().unwrap();
    assert_eq!(again.kind, DiagnosticKind::Collision);
    assert_eq!(again.subject, "Point_free");
    assert_eq!(again.message("julia"), "#[julia] would export `Point_free` a second time in this build");
    let div = julia(&Decl::Function(divide())).ok().unwrap();
    assert!(reg.register(&div).is_ok());
    assert!(reg.contains("divide"));
    assert!(!reg.contains("divide_inner"));
}

#[test]
fn registry_refuses_duplicates_within_one_declaration() {
    let mut reg = SymbolRegistry::new();
    let twice = vec![
        Artifact { symbol: "f".to_string(), exported: true, text: "a".to_string() },
        Artifact { symbol: "f".to_string(), exported: true, text: "b".to_string() },
    ];
    let e = reg.register(&twice).err().unwrap();
    assert_eq!(e.subject, "f");
    assert!(!reg.contains("f"));
}

#[test]
fn dual_c_build_matches_single_target() {
    for decl in [Decl::Function(divide()), Decl::Function(safe_sqrt()), Decl::DataRecord(point())] {
        let single = julia(&decl).ok().unwrap();
        let dual = julia_pyo3(&decl).ok().unwrap();
        let c = select(&dual, Target::CAbi);
        assert_eq!(symbols(&c), symbols(&single));
        assert_eq!(texts(&c), texts(&single));
    }
}

#[test]
fn both_targets_run_the_same_body() {
    let f = safe_sqrt();
    let body = f.body.clone();
    let dual = julia_pyo3(&Decl::Function(f)).ok().unwrap();
    let c = select(&dual, Target::CAbi);
    let h = select(&dual, Target::HostExtension);
    assert!(c[1].text.ends_with(&body));
    assert!(h[0].text.ends_with(&body));
}

#[test]
fn record_symbols_register_once() {
    let out = julia(&Decl::DataRecord(point())).ok().unwrap();
    let mut reg = SymbolRegistry::new();
    assert!(reg.register(&out).is_ok());
    let b = julia(&Decl::MethodCollection(builder())).ok().unwrap();
    assert!(reg.register(&b).is_ok());
    assert!(reg.contains("Builder_set_x"));
}
