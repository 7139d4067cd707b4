use gir::Version;
use gir::analysis::bounds::{BoundType, Bounds};
use gir::analysis::conversion_type::ConversionType;
use gir::analysis::functions;
use gir::analysis::rust_type::{TypeError, rust_type};
use gir::analysis::trampolines;
use gir::analysis::trampolines::Trampoline;
use gir::config::Config;
use gir::env::Env;
use gir::library::{
    Alias, Class, Function, FunctionKind, Fundamental, Library, Nullable, Parameter,
    ParameterDirection, Signal, Transfer, Type, TypeId, Union,
};

fn param(name: &str, typ: TypeId, c_type: &str, direction: ParameterDirection) -> Parameter {
    Parameter {
        name: name.to_string(),
        typ,
        c_type: c_type.to_string(),
        direction,
        transfer: Transfer::Nothing,
        caller_allocates: false,
        nullable: Nullable(false),
        allow_none: false,
        is_error: false,
    }
}

fn void_ret() -> Parameter {
    param("", TypeId::default(), "void", ParameterDirection::In)
}

fn config_with(range: &str) -> Config {
    Config::new(
        "girs".to_string(),
        "Gtk".to_string(),
        "out".to_string(),
        range,
    )
    .expect("the range expression must parse")
}

/// A library with one class owning no members, plus a boolean primitive.
fn test_env(range: &str) -> (Env, TypeId, TypeId) {
    let mut library = Library::new();
    let boolean = library.add_type(0, "gboolean", Type::Fundamental(Fundamental::Boolean));
    let ns = library.add_namespace("Gtk");
    let class = library.add_type(
        ns,
        "Widget",
        Type::Class(Class {
            name: "Widget".to_string(),
            c_type: "GtkWidget".to_string(),
            glib_get_type: "gtk_widget_get_type".to_string(),
            parent: None,
            functions: Vec::new(),
            signals: Vec::new(),
            version: None,
            deprecated_version: None,
        }),
    );
    library.check_resolved().expect("fully declared");
    let env = Env { library, config: config_with(range) };
    (env, class, boolean)
}

fn function(name: &str, deprecated_version: Option<Version>) -> Function {
    Function {
        name: name.to_string(),
        c_identifier: format!("gtk_widget_{}", name),
        kind: FunctionKind::Method,
        parameters: Vec::new(),
        ret: void_ret(),
        version: None,
        deprecated_version,
    }
}

fn signal(name: &str, parameters: Vec<Parameter>, ret: Parameter) -> Signal {
    Signal {
        name: name.to_string(),
        parameters,
        ret,
        version: None,
        deprecated_version: None,
    }
}

#[test]
fn bad_range_expression_is_rejected() {
    let r = Config::new(
        "girs".to_string(),
        "Gtk".to_string(),
        "out".to_string(),
        "not a range",
    );
    match r {
        Err(e) => assert_eq!(e, "not a range"),
        Ok(_) => panic!("the range must be rejected"),
    }
}

#[test]
fn deprecation_depends_on_allowed_range() {
    // Deprecated since 2.4, allowed range "<2.0": outside, so deprecated.
    let (env, class, _) = test_env("<2.0");
    let f = function("set_name", Some(Version::new(2, 4, 0)));
    let info = functions::analyze_function(&env, &f, class);
    assert!(info.deprecated);

    // The same function under "*": everything allowed, not deprecated.
    let (env, class, _) = test_env("*");
    let info = functions::analyze_function(&env, &f, class);
    assert!(!info.deprecated);
}

#[test]
fn undeprecated_function_is_never_deprecated() {
    let (env, class, _) = test_env("<2.0");
    let f = function("set_name", None);
    let info = functions::analyze_function(&env, &f, class);
    assert!(!info.deprecated);
    assert_eq!(info.name, "set_name");
    assert_eq!(info.glib_name, "gtk_widget_set_name");
    assert_eq!(info.kind, FunctionKind::Method);
    assert!(!info.comented);
}

#[test]
fn analyze_keeps_declaration_order() {
    let (env, class_tid, _) = test_env("*");
    let class = Class {
        name: "Widget".to_string(),
        c_type: "GtkWidget".to_string(),
        glib_get_type: "gtk_widget_get_type".to_string(),
        parent: None,
        functions: vec![function("first", None), function("second", None)],
        signals: Vec::new(),
        version: None,
        deprecated_version: None,
    };
    let infos = functions::analyze(&env, &class, class_tid);
    assert_eq!(infos.len(), 2);
    assert_eq!(infos[0].name, "first");
    assert_eq!(infos[1].name, "second");
}

#[test]
fn out_direction_is_rejected_before_type_shape() {
    let (env, class, boolean) = test_env("*");
    // Whatever the declared type, Out comes first.
    for typ in [boolean, class, TypeId::default()] {
        let p = param("x", typ, "gboolean", ParameterDirection::Out);
        assert_eq!(trampolines::type_error(&env, &p), Some("Out"));
        let p = param("x", typ, "gboolean", ParameterDirection::InOut);
        assert_eq!(trampolines::type_error(&env, &p), Some("InOut"));
    }
}

#[test]
fn classification_reasons_are_distinct() {
    let (env, class, boolean) = test_env("*");
    let ok = param("b", boolean, "gboolean", ParameterDirection::In);
    assert_eq!(trampolines::type_error(&env, &ok), None);
    let empty = param("v", boolean, "", ParameterDirection::In);
    assert_eq!(trampolines::type_error(&env, &empty), Some("Empty ctype"));
    let void = param("v", TypeId::default(), "void", ParameterDirection::In);
    assert_eq!(trampolines::type_error(&env, &void), Some("Empty ctype"));
    let unknown = param("v", TypeId::default(), "gpointer", ParameterDirection::In);
    assert_eq!(trampolines::type_error(&env, &unknown), Some("Unknown conversion"));
    let class_par = param("w", class, "GtkWidget*", ParameterDirection::In);
    assert_eq!(trampolines::type_error(&env, &class_par), None);
}

#[test]
fn all_errors_of_a_signal_are_collected() {
    let (env, class, boolean) = test_env("*");
    // One Out parameter and one with an empty C type: exactly two entries.
    let sig = signal(
        "value-changed",
        vec![
            param("a", boolean, "gboolean", ParameterDirection::Out),
            param("b", boolean, "", ParameterDirection::In),
        ],
        void_ret(),
    );
    let _ = class;
    let errors = trampolines::closure_errors(&env, &sig);
    assert_eq!(errors.len(), 2);
    assert_eq!(errors[0], "Out a: *.gboolean");
    assert_eq!(errors[1], "Empty ctype b: *.gboolean");
}

#[test]
fn rejected_signal_leaves_outputs_untouched() {
    let (env, class, boolean) = test_env("*");
    let sig = signal(
        "value-changed",
        vec![param("a", boolean, "gboolean", ParameterDirection::Out)],
        void_ret(),
    );
    let mut tramps: Vec<Trampoline> = Vec::new();
    let mut used: Vec<String> = Vec::new();
    let r = trampolines::analyze(&env, &sig, class, false, &mut tramps, &mut used, None, None);
    let errors = r.unwrap_err();
    assert_eq!(errors.len(), 1);
    assert!(tramps.is_empty());
    assert!(used.is_empty());
}

#[test]
fn trampoline_name_is_snake_cased_with_suffix() {
    let (env, class, boolean) = test_env("*");
    let sig = signal(
        "value-changed",
        vec![param("v", boolean, "gboolean", ParameterDirection::In)],
        void_ret(),
    );
    let mut tramps: Vec<Trampoline> = Vec::new();
    let mut used: Vec<String> = Vec::new();
    let name = trampolines::analyze(&env, &sig, class, false, &mut tramps, &mut used, None, None)
        .expect("the signal is bindable");
    assert_eq!(name, "value_changed_trampoline");
    assert_eq!(tramps.len(), 1);
    assert_eq!(tramps[0].name, "value_changed_trampoline");
}

#[test]
fn trampoline_prepends_receiver_parameter() {
    let (env, class, boolean) = test_env("*");
    let sig = signal(
        "toggled",
        vec![param("active", boolean, "gboolean", ParameterDirection::In)],
        void_ret(),
    );
    let mut tramps: Vec<Trampoline> = Vec::new();
    let mut used: Vec<String> = Vec::new();
    trampolines::analyze(&env, &sig, class, false, &mut tramps, &mut used, None, None)
        .expect("the signal is bindable");
    let t = &tramps[0];
    assert_eq!(t.parameters.len(), 2);
    assert_eq!(t.parameters[0].name, "this");
    assert_eq!(t.parameters[0].typ, class);
    assert_eq!(t.parameters[0].c_type, "GtkWidget*");
    assert_eq!(t.parameters[0].direction, ParameterDirection::In);
    assert_eq!(t.parameters[0].transfer, Transfer::Nothing);
    assert_eq!(t.parameters[1].name, "active");
    // The owning type's C-level name is recorded for the emission layer.
    assert_eq!(used, vec!["GtkWidget".to_string()]);
}

#[test]
fn receiver_bound_only_in_trait_context() {
    let (env, class, boolean) = test_env("*");
    let sig = signal(
        "toggled",
        vec![param("active", boolean, "gboolean", ParameterDirection::In)],
        void_ret(),
    );
    let mut tramps: Vec<Trampoline> = Vec::new();
    let mut used: Vec<String> = Vec::new();
    trampolines::analyze(&env, &sig, class, false, &mut tramps, &mut used, None, None).unwrap();
    let mut used2: Vec<String> = Vec::new();
    trampolines::analyze(&env, &sig, class, true, &mut tramps, &mut used2, None, None).unwrap();
    let plain = &tramps[0];
    let in_trait = &tramps[1];
    // Identical parameter lists...
    assert_eq!(plain.parameters.len(), in_trait.parameters.len());
    for (a, b) in plain.parameters.iter().zip(in_trait.parameters.iter()) {
        assert_eq!(a.name, b.name);
        assert_eq!(a.typ, b.typ);
        assert_eq!(a.c_type, b.c_type);
        assert_eq!(a.direction, b.direction);
        assert_eq!(a.ref_mode, b.ref_mode);
    }
    // ...and only the trait run's bounds hold the receiver entry.
    assert_eq!(plain.bounds.len(), 0);
    assert_eq!(in_trait.bounds.len(), 1);
    let bound = in_trait.bounds.get(0);
    assert_eq!(bound.name, "this");
    assert_eq!(bound.type_str, "Widget");
    assert_eq!(bound.bound_type, BoundType::IsA);
}

#[test]
fn repeated_analysis_is_byte_identical() {
    let (env, class, boolean) = test_env("*");
    let sig = signal(
        "value-changed",
        vec![param("v", boolean, "gboolean", ParameterDirection::In)],
        void_ret(),
    );
    let mut tramps: Vec<Trampoline> = Vec::new();
    let mut used_a: Vec<String> = Vec::new();
    let name_a =
        trampolines::analyze(&env, &sig, class, true, &mut tramps, &mut used_a, None, None)
            .unwrap();
    let mut used_b: Vec<String> = Vec::new();
    let name_b =
        trampolines::analyze(&env, &sig, class, true, &mut tramps, &mut used_b, None, None)
            .unwrap();
    assert_eq!(name_a, name_b);
    assert_eq!(used_a, used_b);
    let (a, b) = (&tramps[0], &tramps[1]);
    assert_eq!(a.name, b.name);
    assert_eq!(a.parameters.len(), b.parameters.len());
    for (x, y) in a.parameters.iter().zip(b.parameters.iter()) {
        assert_eq!(x.name, y.name);
        assert_eq!(x.c_type, y.c_type);
    }
}

#[test]
fn return_value_errors_are_reported() {
    let (env, class, boolean) = test_env("*");
    let _ = class;
    // A non-void return value with an unknown conversion fails too.
    let mut lib_ret = param("", boolean, "gpointer", ParameterDirection::In);
    lib_ret.typ = TypeId { ns_id: 0, id: 0 };
    let sig = signal(
        "changed",
        vec![param("v", boolean, "gboolean", ParameterDirection::In)],
        lib_ret,
    );
    // The ret id equals the void id, so it is skipped: no errors.
    let errors = trampolines::closure_errors(&env, &sig);
    assert!(errors.is_empty());

    let bad_ret = param("", boolean, "", ParameterDirection::In);
    let sig = signal(
        "changed",
        vec![param("v", boolean, "gboolean", ParameterDirection::In)],
        bad_ret,
    );
    let errors = trampolines::closure_errors(&env, &sig);
    assert_eq!(errors, vec!["Empty ctype return value *.gboolean".to_string()]);
}

#[test]
fn rust_type_maps_primitives_and_declarations() {
    let (env, class, boolean) = test_env("*");
    assert_eq!(rust_type(&env.library, boolean).unwrap(), "bool");
    assert_eq!(rust_type(&env.library, class).unwrap(), "Widget");
    match rust_type(&env.library, TypeId::default()) {
        Err(TypeError::Ignored(s)) => assert_eq!(s, "none"),
        _ => panic!("the void primitive is ignored by policy"),
    }
}

#[test]
fn conversion_type_is_recomputed_from_the_library() {
    let (env, class, boolean) = test_env("*");
    assert_eq!(ConversionType::of(&env.library, boolean), ConversionType::Direct);
    assert_eq!(ConversionType::of(&env.library, class), ConversionType::Borrow);
    assert_eq!(
        ConversionType::of(&env.library, TypeId::default()),
        ConversionType::Unknown
    );
}

#[test]
fn bound_sites_receive_at_most_one_bound() {
    let mut b = Bounds::new();
    assert!(b.add_parameter("this", "Widget", BoundType::IsA));
    assert!(!b.add_parameter("this", "Other", BoundType::IsA));
    assert_eq!(b.len(), 1);
    let bound = b.get(0);
    assert_eq!(bound.name, "this");
    assert_eq!(bound.type_str, "Widget");
}

#[test]
fn unimplemented_and_mismatch_mappings_are_distinct() {
    let mut lib = Library::new();
    let ns = lib.add_namespace("Gdk");
    let union_tid = lib.add_type(
        ns,
        "Event",
        Type::Union(Union { name: "Event".to_string(), c_type: "GdkEvent".to_string() }),
    );
    let alias_tid = lib.add_type(
        ns,
        "Handle",
        Type::Alias(Alias {
            name: "Handle".to_string(),
            c_identifier: "GdkHandle".to_string(),
            typ: union_tid,
            target_c_type: "GdkEvent*".to_string(),
        }),
    );
    match rust_type(&lib, union_tid) {
        Err(TypeError::Unimplemented(s)) => assert_eq!(s, "Event"),
        _ => panic!("a union mapping is unimplemented"),
    }
    match rust_type(&lib, alias_tid) {
        Err(TypeError::Mismatch(s)) => assert_eq!(s, "Handle"),
        _ => panic!("an alias does not match any mapping"),
    }
}

#[test]
fn union_parameter_reports_unimplemented() {
    let mut library = Library::new();
    let ns = library.add_namespace("Gdk");
    let union_tid = library.add_type(
        ns,
        "Event",
        Type::Union(Union { name: "Event".to_string(), c_type: "GdkEvent".to_string() }),
    );
    let env = Env { library, config: config_with("*") };
    let p = param("event", union_tid, "GdkEvent*", ParameterDirection::In);
    assert_eq!(trampolines::type_error(&env, &p), Some("Unimplemented"));
}
