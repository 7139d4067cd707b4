use gir::library::{
    Class, Enumeration, Fundamental, Library, Nullable, Parameter, ParameterDirection, Transfer,
    Type, TypeId,
};

fn dummy_param(name: &str, typ: TypeId, c_type: &str, direction: ParameterDirection) -> Parameter {
    Parameter {
        name: name.to_string(),
        typ,
        c_type: c_type.to_string(),
        direction,
        transfer: Transfer::Nothing,
        caller_allocates: false,
        nullable: Nullable(false),
        allow_none: false,
        is_error: false,
    }
}

fn empty_class(name: &str, c_type: &str) -> Class {
    Class {
        name: name.to_string(),
        c_type: c_type.to_string(),
        glib_get_type: String::new(),
        parent: None,
        functions: Vec::new(),
        signals: Vec::new(),
        version: None,
        deprecated_version: None,
    }
}

#[test]
fn new_library_has_internal_namespace() {
    let lib = Library::new();
    assert_eq!(lib.namespaces.len(), 1);
    assert_eq!(lib.namespaces[0].name, "*");
    assert_eq!(lib.namespaces[0].names[0], "none");
    assert_eq!(lib.namespaces[0].types.len(), 1);
}

#[test]
fn add_namespace_is_idempotent_by_name() {
    let mut lib = Library::new();
    let a = lib.add_namespace("Gtk");
    let b = lib.add_namespace("Gdk");
    let a2 = lib.add_namespace("Gtk");
    assert_eq!(a, 1);
    assert_eq!(b, 2);
    assert_eq!(a2, a);
    assert_eq!(lib.namespaces.len(), 3);
}

#[test]
fn add_type_assigns_stable_indices() {
    let mut lib = Library::new();
    let ns = lib.add_namespace("Gtk");
    let t1 = lib.add_type(ns, "Widget", Type::Class(empty_class("Widget", "GtkWidget")));
    let t2 = lib.add_type(ns, "Label", Type::Class(empty_class("Label", "GtkLabel")));
    assert_eq!(t1.ns_id, ns);
    assert_eq!(t1.id, 0);
    assert_eq!(t2.id, 1);
    // Redeclaring a name keeps its slot.
    let t1again = lib.add_type(ns, "Widget", Type::Class(empty_class("Widget", "GtkWidget")));
    assert_eq!(t1again, t1);
    assert_eq!(lib.namespaces[ns].types.len(), 2);
}

#[test]
fn forward_reference_is_filled_by_add_type() {
    let mut lib = Library::new();
    let ns = lib.add_namespace("Gtk");
    let fwd = lib.find_or_stub_type(ns, "Widget");
    assert!(lib.namespaces[fwd.ns_id].types[fwd.id].is_none());
    let real = lib.add_type(ns, "Widget", Type::Class(empty_class("Widget", "GtkWidget")));
    assert_eq!(fwd, real);
    assert!(lib.namespaces[fwd.ns_id].types[fwd.id].is_some());
    assert!(lib.check_resolved().is_ok());
}

#[test]
fn check_resolved_reports_each_unresolved_name() {
    let mut lib = Library::new();
    let ns = lib.add_namespace("Gtk");
    lib.add_type(ns, "Widget", Type::Class(empty_class("Widget", "GtkWidget")));
    let _ = lib.find_or_stub_type(ns, "Missing");
    let err = lib.check_resolved().unwrap_err();
    assert_eq!(err, vec!["Gtk.Missing".to_string()]);
}

#[test]
fn check_resolved_ok_on_fully_declared_library() {
    let mut lib = Library::new();
    let ns = lib.add_namespace("Gtk");
    lib.add_type(
        ns,
        "Orientation",
        Type::Enumeration(Enumeration {
            name: "Orientation".to_string(),
            c_type: "GtkOrientation".to_string(),
            members: Vec::new(),
            version: None,
            deprecated_version: None,
            error_domain: None,
        }),
    );
    assert!(lib.check_resolved().is_ok());
}

#[test]
fn find_type_falls_back_to_primary_then_internal_namespace() {
    let mut lib = Library::new();
    let boolean = lib.add_type(0, "gboolean", Type::Fundamental(Fundamental::Boolean));
    let main = lib.add_namespace("Gtk");
    let dep = lib.add_namespace("Gdk");
    let widget = lib.add_type(main, "Widget", Type::Class(empty_class("Widget", "GtkWidget")));
    let cursor = lib.add_type(dep, "Cursor", Type::Class(empty_class("Cursor", "GdkCursor")));

    // Own namespace wins.
    assert_eq!(lib.find_type(dep, "Cursor"), Some(cursor));
    // Fallback to the primary namespace.
    assert_eq!(lib.find_type(dep, "Widget"), Some(widget));
    // Fallback to the internal namespace for primitives.
    assert_eq!(lib.find_type(dep, "gboolean"), Some(boolean));
    assert_eq!(lib.find_type(main, "gboolean"), Some(boolean));
    assert_eq!(lib.find_type(dep, "NoSuch"), None);
}

#[test]
fn full_name_is_namespace_qualified() {
    let mut lib = Library::new();
    let ns = lib.add_namespace("Gtk");
    let tid = lib.add_type(ns, "Widget", Type::Class(empty_class("Widget", "GtkWidget")));
    assert_eq!(tid.full_name(&lib), "Gtk.Widget");
}

#[test]
fn type_dereferences_resolved_id() {
    let mut lib = Library::new();
    let ns = lib.add_namespace("Gtk");
    let tid = lib.add_type(ns, "Widget", Type::Class(empty_class("Widget", "GtkWidget")));
    match lib.type_(tid) {
        Type::Class(c) => assert_eq!(c.name, "Widget"),
        _ => panic!("expected a class"),
    }
}

#[test]
fn default_type_id_is_void_slot() {
    let tid = TypeId::default();
    assert_eq!(tid, TypeId { ns_id: 0, id: 0 });
    let lib = Library::new();
    match lib.type_(tid) {
        Type::Fundamental(f) => assert_eq!(*f, Fundamental::Void),
        _ => panic!("expected the void primitive"),
    }
}

#[test]
fn parameters_are_plain_data() {
    let p = dummy_param("value", TypeId { ns_id: 0, id: 0 }, "gint", ParameterDirection::In);
    assert_eq!(p.name, "value");
    assert_eq!(p.direction, ParameterDirection::In);
}
