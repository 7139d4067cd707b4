//! The in-memory type library: every namespace's declarations, addressable
//! by a stable identifier, with name lookup and a post-load resolution
//! check.

use vstd::prelude::*;
use vstd::string::StringExecFns;
use crate::Version;
use crate::nameutil::str_eq;

verus! {

/// The internal namespace that holds the primitive types; created by
/// `Library::new` and always present at index 0.
pub const INTERNAL_NAMESPACE: usize = 0;

/// The first namespace loaded from introspection data: the primary library
/// that dependent namespaces fall back to when resolving a bare name.
pub const MAIN_NAMESPACE: usize = 1;

#[derive(Clone, Copy, Debug, PartialEq, Eq, Structural)]
pub enum Fundamental {
    Void,
    Boolean,
    Int8,
    UInt8,
    Int16,
    UInt16,
    Int32,
    UInt32,
    Int64,
    UInt64,
    Char,
    UChar,
    Int,
    UInt,
    Long,
    ULong,
    Size,
    SSize,
    Float,
    Double,
    Pointer,
    VarArgs,
    Utf8,
    Filename,
    Type,
    Unsupported,
}

#[derive(Clone, Copy, Debug, PartialEq, Eq, Structural)]
pub enum ParameterDirection {
    In,
    Out,
    InOut,
}

#[derive(Clone, Copy, Debug, PartialEq, Eq, Structural)]
pub enum Transfer {
    Nothing,
    Container,
    Full,
}

#[derive(Clone, Copy, Debug, PartialEq, Eq, Structural)]
pub struct Nullable(pub bool);

#[derive(Clone, Copy, Debug, PartialEq, Eq, Structural)]
pub enum FunctionKind {
    Constructor,
    Function,
    Method,
    Global,
}

/// A stable handle to one declaration slot: namespace index plus slot
/// index. Valid only relative to the `Library` that produced it.
#[derive(Clone, Copy, Debug, PartialEq, Eq, Structural)]
pub struct TypeId {
    pub ns_id: usize,
    pub id: usize,
}

impl Default for TypeId {
    /// The default id points at slot 0 of the internal namespace: the
    /// `none` primitive, which stands for a missing (void) type.
    fn default() -> (r: TypeId)
        ensures
            r == (TypeId { ns_id: 0, id: 0 }),
    {
        TypeId { ns_id: 0, id: 0 }
    }
}

pub struct Parameter {
    pub name: String,
    pub typ: TypeId,
    pub c_type: String,
    pub direction: ParameterDirection,
    pub transfer: Transfer,
    pub caller_allocates: bool,
    pub nullable: Nullable,
    pub allow_none: bool,
    pub is_error: bool,
}

pub struct Function {
    pub name: String,
    pub c_identifier: String,
    pub kind: FunctionKind,
    pub parameters: Vec<Parameter>,
    pub ret: Parameter,
    pub version: Option<Version>,
    pub deprecated_version: Option<Version>,
}

pub struct Signal {
    pub name: String,
    pub parameters: Vec<Parameter>,
    pub ret: Parameter,
    pub version: Option<Version>,
    pub deprecated_version: Option<Version>,
}

pub struct Member {
    pub name: String,
    pub c_identifier: String,
    pub value: String,
    pub version: Option<Version>,
}

pub struct Enumeration {
    pub name: String,
    pub c_type: String,
    pub members: Vec<Member>,
    pub version: Option<Version>,
    pub deprecated_version: Option<Version>,
    pub error_domain: Option<String>,
}

pub struct Bitfield {
    pub name: String,
    pub c_type: String,
    pub members: Vec<Member>,
}

pub struct Alias {
    pub name: String,
    pub c_identifier: String,
    pub typ: TypeId,
    pub target_c_type: String,
}

pub struct Class {
    pub name: String,
    pub c_type: String,
    pub glib_get_type: String,
    pub parent: Option<TypeId>,
    pub functions: Vec<Function>,
    pub signals: Vec<Signal>,
    pub version: Option<Version>,
    pub deprecated_version: Option<Version>,
}

pub struct Record {
    pub name: String,
    pub c_type: String,
    pub functions: Vec<Function>,
}

pub struct Union {
    pub name: String,
    pub c_type: String,
}

pub struct Interface {
    pub name: String,
    pub c_type: String,
    pub functions: Vec<Function>,
    pub signals: Vec<Signal>,
}

pub struct Callback(pub Function);

pub struct Constant {
    pub name: String,
    pub typ: TypeId,
    pub value: String,
}

/// The closed set of declaration shapes an introspection source can
/// supply.
pub enum Type {
    Fundamental(Fundamental),
    Alias(Alias),
    Enumeration(Enumeration),
    Bitfield(Bitfield),
    Record(Record),
    Union(Union),
    Callback(Callback),
    Interface(Interface),
    Class(Class),
    Function(Function),
    Signal(Signal),
}

/// The C-level name a declaration is known by, where it has one.
pub open spec fn spec_glib_name(t: Type) -> Option<Seq<char>> {
    match t {
        Type::Enumeration(ref x) => Some(x.c_type@),
        Type::Bitfield(ref x) => Some(x.c_type@),
        Type::Record(ref x) => Some(x.c_type@),
        Type::Union(ref x) => Some(x.c_type@),
        Type::Interface(ref x) => Some(x.c_type@),
        Type::Class(ref x) => Some(x.c_type@),
        _ => None,
    }
}

impl Type {
    pub fn get_glib_name(&self) -> (r: Option<&String>)
        ensures
            match r {
                Some(s) => spec_glib_name(*self) == Some(s@),
                None => spec_glib_name(*self) is None,
            },
    {
        match *self {
            Type::Enumeration(ref x) => Some(&x.c_type),
            Type::Bitfield(ref x) => Some(&x.c_type),
            Type::Record(ref x) => Some(&x.c_type),
            Type::Union(ref x) => Some(&x.c_type),
            Type::Interface(ref x) => Some(&x.c_type),
            Type::Class(ref x) => Some(&x.c_type),
            _ => None,
        }
    }
}

/// One named group of declarations loaded from one introspection source.
/// `types` and `names` run in parallel: slot `i` is the declaration named
/// `names[i]`, and is `None` while the name is only a forward reference.
pub struct Namespace {
    pub name: String,
    pub types: Vec<Option<Type>>,
    pub names: Vec<String>,
    pub constants: Vec<Constant>,
    pub functions: Vec<Function>,
}

pub struct Library {
    pub namespaces: Vec<Namespace>,
}

/// First slot of `names` (from `from` on) holding exactly `name`.
pub open spec fn first_name_match(names: Seq<String>, name: Seq<char>, from: int) -> Option<int>
    decreases names.len() - from,
{
    if from < 0 || from >= names.len() {
        None
    } else if names[from]@ == name {
        Some(from)
    } else {
        first_name_match(names, name, from + 1)
    }
}

impl Library {
    pub open spec fn spec_ns_count(self) -> nat {
        self.namespaces@.len()
    }

    pub open spec fn valid_ns(self, ns_id: int) -> bool {
        0 <= ns_id < self.namespaces@.len()
    }

    pub open spec fn spec_slot_count(self, ns_id: int) -> nat {
        self.namespaces@[ns_id].types@.len()
    }

    /// A `TypeId` owned by this library: both indices are in bounds.
    pub open spec fn tid_ok(self, tid: TypeId) -> bool {
        &&& self.valid_ns(tid.ns_id as int)
        &&& tid.id < self.spec_slot_count(tid.ns_id as int)
    }

    pub open spec fn spec_slot(self, tid: TypeId) -> Option<Type> {
        self.namespaces@[tid.ns_id as int].types@[tid.id as int]
    }

    pub open spec fn spec_slot_name(self, tid: TypeId) -> Seq<char> {
        self.namespaces@[tid.ns_id as int].names@[tid.id as int]@
    }

    /// A slot that has been given its declaration (not a placeholder).
    pub open spec fn resolved(self, tid: TypeId) -> bool {
        self.spec_slot(tid) is Some
    }

    pub open spec fn all_resolved(self) -> bool {
        forall|tid: TypeId| self.tid_ok(tid) ==> self.resolved(tid)
    }

    pub open spec fn ns_shape_ok(ns: Namespace) -> bool {
        ns.types@.len() == ns.names@.len()
    }

    pub open spec fn param_tids_ok(self, p: Parameter) -> bool {
        self.tid_ok(p.typ)
    }

    pub open spec fn function_tids_ok(self, f: Function) -> bool {
        &&& forall|i: int|
            0 <= i < f.parameters@.len() ==> self.param_tids_ok(#[trigger] f.parameters@[i])
        &&& self.param_tids_ok(f.ret)
    }

    pub open spec fn signal_tids_ok(self, s: Signal) -> bool {
        &&& forall|i: int|
            0 <= i < s.parameters@.len() ==> self.param_tids_ok(#[trigger] s.parameters@[i])
        &&& self.param_tids_ok(s.ret)
    }

    /// Every id embedded in one declaration is owned by this library.
    pub open spec fn type_tids_ok(self, t: Type) -> bool {
        match t {
            Type::Fundamental(_) => true,
            Type::Alias(a) => self.tid_ok(a.typ),
            Type::Enumeration(_) => true,
            Type::Bitfield(_) => true,
            Type::Record(r) => forall|i: int|
                0 <= i < r.functions@.len() ==> self.function_tids_ok(#[trigger] r.functions@[i]),
            Type::Union(_) => true,
            Type::Callback(c) => self.function_tids_ok(c.0),
            Type::Interface(x) => {
                &&& forall|i: int|
                    0 <= i < x.functions@.len() ==> self.function_tids_ok(
                        #[trigger] x.functions@[i],
                    )
                &&& forall|i: int|
                    0 <= i < x.signals@.len() ==> self.signal_tids_ok(#[trigger] x.signals@[i])
            },
            Type::Class(x) => {
                &&& match x.parent {
                    Some(p) => self.tid_ok(p),
                    None => true,
                }
                &&& forall|i: int|
                    0 <= i < x.functions@.len() ==> self.function_tids_ok(
                        #[trigger] x.functions@[i],
                    )
                &&& forall|i: int|
                    0 <= i < x.signals@.len() ==> self.signal_tids_ok(#[trigger] x.signals@[i])
            },
            Type::Function(f) => self.function_tids_ok(f),
            Type::Signal(s) => self.signal_tids_ok(s),
        }
    }

    pub open spec fn ns_tids_ok(self, ns: Namespace) -> bool {
        &&& forall|i: int|
            0 <= i < ns.types@.len() && ns.types@[i] is Some ==> self.type_tids_ok(
                (#[trigger] ns.types@[i])->0,
            )
        &&& forall|i: int|
            0 <= i < ns.constants@.len() ==> self.tid_ok((#[trigger] ns.constants@[i]).typ)
        &&& forall|i: int|
            0 <= i < ns.functions@.len() ==> self.function_tids_ok(#[trigger] ns.functions@[i])
    }

    /// The library's invariant: slot names run parallel to slots, and every
    /// id stored anywhere in a declaration is owned by the library.
    pub open spec fn wf(self) -> bool {
        &&& self.namespaces@.len() >= 1
        &&& forall|n: int|
            0 <= n < self.namespaces@.len() ==> Library::ns_shape_ok(
                #[trigger] self.namespaces@[n],
            )
        &&& forall|n: int|
            0 <= n < self.namespaces@.len() ==> self.ns_tids_ok(#[trigger] self.namespaces@[n])
    }

    /// The full, namespace-qualified name of the declaration slot `tid`.
    pub open spec fn spec_full_name(self, tid: TypeId) -> Seq<char> {
        self.namespaces@[tid.ns_id as int].name@ + "."@ + self.spec_slot_name(tid)
    }
}

impl TypeId {
    /// Renders this id as `Namespace.Name`, for diagnostics.
    pub fn full_name(&self, library: &Library) -> (r: String)
        requires
            library.wf(),
            library.tid_ok(*self),
        ensures
            r@ == library.spec_full_name(*self),
    {
        let ns = &library.namespaces[self.ns_id];
        let mut out = ns.name.clone();
        out.append(".");
        out.append(ns.names[self.id].as_str());
        out
    }
}

} // verus!

use vstd::prelude::*;

verus! {

/// First namespace (from `from` on) named exactly `name`.
pub open spec fn first_ns_match(nss: Seq<Namespace>, name: Seq<char>, from: int) -> Option<int>
    decreases nss.len() - from,
{
    if from < 0 || from >= nss.len() {
        None
    } else if nss[from].name@ == name {
        Some(from)
    } else {
        first_ns_match(nss, name, from + 1)
    }
}

/// One library grew out of another: it has every namespace slot the old one
/// had. Ids handed out before the growth stay valid.
pub open spec fn extends(new: Library, old: Library) -> bool {
    &&& old.namespaces@.len() <= new.namespaces@.len()
    &&& forall|n: int|
        0 <= n < old.namespaces@.len() ==> old.namespaces@[n].types@.len()
            <= #[trigger] new.namespaces@[n].types@.len()
}

pub proof fn lemma_tid_ok_extends(new: Library, old: Library, tid: TypeId)
    requires
        extends(new, old),
        old.tid_ok(tid),
    ensures
        new.tid_ok(tid),
{
}

pub proof fn lemma_function_tids_ok_extends(new: Library, old: Library, f: Function)
    requires
        extends(new, old),
        old.function_tids_ok(f),
    ensures
        new.function_tids_ok(f),
{
    assert forall|i: int| 0 <= i < f.parameters@.len() implies new.param_tids_ok(
        #[trigger] f.parameters@[i],
    ) by {
        lemma_tid_ok_extends(new, old, f.parameters@[i].typ);
    }
    lemma_tid_ok_extends(new, old, f.ret.typ);
}

pub proof fn lemma_signal_tids_ok_extends(new: Library, old: Library, s: Signal)
    requires
        extends(new, old),
        old.signal_tids_ok(s),
    ensures
        new.signal_tids_ok(s),
{
    assert forall|i: int| 0 <= i < s.parameters@.len() implies new.param_tids_ok(
        #[trigger] s.parameters@[i],
    ) by {
        lemma_tid_ok_extends(new, old, s.parameters@[i].typ);
    }
    lemma_tid_ok_extends(new, old, s.ret.typ);
}

pub proof fn lemma_type_tids_ok_extends(new: Library, old: Library, t: Type)
    requires
        extends(new, old),
        old.type_tids_ok(t),
    ensures
        new.type_tids_ok(t),
{
    match t {
        Type::Alias(a) => {
            lemma_tid_ok_extends(new, old, a.typ);
        },
        Type::Record(r) => {
            assert forall|i: int| 0 <= i < r.functions@.len() implies new.function_tids_ok(
                #[trigger] r.functions@[i],
            ) by {
                lemma_function_tids_ok_extends(new, old, r.functions@[i]);
            }
        },
        Type::Callback(c) => {
            lemma_function_tids_ok_extends(new, old, c.0);
        },
        Type::Interface(x) => {
            assert forall|i: int| 0 <= i < x.functions@.len() implies new.function_tids_ok(
                #[trigger] x.functions@[i],
            ) by {
                lemma_function_tids_ok_extends(new, old, x.functions@[i]);
            }
            assert forall|i: int| 0 <= i < x.signals@.len() implies new.signal_tids_ok(
                #[trigger] x.signals@[i],
            ) by {
                lemma_signal_tids_ok_extends(new, old, x.signals@[i]);
            }
        },
        Type::Class(x) => {
            match x.parent {
                Some(p) => lemma_tid_ok_extends(new, old, p),
                None => (),
            }
            assert forall|i: int| 0 <= i < x.functions@.len() implies new.function_tids_ok(
                #[trigger] x.functions@[i],
            ) by {
                lemma_function_tids_ok_extends(new, old, x.functions@[i]);
            }
            assert forall|i: int| 0 <= i < x.signals@.len() implies new.signal_tids_ok(
                #[trigger] x.signals@[i],
            ) by {
                lemma_signal_tids_ok_extends(new, old, x.signals@[i]);
            }
        },
        Type::Function(f) => {
            lemma_function_tids_ok_extends(new, old, f);
        },
        Type::Signal(s) => {
            lemma_signal_tids_ok_extends(new, old, s);
        },
        _ => (),
    }
}

pub proof fn lemma_ns_tids_ok_extends(new: Library, old: Library, ns: Namespace)
    requires
        extends(new, old),
        old.ns_tids_ok(ns),
    ensures
        new.ns_tids_ok(ns),
{
    assert forall|i: int|
        0 <= i < ns.types@.len() && ns.types@[i] is Some implies new.type_tids_ok(
        (#[trigger] ns.types@[i])->0,
    ) by {
        lemma_type_tids_ok_extends(new, old, ns.types@[i]->0);
    }
    assert forall|i: int| 0 <= i < ns.constants@.len() implies new.tid_ok(
        (#[trigger] ns.constants@[i]).typ,
    ) by {
        lemma_tid_ok_extends(new, old, ns.constants@[i].typ);
    }
    assert forall|i: int| 0 <= i < ns.functions@.len() implies new.function_tids_ok(
        #[trigger] ns.functions@[i],
    ) by {
        lemma_function_tids_ok_extends(new, old, ns.functions@[i]);
    }
}

pub proof fn lemma_wf_extends(new: Library, old: Library)
    requires
        extends(new, old),
        old.wf(),
        new.namespaces@.len() == old.namespaces@.len(),
        forall|n: int|
            0 <= n < old.namespaces@.len() ==> Library::ns_shape_ok(#[trigger] new.namespaces@[n])
                && old.ns_tids_ok(new.namespaces@[n]),
    ensures
        new.wf(),
{
    assert forall|n: int| 0 <= n < new.namespaces@.len() implies new.ns_tids_ok(
        #[trigger] new.namespaces@[n],
    ) by {
        lemma_ns_tids_ok_extends(new, old, new.namespaces@[n]);
    }
}

} // verus!

verus! {

impl Library {
    /// Result of looking a name up inside one namespace.
    pub open spec fn find_in_ns(self, ns_id: usize, name: Seq<char>) -> Option<TypeId> {
        match first_name_match(self.namespaces@[ns_id as int].names@, name, 0) {
            Some(i) => Some(TypeId { ns_id, id: i as usize }),
            None => None,
        }
    }

    /// Name resolution order: the referencing namespace first, then the
    /// primary namespace, then the internal one with the primitives.
    pub open spec fn spec_find_type(self, ns_id: usize, name: Seq<char>) -> Option<TypeId> {
        if self.find_in_ns(ns_id, name) is Some {
            self.find_in_ns(ns_id, name)
        } else if ns_id != MAIN_NAMESPACE && MAIN_NAMESPACE < self.namespaces@.len()
            && self.find_in_ns(MAIN_NAMESPACE, name) is Some {
            self.find_in_ns(MAIN_NAMESPACE, name)
        } else if ns_id != INTERNAL_NAMESPACE && self.find_in_ns(INTERNAL_NAMESPACE, name)
            is Some {
            self.find_in_ns(INTERNAL_NAMESPACE, name)
        } else {
            None
        }
    }

    /// A fresh library holds only the internal namespace, whose slot 0 is
    /// the `none` primitive that stands for a missing (void) type.
    pub fn new() -> (lib: Library)
        ensures
            lib.wf(),
            lib.namespaces@.len() == 1,
            lib.namespaces@[0].name@ == "*"@,
            lib.namespaces@[0].types@.len() == 1,
            lib.namespaces@[0].types@[0] == Some(Type::Fundamental(Fundamental::Void)),
            lib.namespaces@[0].names@[0]@ == "none"@,
            lib.namespaces@[0].constants@.len() == 0,
            lib.namespaces@[0].functions@.len() == 0,
    {
        let mut types: Vec<Option<Type>> = Vec::new();
        types.push(Some(Type::Fundamental(Fundamental::Void)));
        let mut names: Vec<String> = Vec::new();
        names.push("none".to_owned());
        let ns = Namespace {
            name: "*".to_owned(),
            types,
            names,
            constants: Vec::new(),
            functions: Vec::new(),
        };
        let mut namespaces: Vec<Namespace> = Vec::new();
        namespaces.push(ns);
        Library { namespaces }
    }

    /// Registers a namespace. Idempotent by name: a name seen before gives
    /// back the index it was assigned then, and the library is unchanged.
    pub fn add_namespace(&mut self, name: &str) -> (ns_id: usize)
        requires
            old(self).wf(),
        ensures
            final(self).wf(),
            extends(*final(self), *old(self)),
            final(self).valid_ns(ns_id as int),
            final(self).namespaces@[ns_id as int].name@ == name@,
            match first_ns_match(old(self).namespaces@, name@, 0) {
                Some(i) => ns_id == i && *final(self) == *old(self),
                None => {
                    &&& ns_id == old(self).namespaces@.len()
                    &&& final(self).namespaces@.len() == old(self).namespaces@.len() + 1
                    &&& forall|n: int|
                        0 <= n < old(self).namespaces@.len() ==> final(self).namespaces@[n] == old(self).namespaces@[n]
                    &&& final(self).namespaces@[ns_id as int].types@.len() == 0
                    &&& final(self).namespaces@[ns_id as int].names@.len() == 0
                    &&& final(self).namespaces@[ns_id as int].constants@.len() == 0
                    &&& final(self).namespaces@[ns_id as int].functions@.len() == 0
                },
            },
    {
        let n = self.namespaces.len();
        let mut i: usize = 0;
        while i < n
            invariant
                *self == *old(self),
                self.wf(),
                n == self.namespaces@.len(),
                i <= n,
                first_ns_match(self.namespaces@, name@, 0) == first_ns_match(
                    self.namespaces@,
                    name@,
                    i as int,
                ),
            decreases n - i,
        {
            if str_eq(self.namespaces[i].name.as_str(), name) {
                return i;
            }
            i += 1;
        }
        let ns = Namespace {
            name: name.to_owned(),
            types: Vec::new(),
            names: Vec::new(),
            constants: Vec::new(),
            functions: Vec::new(),
        };
        let ghost prev = *self;
        self.namespaces.push(ns);
        proof {
            assert(extends(*self, prev));
            lemma_wf_extends_push(*self, prev);
        }
        n
    }

    /// Looks `name` up in namespace `ns_id`, then in the fallback
    /// namespaces, in the fixed resolution order.
    pub fn find_type(&self, ns_id: usize, name: &str) -> (r: Option<TypeId>)
        requires
            self.wf(),
            self.valid_ns(ns_id as int),
        ensures
            r == self.spec_find_type(ns_id, name@),
            match r {
                Some(tid) => self.tid_ok(tid) && self.spec_slot_name(tid) == name@,
                None => true,
            },
    {
        let r = self.find_type_in_ns(ns_id, name);
        if r.is_some() {
            return r;
        }
        if ns_id != MAIN_NAMESPACE && MAIN_NAMESPACE < self.namespaces.len() {
            let r = self.find_type_in_ns(MAIN_NAMESPACE, name);
            if r.is_some() {
                return r;
            }
        }
        if ns_id != INTERNAL_NAMESPACE {
            let r = self.find_type_in_ns(INTERNAL_NAMESPACE, name);
            if r.is_some() {
                return r;
            }
        }
        None
    }

    /// Looks `name` up in namespace `ns_id` alone.
    pub fn find_type_in_ns(&self, ns_id: usize, name: &str) -> (r: Option<TypeId>)
        requires
            self.wf(),
            self.valid_ns(ns_id as int),
        ensures
            r == self.find_in_ns(ns_id, name@),
            match r {
                Some(tid) => self.tid_ok(tid) && tid.ns_id == ns_id && self.spec_slot_name(tid)
                    == name@,
                None => true,
            },
    {
        let ns = &self.namespaces[ns_id];
        let n = ns.names.len();
        let mut i: usize = 0;
        while i < n
            invariant
                self.wf(),
                self.valid_ns(ns_id as int),
                ns == &self.namespaces@[ns_id as int],
                n == ns.names@.len(),
                i <= n,
                first_name_match(ns.names@, name@, 0) == first_name_match(
                    ns.names@,
                    name@,
                    i as int,
                ),
            decreases n - i,
        {
            if str_eq(ns.names[i].as_str(), name) {
                return Some(TypeId { ns_id, id: i });
            }
            i += 1;
        }
        None
    }
}

/// Pushing one well-shaped namespace whose declarations hold no ids keeps
/// the library well formed.
pub proof fn lemma_wf_extends_push(new: Library, old: Library)
    requires
        old.wf(),
        new.namespaces@.len() == old.namespaces@.len() + 1,
        forall|n: int| 0 <= n < old.namespaces@.len() ==> new.namespaces@[n] == old.namespaces@[n],
        Library::ns_shape_ok(new.namespaces@[old.namespaces@.len() as int]),
        new.namespaces@.last().types@.len() == 0,
        new.namespaces@.last().constants@.len() == 0,
        new.namespaces@.last().functions@.len() == 0,
    ensures
        new.wf(),
{
    assert(extends(new, old));
    assert forall|n: int| 0 <= n < new.namespaces@.len() implies new.ns_tids_ok(
        #[trigger] new.namespaces@[n],
    ) by {
        if n < old.namespaces@.len() {
            lemma_ns_tids_ok_extends(new, old, new.namespaces@[n]);
        }
    }
}

} // verus!

verus! {

impl Library {
    /// Returns the id a name resolves to, creating a placeholder slot in
    /// `ns_id` when the name is not yet declared anywhere (a forward
    /// reference). A later `add_type` fills the placeholder in.
    pub fn find_or_stub_type(&mut self, ns_id: usize, name: &str) -> (tid: TypeId)
        requires
            old(self).wf(),
            old(self).valid_ns(ns_id as int),
        ensures
            final(self).wf(),
            extends(*final(self), *old(self)),
            final(self).tid_ok(tid),
            final(self).spec_slot_name(tid) == name@,
            match old(self).spec_find_type(ns_id, name@) {
                Some(t) => tid == t && *final(self) == *old(self),
                None => {
                    &&& tid == (TypeId { ns_id, id: old(self).namespaces@[ns_id as int].types@.len() as usize })
                    &&& !final(self).resolved(tid)
                    &&& final(self).namespaces@.len() == old(self).namespaces@.len()
                    &&& forall|n: int|
                        0 <= n < old(self).namespaces@.len() && n != ns_id
                            ==> final(self).namespaces@[n] == old(self).namespaces@[n]
                    &&& final(self).namespaces@[ns_id as int].types@ == old(self).namespaces@[ns_id as int].types@.push(None)
                    &&& final(self).namespaces@[ns_id as int].names@.len() == old(self).namespaces@[ns_id as int].names@.len() + 1
                    &&& forall|j: int|
                        0 <= j < old(self).namespaces@[ns_id as int].names@.len() ==> final(self).namespaces@[ns_id as int].names@[j] == old(self).namespaces@[ns_id as int].names@[j]
                    &&& final(self).namespaces@[ns_id as int].name == old(self).namespaces@[ns_id as int].name
                    &&& final(self).namespaces@[ns_id as int].constants == old(self).namespaces@[ns_id as int].constants
                    &&& final(self).namespaces@[ns_id as int].functions == old(self).namespaces@[ns_id as int].functions
                },
            },
    {
        match self.find_type(ns_id, name) {
            Some(tid) => tid,
            None => {
                let ghost prev = *self;
                let id = self.namespaces[ns_id].types.len();
                let ns = &mut self.namespaces[ns_id];
                ns.types.push(None);
                ns.names.push(name.to_owned());
                proof {
                    assert(extends(*self, prev));
                    assert forall|n: int|
                        0 <= n < self.namespaces@.len() implies Library::ns_shape_ok(
                        #[trigger] self.namespaces@[n],
                    ) && prev.ns_tids_ok(self.namespaces@[n]) by {
                        if n != ns_id {
                            assert(self.namespaces@[n] == prev.namespaces@[n]);
                        } else {
                            assert forall|i: int|
                                0 <= i < self.namespaces@[n].types@.len()
                                    && self.namespaces@[n].types@[i] is Some implies prev.type_tids_ok(
                                (#[trigger] self.namespaces@[n].types@[i])->0,
                            ) by {
                                assert(self.namespaces@[n].types@[i] == prev.namespaces@[n].types@[i]);
                            }
                        }
                    }
                    lemma_wf_extends(*self, prev);
                }
                TypeId { ns_id, id }
            },
        }
    }

    /// Declares `name` in namespace `ns_id` as `typ`. A name already
    /// present in that namespace keeps its slot index: its slot is given
    /// the new declaration (a placeholder is filled in, an earlier
    /// declaration is superseded). A new name gets a fresh slot appended.
    pub fn add_type(&mut self, ns_id: usize, name: &str, typ: Type) -> (tid: TypeId)
        requires
            old(self).wf(),
            old(self).valid_ns(ns_id as int),
            old(self).type_tids_ok(typ),
        ensures
            final(self).wf(),
            extends(*final(self), *old(self)),
            final(self).tid_ok(tid),
            tid.ns_id == ns_id,
            final(self).spec_slot(tid) == Some(typ),
            final(self).spec_slot_name(tid) == name@,
            final(self).namespaces@.len() == old(self).namespaces@.len(),
            forall|n: int|
                0 <= n < old(self).namespaces@.len() && n != ns_id ==> final(self).namespaces@[n]
                    == old(self).namespaces@[n],
            final(self).namespaces@[ns_id as int].name == old(self).namespaces@[ns_id as int].name,
            final(self).namespaces@[ns_id as int].constants == old(self).namespaces@[ns_id as int].constants,
            final(self).namespaces@[ns_id as int].functions == old(self).namespaces@[ns_id as int].functions,
            match old(self).find_in_ns(ns_id, name@) {
                Some(t) => {
                    &&& tid == t
                    &&& final(self).namespaces@[ns_id as int].types@ == old(self).namespaces@[ns_id as int].types@.update(tid.id as int, Some(typ))
                    &&& final(self).namespaces@[ns_id as int].names@ == old(self).namespaces@[ns_id as int].names@
                },
                None => {
                    &&& tid.id == old(self).namespaces@[ns_id as int].types@.len()
                    &&& final(self).namespaces@[ns_id as int].types@ == old(self).namespaces@[ns_id as int].types@.push(Some(typ))
                    &&& final(self).namespaces@[ns_id as int].names@.len() == old(self).namespaces@[ns_id as int].names@.len() + 1
                    &&& forall|j: int|
                        0 <= j < old(self).namespaces@[ns_id as int].names@.len() ==> final(self).namespaces@[ns_id as int].names@[j] == old(self).namespaces@[ns_id as int].names@[j]
                },
            },
    {
        let ghost prev = *self;
        let found = self.find_type_in_ns(ns_id, name);
        let tid = match found {
            Some(t) => {
                let ns = &mut self.namespaces[ns_id];
                ns.types.set(t.id, Some(typ));
                t
            },
            None => {
                let id = self.namespaces[ns_id].types.len();
                let ns = &mut self.namespaces[ns_id];
                ns.types.push(Some(typ));
                ns.names.push(name.to_owned());
                TypeId { ns_id, id }
            },
        };
        proof {
            assert(extends(*self, prev));
            assert forall|n: int|
                0 <= n < self.namespaces@.len() implies Library::ns_shape_ok(
                #[trigger] self.namespaces@[n],
            ) && prev.ns_tids_ok(self.namespaces@[n]) by {
                if n != ns_id {
                    assert(self.namespaces@[n] == prev.namespaces@[n]);
                } else {
                    assert forall|i: int|
                        0 <= i < self.namespaces@[n].types@.len()
                            && self.namespaces@[n].types@[i] is Some implies prev.type_tids_ok(
                        (#[trigger] self.namespaces@[n].types@[i])->0,
                    ) by {
                        if i != tid.id {
                            assert(self.namespaces@[n].types@[i] == prev.namespaces@[n].types@[i]);
                        }
                    }
                }
            }
            lemma_wf_extends(*self, prev);
        }
        tid
    }

    /// Dereferences an id owned by this library. Calling it with an id of
    /// another library is a programmer error; a resolved, valid id always
    /// succeeds.
    pub fn type_(&self, tid: TypeId) -> (r: &Type)
        requires
            self.wf(),
            self.tid_ok(tid),
            self.resolved(tid),
        ensures
            Some(*r) == self.spec_slot(tid),
    {
        self.namespaces[tid.ns_id].types[tid.id].as_ref().unwrap()
    }
}

} // verus!

verus! {

impl Library {
    /// Full names of the placeholder slots of namespace `ns_id` among its
    /// first `upto` slots, in slot order.
    pub open spec fn ns_unresolved(self, ns_id: int, upto: int) -> Seq<Seq<char>>
        decreases upto,
    {
        if upto <= 0 {
            Seq::empty()
        } else {
            self.ns_unresolved(ns_id, upto - 1) + (if self.namespaces@[ns_id].types@[upto - 1]
                is None {
                seq![
                    self.spec_full_name(
                        TypeId { ns_id: ns_id as usize, id: (upto - 1) as usize },
                    ),
                ]
            } else {
                Seq::empty()
            })
        }
    }

    /// Full names of all placeholder slots of the first `ns_upto`
    /// namespaces, in namespace order, then slot order.
    pub open spec fn lib_unresolved(self, ns_upto: int) -> Seq<Seq<char>>
        decreases ns_upto,
    {
        if ns_upto <= 0 {
            Seq::empty()
        } else {
            self.lib_unresolved(ns_upto - 1) + self.ns_unresolved(
                ns_upto - 1,
                self.namespaces@[ns_upto - 1].types@.len() as int,
            )
        }
    }

    /// All names that were referenced but never declared, in load order.
    pub open spec fn spec_unresolved(self) -> Seq<Seq<char>> {
        self.lib_unresolved(self.namespaces@.len() as int)
    }

    /// The post-load resolution pass: succeeds when no forward reference
    /// is left unfilled, and otherwise reports the full name of every slot
    /// that is still a placeholder.
    pub fn check_resolved(&self) -> (r: Result<(), Vec<String>>)
        requires
            self.wf(),
        ensures
            r is Ok <==> self.all_resolved(),
            match r {
                Ok(()) => self.spec_unresolved().len() == 0,
                Err(list) => list.deep_view() == self.spec_unresolved() && list@.len() > 0,
            },
    {
        let mut unresolved: Vec<String> = Vec::new();
        let ns_count = self.namespaces.len();
        let mut n: usize = 0;
        while n < ns_count
            invariant
                self.wf(),
                ns_count == self.namespaces@.len(),
                n <= ns_count,
                unresolved.deep_view() == self.lib_unresolved(n as int),
            decreases ns_count - n,
        {
            let slot_count = self.namespaces[n].types.len();
            let mut i: usize = 0;
            while i < slot_count
                invariant
                    self.wf(),
                    n < self.namespaces@.len(),
                    slot_count == self.namespaces@[n as int].types@.len(),
                    i <= slot_count,
                    unresolved.deep_view() == self.lib_unresolved(n as int) + self.ns_unresolved(
                        n as int,
                        i as int,
                    ),
                decreases slot_count - i,
            {
                if self.namespaces[n].types[i].is_none() {
                    let ghost prev = unresolved.deep_view();
                    let tid = TypeId { ns_id: n, id: i };
                    let full = tid.full_name(self);
                    unresolved.push(full);
                    proof {
                        assert(unresolved.deep_view() =~= prev.push(full@));
                        assert(unresolved.deep_view() =~= self.lib_unresolved(n as int)
                            + self.ns_unresolved(n as int, i + 1 as int));
                    }
                } else {
                    proof {
                        assert(self.ns_unresolved(n as int, i + 1 as int) =~= self.ns_unresolved(
                            n as int,
                            i as int,
                        ));
                    }
                }
                i += 1;
            }
            n += 1;
        }
        proof {
            lemma_lib_unresolved_empty(*self, ns_count as int);
        }
        if unresolved.is_empty() {
            proof {
                assert(self.spec_unresolved().len() == 0);
                assert forall|tid: TypeId| self.tid_ok(tid) implies self.resolved(tid) by {
                    assert(self.namespaces@[tid.ns_id as int].types@[tid.id as int] is Some);
                }
            }
            Ok(())
        } else {
            proof {
                assert(unresolved.deep_view().len() == unresolved@.len());
                assert(self.spec_unresolved().len() > 0);
                assert(!(forall|n: int, i: int|
                    0 <= n < self.namespaces@.len() && 0 <= i
                        < self.namespaces@[n].types@.len() ==> (
                    #[trigger] self.namespaces@[n].types@[i]) is Some));
                let (bn, bi) = choose|bn: int, bi: int|
                    0 <= bn < self.namespaces@.len() && 0 <= bi
                        < self.namespaces@[bn].types@.len() && !((
                    #[trigger] self.namespaces@[bn].types@[bi]) is Some);
                assert(self.namespaces@[bn].types.len() == self.namespaces@[bn].types@.len());
                let bad = TypeId { ns_id: bn as usize, id: bi as usize };
                assert(self.tid_ok(bad) && !self.resolved(bad));
            }
            Err(unresolved)
        }
    }
}

/// An empty per-namespace unresolved list means every slot of that prefix
/// is filled, and conversely.
pub proof fn lemma_ns_unresolved_empty(lib: Library, ns_id: int, upto: int)
    requires
        0 <= ns_id < lib.namespaces@.len(),
        0 <= upto <= lib.namespaces@[ns_id].types@.len(),
    ensures
        (lib.ns_unresolved(ns_id, upto).len() == 0) <==> (forall|i: int|
            0 <= i < upto ==> (#[trigger] lib.namespaces@[ns_id].types@[i]) is Some),
    decreases upto,
{
    if upto > 0 {
        lemma_ns_unresolved_empty(lib, ns_id, upto - 1);
    }
}

/// An empty library-wide unresolved list means every slot of every loaded
/// namespace prefix is filled, and conversely.
pub proof fn lemma_lib_unresolved_empty(lib: Library, ns_upto: int)
    requires
        0 <= ns_upto <= lib.namespaces@.len(),
    ensures
        (lib.lib_unresolved(ns_upto).len() == 0) <==> (forall|n: int, i: int|
            0 <= n < ns_upto && 0 <= i < lib.namespaces@[n].types@.len() ==> (
            #[trigger] lib.namespaces@[n].types@[i]) is Some),
    decreases ns_upto,
{
    if ns_upto > 0 {
        lemma_lib_unresolved_empty(lib, ns_upto - 1);
        lemma_ns_unresolved_empty(lib, ns_upto - 1, lib.namespaces@[ns_upto - 1].types@.len() as int);
    }
}

/// Whether the id occurs in one of a function's parameters or its return.
pub open spec fn function_mentions_tid(f: Function, tid: TypeId) -> bool {
    ||| exists|i: int| 0 <= i < f.parameters@.len() && (#[trigger] f.parameters@[i]).typ == tid
    ||| f.ret.typ == tid
}

/// Whether the id occurs in one of a signal's parameters or its return.
pub open spec fn signal_mentions_tid(s: Signal, tid: TypeId) -> bool {
    ||| exists|i: int| 0 <= i < s.parameters@.len() && (#[trigger] s.parameters@[i]).typ == tid
    ||| s.ret.typ == tid
}

/// Whether the id is stored anywhere inside one declaration.
pub open spec fn type_mentions_tid(t: Type, tid: TypeId) -> bool {
    match t {
        Type::Fundamental(_) => false,
        Type::Alias(a) => a.typ == tid,
        Type::Enumeration(_) => false,
        Type::Bitfield(_) => false,
        Type::Record(r) => exists|i: int|
            0 <= i < r.functions@.len() && function_mentions_tid(#[trigger] r.functions@[i], tid),
        Type::Union(_) => false,
        Type::Callback(c) => function_mentions_tid(c.0, tid),
        Type::Interface(x) => {
            ||| exists|i: int|
                0 <= i < x.functions@.len() && function_mentions_tid(
                    #[trigger] x.functions@[i],
                    tid,
                )
            ||| exists|i: int|
                0 <= i < x.signals@.len() && signal_mentions_tid(#[trigger] x.signals@[i], tid)
        },
        Type::Class(x) => {
            ||| x.parent == Some(tid)
            ||| exists|i: int|
                0 <= i < x.functions@.len() && function_mentions_tid(
                    #[trigger] x.functions@[i],
                    tid,
                )
            ||| exists|i: int|
                0 <= i < x.signals@.len() && signal_mentions_tid(#[trigger] x.signals@[i], tid)
        },
        Type::Function(f) => function_mentions_tid(f, tid),
        Type::Signal(s) => signal_mentions_tid(s, tid),
    }
}

pub proof fn lemma_function_mention_ok(lib: Library, f: Function, tid: TypeId)
    requires
        lib.function_tids_ok(f),
        function_mentions_tid(f, tid),
    ensures
        lib.tid_ok(tid),
{
    if f.ret.typ != tid {
        let i = choose|i: int|
            0 <= i < f.parameters@.len() && (#[trigger] f.parameters@[i]).typ == tid;
        assert(lib.param_tids_ok(f.parameters@[i]));
    }
}

pub proof fn lemma_signal_mention_ok(lib: Library, s: Signal, tid: TypeId)
    requires
        lib.signal_tids_ok(s),
        signal_mentions_tid(s, tid),
    ensures
        lib.tid_ok(tid),
{
    if s.ret.typ != tid {
        let i = choose|i: int|
            0 <= i < s.parameters@.len() && (#[trigger] s.parameters@[i]).typ == tid;
        assert(lib.param_tids_ok(s.parameters@[i]));
    }
}

/// Resolution completeness: once the resolution check has passed, every id
/// reachable from any declaration of any loaded namespace dereferences
/// successfully — it is owned by the library and its slot is filled.
pub proof fn lemma_resolution_complete(lib: Library, ns_id: int, slot: int, t: Type, tid: TypeId)
    requires
        lib.wf(),
        lib.all_resolved(),
        0 <= ns_id < lib.namespaces@.len(),
        0 <= slot < lib.namespaces@[ns_id].types@.len(),
        lib.namespaces@[ns_id].types@[slot] == Some(t),
        type_mentions_tid(t, tid),
    ensures
        lib.tid_ok(tid),
        lib.resolved(tid),
{
    assert(lib.ns_tids_ok(lib.namespaces@[ns_id]));
    assert(lib.type_tids_ok(t));
    match t {
        Type::Alias(_) => (),
        Type::Record(r) => {
            let i = choose|i: int|
                0 <= i < r.functions@.len() && function_mentions_tid(
                    #[trigger] r.functions@[i],
                    tid,
                );
            lemma_function_mention_ok(lib, r.functions@[i], tid);
        },
        Type::Callback(c) => {
            lemma_function_mention_ok(lib, c.0, tid);
        },
        Type::Interface(x) => {
            if exists|i: int|
                0 <= i < x.functions@.len() && function_mentions_tid(
                    #[trigger] x.functions@[i],
                    tid,
                ) {
                let i = choose|i: int|
                    0 <= i < x.functions@.len() && function_mentions_tid(
                        #[trigger] x.functions@[i],
                        tid,
                    );
                lemma_function_mention_ok(lib, x.functions@[i], tid);
            } else {
                let i = choose|i: int|
                    0 <= i < x.signals@.len() && signal_mentions_tid(
                        #[trigger] x.signals@[i],
                        tid,
                    );
                lemma_signal_mention_ok(lib, x.signals@[i], tid);
            }
        },
        Type::Class(x) => {
            if x.parent == Some(tid) {
            } else if exists|i: int|
                0 <= i < x.functions@.len() && function_mentions_tid(
                    #[trigger] x.functions@[i],
                    tid,
                ) {
                let i = choose|i: int|
                    0 <= i < x.functions@.len() && function_mentions_tid(
                        #[trigger] x.functions@[i],
                        tid,
                    );
                lemma_function_mention_ok(lib, x.functions@[i], tid);
            } else {
                let i = choose|i: int|
                    0 <= i < x.signals@.len() && signal_mentions_tid(
                        #[trigger] x.signals@[i],
                        tid,
                    );
                lemma_signal_mention_ok(lib, x.signals@[i], tid);
            }
        },
        Type::Function(f) => {
            lemma_function_mention_ok(lib, f, tid);
        },
        Type::Signal(s) => {
            lemma_signal_mention_ok(lib, s, tid);
        },
        _ => (),
    }
}

} // verus!
