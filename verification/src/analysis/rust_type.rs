//! Mapping a declared type to its target-representation name, and the
//! import names a use of that type drags in. Each failure is a distinct,
//! reportable reason, never a generic fallback.

use vstd::prelude::*;
use vstd::string::StringExecFns;
use crate::library::{Fundamental, Library, Type, TypeId, spec_glib_name};

verus! {

/// Why no target-representation name exists for a type.
#[derive(Debug)]
pub enum TypeError {
    /// Excluded by policy.
    Ignored(String),
    /// The type's shape disagrees with what a mapping expects.
    Mismatch(String),
    /// No mapping rule has been written.
    Unimplemented(String),
}

#[derive(Clone, Copy, Debug, PartialEq, Eq, Structural)]
pub enum TypeErrorKind {
    Ignored,
    Mismatch,
    Unimplemented,
}

impl TypeError {
    pub open spec fn kind(self) -> TypeErrorKind {
        match self {
            TypeError::Ignored(_) => TypeErrorKind::Ignored,
            TypeError::Mismatch(_) => TypeErrorKind::Mismatch,
            TypeError::Unimplemented(_) => TypeErrorKind::Unimplemented,
        }
    }

    pub open spec fn payload(self) -> Seq<char> {
        match self {
            TypeError::Ignored(s) => s@,
            TypeError::Mismatch(s) => s@,
            TypeError::Unimplemented(s) => s@,
        }
    }

    /// The type name the failure was about, for use in diagnostics.
    pub fn into_string(self) -> (r: String)
        ensures
            r@ == self.payload(),
    {
        match self {
            TypeError::Ignored(s) => s,
            TypeError::Mismatch(s) => s,
            TypeError::Unimplemented(s) => s,
        }
    }
}

/// The target-representation name of the type `tid` names, or the reason
/// there is none.
pub open spec fn spec_rust_type(lib: Library, tid: TypeId) -> Result<
    Seq<char>,
    (TypeErrorKind, Seq<char>),
> {
    match lib.spec_slot(tid) {
        None => Err((TypeErrorKind::Mismatch, lib.spec_slot_name(tid))),
        Some(t) => match t {
            Type::Fundamental(f) => match f {
                Fundamental::Boolean => Ok("bool"@),
                Fundamental::Int8 => Ok("i8"@),
                Fundamental::UInt8 => Ok("u8"@),
                Fundamental::Int16 => Ok("i16"@),
                Fundamental::UInt16 => Ok("u16"@),
                Fundamental::Int32 => Ok("i32"@),
                Fundamental::UInt32 => Ok("u32"@),
                Fundamental::Int64 => Ok("i64"@),
                Fundamental::UInt64 => Ok("u64"@),
                Fundamental::Char => Ok("i8"@),
                Fundamental::UChar => Ok("u8"@),
                Fundamental::Int => Ok("i32"@),
                Fundamental::UInt => Ok("u32"@),
                Fundamental::Long => Ok("i64"@),
                Fundamental::ULong => Ok("u64"@),
                Fundamental::Size => Ok("usize"@),
                Fundamental::SSize => Ok("isize"@),
                Fundamental::Float => Ok("f32"@),
                Fundamental::Double => Ok("f64"@),
                Fundamental::Utf8 => Ok("String"@),
                Fundamental::Filename => Ok("String"@),
                Fundamental::Type => Ok("Type"@),
                Fundamental::Void => Err((TypeErrorKind::Ignored, "none"@)),
                Fundamental::Pointer => Err((TypeErrorKind::Ignored, "gpointer"@)),
                Fundamental::VarArgs => Err((TypeErrorKind::Unimplemented, "varargs"@)),
                Fundamental::Unsupported => Err((TypeErrorKind::Unimplemented, "unsupported"@)),
            },
            Type::Alias(x) => Err((TypeErrorKind::Mismatch, x.name@)),
            Type::Enumeration(x) => Ok(x.name@),
            Type::Bitfield(x) => Ok(x.name@),
            Type::Record(x) => Ok(x.name@),
            Type::Union(x) => Err((TypeErrorKind::Unimplemented, x.name@)),
            Type::Callback(x) => Err((TypeErrorKind::Unimplemented, x.0.name@)),
            Type::Interface(x) => Ok(x.name@),
            Type::Class(x) => Ok(x.name@),
            Type::Function(x) => Err((TypeErrorKind::Mismatch, x.name@)),
            Type::Signal(x) => Err((TypeErrorKind::Mismatch, x.name@)),
        },
    }
}

/// Computes the target-representation name for `tid`.
pub fn rust_type(library: &Library, tid: TypeId) -> (r: Result<String, TypeError>)
    requires
        library.wf(),
        library.tid_ok(tid),
    ensures
        match r {
            Ok(s) => spec_rust_type(*library, tid) == Ok::<Seq<char>, (TypeErrorKind, Seq<char>)>(
                s@,
            ),
            Err(e) => spec_rust_type(*library, tid) == Err::<
                Seq<char>,
                (TypeErrorKind, Seq<char>),
            >((e.kind(), e.payload())),
        },
{
    match library.namespaces[tid.ns_id].types[tid.id].as_ref() {
        None => Err(TypeError::Mismatch(library.namespaces[tid.ns_id].names[tid.id].clone())),
        Some(t) => match t {
            Type::Fundamental(f) => match f {
                Fundamental::Boolean => Ok("bool".to_owned()),
                Fundamental::Int8 => Ok("i8".to_owned()),
                Fundamental::UInt8 => Ok("u8".to_owned()),
                Fundamental::Int16 => Ok("i16".to_owned()),
                Fundamental::UInt16 => Ok("u16".to_owned()),
                Fundamental::Int32 => Ok("i32".to_owned()),
                Fundamental::UInt32 => Ok("u32".to_owned()),
                Fundamental::Int64 => Ok("i64".to_owned()),
                Fundamental::UInt64 => Ok("u64".to_owned()),
                Fundamental::Char => Ok("i8".to_owned()),
                Fundamental::UChar => Ok("u8".to_owned()),
                Fundamental::Int => Ok("i32".to_owned()),
                Fundamental::UInt => Ok("u32".to_owned()),
                Fundamental::Long => Ok("i64".to_owned()),
                Fundamental::ULong => Ok("u64".to_owned()),
                Fundamental::Size => Ok("usize".to_owned()),
                Fundamental::SSize => Ok("isize".to_owned()),
                Fundamental::Float => Ok("f32".to_owned()),
                Fundamental::Double => Ok("f64".to_owned()),
                Fundamental::Utf8 => Ok("String".to_owned()),
                Fundamental::Filename => Ok("String".to_owned()),
                Fundamental::Type => Ok("Type".to_owned()),
                Fundamental::Void => Err(TypeError::Ignored("none".to_owned())),
                Fundamental::Pointer => Err(TypeError::Ignored("gpointer".to_owned())),
                Fundamental::VarArgs => Err(TypeError::Unimplemented("varargs".to_owned())),
                Fundamental::Unsupported => Err(
                    TypeError::Unimplemented("unsupported".to_owned()),
                ),
            },
            Type::Alias(x) => Err(TypeError::Mismatch(x.name.clone())),
            Type::Enumeration(x) => Ok(x.name.clone()),
            Type::Bitfield(x) => Ok(x.name.clone()),
            Type::Record(x) => Ok(x.name.clone()),
            Type::Union(x) => Err(TypeError::Unimplemented(x.name.clone())),
            Type::Callback(x) => Err(TypeError::Unimplemented(x.0.name.clone())),
            Type::Interface(x) => Ok(x.name.clone()),
            Type::Class(x) => Ok(x.name.clone()),
            Type::Function(x) => Err(TypeError::Mismatch(x.name.clone())),
            Type::Signal(x) => Err(TypeError::Mismatch(x.name.clone())),
        },
    }
}

/// The import the target representation of `tid` needs, where it is a
/// declaration of the described library rather than a primitive.
pub open spec fn spec_used_rust_type(lib: Library, tid: TypeId) -> Option<Seq<char>> {
    match lib.spec_slot(tid) {
        Some(t) => match t {
            Type::Enumeration(x) => Some(x.name@),
            Type::Bitfield(x) => Some(x.name@),
            Type::Record(x) => Some(x.name@),
            Type::Interface(x) => Some(x.name@),
            Type::Class(x) => Some(x.name@),
            _ => None,
        },
        None => None,
    }
}

/// The target-representation import a use of `tid` requires, if any.
pub fn used_rust_type(library: &Library, tid: TypeId) -> (r: Result<String, TypeError>)
    requires
        library.wf(),
        library.tid_ok(tid),
    ensures
        match r {
            Ok(s) => spec_used_rust_type(*library, tid) == Some(s@),
            Err(e) => spec_used_rust_type(*library, tid) is None && e.payload()
                == library.spec_slot_name(tid),
        },
{
    match library.namespaces[tid.ns_id].types[tid.id].as_ref() {
        Some(t) => match t {
            Type::Enumeration(x) => Ok(x.name.clone()),
            Type::Bitfield(x) => Ok(x.name.clone()),
            Type::Record(x) => Ok(x.name.clone()),
            Type::Interface(x) => Ok(x.name.clone()),
            Type::Class(x) => Ok(x.name.clone()),
            _ => Err(TypeError::Ignored(library.namespaces[tid.ns_id].names[tid.id].clone())),
        },
        None => Err(TypeError::Ignored(library.namespaces[tid.ns_id].names[tid.id].clone())),
    }
}

/// The C-level import a use of `tid` requires, if any.
pub open spec fn spec_used_ffi_type(lib: Library, tid: TypeId) -> Option<Seq<char>> {
    match lib.spec_slot(tid) {
        Some(t) => spec_glib_name(t),
        None => None,
    }
}

pub fn used_ffi_type(library: &Library, tid: TypeId) -> (r: Option<String>)
    requires
        library.wf(),
        library.tid_ok(tid),
    ensures
        match r {
            Some(s) => spec_used_ffi_type(*library, tid) == Some(s@),
            None => spec_used_ffi_type(*library, tid) is None,
        },
{
    match library.namespaces[tid.ns_id].types[tid.id].as_ref() {
        Some(t) => match t.get_glib_name() {
            Some(s) => Some(s.clone()),
            None => None,
        },
        None => None,
    }
}

/// The name a generic bound on `tid` constrains to: the declaration's own
/// name for bindable shapes, its slot name otherwise.
pub open spec fn spec_bounds_rust_type(lib: Library, tid: TypeId) -> Result<
    Seq<char>,
    (TypeErrorKind, Seq<char>),
> {
    match lib.spec_slot(tid) {
        Some(t) => match t {
            Type::Interface(x) => Ok(x.name@),
            Type::Class(x) => Ok(x.name@),
            _ => Err((TypeErrorKind::Mismatch, lib.spec_slot_name(tid))),
        },
        None => Err((TypeErrorKind::Mismatch, lib.spec_slot_name(tid))),
    }
}

/// Either side of the result carries the name a receiver bound uses.
pub open spec fn spec_bounds_type_name(lib: Library, tid: TypeId) -> Seq<char> {
    match spec_bounds_rust_type(lib, tid) {
        Ok(s) => s,
        Err((_, s)) => s,
    }
}

pub fn bounds_rust_type(library: &Library, tid: TypeId) -> (r: Result<String, TypeError>)
    requires
        library.wf(),
        library.tid_ok(tid),
    ensures
        match r {
            Ok(s) => spec_bounds_rust_type(*library, tid) == Ok::<
                Seq<char>,
                (TypeErrorKind, Seq<char>),
            >(s@),
            Err(e) => spec_bounds_rust_type(*library, tid) == Err::<
                Seq<char>,
                (TypeErrorKind, Seq<char>),
            >((e.kind(), e.payload())),
        },
{
    match library.namespaces[tid.ns_id].types[tid.id].as_ref() {
        Some(t) => match t {
            Type::Interface(x) => Ok(x.name.clone()),
            Type::Class(x) => Ok(x.name.clone()),
            _ => Err(TypeError::Mismatch(library.namespaces[tid.ns_id].names[tid.id].clone())),
        },
        None => Err(TypeError::Mismatch(library.namespaces[tid.ns_id].names[tid.id].clone())),
    }
}

} // verus!
