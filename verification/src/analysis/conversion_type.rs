//! The category a declared type falls into when its values cross the
//! boundary between the C representation and the target representation.
//! Never stored: always recomputed, because it depends on resolution state.

use vstd::prelude::*;
use crate::library::{Fundamental, Library, Type, TypeId};

verus! {

#[derive(Clone, Copy, Debug, PartialEq, Eq, Structural)]
pub enum ConversionType {
    /// The same bit pattern on both sides.
    Direct,
    /// A value-to-value cast.
    Scalar,
    /// Passed by reference without a change of ownership.
    Borrow,
    /// Ownership moves across the boundary.
    Transfer,
    /// No mapping rule is known (unresolved or exotic shapes).
    Unknown,
}

pub open spec fn spec_conversion_type(lib: Library, tid: TypeId) -> ConversionType {
    match lib.spec_slot(tid) {
        None => ConversionType::Unknown,
        Some(t) => match t {
            Type::Fundamental(f) => match f {
                Fundamental::Boolean => ConversionType::Direct,
                Fundamental::Int8 => ConversionType::Direct,
                Fundamental::UInt8 => ConversionType::Direct,
                Fundamental::Int16 => ConversionType::Direct,
                Fundamental::UInt16 => ConversionType::Direct,
                Fundamental::Int32 => ConversionType::Direct,
                Fundamental::UInt32 => ConversionType::Direct,
                Fundamental::Int64 => ConversionType::Direct,
                Fundamental::UInt64 => ConversionType::Direct,
                Fundamental::Int => ConversionType::Direct,
                Fundamental::UInt => ConversionType::Direct,
                Fundamental::Long => ConversionType::Direct,
                Fundamental::ULong => ConversionType::Direct,
                Fundamental::Size => ConversionType::Direct,
                Fundamental::SSize => ConversionType::Direct,
                Fundamental::Float => ConversionType::Direct,
                Fundamental::Double => ConversionType::Direct,
                Fundamental::Char => ConversionType::Scalar,
                Fundamental::UChar => ConversionType::Scalar,
                Fundamental::Type => ConversionType::Scalar,
                Fundamental::Utf8 => ConversionType::Transfer,
                Fundamental::Filename => ConversionType::Transfer,
                Fundamental::Void => ConversionType::Unknown,
                Fundamental::Pointer => ConversionType::Unknown,
                Fundamental::VarArgs => ConversionType::Unknown,
                Fundamental::Unsupported => ConversionType::Unknown,
            },
            Type::Enumeration(_) => ConversionType::Direct,
            Type::Bitfield(_) => ConversionType::Direct,
            Type::Record(_) => ConversionType::Borrow,
            Type::Union(_) => ConversionType::Borrow,
            Type::Interface(_) => ConversionType::Borrow,
            Type::Class(_) => ConversionType::Borrow,
            Type::Alias(_) => ConversionType::Unknown,
            Type::Callback(_) => ConversionType::Unknown,
            Type::Function(_) => ConversionType::Unknown,
            Type::Signal(_) => ConversionType::Unknown,
        },
    }
}

impl ConversionType {
    /// The conversion category of the declaration `tid` names, given the
    /// library's current knowledge of that declaration.
    pub fn of(library: &Library, tid: TypeId) -> (r: ConversionType)
        requires
            library.wf(),
            library.tid_ok(tid),
        ensures
            r == spec_conversion_type(*library, tid),
    {
        match library.namespaces[tid.ns_id].types[tid.id].as_ref() {
            None => ConversionType::Unknown,
            Some(t) => match t {
                Type::Fundamental(f) => match f {
                    Fundamental::Boolean => ConversionType::Direct,
                    Fundamental::Int8 => ConversionType::Direct,
                    Fundamental::UInt8 => ConversionType::Direct,
                    Fundamental::Int16 => ConversionType::Direct,
                    Fundamental::UInt16 => ConversionType::Direct,
                    Fundamental::Int32 => ConversionType::Direct,
                    Fundamental::UInt32 => ConversionType::Direct,
                    Fundamental::Int64 => ConversionType::Direct,
                    Fundamental::UInt64 => ConversionType::Direct,
                    Fundamental::Int => ConversionType::Direct,
                    Fundamental::UInt => ConversionType::Direct,
                    Fundamental::Long => ConversionType::Direct,
                    Fundamental::ULong => ConversionType::Direct,
                    Fundamental::Size => ConversionType::Direct,
                    Fundamental::SSize => ConversionType::Direct,
                    Fundamental::Float => ConversionType::Direct,
                    Fundamental::Double => ConversionType::Direct,
                    Fundamental::Char => ConversionType::Scalar,
                    Fundamental::UChar => ConversionType::Scalar,
                    Fundamental::Type => ConversionType::Scalar,
                    Fundamental::Utf8 => ConversionType::Transfer,
                    Fundamental::Filename => ConversionType::Transfer,
                    Fundamental::Void => ConversionType::Unknown,
                    Fundamental::Pointer => ConversionType::Unknown,
                    Fundamental::VarArgs => ConversionType::Unknown,
                    Fundamental::Unsupported => ConversionType::Unknown,
                },
                Type::Enumeration(_) => ConversionType::Direct,
                Type::Bitfield(_) => ConversionType::Direct,
                Type::Record(_) => ConversionType::Borrow,
                Type::Union(_) => ConversionType::Borrow,
                Type::Interface(_) => ConversionType::Borrow,
                Type::Class(_) => ConversionType::Borrow,
                Type::Alias(_) => ConversionType::Unknown,
                Type::Callback(_) => ConversionType::Unknown,
                Type::Function(_) => ConversionType::Unknown,
                Type::Signal(_) => ConversionType::Unknown,
            },
        }
    }
}

} // verus!
