//! Turning an introspected parameter into the parameter descriptor the
//! emission layer renders.

use vstd::prelude::*;
use crate::env::Env;
use crate::library;
use crate::library::{Fundamental, Library, Nullable, ParameterDirection, Transfer, Type, TypeId};

verus! {

/// How a generated signature takes a parameter.
#[derive(Clone, Copy, Debug, PartialEq, Eq, Structural)]
pub enum RefMode {
    ByValue,
    ByRef,
    ByRefMut,
}

/// The reference mode a parameter of type `tid` is taken with.
pub open spec fn spec_ref_mode(lib: Library, tid: TypeId, direction: ParameterDirection) -> RefMode {
    match direction {
        ParameterDirection::In => match lib.spec_slot(tid) {
            Some(t) => match t {
                Type::Fundamental(f) => match f {
                    Fundamental::Utf8 => RefMode::ByRef,
                    Fundamental::Filename => RefMode::ByRef,
                    _ => RefMode::ByValue,
                },
                Type::Record(_) => RefMode::ByRef,
                Type::Union(_) => RefMode::ByRef,
                Type::Interface(_) => RefMode::ByRef,
                Type::Class(_) => RefMode::ByRef,
                _ => RefMode::ByValue,
            },
            None => RefMode::ByValue,
        },
        _ => RefMode::ByRefMut,
    }
}

pub fn ref_mode_of(library: &Library, tid: TypeId, direction: ParameterDirection) -> (r: RefMode)
    requires
        library.wf(),
        library.tid_ok(tid),
    ensures
        r == spec_ref_mode(*library, tid, direction),
{
    match direction {
        ParameterDirection::In => match library.namespaces[tid.ns_id].types[tid.id].as_ref() {
            Some(t) => match t {
                Type::Fundamental(f) => match f {
                    Fundamental::Utf8 => RefMode::ByRef,
                    Fundamental::Filename => RefMode::ByRef,
                    _ => RefMode::ByValue,
                },
                Type::Record(_) => RefMode::ByRef,
                Type::Union(_) => RefMode::ByRef,
                Type::Interface(_) => RefMode::ByRef,
                Type::Class(_) => RefMode::ByRef,
                _ => RefMode::ByValue,
            },
            None => RefMode::ByValue,
        },
        _ => RefMode::ByRefMut,
    }
}

/// A parameter as the emission layer sees it: the introspected fields plus
/// the derived reference mode and conversion glue.
pub struct Parameter {
    pub name: String,
    pub typ: TypeId,
    pub c_type: String,
    pub instance_parameter: bool,
    pub direction: ParameterDirection,
    pub transfer: Transfer,
    pub caller_allocates: bool,
    pub nullable: Nullable,
    pub allow_none: bool,
    pub is_error: bool,
    pub ref_mode: RefMode,
    pub to_glib_extra: String,
}

/// The mathematical value of an analyzed parameter: every observable field,
/// with text as character sequences.
pub ghost struct ParamModel {
    pub name: Seq<char>,
    pub typ: TypeId,
    pub c_type: Seq<char>,
    pub instance_parameter: bool,
    pub direction: ParameterDirection,
    pub transfer: Transfer,
    pub caller_allocates: bool,
    pub nullable: Nullable,
    pub allow_none: bool,
    pub is_error: bool,
    pub ref_mode: RefMode,
    pub to_glib_extra: Seq<char>,
}

impl Parameter {
    pub open spec fn model(self) -> ParamModel {
        ParamModel {
            name: self.name@,
            typ: self.typ,
            c_type: self.c_type@,
            instance_parameter: self.instance_parameter,
            direction: self.direction,
            transfer: self.transfer,
            caller_allocates: self.caller_allocates,
            nullable: self.nullable,
            allow_none: self.allow_none,
            is_error: self.is_error,
            ref_mode: self.ref_mode,
            to_glib_extra: self.to_glib_extra@,
        }
    }
}

/// What analyzing one introspected parameter yields: the fields carried
/// over unchanged, the reference mode derived, no conversion glue.
pub open spec fn spec_analyze_param(lib: Library, p: library::Parameter) -> ParamModel {
    ParamModel {
        name: p.name@,
        typ: p.typ,
        c_type: p.c_type@,
        instance_parameter: false,
        direction: p.direction,
        transfer: p.transfer,
        caller_allocates: p.caller_allocates,
        nullable: p.nullable,
        allow_none: p.allow_none,
        is_error: p.is_error,
        ref_mode: spec_ref_mode(lib, p.typ, p.direction),
        to_glib_extra: Seq::empty(),
    }
}

/// Analyzes one signal or function parameter.
pub fn analyze(env: &Env, par: &library::Parameter) -> (r: Parameter)
    requires
        env.library.wf(),
        env.library.tid_ok(par.typ),
    ensures
        r.model() == spec_analyze_param(env.library, *par),
{
    let ref_mode = ref_mode_of(&env.library, par.typ, par.direction);
    let r = Parameter {
        name: par.name.clone(),
        typ: par.typ,
        c_type: par.c_type.clone(),
        instance_parameter: false,
        direction: par.direction,
        transfer: par.transfer,
        caller_allocates: par.caller_allocates,
        nullable: par.nullable,
        allow_none: par.allow_none,
        is_error: par.is_error,
        ref_mode,
        to_glib_extra: String::new(),
    };
    proof {
        assert(r.model().to_glib_extra =~= Seq::<char>::empty());
    }
    r
}

} // verus!
