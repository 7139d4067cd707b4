//! Signal trampoline synthesis: classify every parameter and the return
//! value, collect every reason the signal cannot be bound, and on success
//! build the trampoline descriptor with its receiver parameter and bounds.

use vstd::prelude::*;
use vstd::string::StringExecFns;
use crate::env::Env;
use crate::library;
use crate::library::{Library, ParameterDirection, TypeId};
use crate::nameutil::{is_empty_c_type, spec_is_empty_c_type};
use super::conversion_type::{ConversionType, spec_conversion_type};
use super::rust_type::{TypeError, TypeErrorKind, rust_type, spec_rust_type};

verus! {

/// The closed set of reasons one parameter or return value cannot be
/// bound. Preserved verbatim for diagnostics.
#[derive(Clone, Copy, Debug, PartialEq, Eq, Structural)]
pub enum ClassificationError {
    /// Out and InOut parameters are outside the supported conversion
    /// boundary of this engine.
    UnsupportedDirection(ParameterDirection),
    /// The raw C type is empty or void.
    EmptyCType,
    /// The underlying declaration has no known conversion rule.
    UnknownConversion,
    /// The target-type mapping excludes the type by policy.
    Ignored,
    /// The type's shape disagrees with what the mapping expects.
    Mismatch,
    /// The mapping rule has not been written.
    Unimplemented,
}

/// The classification order is a designed tie-break: direction first, then
/// the raw C type, then the conversion category, then the target mapping.
pub open spec fn spec_classify(lib: Library, p: library::Parameter) -> Result<
    ConversionType,
    ClassificationError,
> {
    if p.direction == ParameterDirection::Out {
        Err(ClassificationError::UnsupportedDirection(ParameterDirection::Out))
    } else if p.direction == ParameterDirection::InOut {
        Err(ClassificationError::UnsupportedDirection(ParameterDirection::InOut))
    } else if spec_is_empty_c_type(p.c_type@) {
        Err(ClassificationError::EmptyCType)
    } else if spec_conversion_type(lib, p.typ) == ConversionType::Unknown {
        Err(ClassificationError::UnknownConversion)
    } else {
        match spec_rust_type(lib, p.typ) {
            Err((TypeErrorKind::Ignored, _)) => Err(ClassificationError::Ignored),
            Err((TypeErrorKind::Mismatch, _)) => Err(ClassificationError::Mismatch),
            Err((TypeErrorKind::Unimplemented, _)) => Err(ClassificationError::Unimplemented),
            Ok(_) => Ok(spec_conversion_type(lib, p.typ)),
        }
    }
}

/// Decides whether and how one parameter can be safely converted.
pub fn classify(library: &Library, par: &library::Parameter) -> (r: Result<
    ConversionType,
    ClassificationError,
>)
    requires
        library.wf(),
        library.tid_ok(par.typ),
    ensures
        r == spec_classify(*library, *par),
{
    if par.direction == ParameterDirection::Out {
        Err(ClassificationError::UnsupportedDirection(ParameterDirection::Out))
    } else if par.direction == ParameterDirection::InOut {
        Err(ClassificationError::UnsupportedDirection(ParameterDirection::InOut))
    } else if is_empty_c_type(par.c_type.as_str()) {
        Err(ClassificationError::EmptyCType)
    } else if ConversionType::of(library, par.typ) == ConversionType::Unknown {
        Err(ClassificationError::UnknownConversion)
    } else {
        match rust_type(library, par.typ) {
            Err(TypeError::Ignored(_)) => Err(ClassificationError::Ignored),
            Err(TypeError::Mismatch(_)) => Err(ClassificationError::Mismatch),
            Err(TypeError::Unimplemented(_)) => Err(ClassificationError::Unimplemented),
            Ok(_) => Ok(ConversionType::of(library, par.typ)),
        }
    }
}

/// Classifier ordering: an Out or InOut parameter is always rejected for
/// its direction, whatever its declared type or raw C type.
pub proof fn lemma_classifier_direction_first(lib: Library, p: library::Parameter)
    requires
        p.direction == ParameterDirection::Out || p.direction == ParameterDirection::InOut,
    ensures
        spec_classify(lib, p) == Err::<ConversionType, ClassificationError>(
            ClassificationError::UnsupportedDirection(p.direction),
        ),
{
}

/// The diagnostic word each rejection reason is reported with.
pub open spec fn spec_error_str(e: ClassificationError) -> Seq<char> {
    match e {
        ClassificationError::UnsupportedDirection(d) => if d == ParameterDirection::InOut {
            "InOut"@
        } else {
            "Out"@
        },
        ClassificationError::EmptyCType => "Empty ctype"@,
        ClassificationError::UnknownConversion => "Unknown conversion"@,
        ClassificationError::Ignored => "Ignored"@,
        ClassificationError::Mismatch => "Mismatch"@,
        ClassificationError::Unimplemented => "Unimplemented"@,
    }
}

/// The diagnostic word for one parameter, or nothing when it converts.
pub open spec fn spec_type_error(lib: Library, p: library::Parameter) -> Option<Seq<char>> {
    match spec_classify(lib, p) {
        Ok(_) => None,
        Err(e) => Some(spec_error_str(e)),
    }
}

/// Classifies one parameter and renders the failure, if any, as the
/// diagnostic word used in rejection reports.
pub fn type_error(env: &Env, par: &library::Parameter) -> (r: Option<&'static str>)
    requires
        env.library.wf(),
        env.library.tid_ok(par.typ),
    ensures
        match r {
            Some(s) => spec_type_error(env.library, *par) == Some(s@),
            None => spec_type_error(env.library, *par) is None,
        },
{
    match classify(&env.library, par) {
        Ok(_) => None,
        Err(e) => match e {
            ClassificationError::UnsupportedDirection(d) => if d == ParameterDirection::InOut {
                Some("InOut")
            } else {
                Some("Out")
            },
            ClassificationError::EmptyCType => Some("Empty ctype"),
            ClassificationError::UnknownConversion => Some("Unknown conversion"),
            ClassificationError::Ignored => Some("Ignored"),
            ClassificationError::Mismatch => Some("Mismatch"),
            ClassificationError::Unimplemented => Some("Unimplemented"),
        },
    }
}

/// The id that stands for a missing (void) type.
pub open spec fn spec_is_void(tid: TypeId) -> bool {
    tid == (TypeId { ns_id: 0, id: 0 })
}

/// The full diagnostic line for one failing signal parameter.
pub open spec fn spec_error_line(lib: Library, p: library::Parameter) -> Option<Seq<char>> {
    match spec_type_error(lib, p) {
        Some(e) => Some(e + " "@ + p.name@ + ": "@ + lib.spec_full_name(p.typ)),
        None => None,
    }
}

/// The full diagnostic line for a failing return value.
pub open spec fn spec_ret_error_line(lib: Library, p: library::Parameter) -> Option<Seq<char>> {
    match spec_type_error(lib, p) {
        Some(e) => Some(e + " return value "@ + lib.spec_full_name(p.typ)),
        None => None,
    }
}

/// Diagnostic lines of the first `upto` parameters, in parameter order.
pub open spec fn spec_param_errors(
    lib: Library,
    pars: Seq<library::Parameter>,
    upto: int,
) -> Seq<Seq<char>>
    decreases upto,
{
    if upto <= 0 {
        Seq::empty()
    } else {
        spec_param_errors(lib, pars, upto - 1) + (match spec_error_line(lib, pars[upto - 1]) {
            Some(l) => seq![l],
            None => Seq::empty(),
        })
    }
}

/// Every reason this signal cannot be bound: one line per failing
/// parameter, in order, then one for the return value if it is non-void
/// and fails. Never truncated to the first.
pub open spec fn spec_closure_errors(lib: Library, signal: library::Signal) -> Seq<Seq<char>> {
    spec_param_errors(lib, signal.parameters@, signal.parameters@.len() as int) + (if !spec_is_void(
        signal.ret.typ,
    ) {
        match spec_ret_error_line(lib, signal.ret) {
            Some(l) => seq![l],
            None => Seq::empty(),
        }
    } else {
        Seq::empty()
    })
}

/// Collects every classification failure of one signal.
pub fn closure_errors(env: &Env, signal: &library::Signal) -> (errors: Vec<String>)
    requires
        env.library.wf(),
        env.library.signal_tids_ok(*signal),
    ensures
        errors.deep_view() == spec_closure_errors(env.library, *signal),
{
    let mut errors: Vec<String> = Vec::new();
    let n = signal.parameters.len();
    let mut i: usize = 0;
    while i < n
        invariant
            env.library.wf(),
            env.library.signal_tids_ok(*signal),
            n == signal.parameters@.len(),
            i <= n,
            errors.deep_view() == spec_param_errors(env.library, signal.parameters@, i as int),
        decreases n - i,
    {
        let par = &signal.parameters[i];
        assert(env.library.param_tids_ok(signal.parameters@[i as int]));
        if let Some(error) = type_error(env, par) {
            let ghost prev = errors.deep_view();
            let mut line = error.to_owned();
            line.append(" ");
            line.append(par.name.as_str());
            line.append(": ");
            let full = par.typ.full_name(&env.library);
            line.append(full.as_str());
            errors.push(line);
            proof {
                assert(errors.deep_view() =~= prev.push(
                    spec_error_line(env.library, signal.parameters@[i as int])->0,
                ));
                assert(errors.deep_view() =~= spec_param_errors(
                    env.library,
                    signal.parameters@,
                    i + 1 as int,
                ));
            }
        } else {
            proof {
                assert(spec_param_errors(env.library, signal.parameters@, i + 1 as int)
                    =~= spec_param_errors(env.library, signal.parameters@, i as int));
            }
        }
        i += 1;
    }
    let void_tid = TypeId::default();
    if signal.ret.typ != void_tid {
        if let Some(error) = type_error(env, &signal.ret) {
            let ghost prev = errors.deep_view();
            let mut line = error.to_owned();
            line.append(" return value ");
            let full = signal.ret.typ.full_name(&env.library);
            line.append(full.as_str());
            errors.push(line);
            proof {
                assert(errors.deep_view() =~= prev.push(
                    spec_ret_error_line(env.library, signal.ret)->0,
                ));
            }
        }
    }
    proof {
        assert(errors.deep_view() =~= spec_closure_errors(env.library, *signal));
    }
    errors
}

} // verus!

use crate::Version;
use crate::library::{Nullable, Transfer, spec_glib_name};
use crate::nameutil::{signal_to_snake, snake_of};
use super::bounds::{BoundType, Bounds};
use super::parameter;
use super::parameter::{ParamModel, RefMode, spec_analyze_param};
use super::rust_type::{
    bounds_rust_type, spec_bounds_type_name, spec_used_ffi_type, spec_used_rust_type,
    used_ffi_type, used_rust_type,
};

verus! {

/// The mathematical value of an introspected parameter, used to pin the
/// return-value descriptor a trampoline carries.
pub ghost struct LibParamModel {
    pub name: Seq<char>,
    pub typ: TypeId,
    pub c_type: Seq<char>,
    pub direction: ParameterDirection,
    pub transfer: Transfer,
    pub caller_allocates: bool,
    pub nullable: Nullable,
    pub allow_none: bool,
    pub is_error: bool,
}

pub open spec fn lib_param_model(p: library::Parameter) -> LibParamModel {
    LibParamModel {
        name: p.name@,
        typ: p.typ,
        c_type: p.c_type@,
        direction: p.direction,
        transfer: p.transfer,
        caller_allocates: p.caller_allocates,
        nullable: p.nullable,
        allow_none: p.allow_none,
        is_error: p.is_error,
    }
}

/// A synthesized callback adapter for one signal: generated name, the
/// parameter list with the implicit leading receiver, the return value,
/// the inferred bounds, and the version gates. Immutable once created.
pub struct Trampoline {
    pub name: String,
    pub parameters: Vec<parameter::Parameter>,
    pub ret: library::Parameter,
    pub bounds: Bounds,
    pub version: Option<Version>,
    pub deprecated_version: Option<Version>,
}

/// The mathematical value of one trampoline: every observable field, with
/// text as character sequences.
pub ghost struct TrampolineModel {
    pub name: Seq<char>,
    pub parameters: Seq<ParamModel>,
    pub ret: LibParamModel,
    pub bounds: Seq<(Seq<char>, Seq<char>, BoundType)>,
    pub version: Option<Version>,
    pub deprecated_version: Option<Version>,
}

impl Trampoline {
    pub open spec fn model(self) -> TrampolineModel {
        TrampolineModel {
            name: self.name@,
            parameters: self.parameters@.map_values(|p: parameter::Parameter| p.model()),
            ret: lib_param_model(self.ret),
            bounds: self.bounds.model(),
            version: self.version,
            deprecated_version: self.deprecated_version,
        }
    }
}

/// Trampolines for a whole library, appended to across signals in
/// declaration order.
pub type Trampolines = Vec<Trampoline>;

/// The deterministic generated name: the snake-case form of the signal
/// name with a fixed suffix.
pub open spec fn spec_trampoline_name(signal_name: Seq<char>) -> Seq<char> {
    snake_of(signal_name) + "_trampoline"@
}

/// The implicit leading receiver parameter: direction In, no ownership
/// transfer, by reference, typed as the owning class.
pub open spec fn spec_receiver(lib: Library, type_tid: TypeId) -> ParamModel {
    ParamModel {
        name: "this"@,
        typ: type_tid,
        c_type: spec_glib_name(lib.spec_slot(type_tid)->0)->0 + "*"@,
        instance_parameter: false,
        direction: ParameterDirection::In,
        transfer: Transfer::Nothing,
        caller_allocates: false,
        nullable: Nullable(false),
        allow_none: false,
        is_error: false,
        ref_mode: RefMode::ByRef,
        to_glib_extra: Seq::empty(),
    }
}

/// The trampoline's parameter list: the receiver, then each signal
/// parameter analyzed, in declaration order.
pub open spec fn spec_trampoline_params(
    lib: Library,
    signal: library::Signal,
    type_tid: TypeId,
) -> Seq<ParamModel> {
    seq![spec_receiver(lib, type_tid)] + signal.parameters@.map_values(
        |p: library::Parameter| spec_analyze_param(lib, p),
    )
}

/// In a trait-generation context the receiver gets an is-a bound instead
/// of a fixed concrete type; outside one, no bound exists.
pub open spec fn spec_trampoline_bounds(lib: Library, type_tid: TypeId, in_trait: bool) -> Seq<
    (Seq<char>, Seq<char>, BoundType),
> {
    if in_trait {
        seq![("this"@, spec_bounds_type_name(lib, type_tid), BoundType::IsA)]
    } else {
        Seq::empty()
    }
}

/// The imports one use of `tid` asks the emission layer to make: the
/// target-representation name, then the C-level name, where each exists.
pub open spec fn spec_used_of_tid(lib: Library, tid: TypeId) -> Seq<Seq<char>> {
    (match spec_used_rust_type(lib, tid) {
        Some(s) => seq![s],
        None => Seq::empty(),
    }) + (match spec_used_ffi_type(lib, tid) {
        Some(s) => seq![s],
        None => Seq::empty(),
    })
}

/// Imports required by the first `upto` signal parameters, in order.
pub open spec fn spec_used_params(
    lib: Library,
    pars: Seq<library::Parameter>,
    upto: int,
) -> Seq<Seq<char>>
    decreases upto,
{
    if upto <= 0 {
        Seq::empty()
    } else {
        spec_used_params(lib, pars, upto - 1) + spec_used_of_tid(lib, pars[upto - 1].typ)
    }
}

/// All imports one signal's trampoline requires: the owning type's C-level
/// name, each parameter's imports, then the return value's if non-void.
pub open spec fn spec_used_types(
    lib: Library,
    signal: library::Signal,
    type_tid: TypeId,
) -> Seq<Seq<char>> {
    (match spec_used_ffi_type(lib, type_tid) {
        Some(s) => seq![s],
        None => Seq::empty(),
    }) + spec_used_params(lib, signal.parameters@, signal.parameters@.len() as int) + (
    if !spec_is_void(signal.ret.typ) {
        spec_used_of_tid(lib, signal.ret.typ)
    } else {
        Seq::empty()
    })
}

/// The trampoline a successful analysis of one signal appends.
pub open spec fn spec_trampoline(
    env: Env,
    signal: library::Signal,
    type_tid: TypeId,
    in_trait: bool,
    version: Option<Version>,
    deprecated_version: Option<Version>,
) -> TrampolineModel {
    TrampolineModel {
        name: spec_trampoline_name(signal.name@),
        parameters: spec_trampoline_params(env.library, signal, type_tid),
        ret: lib_param_model(signal.ret),
        bounds: spec_trampoline_bounds(env.library, type_tid, in_trait),
        version,
        deprecated_version,
    }
}

} // verus!

verus! {

/// Analyzes one signal of the type `type_tid`. When any parameter or the
/// return value fails classification, every reason is returned and
/// nothing is appended; the caller reports and moves on. Otherwise the
/// trampoline is appended, the imports it needs are recorded, and its
/// generated name is returned.
pub fn analyze(
    env: &Env,
    signal: &library::Signal,
    type_tid: TypeId,
    in_trait: bool,
    trampolines: &mut Trampolines,
    used_types: &mut Vec<String>,
    version: Option<Version>,
    deprecated_version: Option<Version>,
) -> (r: Result<String, Vec<String>>)
    requires
        env.library.wf(),
        env.library.signal_tids_ok(*signal),
        env.library.tid_ok(type_tid),
        env.library.resolved(type_tid),
        spec_glib_name(env.library.spec_slot(type_tid)->0) is Some,
    ensures
        r is Ok <==> spec_closure_errors(env.library, *signal).len() == 0,
        match r {
            Ok(name) => {
                &&& name@ == spec_trampoline_name(signal.name@)
                &&& final(trampolines)@.map_values(|t: Trampoline| t.model()) == old(
                    trampolines,
                )@.map_values(|t: Trampoline| t.model()).push(
                    spec_trampoline(*env, *signal, type_tid, in_trait, version, deprecated_version),
                )
                &&& final(used_types).deep_view() == old(used_types).deep_view()
                    + spec_used_types(env.library, *signal, type_tid)
            },
            Err(errors) => {
                &&& errors.deep_view() == spec_closure_errors(env.library, *signal)
                &&& *final(trampolines) == *old(trampolines)
                &&& *final(used_types) == *old(used_types)
            },
        },
{
    let ghost tramps0 = trampolines@.map_values(|t: Trampoline| t.model());
    let ghost used0 = used_types.deep_view();
    let errors = closure_errors(env, signal);
    if errors.len() != 0 {
        proof {
            assert(errors.deep_view().len() == errors@.len());
        }
        return Err(errors);
    }
    proof {
        assert(errors.deep_view().len() == errors@.len());
    }

    let mut name = signal_to_snake(signal.name.as_str());
    name.append("_trampoline");

    let owner = env.type_(type_tid);
    let glib_name = owner.get_glib_name().unwrap();
    let c_type = glib_name.clone().concat("*");

    let mut bounds = Bounds::new();

    let mut parameters: Vec<parameter::Parameter> = Vec::new();
    let this = parameter::Parameter {
        name: "this".to_owned(),
        typ: type_tid,
        c_type,
        instance_parameter: false,
        direction: ParameterDirection::In,
        transfer: Transfer::Nothing,
        caller_allocates: false,
        nullable: Nullable(false),
        allow_none: false,
        is_error: false,
        ref_mode: RefMode::ByRef,
        to_glib_extra: String::new(),
    };
    proof {
        assert(this.model().to_glib_extra =~= Seq::<char>::empty());
        assert(this.model() == spec_receiver(env.library, type_tid));
    }
    parameters.push(this);

    if let Some(s) = used_ffi_type(&env.library, type_tid) {
        used_types.push(s);
    }
    let ghost base = used_types.deep_view();
    proof {
        assert(base =~= used0 + (match spec_used_ffi_type(env.library, type_tid) {
            Some(s) => seq![s],
            None => Seq::<Seq<char>>::empty(),
        }));
    }

    if in_trait {
        let bound_type_name = match bounds_rust_type(&env.library, type_tid) {
            Ok(s) => s,
            Err(e) => e.into_string(),
        };
        bounds.add_parameter("this", bound_type_name.as_str(), BoundType::IsA);
        proof {
            assert(bounds.model() =~= spec_trampoline_bounds(env.library, type_tid, in_trait));
        }
    } else {
        proof {
            assert(bounds.model() =~= spec_trampoline_bounds(env.library, type_tid, in_trait));
        }
    }

    let n = signal.parameters.len();
    let mut i: usize = 0;
    while i < n
        invariant
            env.library.wf(),
            env.library.signal_tids_ok(*signal),
            n == signal.parameters@.len(),
            i <= n,
            parameters@.map_values(|p: parameter::Parameter| p.model()) == seq![
                spec_receiver(env.library, type_tid),
            ] + signal.parameters@.take(i as int).map_values(
                |p: library::Parameter| spec_analyze_param(env.library, p),
            ),
            used_types.deep_view() == base + spec_used_params(
                env.library,
                signal.parameters@,
                i as int,
            ),
        decreases n - i,
    {
        let par = &signal.parameters[i];
        assert(env.library.param_tids_ok(signal.parameters@[i as int]));
        let analysis = parameter::analyze(env, par);

        let ghost used_before = used_types.deep_view();
        if let Ok(s) = used_rust_type(&env.library, par.typ) {
            used_types.push(s);
        }
        proof {
            assert(used_types.deep_view() =~= used_before + (match spec_used_rust_type(
                env.library,
                signal.parameters@[i as int].typ,
            ) {
                Some(s) => seq![s],
                None => Seq::<Seq<char>>::empty(),
            }));
        }
        let ghost used_mid = used_types.deep_view();
        if let Some(s) = used_ffi_type(&env.library, par.typ) {
            used_types.push(s);
        }
        proof {
            assert(used_types.deep_view() =~= used_mid + (match spec_used_ffi_type(
                env.library,
                signal.parameters@[i as int].typ,
            ) {
                Some(s) => seq![s],
                None => Seq::<Seq<char>>::empty(),
            }));
            assert(used_types.deep_view() =~= base + spec_used_params(
                env.library,
                signal.parameters@,
                i + 1 as int,
            ));
        }

        let ghost params_before = parameters@.map_values(|p: parameter::Parameter| p.model());
        parameters.push(analysis);
        proof {
            assert(parameters@.map_values(|p: parameter::Parameter| p.model()) =~= params_before.push(
                spec_analyze_param(env.library, signal.parameters@[i as int]),
            ));
            assert(signal.parameters@.take(i + 1 as int).map_values(
                |p: library::Parameter| spec_analyze_param(env.library, p),
            ) =~= signal.parameters@.take(i as int).map_values(
                |p: library::Parameter| spec_analyze_param(env.library, p),
            ).push(spec_analyze_param(env.library, signal.parameters@[i as int])));
            assert(parameters@.map_values(|p: parameter::Parameter| p.model()) =~= seq![
                spec_receiver(env.library, type_tid),
            ] + signal.parameters@.take(i + 1 as int).map_values(
                |p: library::Parameter| spec_analyze_param(env.library, p),
            ));
        }
        i += 1;
    }
    proof {
        assert(signal.parameters@.take(n as int) =~= signal.parameters@);
    }

    let void_tid = TypeId::default();
    if signal.ret.typ != void_tid {
        let ghost used_before = used_types.deep_view();
        if let Ok(s) = used_rust_type(&env.library, signal.ret.typ) {
            used_types.push(s);
        }
        proof {
            assert(used_types.deep_view() =~= used_before + (match spec_used_rust_type(
                env.library,
                signal.ret.typ,
            ) {
                Some(s) => seq![s],
                None => Seq::<Seq<char>>::empty(),
            }));
        }
        let ghost used_mid = used_types.deep_view();
        if let Some(s) = used_ffi_type(&env.library, signal.ret.typ) {
            used_types.push(s);
        }
        proof {
            assert(used_types.deep_view() =~= used_mid + (match spec_used_ffi_type(
                env.library,
                signal.ret.typ,
            ) {
                Some(s) => seq![s],
                None => Seq::<Seq<char>>::empty(),
            }));
        }
    }
    proof {
        assert(used_types.deep_view() =~= used0 + spec_used_types(
            env.library,
            *signal,
            type_tid,
        ));
    }

    let ret = library::Parameter {
        name: signal.ret.name.clone(),
        typ: signal.ret.typ,
        c_type: signal.ret.c_type.clone(),
        direction: signal.ret.direction,
        transfer: signal.ret.transfer,
        caller_allocates: signal.ret.caller_allocates,
        nullable: signal.ret.nullable,
        allow_none: signal.ret.allow_none,
        is_error: signal.ret.is_error,
    };
    let trampoline = Trampoline {
        name: name.clone(),
        parameters,
        ret,
        bounds,
        version,
        deprecated_version,
    };
    proof {
        assert(trampoline.model().name =~= spec_trampoline_name(signal.name@));
        assert(trampoline.model().parameters =~= spec_trampoline_params(
            env.library,
            *signal,
            type_tid,
        ));
        assert(trampoline.model() == spec_trampoline(
            *env,
            *signal,
            type_tid,
            in_trait,
            version,
            deprecated_version,
        ));
    }
    let ghost before_push = trampolines@.map_values(|t: Trampoline| t.model());
    trampolines.push(trampoline);
    proof {
        assert(trampolines@.map_values(|t: Trampoline| t.model()) =~= before_push.push(
            spec_trampoline(*env, *signal, type_tid, in_trait, version, deprecated_version),
        ));
    }
    Ok(name)
}

/// Determinism: two analyses of the same signal under the same inputs
/// yield trampolines with identical observable content.
pub proof fn lemma_trampoline_deterministic(
    env: Env,
    signal: library::Signal,
    type_tid: TypeId,
    in_trait: bool,
    version: Option<Version>,
    deprecated_version: Option<Version>,
    a: Trampoline,
    b: Trampoline,
)
    requires
        a.model() == spec_trampoline(env, signal, type_tid, in_trait, version, deprecated_version),
        b.model() == spec_trampoline(env, signal, type_tid, in_trait, version, deprecated_version),
    ensures
        a.model() == b.model(),
{
}

/// Receiver bound placement: the same signal analyzed in trait context and
/// outside one yields identical parameter lists, names, return values and
/// version gates; only the trait run's bounds carry an entry, and that
/// entry is the receiver's is-a bound.
pub proof fn lemma_receiver_bound_placement(
    env: Env,
    signal: library::Signal,
    type_tid: TypeId,
    version: Option<Version>,
    deprecated_version: Option<Version>,
)
    ensures
        ({
            let with_trait = spec_trampoline(env, signal, type_tid, true, version, deprecated_version);
            let without = spec_trampoline(env, signal, type_tid, false, version, deprecated_version);
            &&& with_trait.parameters == without.parameters
            &&& with_trait.name == without.name
            &&& with_trait.ret == without.ret
            &&& with_trait.version == without.version
            &&& with_trait.deprecated_version == without.deprecated_version
            &&& without.bounds == Seq::<(Seq<char>, Seq<char>, BoundType)>::empty()
            &&& with_trait.bounds == seq![
                ("this"@, spec_bounds_type_name(env.library, type_tid), BoundType::IsA),
            ]
        }),
{
}

} // verus!
