//! Per-function analysis: the name and kind carried over, and the
//! deprecation decision against the configured allowed range. Parameter and
//! return-value binding for plain functions is a deliberate extension
//! point; the conversion logic lives in the signal path.

use vstd::prelude::*;
use crate::Version;
use crate::env::Env;
use crate::library;
use crate::library::{FunctionKind, TypeId};
use crate::version::req_matches;

verus! {

/// What one generation run records about one function.
pub struct Info {
    pub name: String,
    pub glib_name: String,
    pub kind: FunctionKind,
    pub comented: bool,
    pub deprecated: bool,
}

/// The mathematical value of one function's analysis record.
pub ghost struct InfoModel {
    pub name: Seq<char>,
    pub glib_name: Seq<char>,
    pub kind: FunctionKind,
    pub comented: bool,
    pub deprecated: bool,
}

impl Info {
    pub open spec fn model(self) -> InfoModel {
        InfoModel {
            name: self.name@,
            glib_name: self.glib_name@,
            kind: self.kind,
            comented: self.comented,
            deprecated: self.deprecated,
        }
    }
}

/// The deprecation rule: deprecated exactly when a deprecated-since
/// version exists and falls outside the allowed range `req`.
pub open spec fn spec_deprecated(req: Seq<char>, deprecated_version: Option<Version>) -> bool {
    match deprecated_version {
        Some(v) => !req_matches(req, v.major as int, v.minor as int, v.patch as int),
        None => false,
    }
}

/// The analysis record of one function under the allowed range `req`.
pub open spec fn spec_analyze_function(req: Seq<char>, f: library::Function) -> InfoModel {
    InfoModel {
        name: f.name@,
        glib_name: f.c_identifier@,
        kind: f.kind,
        comented: false,
        deprecated: spec_deprecated(req, f.deprecated_version),
    }
}

/// Analyzes one function of a class. Pure: the decision is a function of
/// the descriptor and the configured allowed range alone.
pub fn analyze_function(env: &Env, type_: &library::Function, class_tid: TypeId) -> (r: Info)
    ensures
        r.model() == spec_analyze_function(
            env.config.allowed_deprecated_version.src(),
            *type_,
        ),
{
    let _ = class_tid;
    let deprecated = match &type_.deprecated_version {
        Some(ver) => !env.config.allowed_deprecated_version.matches(ver),
        None => false,
    };
    Info {
        name: type_.name.clone(),
        glib_name: type_.c_identifier.clone(),
        kind: type_.kind,
        comented: false,
        deprecated,
    }
}

/// Analyzes every function of a class, in declaration order.
pub fn analyze(env: &Env, type_: &library::Class, class_tid: TypeId) -> (r: Vec<Info>)
    ensures
        r@.len() == type_.functions@.len(),
        forall|i: int|
            0 <= i < r@.len() ==> (#[trigger] r@[i]).model() == spec_analyze_function(
                env.config.allowed_deprecated_version.src(),
                type_.functions@[i],
            ),
{
    let mut funcs: Vec<Info> = Vec::new();
    let n = type_.functions.len();
    let mut i: usize = 0;
    while i < n
        invariant
            n == type_.functions@.len(),
            i <= n,
            funcs@.len() == i,
            forall|j: int|
                0 <= j < i ==> (#[trigger] funcs@[j]).model() == spec_analyze_function(
                    env.config.allowed_deprecated_version.src(),
                    type_.functions@[j],
                ),
        decreases n - i,
    {
        let info = analyze_function(env, &type_.functions[i], class_tid);
        funcs.push(info);
        i += 1;
    }
    funcs
}

/// Determinism of function analysis: two records analyzed from the same
/// descriptor under the same allowed range are identical.
pub proof fn lemma_function_analysis_deterministic(
    req: Seq<char>,
    f: library::Function,
    a: Info,
    b: Info,
)
    requires
        a.model() == spec_analyze_function(req, f),
        b.model() == spec_analyze_function(req, f),
    ensures
        a.model() == b.model(),
{
}

} // verus!

use vstd::prelude::*;

verus! {

/// Determinism over a whole class: two analysis runs on the same class
/// under the same allowed range yield sequences of identical content, in
/// the same order.
pub proof fn lemma_analysis_sequence_deterministic(
    req: Seq<char>,
    fs: Seq<library::Function>,
    a: Seq<Info>,
    b: Seq<Info>,
)
    requires
        a.len() == fs.len(),
        b.len() == fs.len(),
        forall|i: int| 0 <= i < fs.len() ==> (#[trigger] a[i]).model() == spec_analyze_function(req, fs[i]),
        forall|i: int| 0 <= i < fs.len() ==> (#[trigger] b[i]).model() == spec_analyze_function(req, fs[i]),
    ensures
        a.map_values(|x: Info| x.model()) == b.map_values(|x: Info| x.model()),
{
    assert(a.map_values(|x: Info| x.model()) =~= b.map_values(|x: Info| x.model()));
}

} // verus!
