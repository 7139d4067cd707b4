//! The run environment: the fully loaded type library plus the run
//! configuration, owned for the length of one generation run.

use vstd::prelude::*;
use crate::config::Config;
use crate::library::{Library, Type, TypeId};

verus! {

pub struct Env {
    pub library: Library,
    pub config: Config,
}

impl Env {
    /// Dereferences an id through the owned library.
    pub fn type_(&self, tid: TypeId) -> (r: &Type)
        requires
            self.library.wf(),
            self.library.tid_ok(tid),
            self.library.resolved(tid),
        ensures
            Some(*r) == self.library.spec_slot(tid),
    {
        self.library.type_(tid)
    }
}

} // verus!
