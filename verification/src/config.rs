//! Per-run configuration consumed by the analysis passes. Reading the
//! command line and the configuration file happens outside this crate; the
//! core receives the chosen values and validates the version range.

use vstd::prelude::*;
use crate::version::{VersionRange, req_parse_ok};

verus! {

pub struct Config {
    pub girs_dir: String,
    pub library_name: String,
    pub target_path: String,
    pub allowed_deprecated_version: VersionRange,
}

impl Config {
    /// Builds the run configuration. The version-range expression is the
    /// one fatal input: an unparseable range yields `Err` with the
    /// offending text, and the host aborts the run.
    pub fn new(
        girs_dir: String,
        library_name: String,
        target_path: String,
        allowed_deprecated_version: &str,
    ) -> (r: Result<Config, String>)
        ensures
            r is Ok <==> req_parse_ok(allowed_deprecated_version@),
            r matches Ok(c) ==> {
                &&& c.girs_dir@ == girs_dir@
                &&& c.library_name@ == library_name@
                &&& c.target_path@ == target_path@
                &&& c.allowed_deprecated_version.src() == allowed_deprecated_version@
            },
            r matches Err(e) ==> e@ == allowed_deprecated_version@,
    {
        match VersionRange::parse(allowed_deprecated_version) {
            Some(range) => Ok(
                Config {
                    girs_dir,
                    library_name,
                    target_path,
                    allowed_deprecated_version: range,
                },
            ),
            None => Err(allowed_deprecated_version.to_owned()),
        }
    }
}

} // verus!
