//! Report generation, as far as it is decided here: the closed set of
//! generators, their fixed order, and where the machine-readable report
//! lands. Writing the files themselves is the caller's work.

use vstd::prelude::*;

use crate::config::Config;
use crate::paths::{path_join, spec_path_join};
use crate::results::Results;

verus! {

/// The closed set of report generators. The dispatcher runs them in this
/// order, and one generator's failure never stops another.
#[derive(Clone, Copy, PartialEq, Eq, Structural, Debug)]
pub enum GeneratorKind {
    /// Serializes the results view verbatim to a structured file.
    MachineReadable,
    /// Renders the results view through the configured template.
    HumanReadable,
}

/// The machine-readable report generator.
pub struct Json;

impl Json {
    /// Creates a new machine-readable report generator.
    pub fn new() -> (r: Json) {
        Json
    }

    /// The file the machine-readable report is written to: `results.json`
    /// in the package's report directory.
    pub fn output_file(&self, config: &Config, results: &Results) -> (r: String)
        ensures
            r@ == spec_path_join(
                spec_path_join(config.results_folder@, results.app_package@),
                "results.json"@,
            ),
    {
        let dir = path_join(config.get_results_folder(), results.get_app_package());
        path_join(dir.as_str(), "results.json")
    }
}

} // verus!
