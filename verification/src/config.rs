use vstd::prelude::*;

verus! {

/// The settings the service reads at start-up.
#[derive(Debug, Clone)]
pub struct ConfigurationData {
    pub trace_level: String,
    pub enable_tracing: bool,
    pub discord: String,
    pub assets_directory: String,
    pub output_directory: String,
}

} // verus!
