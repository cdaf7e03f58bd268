use vstd::prelude::*;

verus! {

/// The command-line options the tool is run with.
#[derive(Debug, Clone, PartialEq, Eq)]
pub struct Cli {
    /// Also write the normalised endpoints as JSON.
    pub convert_config: bool,
    /// Where the JSON rendering goes.
    pub converted_config_path: String,
    /// Overrides the configured directory prefix.
    pub file_path_prefix: Option<String>,
    /// Overrides the configured base URI.
    pub base_uri: Option<String>,
    /// The configuration file.
    pub config: String,
    /// How often the verbosity flag was given.
    pub verbose: u8,
}

} // verus!
