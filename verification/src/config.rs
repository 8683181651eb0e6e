//! Run configuration: the command-line shape and the rule that decides
//! where the configuration comes from. Reading and parsing a configuration
//! file belongs to the caller; the decision is made here.

use vstd::prelude::*;

verus! {

/// The command-line arguments: an optional configuration-file path, the
/// two directory paths, and the mock-output switch.
pub struct Cli {
    pub config: Option<String>,
    pub input_path: Option<String>,
    pub output_path: Option<String>,
    pub mock_api: bool,
}

/// The resolved run configuration.
pub struct Config {
    pub input_path: String,
    pub output_path: String,
}

/// Where the configuration comes from: a file to read and parse, the two
/// paths given directly, or nowhere — the arguments are insufficient.
pub enum ConfigSource {
    File(String),
    Args(Config),
    Missing,
}

/// Decides how the configuration is obtained: a configuration-file path
/// wins; otherwise both directory paths must be present; otherwise nothing
/// can be loaded.
pub fn plan_config(cli: &Cli) -> (r: ConfigSource)
    ensures
        cli.config is Some ==> r == ConfigSource::File(cli.config->0),
        cli.config is None && cli.input_path is Some && cli.output_path is Some ==> r
            == ConfigSource::Args(
            Config { input_path: cli.input_path->0, output_path: cli.output_path->0 },
        ),
        cli.config is None && (cli.input_path is None || cli.output_path is None) ==> r
            == ConfigSource::Missing,
{
    match &cli.config {
        Some(p) => ConfigSource::File(p.clone()),
        None => match (&cli.input_path, &cli.output_path) {
            (Some(input), Some(output)) => ConfigSource::Args(
                Config { input_path: input.clone(), output_path: output.clone() },
            ),
            _ => ConfigSource::Missing,
        },
    }
}

} // verus!
