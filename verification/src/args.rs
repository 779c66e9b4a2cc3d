//! Plain argument records for the tool's commands, and the pure decisions
//! made on them. Command-line parsing, prompting and process invocation
//! stay outside this crate; they fill these records and act on the
//! decisions.

use vstd::prelude::*;
use vstd::string::*;
use crate::text;

verus! {

/// Arguments of the command that starts the development server.
pub struct DevArgs {
    /// Port to use for the development server.
    pub port: u16,
    /// Project directory, if given.
    pub dir: Option<String>,
    /// Open the project in the browser.
    pub open: bool,
    /// Use the beta toolchain for building and testing.
    pub beta: bool,
}

/// Arguments of the command that creates a new project.
pub struct NewArgs {
    /// Name of the project.
    pub name: String,
    /// Template to use, if given.
    pub template: Option<String>,
    /// Output directory, if given.
    pub output_dir: Option<String>,
}

/// Arguments of the command that configures the renderer.
pub struct RendererArgs {
    /// Requested renderer configuration.
    pub config: String,
    /// Project directory, if given.
    pub dir: Option<String>,
}

/// One configuration sub-command.
pub enum ConfigCommand {
    /// Show the current configuration.
    Show { dir: Option<String> },
    /// Create a default configuration file.
    Init { dir: Option<String> },
    /// Validate the configuration.
    Validate { dir: Option<String> },
}

/// Arguments of the configuration command.
pub struct ConfigArgs {
    /// The selected sub-command.
    pub command: ConfigCommand,
}

/// One maintenance sub-command.
pub enum MaintenanceAction {
    /// Clean up stale HMR updates older than the given age in seconds.
    Cleanup { max_age: u64 },
    /// Clear all pending HMR updates.
    Clear,
    /// Show maintenance status.
    Status,
}

/// Arguments of the maintenance command.
pub struct MaintenanceArgs {
    /// Project directory, if given.
    pub project_dir: Option<String>,
    /// The selected action.
    pub action: MaintenanceAction,
}

/// Arguments of the test command.
pub struct TestCommand {
    /// Re-run the tests when files change.
    pub watch: bool,
    /// Run only unit tests.
    pub unit: bool,
    /// Run only integration tests.
    pub integration: bool,
    /// Run performance tests.
    pub performance: bool,
    /// Generate coverage information.
    pub coverage: bool,
    /// Generate and display a coverage report.
    pub report: bool,
    /// Update snapshots instead of failing on mismatch.
    pub update_snapshots: bool,
    /// Show detailed test output.
    pub verbose: bool,
    /// Project directory, if given.
    pub project_dir: Option<String>,
}

/// The test-runner arguments chosen for the given flags: always `test`;
/// `--verbose` when requested; `--lib` when only unit tests run and
/// `--test` when only integration tests run.
pub open spec fn spec_cargo_test_args(verbose: bool, unit: bool, integration: bool) -> Seq<
    Seq<char>,
> {
    seq!["test"@] + (if verbose {
        seq!["--verbose"@]
    } else {
        Seq::empty()
    }) + (if unit && !integration {
        seq!["--lib"@]
    } else if integration && !unit {
        seq!["--test"@]
    } else {
        Seq::empty()
    })
}

impl TestCommand {
    /// The arguments handed to the test runner.
    pub fn cargo_test_args(&self) -> (r: Vec<String>)
        ensures
            crate::path_map::seq_views(r@) == spec_cargo_test_args(
                self.verbose,
                self.unit,
                self.integration,
            ),
    {
        let mut args: Vec<String> = Vec::new();
        args.push(text::to_string("test"));
        if self.verbose {
            args.push(text::to_string("--verbose"));
        }
        if self.unit && !self.integration {
            args.push(text::to_string("--lib"));
        } else if self.integration && !self.unit {
            args.push(text::to_string("--test"));
        }
        proof {
            assert(crate::path_map::seq_views(args@) =~= spec_cargo_test_args(
                self.verbose,
                self.unit,
                self.integration,
            ));
        }
        args
    }
}

/// Normalize a renderer name: `skia`, `wgpu` and `auto` are accepted in any
/// ASCII letter case; anything else is rejected.
pub fn normalize_renderer(config: &str) -> (r: Option<&'static str>)
    ensures
        text::str_ci_eq(config@, "skia"@) ==> (r matches Some(v) && v@ == "skia"@),
        text::str_ci_eq(config@, "wgpu"@) ==> (r matches Some(v) && v@ == "wgpu"@),
        text::str_ci_eq(config@, "auto"@) ==> (r matches Some(v) && v@ == "auto"@),
        !text::str_ci_eq(config@, "skia"@) && !text::str_ci_eq(config@, "wgpu"@)
            && !text::str_ci_eq(config@, "auto"@) ==> r is None,
{
    proof {
        reveal_strlit("skia");
        reveal_strlit("wgpu");
        reveal_strlit("auto");
    }
    if text::str_eq_ci(config, "skia") {
        Some("skia")
    } else if text::str_eq_ci(config, "wgpu") {
        Some("wgpu")
    } else if text::str_eq_ci(config, "auto") {
        Some("auto")
    } else {
        None
    }
}

/// Apply command-line overrides to a loaded configuration the way the
/// development command does: a port other than the command's default 8000
/// overrides the configured port, and the beta flag forces the beta
/// toolchain.
pub fn apply_dev_overrides(config: &mut crate::config::OrbitonConfig, port: u16, beta: bool)
    ensures
        final(config).dev_server.port == if port != 8000 {
            port
        } else {
            old(config).dev_server.port
        },
        final(config).build.use_beta_toolchain == (old(config).build.use_beta_toolchain
            || beta),
        final(config).project == old(config).project,
        final(config).dev_server.host == old(config).dev_server.host,
        final(config).dev_server.auto_open == old(config).dev_server.auto_open,
        final(config).dev_server.static_dirs == old(config).dev_server.static_dirs,
        final(config).dev_server.headers == old(config).dev_server.headers,
        final(config).hmr == old(config).hmr,
        final(config).build.release == old(config).build.release,
        final(config).build.target == old(config).build.target,
        final(config).build.features == old(config).build.features,
        final(config).build.opt_level == old(config).build.opt_level,
        final(config).lint == old(config).lint,
{
    if port != 8000 {
        config.dev_server.port = port;
    }
    if beta {
        config.build.use_beta_toolchain = true;
    }
}

} // verus!
