//! The `cargo bench` tool: its request model and its command assembly.

use crate::command::{
    env_views_of, filter_segment, lemma_views_of_push, package_segment, quiet_segment,
    spec_env_overlay, views_of, ResolvedCommand,
};
use crate::examples::Example;
use crate::session::{Session, ToolError};
use vstd::prelude::*;
use vstd::string::StringExecFns;

verus! {

/// Request to run `cargo bench`. Absence of a field means "omit the flag";
/// it is distinguishable from a false or empty value.
pub struct CargoBench {
    /// Optional package name to benchmark (for workspaces).
    pub package: Option<String>,
    /// Optional specific benchmark name to run, matched by the harness
    /// itself.
    pub bench_name: Option<String>,
    /// Optional baseline name: the harness saves this run under it for later
    /// comparison.
    pub baseline: Option<String>,
    /// Display one character per benchmark instead of one line, producing
    /// compact output with a result summary.
    pub quiet: Option<bool>,
    /// Optional toolchain to use (e.g. `stable`, `nightly`, `1.70.0`).
    pub toolchain: Option<String>,
    /// Optional environment variables to set for the spawned command.
    pub cargo_env: Option<Vec<(String, String)>>,
}

/// The mathematical image of a bench request: every string as its character
/// sequence.
pub struct CargoBenchView {
    pub package: Option<Seq<char>>,
    pub bench_name: Option<Seq<char>>,
    pub baseline: Option<Seq<char>>,
    pub quiet: Option<bool>,
    pub toolchain: Option<Seq<char>>,
    pub cargo_env: Option<Seq<(Seq<char>, Seq<char>)>>,
}

impl View for CargoBench {
    type V = CargoBenchView;

    open spec fn view(&self) -> CargoBenchView {
        CargoBenchView {
            package: match self.package {
                Some(p) => Some(p@),
                None => None,
            },
            bench_name: match self.bench_name {
                Some(n) => Some(n@),
                None => None,
            },
            baseline: match self.baseline {
                Some(b) => Some(b@),
                None => None,
            },
            quiet: self.quiet,
            toolchain: match self.toolchain {
                Some(t) => Some(t@),
                None => None,
            },
            cargo_env: match self.cargo_env {
                Some(e) => Some(env_views_of(e@)),
                None => None,
            },
        }
    }
}

/// The trailing pass-through group of a bench run: a single double-dash
/// separator followed by `--save-baseline` and the baseline name, emitted
/// only when a baseline was requested; everything after the separator goes
/// to the harness verbatim.
pub open spec fn bench_passthrough_segment(baseline: Option<Seq<char>>) -> Seq<Seq<char>> {
    match baseline {
        Some(b) => seq!["--"@, "--save-baseline"@, b],
        None => Seq::<Seq<char>>::empty(),
    }
}

/// The argument vector of a bench request, token for token: the subcommand,
/// then the compact-output flag, then the package pair, then the name
/// filter, then the pass-through group, each present exactly when the
/// request asks for it.
pub open spec fn spec_bench_argv(v: CargoBenchView) -> Seq<Seq<char>> {
    seq!["bench"@] + quiet_segment(v.quiet) + package_segment(v.package) + filter_segment(
        v.bench_name,
    ) + bench_passthrough_segment(v.baseline)
}

/// The image of the empty bench request: every optional field absent.
pub open spec fn empty_bench_request() -> CargoBenchView {
    CargoBenchView {
        package: None,
        bench_name: None,
        baseline: None,
        quiet: None,
        toolchain: None,
        cargo_env: None,
    }
}

impl CargoBench {
    /// Assembles the argument vector and environment overlay for this
    /// request, attaching the already-resolved toolchain. Pure: the result is
    /// determined, token for token, by the request and the toolchain.
    pub fn build_command(self, toolchain: Option<String>) -> (cmd: ResolvedCommand)
        ensures
            views_of(cmd.argv@) == spec_bench_argv(self@),
            env_views_of(cmd.env@) == spec_env_overlay(self@.cargo_env),
            cmd.toolchain == toolchain,
    {
        broadcast use lemma_views_of_push;

        let ghost v = self@;
        let mut argv: Vec<String> = Vec::new();
        argv.push(String::from_str("bench"));
        let quiet_on = match self.quiet {
            Some(b) => b,
            None => false,
        };
        if quiet_on {
            argv.push(String::from_str("--quiet"));
        }
        if let Some(package) = self.package {
            argv.push(String::from_str("--package"));
            argv.push(package);
        }
        if let Some(bench_name) = self.bench_name {
            argv.push(bench_name);
        }
        if let Some(baseline) = self.baseline {
            argv.push(String::from_str("--"));
            argv.push(String::from_str("--save-baseline"));
            argv.push(baseline);
        }
        let env: Vec<(String, String)> = match self.cargo_env {
            Some(e) => e,
            None => Vec::new(),
        };
        proof {
            assert(views_of(argv@) =~= spec_bench_argv(v));
            assert(env_views_of(env@) =~= spec_env_overlay(v.cargo_env));
        }
        ResolvedCommand { toolchain, argv, env }
    }

    /// The whole verified half of running the tool: resolves the project
    /// directory and the toolchain against the session, then assembles the
    /// command. Fails with `NoProjectConfigured`, before anything else, when
    /// the session has no project; never fails otherwise.
    pub fn prepare(self, session: &Session) -> (r: Result<(String, ResolvedCommand), ToolError>)
        ensures
            r is Ok <==> session.project_path is Some,
            r matches Ok(pc) ==> {
                &&& session.project_path matches Some(p) && pc.0 == p
                &&& views_of(pc.1.argv@) == spec_bench_argv(self@)
                &&& env_views_of(pc.1.env@) == spec_env_overlay(self@.cargo_env)
                &&& pc.1.toolchain == (if self.toolchain is Some {
                    self.toolchain
                } else {
                    session.default_toolchain
                })
            },
            r matches Err(e) ==> e is NoProjectConfigured,
    {
        let project = match session.resolve_project() {
            Ok(p) => p,
            Err(e) => {
                return Err(e);
            },
        };
        let explicit = match &self.toolchain {
            Some(t) => Some(t.clone()),
            None => None,
        };
        let toolchain = session.resolve_toolchain(explicit);
        let cmd = self.build_command(toolchain);
        Ok((project, cmd))
    }

    /// Worked example requests, attached to the tool's caller-facing
    /// documentation; static data, never executed.
    pub fn examples() -> (r: Vec<Example<CargoBench>>)
        ensures
            r@.len() == 5,
            r@[0].description@ == "Run all benchmarks"@,
            r@[0].item@ == empty_bench_request(),
            r@[1].description@ == "Run a specific benchmark"@,
            r@[1].item@ == (CargoBenchView {
                bench_name: Some("my_benchmark"@),
                ..empty_bench_request()
            }),
            r@[2].description@ == "Run benchmarks for a specific package"@,
            r@[2].item@ == (CargoBenchView { package: Some("my-lib"@), ..empty_bench_request() }),
            r@[3].description@ == "Run benchmarks with a baseline for comparison"@,
            r@[3].item@ == (CargoBenchView { baseline: Some("main"@), ..empty_bench_request() }),
            r@[4].description@ == "Run all benchmarks with compact output"@,
            r@[4].item@ == (CargoBenchView { quiet: Some(true), ..empty_bench_request() }),
    {
        let mut r: Vec<Example<CargoBench>> = Vec::new();
        r.push(
            Example {
                description: String::from_str("Run all benchmarks"),
                item: CargoBench::empty(),
            },
        );
        let mut with_name = CargoBench::empty();
        with_name.bench_name = Some(String::from_str("my_benchmark"));
        r.push(
            Example { description: String::from_str("Run a specific benchmark"), item: with_name },
        );
        let mut with_package = CargoBench::empty();
        with_package.package = Some(String::from_str("my-lib"));
        r.push(
            Example {
                description: String::from_str("Run benchmarks for a specific package"),
                item: with_package,
            },
        );
        let mut with_baseline = CargoBench::empty();
        with_baseline.baseline = Some(String::from_str("main"));
        r.push(
            Example {
                description: String::from_str("Run benchmarks with a baseline for comparison"),
                item: with_baseline,
            },
        );
        let mut with_quiet = CargoBench::empty();
        with_quiet.quiet = Some(true);
        r.push(
            Example {
                description: String::from_str("Run all benchmarks with compact output"),
                item: with_quiet,
            },
        );
        r
    }

    /// The empty request: every optional field absent.
    pub fn empty() -> (r: Self)
        ensures
            r@ == empty_bench_request(),
    {
        CargoBench {
            package: None,
            bench_name: None,
            baseline: None,
            quiet: None,
            toolchain: None,
            cargo_env: None,
        }
    }
}

} // verus!
