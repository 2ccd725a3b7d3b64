//! The general laws of command assembly, proved once for every request.
//!
//! Each law is stated over the request images and the argument-vector
//! specifications that the builders' own contracts use, so it carries over to
//! every command the builders ever produce.

use crate::cargo_bench::{spec_bench_argv, CargoBenchView};
use crate::cargo_test::{spec_test_argv, CargoTestView};
use crate::command::spec_env_overlay;
use vstd::prelude::*;

verus! {

/// With every optional field absent, a test request builds exactly the
/// one-token vector `["test"]` and an empty environment overlay.
pub proof fn lemma_test_empty_request(v: CargoTestView)
    requires
        v.quiet is None,
        v.package is None,
        v.test_name is None,
        v.no_capture is None,
        v.cargo_env is None,
    ensures
        spec_test_argv(v) == seq!["test"@],
        spec_env_overlay(v.cargo_env) == Seq::<(Seq<char>, Seq<char>)>::empty(),
{
    assert(spec_test_argv(v) =~= seq!["test"@]);
}

/// With every optional field absent, a bench request builds exactly the
/// one-token vector `["bench"]` and an empty environment overlay.
pub proof fn lemma_bench_empty_request(v: CargoBenchView)
    requires
        v.quiet is None,
        v.package is None,
        v.bench_name is None,
        v.baseline is None,
        v.cargo_env is None,
    ensures
        spec_bench_argv(v) == seq!["bench"@],
        spec_env_overlay(v.cargo_env) == Seq::<(Seq<char>, Seq<char>)>::empty(),
{
    assert(spec_bench_argv(v) =~= seq!["bench"@]);
}

/// Setting the compact-output flag inserts exactly one `--quiet` token,
/// immediately after the subcommand token, and changes nothing else: the
/// argument vector of a quiet test request is the vector of the same request
/// without the flag, with `--quiet` inserted at index 1.
pub proof fn lemma_test_quiet_single_insertion(q: CargoTestView, p: CargoTestView)
    requires
        q.quiet == Some(true),
        p.quiet is None,
        p.package == q.package,
        p.test_name == q.test_name,
        p.no_capture == q.no_capture,
    ensures
        spec_test_argv(q) == spec_test_argv(p).insert(1, "--quiet"@),
{
    assert(spec_test_argv(q) =~= spec_test_argv(p).insert(1, "--quiet"@));
}

/// The bench counterpart of `lemma_test_quiet_single_insertion`.
pub proof fn lemma_bench_quiet_single_insertion(q: CargoBenchView, p: CargoBenchView)
    requires
        q.quiet == Some(true),
        p.quiet is None,
        p.package == q.package,
        p.bench_name == q.bench_name,
        p.baseline == q.baseline,
    ensures
        spec_bench_argv(q) == spec_bench_argv(p).insert(1, "--quiet"@),
{
    assert(spec_bench_argv(q) =~= spec_bench_argv(p).insert(1, "--quiet"@));
}

/// Setting a package name inserts exactly the two-token pair
/// `["--package", name]`, after the compact-output flag when that is present
/// and before any name filter, and changes nothing else.
pub proof fn lemma_test_package_pair_position(q: CargoTestView, p: CargoTestView, name: Seq<char>)
    requires
        q.package == Some(name),
        p.package is None,
        p.quiet == q.quiet,
        p.test_name == q.test_name,
        p.no_capture == q.no_capture,
    ensures
        ({
            let k: int = if q.quiet == Some(true) {
                2
            } else {
                1
            };
            spec_test_argv(q) == spec_test_argv(p).insert(k, name).insert(k, "--package"@)
        }),
{
    let k: int = if q.quiet == Some(true) {
        2
    } else {
        1
    };
    assert(spec_test_argv(q) =~= spec_test_argv(p).insert(k, name).insert(k, "--package"@));
}

/// The bench counterpart of `lemma_test_package_pair_position`.
pub proof fn lemma_bench_package_pair_position(
    q: CargoBenchView,
    p: CargoBenchView,
    name: Seq<char>,
)
    requires
        q.package == Some(name),
        p.package is None,
        p.quiet == q.quiet,
        p.bench_name == q.bench_name,
        p.baseline == q.baseline,
    ensures
        ({
            let k: int = if q.quiet == Some(true) {
                2
            } else {
                1
            };
            spec_bench_argv(q) == spec_bench_argv(p).insert(k, name).insert(k, "--package"@)
        }),
{
    let k: int = if q.quiet == Some(true) {
        2
    } else {
        1
    };
    assert(spec_bench_argv(q) =~= spec_bench_argv(p).insert(k, name).insert(k, "--package"@));
}

/// Switching capture off appends exactly one pass-through group — a single
/// double-dash separator followed by `--nocapture` — at the very end of the
/// argument vector; provided no user-chosen token is itself the literal
/// separator, that separator stands at exactly one index.
pub proof fn lemma_test_single_separator(q: CargoTestView, p: CargoTestView)
    requires
        q.no_capture == Some(true),
        p.no_capture is None,
        p.quiet == q.quiet,
        p.package == q.package,
        p.test_name == q.test_name,
        q.package matches Some(x) ==> x != "--"@,
        q.test_name matches Some(x) ==> x != "--"@,
    ensures
        spec_test_argv(q) == spec_test_argv(p) + seq!["--"@, "--nocapture"@],
        ({
            let argv = spec_test_argv(q);
            let k = argv.len() - 2;
            &&& argv[k] == "--"@
            &&& forall|j: int| 0 <= j < argv.len() && j != k ==> argv[j] != "--"@
        }),
{
    reveal_strlit("--");
    reveal_strlit("test");
    reveal_strlit("--quiet");
    reveal_strlit("--package");
    reveal_strlit("--nocapture");
    assert(spec_test_argv(q) =~= spec_test_argv(p) + seq!["--"@, "--nocapture"@]);
    assert("--"@.len() == 2);
    assert("test"@ != "--"@) by {
        assert("test"@.len() == 4);
    }
    assert("--quiet"@ != "--"@) by {
        assert("--quiet"@.len() == 7);
    }
    assert("--package"@ != "--"@) by {
        assert("--package"@.len() == 9);
    }
    assert("--nocapture"@ != "--"@) by {
        assert("--nocapture"@.len() == 11);
    }
}

/// The bench counterpart of `lemma_test_single_separator`: requesting a
/// baseline appends exactly one pass-through group — a single double-dash
/// separator followed by `--save-baseline` and the baseline name — at the
/// very end of the argument vector.
pub proof fn lemma_bench_single_separator(q: CargoBenchView, p: CargoBenchView, base: Seq<char>)
    requires
        q.baseline == Some(base),
        p.baseline is None,
        p.quiet == q.quiet,
        p.package == q.package,
        p.bench_name == q.bench_name,
        q.package matches Some(x) ==> x != "--"@,
        q.bench_name matches Some(x) ==> x != "--"@,
        base != "--"@,
    ensures
        spec_bench_argv(q) == spec_bench_argv(p) + seq!["--"@, "--save-baseline"@, base],
        ({
            let argv = spec_bench_argv(q);
            let k = argv.len() - 3;
            &&& argv[k] == "--"@
            &&& forall|j: int| 0 <= j < argv.len() && j != k ==> argv[j] != "--"@
        }),
{
    reveal_strlit("--");
    reveal_strlit("bench");
    reveal_strlit("--quiet");
    reveal_strlit("--package");
    reveal_strlit("--save-baseline");
    assert(spec_bench_argv(q) =~= spec_bench_argv(p) + seq!["--"@, "--save-baseline"@, base]);
    assert("--"@.len() == 2);
    assert("bench"@ != "--"@) by {
        assert("bench"@.len() == 5);
    }
    assert("--quiet"@ != "--"@) by {
        assert("--quiet"@.len() == 7);
    }
    assert("--package"@ != "--"@) by {
        assert("--package"@.len() == 9);
    }
    assert("--save-baseline"@ != "--"@) by {
        assert("--save-baseline"@.len() == 15);
    }
}

} // verus!
