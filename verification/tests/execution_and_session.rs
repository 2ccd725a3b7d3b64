use cargo_tools::cargo_bench::CargoBench;
use cargo_tools::cargo_test::CargoTest;
use cargo_tools::report::ExecutionReport;
use cargo_tools::session::{Session, ToolError};

#[test]
fn zero_exit_is_success_whatever_the_output_says() {
    let r = ExecutionReport::classify_exit(
        0,
        "error: this word proves nothing\n".to_string(),
        "cargo test".to_string(),
    );
    assert!(matches!(r, ExecutionReport::Success { .. }));
    assert_eq!(r.render(), "error: this word proves nothing\n".to_string());
}

#[test]
fn nonzero_exit_is_labeled_failure() {
    let r = ExecutionReport::classify_exit(
        101,
        "test tests::sum ... FAILED\n".to_string(),
        "cargo test".to_string(),
    );
    match &r {
        ExecutionReport::Failure { label, output } => {
            assert_eq!(label, "cargo test");
            assert_eq!(output, "test tests::sum ... FAILED\n");
        }
        ExecutionReport::Success { .. } => panic!("nonzero exit classified as success"),
    }
    assert_eq!(
        r.render(),
        "cargo test failed\ntest tests::sum ... FAILED\n".to_string()
    );
}

#[test]
fn negative_exit_is_failure_too() {
    let r = ExecutionReport::classify_exit(-1, String::new(), "cargo bench".to_string());
    assert!(matches!(r, ExecutionReport::Failure { .. }));
}

#[test]
fn no_project_configured_fails_before_anything_else() {
    let session = Session { project_path: None, default_toolchain: Some("stable".to_string()) };
    let mut req = CargoTest::default();
    req.quiet = Some(true);
    let e = req.prepare(&session).unwrap_err();
    assert!(matches!(e, ToolError::NoProjectConfigured));

    let e = CargoBench {
        package: None,
        bench_name: None,
        baseline: None,
        quiet: None,
        toolchain: None,
        cargo_env: None,
    }
    .prepare(&session)
    .unwrap_err();
    assert!(matches!(e, ToolError::NoProjectConfigured));
}

#[test]
fn error_messages_name_the_fault() {
    assert_eq!(
        ToolError::NoProjectConfigured.message(),
        "no project configured for this session".to_string()
    );
    let launch = ToolError::LaunchFailure {
        label: "cargo test".to_string(),
        detail: "No such file or directory".to_string(),
    };
    assert_eq!(
        launch.message(),
        "failed to launch cargo test: No such file or directory".to_string()
    );
}

#[test]
fn resolve_project_hands_back_the_configured_path() {
    let session = Session {
        project_path: Some("/work/proj".to_string()),
        default_toolchain: None,
    };
    assert_eq!(session.resolve_project().unwrap(), "/work/proj".to_string());
}

#[test]
fn test_examples_cover_each_field() {
    let examples = CargoTest::examples();
    assert_eq!(examples.len(), 6);
    assert_eq!(examples[0].description, "Run all tests in current project".to_string());
    assert!(examples[0].item.package.is_none());
    assert_eq!(examples[1].item.package, Some("my-lib".to_string()));
    assert_eq!(examples[2].item.test_name, Some("test_addition".to_string()));
    assert_eq!(examples[3].item.no_capture, Some(true));
    assert_eq!(
        examples[4].item.cargo_env,
        Some(vec![
            ("RUST_LOG".to_string(), "debug".to_string()),
            ("TEST_ENV".to_string(), "true".to_string()),
        ])
    );
    assert_eq!(examples[5].item.quiet, Some(true));
}

#[test]
fn bench_examples_cover_each_field() {
    let examples = CargoBench::examples();
    assert_eq!(examples.len(), 5);
    assert_eq!(examples[0].description, "Run all benchmarks".to_string());
    assert_eq!(examples[1].item.bench_name, Some("my_benchmark".to_string()));
    assert_eq!(examples[2].item.package, Some("my-lib".to_string()));
    assert_eq!(examples[3].item.baseline, Some("main".to_string()));
    assert_eq!(examples[4].item.quiet, Some(true));
}
