use gh_workflow::generate::Generate;
use gh_workflow::permissions::Level;
use gh_workflow::release_plz::Command;
use gh_workflow::standard::StandardWorkflow;
use gh_workflow::standard::TestRunner;
use gh_workflow::step::Run;
use gh_workflow::step::Step;
use gh_workflow::step::StepValue;
use gh_workflow::value::Value;

fn runs(steps: &[StepValue]) -> Vec<String> {
    steps
        .iter()
        .map(|s| s.run.clone().or(s.uses.clone()).unwrap())
        .collect()
}

#[test]
fn the_default_settings() {
    let standard = StandardWorkflow::default();
    assert_eq!(standard.name, "ci");
    assert!(!standard.auto_release);
    assert!(!standard.benchmarks);
    assert!(!standard.auto_fix);
    assert_eq!(standard.setup.len(), 0);
    assert_eq!(standard.test_runner, TestRunner::Nextest);
}

#[test]
fn set_up_steps_run_from_the_last_to_the_first_before_the_checkout() {
    let standard = StandardWorkflow::default()
        .add_setup(Step::<Run>::run("first"))
        .add_setup(Step::<Run>::run("second"));
    let job = standard.init_job("Any");
    assert_eq!(job.name, Some("Any".to_string()));
    assert_eq!(job.permissions.as_ref().unwrap().contents, Some(Level::Read));
    assert_eq!(job.permissions.as_ref().unwrap().packages, None);
    assert_eq!(
        runs(job.steps.as_ref().unwrap()),
        vec!["second", "first", "actions/checkout@v5"]
    );
}

#[test]
fn the_test_job_follows_the_runner() {
    let nextest = StandardWorkflow::default().test_job();
    assert_eq!(nextest.name, Some("Build and Test".to_string()));
    assert_eq!(
        runs(nextest.steps.as_ref().unwrap()),
        vec![
            "actions/checkout@v5",
            "actions-rust-lang/setup-rust-toolchain@v1",
            "cargo install cargo-nextest --locked",
            "Swatinem/rust-cache@v2",
            "cargo nextest run --all-features --workspace",
        ]
    );
    let cargo = StandardWorkflow::default()
        .test_runner(TestRunner::Cargo)
        .benchmarks(true)
        .test_job();
    assert_eq!(
        runs(cargo.steps.as_ref().unwrap()),
        vec![
            "actions/checkout@v5",
            "actions-rust-lang/setup-rust-toolchain@v1",
            "Swatinem/rust-cache@v2",
            "cargo test --all-features --workspace",
            "cargo bench --workspace",
        ]
    );
    let cache = &cargo.steps.as_ref().unwrap()[2];
    assert_eq!(
        cache.with.as_ref().unwrap().0.get("cache-all-crates"),
        Some(&Value::String("true".to_string()))
    );
    assert_eq!(cache.name, Some("Cache Rust dependencies".to_string()));
}

#[test]
fn the_lint_job_checks_or_fixes() {
    let check = StandardWorkflow::default().lint_job(false);
    assert_eq!(check.name, Some("Lint".to_string()));
    assert_eq!(check.concurrency, None);
    assert_eq!(
        runs(check.steps.as_ref().unwrap()),
        vec![
            "actions/checkout@v5",
            "actions-rust-lang/setup-rust-toolchain@v1",
            "cargo +nightly fmt --all --check",
            "cargo +nightly clippy --all-features --workspace -- -D warnings",
        ]
    );
    let toolchain = check.steps.as_ref().unwrap()[1].with.as_ref().unwrap();
    assert_eq!(
        toolchain.0.get("cache-directories"),
        Some(&Value::String("\n~/.cargo/registry\n~/.cargo/git\ntarget".to_string()))
    );
    assert_eq!(toolchain.0.get("components"), Some(&Value::String("clippy, rustfmt".to_string())));

    let fix = StandardWorkflow::default().lint_job(true);
    assert_eq!(fix.name, Some("Lint Fix".to_string()));
    let concurrency = fix.concurrency.as_ref().unwrap();
    assert_eq!(concurrency.group, "autofix-${{github.ref}}");
    assert_eq!(concurrency.cancel_in_progress, Some(false));
    assert_eq!(
        runs(fix.steps.as_ref().unwrap()),
        vec![
            "actions/checkout@v5",
            "actions-rust-lang/setup-rust-toolchain@v1",
            "cargo +nightly fmt --all",
            "cargo +nightly clippy --fix --allow-dirty --all-features --workspace -- -D warnings",
            "autofix-ci/action@v1",
        ]
    );
}

#[test]
fn the_release_job_runs_on_a_push_to_main() {
    let standard = StandardWorkflow::default();
    let release = standard.release_job(Command::Release);
    assert_eq!(release.name, Some("Release".to_string()));
    assert_eq!(
        release.cond.as_ref().unwrap().0,
        "${{ github.ref == 'refs/heads/main' && github.event_name == 'push' }}"
    );
    assert_eq!(release.needs, Some(vec!["build".to_string(), "lint".to_string()]));
    let env: Vec<&String> = release.env.as_ref().unwrap().0.keys().collect();
    assert_eq!(env, vec!["GITHUB_TOKEN", "CARGO_REGISTRY_TOKEN"]);
    let permissions = release.permissions.as_ref().unwrap();
    assert_eq!(permissions.contents, Some(Level::Write));
    assert_eq!(permissions.packages, Some(Level::Write));
    assert_eq!(permissions.pull_requests, Some(Level::Write));
    assert_eq!(release.concurrency.as_ref().unwrap().group, "release-${{github.ref}}");
    let steps = release.steps.as_ref().unwrap();
    assert_eq!(runs(steps), vec!["actions/checkout@v5", "MarcoIeni/release-plz-action@v0.5"]);
    assert_eq!(
        steps[1].with.as_ref().unwrap().0.get("command"),
        Some(&Value::String("release".to_string()))
    );
    let pr = standard.release_job(Command::ReleasePR);
    assert_eq!(pr.name, Some("Release Pr".to_string()));
}

#[test]
fn the_workflows_hold_the_jobs_that_the_flags_ask_for() {
    let plain = StandardWorkflow::default().to_ci_workflow();
    assert_eq!(plain.name, Some("ci".to_string()));
    let keys: Vec<&String> = plain.jobs.as_ref().unwrap().0.keys().collect();
    assert_eq!(keys, vec!["build", "lint"]);
    assert_eq!(
        plain.envs.as_ref().unwrap().0.get("RUSTFLAGS"),
        Some(&Value::String("-Dwarnings".to_string()))
    );
    let on = plain.on.as_ref().unwrap();
    assert_eq!(on.push.as_ref().unwrap().branches, vec!["main".to_string()]);
    assert_eq!(on.push.as_ref().unwrap().tags, vec!["v*".to_string()]);
    assert_eq!(on.pull_request.as_ref().unwrap().types.len(), 3);
    assert_eq!(on.release, None);

    let released = StandardWorkflow::default()
        .auto_release(true)
        .name("main".to_string())
        .to_ci_workflow();
    assert_eq!(released.name, Some("main".to_string()));
    let keys: Vec<&String> = released.jobs.as_ref().unwrap().0.keys().collect();
    assert_eq!(keys, vec!["build", "lint", "release", "release-pr"]);

    let autofix = StandardWorkflow::default().to_autofix_workflow();
    assert_eq!(autofix.name, Some("autofix.ci".to_string()));
    let keys: Vec<&String> = autofix.jobs.as_ref().unwrap().0.keys().collect();
    assert_eq!(keys, vec!["lint"]);

    let organized = Generate::new(released).workflow;
    let keys: Vec<&String> = organized.jobs.as_ref().unwrap().0.keys().collect();
    assert_eq!(keys, vec!["build", "lint", "release", "release-pr"]);
}
