use gh_workflow::cargo::Cargo;
use gh_workflow::concurrency::Concurrency;
use gh_workflow::container::Container;
use gh_workflow::container::Volume;
use gh_workflow::env::Env;
use gh_workflow::event::Event;
use gh_workflow::event::PullRequest;
use gh_workflow::event::PullRequestTarget;
use gh_workflow::event::PullRequestType;
use gh_workflow::event::Push;
use gh_workflow::event::Schedule;
use gh_workflow::event::WorkflowRun;
use gh_workflow::event::WorkflowRunType;
use gh_workflow::expression::Expression;
use gh_workflow::job::Job;
use gh_workflow::ordered::Outputs;
use gh_workflow::ordered::Secrets;
use gh_workflow::ordered::Services;
use gh_workflow::permissions::Level;
use gh_workflow::permissions::Permissions;
use gh_workflow::release_plz::Backend;
use gh_workflow::release_plz::Command;
use gh_workflow::release_plz::Release;
use gh_workflow::rust_flag::RustFlags;
use gh_workflow::secret::Secret;
use gh_workflow::step::Input;
use gh_workflow::step::Run;
use gh_workflow::step::Step;
use gh_workflow::step::StepValue;
use gh_workflow::step::Use;
use gh_workflow::toolchain::Abi;
use gh_workflow::toolchain::Arch;
use gh_workflow::toolchain::Component;
use gh_workflow::toolchain::System;
use gh_workflow::toolchain::Toolchain;
use gh_workflow::toolchain::Vendor;
use gh_workflow::toolchain::Version;
use gh_workflow::value::Value;
use gh_workflow::workflow::Workflow;
use indexmap::IndexMap;

fn entries(input: &Input) -> Vec<(String, Value)> {
    input.0.iter().map(|(k, v)| (k.clone(), v.clone())).collect()
}

fn text(key: &str, value: &str) -> (String, Value) {
    (key.to_string(), Value::String(value.to_string()))
}

fn flag(key: &str, value: bool) -> (String, Value) {
    (key.to_string(), Value::Bool(value))
}

#[test]
fn volume_needs_exactly_one_colon() {
    let volume = Volume::new("/host/data:/data").unwrap();
    assert_eq!(volume.source, "/host/data");
    assert_eq!(volume.destination, "/data");
    assert_eq!(Volume::new("no-colon"), None);
    assert_eq!(Volume::new("a:b:c"), None);
    assert_eq!(Volume::new(""), None);
    let edge = Volume::new(":").unwrap();
    assert_eq!(edge.source, "");
    assert_eq!(edge.destination, "");
    let unicode = Volume::new("dätä:/ü").unwrap();
    assert_eq!(unicode.source, "dätä");
    assert_eq!(unicode.destination, "/ü");
}

#[test]
fn concurrency_takes_the_group_of_the_expression() {
    let concurrency =
        Concurrency::new(Expression::new("release-${{github.ref}}")).cancel_in_progress(false);
    assert_eq!(concurrency.group, "release-${{github.ref}}");
    assert_eq!(concurrency.cancel_in_progress, Some(false));
    assert_eq!(concurrency.limit, None);
}

#[test]
fn rust_flags_render_with_their_level() {
    assert_eq!(RustFlags::allow("dead_code").to_string(), "-Adead_code");
    assert_eq!(RustFlags::warn("unused").to_string(), "-Wunused");
    assert_eq!(RustFlags::deny("warnings").to_string(), "-Dwarnings");
    assert_eq!(RustFlags::forbid("unsafe_code").to_string(), "-Funsafe_code");
    assert_eq!(RustFlags::codegen("opt-level=3").to_string(), "-Copt-level=3");
    let both = RustFlags::deny("warnings") + RustFlags::allow("dead_code");
    assert_eq!(both.to_string(), "-Dwarnings -Adead_code");
    assert_eq!(both.clone(), both);
    let three = both.combine(RustFlags::codegen("debuginfo=0"));
    assert_eq!(three.to_string(), "-Dwarnings -Adead_code -Cdebuginfo=0");
}

#[test]
fn rust_flags_become_one_variable() {
    let env: Env = RustFlags::deny("warnings").into();
    let all: Vec<(String, Value)> = env.0.iter().map(|(k, v)| (k.clone(), v.clone())).collect();
    assert_eq!(all, vec![text("RUSTFLAGS", "-Dwarnings")]);
}

#[test]
fn env_keeps_the_place_of_a_variable_that_is_set_again() {
    let env = Env::github().add("A", Value::text("1")).add("GITHUB_TOKEN", Value::text("x"));
    let all: Vec<(String, Value)> = env.0.iter().map(|(k, v)| (k.clone(), v.clone())).collect();
    assert_eq!(all, vec![text("GITHUB_TOKEN", "x"), text("A", "1")]);
    let github = Env::github();
    assert_eq!(
        github.0.get("GITHUB_TOKEN"),
        Some(&Value::String("${{ secrets.GITHUB_TOKEN }}".to_string()))
    );
    let merged = Env::new("A", Value::text("1"))
        .extend(Env::from_pair("B", "2").add("A", Value::flag(true)));
    let all: Vec<(String, Value)> = merged.0.iter().map(|(k, v)| (k.clone(), v.clone())).collect();
    assert_eq!(all, vec![flag("A", true), text("B", "2")]);
}

#[test]
fn versions_and_targets_have_names() {
    assert_eq!(Version::Stable.to_string(), "stable");
    assert_eq!(Version::Nightly.to_string(), "nightly");
    assert_eq!(Version::new(1, 82, 0).to_string(), "1.82.0");
    assert_eq!(Version::new(0, 0, 18446744073709551615).to_string(), "0.0.18446744073709551615");
    assert_eq!(Component::Clippy.to_string(), "clippy");
    assert_eq!(Component::Rustfmt.to_string(), "rustfmt");
    assert_eq!(Component::RustDoc.to_string(), "rust-doc");
    assert_eq!(Arch::X86_64.to_string(), "x86_64");
    assert_eq!(Arch::Wasm32.to_string(), "wasm32");
    assert_eq!(Vendor::PC.to_string(), "pc");
    assert_eq!(System::Darwin.to_string(), "darwin");
    assert_eq!(Abi::Musl.to_string(), "musl");
    assert_eq!(Command::ReleasePR.to_string(), "release-pr");
    assert_eq!(Command::Release.to_string(), "release");
    assert_eq!(Backend::GitHub.to_string(), "github");
    assert_eq!(Backend::Gitea.to_string(), "gitea");
}

#[test]
fn toolchain_without_settings_has_no_inputs() {
    let step: Step<Use> = Toolchain::default().into();
    assert_eq!(step.value.name, Some("Setup Rust Toolchain".to_string()));
    assert_eq!(
        step.value.uses,
        Some("actions-rust-lang/setup-rust-toolchain@v1".to_string())
    );
    assert_eq!(step.value.with, None);
    assert_eq!(step.value.run, None);
}

#[test]
fn toolchain_inputs_come_in_order() {
    let toolchain = Toolchain::default()
        .add_stable()
        .add_nightly()
        .add_version(Version::new(1, 70, 1))
        .add_clippy()
        .add_fmt()
        .add_component(Component::RustDoc)
        .target(Arch::X86_64, Vendor::Unknown, System::Linux, Some(Abi::Gnu))
        .cache(true)
        .cache_directories(vec!["~/.cargo".to_string(), "target".to_string()])
        .cache_workspaces(vec![". -> target".to_string()])
        .cache_on_failure(false)
        .cache_key("v1".to_string())
        .matcher(true)
        .rust_flags(RustFlags::deny("warnings"))
        .override_default(true);
    let step = toolchain.to_step();
    let input = step.value.with.unwrap();
    assert_eq!(
        entries(&input),
        vec![
            text("toolchain", "stable, nightly, 1.70.1"),
            text("target", "x86_64-unknown-linuxgnu"),
            text("components", "clippy, rustfmt, rust-doc"),
            flag("cache", true),
            text("cache-directories", "\n~/.cargo\ntarget"),
            text("cache-workspaces", "\n. -> target"),
            flag("cache-on-failure", false),
            text("cache-key", "v1"),
            flag("matcher", true),
            text("rust-flags", "-Dwarnings"),
            flag("override", true),
        ]
    );
}

#[test]
fn a_toolchain_step_becomes_the_set_up_step_of_a_job() {
    let step = Step::toolchain().add_stable().add_clippy();
    let job = Job::new("Build").add_step(step);
    let steps = job.steps.unwrap();
    assert_eq!(steps.len(), 1);
    assert_eq!(
        steps[0].uses,
        Some("actions-rust-lang/setup-rust-toolchain@v1".to_string())
    );
    assert_eq!(
        entries(steps[0].with.as_ref().unwrap()),
        vec![text("toolchain", "stable"), text("components", "clippy")]
    );
}

#[test]
fn cargo_builds_its_command_line() {
    let step: Step<Run> = Cargo::new("test")
        .args("--all-features --workspace")
        .name("Cargo Test".to_string())
        .into();
    assert_eq!(
        step.value.run,
        Some("cargo test --all-features --workspace".to_string())
    );
    assert_eq!(step.value.name, Some("Cargo Test".to_string()));
    assert_eq!(step.value.id, None);

    let step = Cargo::new("fmt")
        .nightly()
        .add_args("--all")
        .add_args("  --check \t -- ")
        .id("fmt".to_string())
        .to_step();
    assert_eq!(step.value.run, Some("cargo +nightly fmt --all --check --".to_string()));
    assert_eq!(step.value.id, Some("fmt".to_string()));

    let bare = Cargo::new("build").args("   ").to_step();
    assert_eq!(bare.value.run, Some("cargo build".to_string()));

    let pinned = Cargo::new("check").toolchain(Version::new(1, 75, 0)).to_step();
    assert_eq!(pinned.value.run, Some("cargo +1.75.0 check".to_string()));

    let replaced = Cargo::new("doc").add_args("a b").args("c");
    assert_eq!(replaced.args, vec!["c".to_string()]);
    assert_eq!(
        Cargo::command_line(None, "run", &vec!["".to_string(), "x".to_string()]),
        "cargo run x"
    );
}

#[test]
fn release_names_only_what_is_set() {
    let step: Step<Use> = Release::default().into();
    assert_eq!(step.value.name, Some("Release Plz".to_string()));
    assert_eq!(step.value.uses, Some("MarcoIeni/release-plz-action@v0.5".to_string()));
    assert_eq!(step.value.with, None);

    let step = Release::default()
        .command(Command::ReleasePR)
        .token("t".to_string())
        .backend(Backend::Gitea)
        .registry("r".to_string())
        .to_step();
    assert_eq!(
        entries(step.value.with.as_ref().unwrap()),
        vec![
            text("command", "release-pr"),
            text("registry", "r"),
            text("token", "t"),
            text("backend", "gitea"),
        ]
    );
}

#[test]
fn steps_keep_what_they_have_when_their_kind_is_chosen() {
    let checkout = Step::checkout();
    assert_eq!(checkout.value.name, Some("Checkout Code".to_string()));
    assert_eq!(checkout.value.uses, Some("actions/checkout@v5".to_string()));
    assert_eq!(checkout.value.run, None);

    let run = Step::new("Say hello").run("echo hello");
    assert_eq!(run.value.name, Some("Say hello".to_string()));
    assert_eq!(run.value.run, Some("echo hello".to_string()));

    let mut value = StepValue::run("first");
    value.merge(StepValue::run("second").name("named".to_string()));
    assert_eq!(value.run, Some("first".to_string()));
    assert_eq!(value.name, Some("named".to_string()));

    let with = Step::<Use>::uses("a", "b", "v1")
        .add_with(Input::from_pair("k", "1"))
        .add_with(Input::from_pair("j", "2"))
        .add_with(Input::from_pair("k", "3"));
    assert_eq!(
        entries(with.value.with.as_ref().unwrap()),
        vec![text("k", "3"), text("j", "2")]
    );
    let none = Step::<Use>::uses("a", "b", "v1").add_with(Input::default());
    assert_eq!(none.value.with, None);

    let env = Step::<Run>::run("make").add_env(Env::from_pair("A", "1")).add_env(Env::from_pair("B", "2"));
    assert_eq!(env.value.env.unwrap().0.len(), 2);
}

#[test]
fn jobs_collect_steps_needs_and_variables() {
    let job = Job::new("Build")
        .add_step(Step::checkout())
        .add_step(Step::<Run>::run("make"))
        .add_env(Env::from_pair("A", "1"))
        .add_env(Env::from_pair("B", "2"))
        .add_need("lint")
        .add_need("test")
        .permissions(Permissions::default().contents(Level::Read))
        .timeout_minutes(30);
    assert_eq!(job.name, Some("Build".to_string()));
    assert_eq!(
        job.runs_on.as_ref().unwrap().0,
        Value::String("ubuntu-latest".to_string())
    );
    let steps = job.steps.as_ref().unwrap();
    assert_eq!(steps.len(), 2);
    assert_eq!(steps[1].run, Some("make".to_string()));
    assert_eq!(job.needs, Some(vec!["lint".to_string(), "test".to_string()]));
    assert_eq!(job.env.as_ref().unwrap().0.len(), 2);
    assert_eq!(job.permissions.as_ref().unwrap().contents, Some(Level::Read));
    assert_eq!(job.permissions.as_ref().unwrap().issues, None);
    assert_eq!(job.timeout_minutes, Some(30));
    assert_eq!(job.tmp_needs, None);
    assert_eq!(Level::default(), Level::NoAccess);
}

#[test]
fn events_collect_their_filters() {
    let push = Push::default().add_branch("main").add_tag("v*").add_path("src/**");
    assert_eq!(push.branches, vec!["main".to_string()]);
    assert_eq!(push.tags, vec!["v*".to_string()]);
    assert_eq!(push.paths, vec!["src/**".to_string()]);

    let pull_request = PullRequest::default()
        .add_type(PullRequestType::Opened)
        .add_type(PullRequestType::Synchronize)
        .add_type(PullRequestType::Reopened)
        .add_branch("main");
    assert_eq!(
        pull_request.types,
        vec![
            PullRequestType::Opened,
            PullRequestType::Synchronize,
            PullRequestType::Reopened
        ]
    );
    assert_eq!(
        PullRequest::default().open().synchronize().reopen().add_branch("main"),
        pull_request
    );
    assert_eq!(
        PullRequestTarget::default().open().reopen().types,
        vec![PullRequestType::Opened, PullRequestType::Reopened]
    );
    assert_eq!(
        Schedule::default().add_cron("0 0 * * *").cron,
        vec!["0 0 * * *".to_string()]
    );
    let run = WorkflowRun::default()
        .add_type(WorkflowRunType::Completed)
        .add_workflow("ci")
        .add_branch("main");
    assert_eq!(run.types, vec![WorkflowRunType::Completed]);
    assert_eq!(run.workflows, vec!["ci".to_string()]);
    assert_eq!(run.branches, vec!["main".to_string()]);
}

#[test]
fn adding_an_event_keeps_the_events_that_are_there() {
    let first = Event::default().push(Push::default().add_branch("main"));
    let second = Event::default()
        .push(Push::default().add_branch("other"))
        .pull_request(PullRequest::default().add_branch("main"))
        .fork(true);
    let workflow = Workflow::new("ci").add_event(first).add_event(second);
    let on = workflow.on.unwrap();
    assert_eq!(on.push, Some(Push::default().add_branch("main")));
    assert_eq!(on.pull_request, Some(PullRequest::default().add_branch("main")));
    assert_eq!(on.fork, Some(true));
    assert_eq!(on.release, None);
}

#[test]
fn workflows_collect_jobs_and_variables() {
    let workflow = Workflow::new("ci")
        .add_env(RustFlags::deny("warnings").to_env())
        .add_job("build", Job::new("Build"))
        .add_job("test", Job::new("Test"))
        .add_job("build", Job::new("Build again"));
    let jobs = workflow.jobs.as_ref().unwrap();
    let keys: Vec<&String> = jobs.0.keys().collect();
    assert_eq!(keys, vec!["build", "test"]);
    assert_eq!(jobs.get("build").unwrap().name, Some("Build again".to_string()));
    assert_eq!(jobs.get("deploy"), None);
    assert_eq!(jobs.len(), 2);
    assert_eq!(workflow.envs.as_ref().unwrap().0.len(), 1);
    assert_eq!(workflow.name, Some("ci".to_string()));
}

#[test]
fn values_are_compared_by_their_content() {
    let list = Value::Array(vec![Value::PosInt(1), Value::text("a"), Value::Null]);
    assert_eq!(list.clone(), list);
    assert_ne!(list, Value::Array(vec![Value::PosInt(1), Value::text("a")]));
    let object = Value::Object(vec![
        ("os".to_string(), Value::Array(vec![Value::text("linux")])),
        ("fast".to_string(), Value::flag(true)),
    ]);
    assert_eq!(object.clone(), object);
    assert_ne!(Value::PosInt(1), Value::NegInt(1));
    assert_ne!(Value::Float(1), Value::PosInt(1));
    let a = Job::new("A").strategy(
        gh_workflow::strategy::Strategy::default().matrix(object.clone()),
    );
    let b = Job::new("A").strategy(gh_workflow::strategy::Strategy::default().matrix(object));
    assert_eq!(a, b);
    let workflow = Workflow::new("ci")
        .add_job("a", a.clone())
        .add_job("needs-a", Job::new("B").add_needs(b));
    let organized = gh_workflow::generate::organize_job_dependency(workflow);
    assert_eq!(
        organized.jobs.as_ref().unwrap().get("needs-a").unwrap().needs,
        Some(vec!["a".to_string()])
    );
}

#[test]
fn environments_are_equal_in_any_order() {
    let ab = Job::new("J").add_env(Env::from_pair("A", "1")).add_env(Env::from_pair("B", "2"));
    let ba = Job::new("J").add_env(Env::from_pair("B", "2")).add_env(Env::from_pair("A", "1"));
    let other = Job::new("J").add_env(Env::from_pair("A", "1")).add_env(Env::from_pair("B", "3"));
    let workflow = Workflow::new("ci")
        .add_job("first", ab)
        .add_job("second", Job::new("K").add_needs(ba))
        .add_job("third", Job::new("L").add_needs(other));
    let organized = gh_workflow::generate::organize_job_dependency(workflow);
    let jobs = organized.jobs.as_ref().unwrap();
    assert_eq!(jobs.get("second").unwrap().needs, Some(vec!["first".to_string()]));
    assert_eq!(jobs.get("third").unwrap().needs, Some(vec!["job-0".to_string()]));
}

#[test]
fn arguments_lose_the_white_space_around_them() {
    let step = Cargo::new("run").args(" \t--release\n").to_step();
    assert_eq!(step.value.run, Some("cargo run --release".to_string()));
    let kept = Cargo::new("run").args("a  b").to_step();
    assert_eq!(kept.value.run, Some("cargo run a  b".to_string()));
}

#[test]
fn outputs_services_and_secrets_take_part_in_the_comparison_of_jobs() {
    let mut ab: IndexMap<String, String> = IndexMap::new();
    ab.insert("a".to_string(), "1".to_string());
    ab.insert("b".to_string(), "2".to_string());
    let mut ba: IndexMap<String, String> = IndexMap::new();
    ba.insert("b".to_string(), "2".to_string());
    ba.insert("a".to_string(), "1".to_string());
    let mut other: IndexMap<String, String> = IndexMap::new();
    other.insert("a".to_string(), "1".to_string());

    let mut services: IndexMap<String, Container> = IndexMap::new();
    services.insert("db".to_string(), Container::default().image("postgres".to_string()));
    let mut secrets: IndexMap<String, Secret> = IndexMap::new();
    secrets.insert("token".to_string(), Secret::default().required(true));

    let base = Job::new("Base")
        .outputs(Outputs(ab))
        .services(Services(services.clone()))
        .secrets(Secrets(secrets.clone()));
    let same = Job::new("Base")
        .outputs(Outputs(ba))
        .services(Services(services.clone()))
        .secrets(Secrets(secrets.clone()));
    let fewer = Job::new("Base")
        .outputs(Outputs(other))
        .services(Services(services))
        .secrets(Secrets(secrets));
    let copy = base.clone();
    assert_eq!(copy, base);
    assert_eq!(
        copy.outputs.as_ref().unwrap().0.keys().collect::<Vec<_>>(),
        vec!["a", "b"]
    );

    let workflow = Workflow::new("ci")
        .add_job("base", base)
        .add_job("one", Job::new("One").add_needs(same))
        .add_job("two", Job::new("Two").add_needs(fewer.clone()));
    let organized = gh_workflow::generate::organize_job_dependency(workflow);
    let jobs = organized.jobs.as_ref().unwrap();
    assert_eq!(jobs.get("one").unwrap().needs, Some(vec!["base".to_string()]));
    assert_eq!(jobs.get("two").unwrap().needs, Some(vec!["job-0".to_string()]));
    assert_eq!(jobs.get("job-0"), Some(&fewer));
    assert_eq!(Outputs::default().0.len(), 0);
}
