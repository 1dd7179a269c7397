//! The workflows of a standard Rust project.
//!
//! A [`StandardWorkflow`] says with a few flags what the workflows of a
//! project do: build and test, lint, fix lints, release. The jobs and the
//! workflows are made from the flags.

use vstd::prelude::*;
use crate::cargo::Cargo;
use crate::cargo::CargoView;
use crate::concurrency::Concurrency;
use crate::concurrency::ConcurrencyView;
use crate::ctx::render;
use crate::ctx::Context;
use crate::ctx::Path;
use crate::env::Env;
use crate::event::Event;
use crate::event::PullRequest;
use crate::event::PullRequestType;
use crate::event::Push;
use crate::expression::Expression;
use crate::job::new_job;
use crate::job::with_step;
use crate::job::Job;
use crate::job::JobView;
use crate::ordered::as_map;
use crate::ordered::put;
use crate::ordered::put_all_of_one;
use crate::ordered::put_new_key;
use crate::ordered::put_all;
use crate::ordered::Entries;
use crate::permissions::Level;
use crate::permissions::Permissions;
use crate::permissions::PermissionsView;
use crate::release_plz::Command;
use crate::release_plz::Release;
use crate::release_plz::ReleaseView;
use crate::rust_flag::RustFlags;
use crate::step::action_ref;
use crate::step::action_step;
use crate::step::checkout_step;
use crate::step::Input;
use crate::step::Run;
use crate::step::Step;
use crate::step::StepValueView;
use crate::step::Use;
use crate::text::title_case;
use crate::text::to_title_case;
use crate::text::words;
use crate::toolchain::Component;
use crate::toolchain::Toolchain;
use crate::toolchain::ToolchainView;
use crate::toolchain::Version;
use crate::value::Value;
use crate::value::ValueView;
use crate::workflow::Workflow;

verus! {

/// The program that runs the tests.
#[derive(Debug, Clone, Copy, PartialEq, Eq, Structural)]
pub enum TestRunner {
    /// `cargo test`.
    Cargo,
    /// `cargo nextest`.
    Nextest,
}

impl Default for TestRunner {
    fn default() -> (r: Self)
        ensures
            r == TestRunner::Nextest,
    {
        TestRunner::Nextest
    }
}

/// What the workflows of a project do.
#[derive(Debug, Clone)]
pub struct StandardWorkflow {
    /// Whether the project is released from the main branch.
    pub auto_release: bool,
    /// The name of the workflow.
    pub name: String,
    /// Whether the benchmarks run.
    pub benchmarks: bool,
    /// Whether lints are fixed.
    pub auto_fix: bool,
    /// The steps that run before the repository is checked out.
    pub setup: Vec<Step<Run>>,
    /// The program that runs the tests.
    pub test_runner: TestRunner,
}

/// The contents of the steps of a list.
pub open spec fn step_views(steps: Seq<Step<Run>>) -> Seq<StepValueView> {
    steps.map_values(|s: Step<Run>| s.value.deep_view())
}

/// Permissions to read the contents and nothing else.
pub open spec fn read_only() -> PermissionsView {
    PermissionsView { contents: Some(Level::Read), ..Permissions::default_spec().deep_view() }
}

/// Permissions to write pull requests, packages and contents.
pub open spec fn read_write() -> PermissionsView {
    PermissionsView {
        pull_requests: Some(Level::Write),
        packages: Some(Level::Write),
        contents: Some(Level::Write),
        ..Permissions::default_spec().deep_view()
    }
}

/// The job named `name` that may read the contents, runs the set-up steps
/// from the last to the first, checks the repository out, and then runs
/// `steps`.
pub open spec fn base_job(setup: Seq<StepValueView>, name: Seq<char>, steps: Seq<StepValueView>) -> JobView {
    JobView {
        permissions: Some(read_only()),
        steps: Some(setup.reverse().push(checkout_step()) + steps),
        ..new_job(name)
    }
}

/// The condition that holds on a push to the main branch.
pub open spec fn main_push() -> Path {
    Path::And {
        left: Box::new(
            Path::Eq {
                left: Box::new(
                    Path::Select {
                        name: "ref"@,
                        parent: Box::new(
                            Path::Select { name: "\"github\""@, parent: Box::new(Path::Root) },
                        ),
                    },
                ),
                right: Box::new(Path::Literal("refs/heads/main"@)),
            },
        ),
        right: Box::new(
            Path::Eq {
                left: Box::new(
                    Path::Select {
                        name: "event_name"@,
                        parent: Box::new(
                            Path::Select { name: "\"github\""@, parent: Box::new(Path::Root) },
                        ),
                    },
                ),
                right: Box::new(Path::Literal("push"@)),
            },
        ),
    }
}

/// Whether the events are those of a standard workflow: a push to the main
/// branch or of a version tag, and a pull request against the main branch
/// that is opened, updated or opened again.
pub open spec fn standard_event(e: Event) -> bool {
    &&& e.push is Some
    &&& e.push->0.branches.deep_view() == seq!["main"@]
    &&& e.push->0.tags.deep_view() == seq!["v*"@]
    &&& e.push->0.paths@.len() == 0
    &&& e.pull_request is Some
    &&& e.pull_request->0.types@ == seq![
        PullRequestType::Opened,
        PullRequestType::Synchronize,
        PullRequestType::Reopened,
    ]
    &&& e.pull_request->0.branches.deep_view() == seq!["main"@]
    &&& e.pull_request->0.paths@.len() == 0
    &&& e == (Event { push: e.push, pull_request: e.pull_request, ..Event::default_spec() })
}

/// Adding a step to a base job adds it to the steps that follow the
/// check-out.
pub proof fn base_job_step(
    setup: Seq<StepValueView>,
    name: Seq<char>,
    steps: Seq<StepValueView>,
    step: StepValueView,
)
    ensures
        with_step(base_job(setup, name, steps), step) == base_job(setup, name, steps.push(step)),
{
    assert((setup.reverse().push(checkout_step()) + steps).push(step) =~= setup.reverse().push(
        checkout_step(),
    ) + steps.push(step));
}

impl Default for StandardWorkflow {
    fn default() -> (r: Self)
        ensures
            !r.auto_release,
            r.name@ == "ci"@,
            !r.benchmarks,
            !r.auto_fix,
            r.setup@.len() == 0,
            r.test_runner == TestRunner::Nextest,
    {
        StandardWorkflow {
            auto_release: false,
            name: String::from_str("ci"),
            benchmarks: false,
            auto_fix: false,
            setup: Vec::new(),
            test_runner: TestRunner::default(),
        }
    }
}

impl StandardWorkflow {
    /// Sets `auto_release`.
    pub fn auto_release(self, value: bool) -> (r: Self)
        ensures
            r == (StandardWorkflow { auto_release: value, ..self }),
    {
        StandardWorkflow { auto_release: value, ..self }
    }

    /// Sets `name`.
    pub fn name(self, value: String) -> (r: Self)
        ensures
            r == (StandardWorkflow { name: value, ..self }),
    {
        StandardWorkflow { name: value, ..self }
    }

    /// Sets `benchmarks`.
    pub fn benchmarks(self, value: bool) -> (r: Self)
        ensures
            r == (StandardWorkflow { benchmarks: value, ..self }),
    {
        StandardWorkflow { benchmarks: value, ..self }
    }

    /// Sets `auto_fix`.
    pub fn auto_fix(self, value: bool) -> (r: Self)
        ensures
            r == (StandardWorkflow { auto_fix: value, ..self }),
    {
        StandardWorkflow { auto_fix: value, ..self }
    }

    /// Sets `setup`.
    pub fn setup(self, value: Vec<Step<Run>>) -> (r: Self)
        ensures
            r == (StandardWorkflow { setup: value, ..self }),
    {
        StandardWorkflow { setup: value, ..self }
    }

    /// Sets `test_runner`.
    pub fn test_runner(self, value: TestRunner) -> (r: Self)
        ensures
            r == (StandardWorkflow { test_runner: value, ..self }),
    {
        StandardWorkflow { test_runner: value, ..self }
    }

    /// These settings with `step` as the last set-up step.
    pub fn add_setup(self, step: Step<Run>) -> (r: Self)
        ensures
            r.setup@ == self.setup@.push(step),
            r == (StandardWorkflow { setup: r.setup, ..self }),
    {
        let mut this = self;
        this.setup.push(step);
        this
    }

    /// The job named `name` that every job starts from: it may read the
    /// contents, runs the set-up steps from the last to the first, and
    /// checks the repository out.
    pub fn init_job(&self, name: &str) -> (r: Job)
        ensures
            r.deep_view() == base_job(step_views(self.setup@), name@, Seq::empty()),
    {
        let mut job = Job::new(name).permissions(Permissions::default().contents(Level::Read));
        let ghost views = step_views(self.setup@);
        let n = self.setup.len();
        let mut k: usize = 0;
        let ghost start = JobView { permissions: Some(read_only()), ..new_job(name@) };
        assert(job.deep_view() == start);
        while k < n
            invariant
                k <= n,
                n == self.setup@.len(),
                views == step_views(self.setup@),
                job.deep_view() == (JobView {
                    steps: if k == 0 {
                        None
                    } else {
                        Some(views.reverse().take(k as int))
                    },
                    ..start
                }),
            decreases n - k,
        {
            let step = self.setup[n - 1 - k].duplicate();
            job = job.add_step(step);
            proof {
                let rev = views.reverse();
                assert(rev[k as int] == views[n - 1 - k]);
                if k == 0 {
                    assert(Seq::<StepValueView>::empty().push(rev[0]) =~= rev.take(1));
                } else {
                    assert(rev.take(k as int).push(rev[k as int]) =~= rev.take(k + 1));
                }
            }
            k = k + 1;
        }
        let job = job.add_step(Step::checkout());
        proof {
            let rev = views.reverse();
            assert(rev.take(n as int) =~= rev);
            assert(rev.push(checkout_step()) + Seq::<StepValueView>::empty() =~= rev.push(
                checkout_step(),
            ));
            if n == 0 {
                assert(Seq::<StepValueView>::empty().push(checkout_step()) =~= rev.push(
                    checkout_step(),
                ));
            }
        }
        job
    }

    /// Permissions to write pull requests, packages and contents.
    pub fn write_permissions(&self) -> (r: Permissions)
        ensures
            r.deep_view() == read_write(),
    {
        Permissions::default().pull_requests(Level::Write).packages(Level::Write).contents(
            Level::Write,
        )
    }

    /// The condition under which a release runs: a push to the main branch.
    pub fn workflow_cond(&self) -> (r: Context<bool>)
        ensures
            r@ == main_push(),
    {
        let is_main = Context::github().ref_().eq(Context::literal("refs/heads/main"));
        let is_push = Context::github().event_name().eq(Context::literal("push"));
        is_main.and(is_push)
    }

    /// The events that trigger the workflows.
    pub fn workflow_event(&self) -> (r: Event)
        ensures
            standard_event(r),
    {
        let push = Push::default().add_branch("main").add_tag("v*");
        let pull_request = PullRequest::default().add_type(PullRequestType::Opened).add_type(
            PullRequestType::Synchronize,
        ).add_type(PullRequestType::Reopened).add_branch("main");
        proof {
            assert(push.branches.deep_view() =~= seq!["main"@]);
            assert(push.tags.deep_view() =~= seq!["v*"@]);
            assert(pull_request.types@ =~= seq![
                PullRequestType::Opened,
                PullRequestType::Synchronize,
                PullRequestType::Reopened,
            ]);
            assert(pull_request.branches.deep_view() =~= seq!["main"@]);
        }
        Event::default().push(push).pull_request(pull_request)
    }

    /// The flags of the compiler in the workflows: warnings are errors.
    pub fn workflow_flags(&self) -> (r: RustFlags)
        ensures
            r.text() == "-D"@ + "warnings"@,
    {
        RustFlags::deny("warnings")
    }
}

/// The call of cargo named `name` with the given command, toolchain and
/// arguments.
pub open spec fn cargo_call(
    command: Seq<char>,
    toolchain: Option<Version>,
    args: Seq<Seq<char>>,
    name: Seq<char>,
) -> CargoView {
    CargoView { command, id: None, name: Some(name), toolchain, args }
}

/// The concurrency group `group`, in which a new run does not cancel the
/// run in progress.
pub open spec fn never_cancelled(group: Seq<char>) -> ConcurrencyView {
    ConcurrencyView { group, cancel_in_progress: Some(false), limit: None }
}

/// The step that caches the dependencies.
pub open spec fn cache_step() -> StepValueView {
    action_step(
        "Cache Rust dependencies"@,
        action_ref("Swatinem"@, "rust-cache"@, "v2"@),
        seq![("cache-all-crates"@, ValueView::String("true"@))],
    )
}

/// The step that commits the fixes.
pub open spec fn autofix_step() -> StepValueView {
    action_step("auto-fix"@, action_ref("autofix-ci"@, "action"@, "v1"@), Seq::empty())
}

/// The steps that build and test: the stable toolchain; the installation
/// of nextest where it runs the tests; the cache; the tests; and the
/// benchmarks where they run.
pub open spec fn test_steps(runner: TestRunner, benchmarks: bool) -> Seq<StepValueView> {
    seq![(ToolchainView { toolchain: seq![Version::Stable], ..ToolchainView::default_spec() }).step()]
        + (if runner == TestRunner::Nextest {
        seq![
            cargo_call("install"@, None, seq!["cargo-nextest --locked"@], "Install nextest"@).step(),
        ]
    } else {
        Seq::empty()
    }) + seq![
        cache_step(),
        (match runner {
            TestRunner::Cargo => cargo_call(
                "test"@,
                None,
                seq!["--all-features --workspace"@],
                "Cargo Test"@,
            ),
            TestRunner::Nextest => cargo_call(
                "nextest"@,
                None,
                seq!["run --all-features --workspace"@],
                "Cargo Nextest"@,
            ),
        }).step(),
    ] + (if benchmarks {
        seq![cargo_call("bench"@, None, seq!["--workspace"@], "Cargo Bench"@).step()]
    } else {
        Seq::empty()
    })
}

/// The toolchain of the lint job: the nightly build with the linter and
/// the formatter, cached.
pub open spec fn lint_toolchain() -> ToolchainView {
    ToolchainView {
        toolchain: seq![Version::Nightly],
        components: seq![Component::Clippy, Component::Rustfmt],
        cache: Some(true),
        cache_directories: seq!["~/.cargo/registry"@, "~/.cargo/git"@, "target"@],
        ..ToolchainView::default_spec()
    }
}

/// The call of the formatter: it checks, or formats where lints are fixed.
pub open spec fn fmt_call(auto_fix: bool) -> CargoView {
    cargo_call(
        "fmt"@,
        Some(Version::Nightly),
        words("--all"@) + (if auto_fix {
            Seq::empty()
        } else {
            words("--check"@)
        }),
        "Cargo Fmt"@,
    )
}

/// The call of the linter: warnings are errors; lints are fixed where that
/// is asked for.
pub open spec fn clippy_call(auto_fix: bool) -> CargoView {
    cargo_call(
        "clippy"@,
        Some(Version::Nightly),
        (if auto_fix {
            words("--fix"@) + words("--allow-dirty"@)
        } else {
            Seq::empty()
        }) + words("--all-features --workspace -- -D warnings"@),
        "Cargo Clippy"@,
    )
}

/// The job that builds and tests.
pub open spec fn test_job_view(setup: Seq<StepValueView>, runner: TestRunner, benchmarks: bool) -> JobView {
    base_job(setup, "Build and Test"@, test_steps(runner, benchmarks))
}

/// The job that lints, or that fixes lints.
pub open spec fn lint_job_view(setup: Seq<StepValueView>, auto_fix: bool) -> JobView {
    JobView {
        concurrency: if auto_fix {
            Some(never_cancelled("autofix-${{github.ref}}"@))
        } else {
            None
        },
        ..base_job(
            setup,
            if auto_fix {
                "Lint Fix"@
            } else {
                "Lint"@
            },
            seq![lint_toolchain().step(), fmt_call(auto_fix).step(), clippy_call(auto_fix).step()]
                + (if auto_fix {
                seq![autofix_step()]
            } else {
                Seq::empty()
            }),
        )
    }
}

/// The environment of a release: the token of the repository and the token
/// of the registry.
pub open spec fn release_env() -> Entries<ValueView> {
    put_all(
        put_all(
            Seq::empty(),
            seq![("GITHUB_TOKEN"@, ValueView::String("${{ secrets.GITHUB_TOKEN }}"@))],
        ),
        seq![("CARGO_REGISTRY_TOKEN"@, ValueView::String("${{ secrets.CARGO_REGISTRY_TOKEN }}"@))],
    )
}

/// The job that runs the release command `cmd` on a push to the main
/// branch, after the jobs `build` and `lint`.
pub open spec fn release_job_view(setup: Seq<StepValueView>, cmd: Command) -> JobView {
    JobView {
        concurrency: Some(never_cancelled("release-${{github.ref}}"@)),
        cond: Some(render(main_push())),
        needs: Some(seq!["build"@, "lint"@]),
        env: Some(as_map(release_env())),
        permissions: Some(read_write()),
        ..base_job(
            setup,
            title_case(cmd.text()),
            seq![(ReleaseView { command: Some(cmd), ..Release::default_spec().deep_view() }).step()],
        )
    }
}

/// The jobs of the main workflow: `build` and `lint`, and `release` and
/// `release-pr` where the project is released.
pub open spec fn ci_jobs(
    setup: Seq<StepValueView>,
    runner: TestRunner,
    benchmarks: bool,
    auto_release: bool,
) -> Entries<JobView> {
    let jobs = put(
        put(Seq::empty(), "build"@, test_job_view(setup, runner, benchmarks)),
        "lint"@,
        lint_job_view(setup, false),
    );
    if auto_release {
        put(
            put(jobs, "release"@, release_job_view(setup, Command::Release)),
            "release-pr"@,
            release_job_view(setup, Command::ReleasePR),
        )
    } else {
        jobs
    }
}

/// The environment of the workflows: the flags of the compiler.
pub open spec fn flags_env() -> Entries<ValueView> {
    put_all(Seq::empty(), seq![("RUSTFLAGS"@, ValueView::String("-D"@ + "warnings"@))])
}

fn cargo_step(command: &str, args: &str, name: &str) -> (r: Step<Run>)
    ensures
        r.value.deep_view() == cargo_call(command@, None, seq![args@], name@).step(),
{
    Cargo::new(command).args(args).name(String::from_str(name)).to_step()
}

impl StandardWorkflow {
    fn cache(&self) -> (r: Step<Use>)
        ensures
            r.value.deep_view() == cache_step(),
    {
        let step = Step::new("Cache Rust dependencies").uses("Swatinem", "rust-cache", "v2").add_with(
            Input::from_pair("cache-all-crates", "true"),
        );
        proof {
            let entry = ("cache-all-crates"@, ValueView::String("true"@));
            put_all_of_one(Seq::empty(), entry.0, entry.1);
            assert(!crate::ordered::has_key(Seq::<(Seq<char>, ValueView)>::empty(), entry.0));
            put_new_key(Seq::empty(), entry.0, entry.1);
            assert(Seq::<(Seq<char>, ValueView)>::empty().push(entry) =~= seq![entry]);
        }
        step
    }

    /// The job that builds and tests.
    pub fn test_job(&self) -> (r: Job)
        ensures
            r.deep_view() == test_job_view(
                step_views(self.setup@),
                self.test_runner,
                self.benchmarks,
            ),
    {
        let ghost setup = step_views(self.setup@);
        let ghost name = "Build and Test"@;
        let ghost toolchain = (ToolchainView {
            toolchain: seq![Version::Stable],
            ..ToolchainView::default_spec()
        }).step();
        let stable = Toolchain::default().add_stable();
        assert(stable.toolchain.deep_view() =~= seq![Version::Stable]);
        let mut job = self.init_job("Build and Test").add_step(stable.to_step());
        let ghost mut steps = seq![toolchain];
        proof {
            base_job_step(setup, name, Seq::empty(), toolchain);
            assert(Seq::<StepValueView>::empty().push(toolchain) =~= steps);
        }
        match self.test_runner {
            TestRunner::Nextest => {
                let step = cargo_step("install", "cargo-nextest --locked", "Install nextest");
                proof {
                    base_job_step(setup, name, steps, step.value.deep_view());
                    steps = steps.push(step.value.deep_view());
                }
                job = job.add_step(step);
            },
            TestRunner::Cargo => {},
        }
        let cache = self.cache();
        proof {
            base_job_step(setup, name, steps, cache.value.deep_view());
            steps = steps.push(cache.value.deep_view());
        }
        job = job.add_step(cache);
        let tests = match self.test_runner {
            TestRunner::Cargo => cargo_step("test", "--all-features --workspace", "Cargo Test"),
            TestRunner::Nextest => cargo_step("nextest", "run --all-features --workspace", "Cargo Nextest"),
        };
        proof {
            base_job_step(setup, name, steps, tests.value.deep_view());
            steps = steps.push(tests.value.deep_view());
        }
        job = job.add_step(tests);
        if self.benchmarks {
            let bench = cargo_step("bench", "--workspace", "Cargo Bench");
            proof {
                base_job_step(setup, name, steps, bench.value.deep_view());
                steps = steps.push(bench.value.deep_view());
            }
            job = job.add_step(bench);
        }
        assert(steps =~= test_steps(self.test_runner, self.benchmarks));
        job
    }

    fn autofix(&self) -> (r: Step<Use>)
        ensures
            r.value.deep_view() == autofix_step(),
    {
        Step::new("auto-fix").uses("autofix-ci", "action", "v1")
    }

    /// The job that lints; with `auto_fix` the job that fixes lints.
    pub fn lint_job(&self, auto_fix: bool) -> (r: Job)
        ensures
            r.deep_view() == lint_job_view(step_views(self.setup@), auto_fix),
    {
        let ghost setup = step_views(self.setup@);
        let ghost name = if auto_fix {
            "Lint Fix"@
        } else {
            "Lint"@
        };
        let mut job = self.init_job(
            if auto_fix {
                "Lint Fix"
            } else {
                "Lint"
            },
        );
        let mut fmt_step = Cargo::new("fmt").name(String::from_str("Cargo Fmt")).nightly().add_args(
            "--all",
        );
        assert(fmt_step.args.deep_view() =~= words("--all"@));
        if !auto_fix {
            fmt_step = fmt_step.add_args("--check");
        } else {
            assert(fmt_step.args.deep_view() =~= words("--all"@) + Seq::<Seq<char>>::empty());
        }
        let mut clippy_step = Cargo::new("clippy").name(String::from_str("Cargo Clippy")).nightly();
        if auto_fix {
            clippy_step = clippy_step.add_args("--fix").add_args("--allow-dirty");
            assert(clippy_step.args.deep_view() =~= words("--fix"@) + words("--allow-dirty"@));
        }
        clippy_step = clippy_step.add_args("--all-features --workspace -- -D warnings");
        assert(clippy_step.deep_view().args =~= clippy_call(auto_fix).args);
        assert(fmt_step.deep_view().args =~= fmt_call(auto_fix).args);
        let mut directories: Vec<String> = Vec::new();
        directories.push(String::from_str("~/.cargo/registry"));
        directories.push(String::from_str("~/.cargo/git"));
        directories.push(String::from_str("target"));
        assert(directories.deep_view() =~= seq!["~/.cargo/registry"@, "~/.cargo/git"@, "target"@]);
        let toolchain = Toolchain::default().add_nightly().add_clippy().add_fmt().cache(
            true,
        ).cache_directories(directories);
        assert(toolchain.toolchain.deep_view() =~= seq![Version::Nightly]);
        assert(toolchain.components.deep_view() =~= seq![Component::Clippy, Component::Rustfmt]);
        assert(toolchain.deep_view() == lint_toolchain());
        let toolchain = toolchain.to_step();
        let fmt = fmt_step.to_step();
        let clippy = clippy_step.to_step();
        let ghost first = seq![toolchain.value.deep_view()];
        let ghost second = first.push(fmt.value.deep_view());
        let ghost third = second.push(clippy.value.deep_view());
        proof {
            base_job_step(setup, name, Seq::empty(), toolchain.value.deep_view());
            assert(Seq::<StepValueView>::empty().push(toolchain.value.deep_view()) =~= first);
            base_job_step(setup, name, first, fmt.value.deep_view());
            base_job_step(setup, name, second, clippy.value.deep_view());
            base_job_step(setup, name, third, autofix_step());
        }
        if auto_fix {
            job = job.concurrency(
                Concurrency::new(Expression::new("autofix-${{github.ref}}")).cancel_in_progress(
                    false,
                ),
            );
        }
        let ghost group = job.deep_view().concurrency;
        assert(job.deep_view() == (JobView {
            concurrency: group,
            ..base_job(setup, name, Seq::empty())
        }));
        job = job.add_step(toolchain);
        assert(job.deep_view() == (JobView { concurrency: group, ..base_job(setup, name, first) }));
        job = job.add_step(fmt);
        assert(job.deep_view() == (JobView { concurrency: group, ..base_job(setup, name, second) }));
        job = job.add_step(clippy);
        assert(job.deep_view() == (JobView { concurrency: group, ..base_job(setup, name, third) }));
        assert(third =~= seq![
            lint_toolchain().step(),
            fmt_call(auto_fix).step(),
            clippy_call(auto_fix).step(),
        ]);
        if auto_fix {
            job = job.add_step(self.autofix());
            assert(job.deep_view() == (JobView {
                concurrency: group,
                ..base_job(setup, name, third.push(autofix_step()))
            }));
            assert(third.push(autofix_step()) =~= third + seq![autofix_step()]);
        } else {
            assert(third =~= third + Seq::<StepValueView>::empty());
        }
        job
    }

    /// The job that runs the release command `cmd` on a push to the main
    /// branch, after the jobs `build` and `lint`.
    pub fn release_job(&self, cmd: Command) -> (r: Job)
        ensures
            r.deep_view() == release_job_view(step_views(self.setup@), cmd),
    {
        let ghost setup = step_views(self.setup@);
        let title = to_title_case(cmd.to_string().as_str());
        let release = Release::default().command(cmd).to_step();
        proof {
            base_job_step(setup, title@, Seq::empty(), release.value.deep_view());
            assert(Seq::<StepValueView>::empty().push(release.value.deep_view()) =~= seq![
                release.value.deep_view(),
            ]);
        }
        let job = self.init_job(title.as_str()).concurrency(
            Concurrency::new(Expression::new("release-${{github.ref}}")).cancel_in_progress(false),
        ).cond(self.workflow_cond().to_expression()).add_need("build").add_need("lint");
        assert(job.deep_view().needs->0 =~= seq!["build"@, "lint"@]);
        let job = job.add_env(Env::github()).add_env(
            Env::new("CARGO_REGISTRY_TOKEN", Value::text("${{ secrets.CARGO_REGISTRY_TOKEN }}")),
        ).permissions(self.write_permissions());
        job.add_step(release)
    }

    /// The workflow that builds, tests and lints, and releases where the
    /// project is released.
    pub fn to_ci_workflow(&self) -> (r: Workflow)
        ensures
            r.name is Some,
            r.name->0@ == self.name@,
            r.envs is Some,
            r.envs->0.entries() == flags_env(),
            r.on is Some,
            standard_event(r.on->0),
            r.jobs is Some,
            r.jobs->0.entries() == ci_jobs(
                step_views(self.setup@),
                self.test_runner,
                self.benchmarks,
                self.auto_release,
            ),
            r == (Workflow {
                name: r.name,
                envs: r.envs,
                on: r.on,
                jobs: r.jobs,
                ..Workflow::default_spec()
            }),
    {
        let mut workflow = Workflow::new(self.name.as_str()).add_env(
            self.workflow_flags().to_env(),
        ).on(self.workflow_event()).add_job("build", self.test_job()).add_job(
            "lint",
            self.lint_job(false),
        );
        if self.auto_release {
            workflow = workflow.add_job("release", self.release_job(Command::Release)).add_job(
                "release-pr",
                self.release_job(Command::ReleasePR),
            );
        }
        workflow
    }

    /// The workflow that fixes lints; its name is the one that the service
    /// which commits the fixes asks for.
    pub fn to_autofix_workflow(&self) -> (r: Workflow)
        ensures
            r.name is Some,
            r.name->0@ == "autofix.ci"@,
            r.envs is Some,
            r.envs->0.entries() == flags_env(),
            r.on is Some,
            standard_event(r.on->0),
            r.jobs is Some,
            r.jobs->0.entries() == put(
                Seq::empty(),
                "lint"@,
                lint_job_view(step_views(self.setup@), true),
            ),
            r == (Workflow {
                name: r.name,
                envs: r.envs,
                on: r.on,
                jobs: r.jobs,
                ..Workflow::default_spec()
            }),
    {
        Workflow::new("autofix.ci").add_env(self.workflow_flags().to_env()).on(
            self.workflow_event(),
        ).add_job("lint", self.lint_job(true))
    }
}

} // verus!
