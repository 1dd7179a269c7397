//! Jobs of a workflow.
//!
//! A job names the jobs that it depends on in two ways: by identifier, in
//! `needs`, or by value, in `tmp_needs`. A dependency given by value has no
//! identifier yet; it gets one when the dependencies of the workflow are
//! organized.

use vstd::prelude::*;
use crate::artifacts::Artifacts;
use crate::artifacts::ArtifactsView;
use crate::concurrency::Concurrency;
use crate::concurrency::ConcurrencyView;
use crate::container::Container;
use crate::container::ContainerView;
use crate::data::Data;
use crate::defaults::Defaults;
use crate::defaults::DefaultsView;
use crate::defaults::RetryStrategy;
use crate::defaults::RetryStrategyView;
use crate::env::Env;
use crate::expression::Expression;
use crate::ordered::put_all;
use crate::ordered::Outputs;
use crate::ordered::Secrets;
use crate::ordered::Services;
use crate::permissions::Permissions;
use crate::permissions::PermissionsView;
use crate::secret::SecretView;
use crate::step::Step;
use crate::step::StepType;
use crate::step::StepValue;
use crate::step::StepValueView;
use crate::strategy::Strategy;
use crate::strategy::StrategyView;
use crate::value::Value;
use crate::value::ValueView;

verus! {

/// A job of a workflow.
#[derive(Debug, PartialEq, Eq)]
pub struct Job {
    /// The identifiers of the jobs that must finish before this one.
    pub needs: Option<Vec<String>>,
    /// The jobs that must finish before this one and that were given by value;
    /// they get their identifiers when the dependencies of the workflow are
    /// organized.
    pub tmp_needs: Option<Vec<Job>>,
    /// The condition under which the job runs.
    pub cond: Option<Expression>,
    /// The name of the job.
    pub name: Option<String>,
    /// The runner of the job.
    pub runs_on: Option<RunsOn>,
    /// The permissions of the token of the job.
    pub permissions: Option<Permissions>,
    /// The environment variables of the job.
    pub env: Option<Env>,
    /// The strategy of the job.
    pub strategy: Option<Strategy>,
    /// The steps of the job.
    pub steps: Option<Vec<StepValue>>,
    /// The reusable workflow that the job calls.
    pub uses: Option<String>,
    /// The container in which the job runs.
    pub container: Option<Container>,
    /// The outputs of the job.
    pub outputs: Option<Outputs>,
    /// The concurrency settings of the job.
    pub concurrency: Option<Concurrency>,
    /// The minutes after which the job is stopped.
    pub timeout_minutes: Option<u32>,
    /// The service containers of the job.
    pub services: Option<Services>,
    /// The secrets that the job hands to the workflow it calls.
    pub secrets: Option<Secrets>,
    /// The defaults of the steps of the job.
    pub defaults: Option<Defaults>,
    /// Whether the workflow goes on when the job fails.
    pub continue_on_error: Option<bool>,
    /// How the job is tried again.
    pub retry: Option<RetryStrategy>,
    /// The artifacts of the job.
    pub artifacts: Option<Artifacts>,
}

impl Job {
    /// The job of which nothing is said.
    pub open spec fn default_spec() -> Job {
        Job {
            needs: None,
            tmp_needs: None,
            cond: None,
            name: None,
            runs_on: None,
            permissions: None,
            env: None,
            strategy: None,
            steps: None,
            uses: None,
            container: None,
            outputs: None,
            concurrency: None,
            timeout_minutes: None,
            services: None,
            secrets: None,
            defaults: None,
            continue_on_error: None,
            retry: None,
            artifacts: None,
        }
    }
}

impl Default for Job {
    fn default() -> (r: Self)
        ensures
            r == Job::default_spec(),
    {
        Job {
            needs: None,
            tmp_needs: None,
            cond: None,
            name: None,
            runs_on: None,
            permissions: None,
            env: None,
            strategy: None,
            steps: None,
            uses: None,
            container: None,
            outputs: None,
            concurrency: None,
            timeout_minutes: None,
            services: None,
            secrets: None,
            defaults: None,
            continue_on_error: None,
            retry: None,
            artifacts: None,
        }
    }
}

impl Job {
    /// Sets `needs`.
    pub fn needs(self, value: Vec<String>) -> (r: Self)
        ensures
            r == (Job { needs: Some(value), ..self }),
    {
        Job { needs: Some(value), ..self }
    }

    /// Sets `cond`.
    pub fn cond(self, value: Expression) -> (r: Self)
        ensures
            r == (Job { cond: Some(value), ..self }),
    {
        Job { cond: Some(value), ..self }
    }

    /// Sets `name`.
    pub fn name(self, value: String) -> (r: Self)
        ensures
            r == (Job { name: Some(value), ..self }),
    {
        Job { name: Some(value), ..self }
    }

    /// Sets `runs_on`.
    pub fn runs_on(self, value: RunsOn) -> (r: Self)
        ensures
            r == (Job { runs_on: Some(value), ..self }),
    {
        Job { runs_on: Some(value), ..self }
    }

    /// Sets `permissions`.
    pub fn permissions(self, value: Permissions) -> (r: Self)
        ensures
            r == (Job { permissions: Some(value), ..self }),
    {
        Job { permissions: Some(value), ..self }
    }

    /// Sets `env`.
    pub fn env(self, value: Env) -> (r: Self)
        ensures
            r == (Job { env: Some(value), ..self }),
    {
        Job { env: Some(value), ..self }
    }

    /// Sets `strategy`.
    pub fn strategy(self, value: Strategy) -> (r: Self)
        ensures
            r == (Job { strategy: Some(value), ..self }),
    {
        Job { strategy: Some(value), ..self }
    }

    /// Sets `steps`.
    pub fn steps(self, value: Vec<StepValue>) -> (r: Self)
        ensures
            r == (Job { steps: Some(value), ..self }),
    {
        Job { steps: Some(value), ..self }
    }

    /// Sets `uses`.
    pub fn uses(self, value: String) -> (r: Self)
        ensures
            r == (Job { uses: Some(value), ..self }),
    {
        Job { uses: Some(value), ..self }
    }

    /// Sets `container`.
    pub fn container(self, value: Container) -> (r: Self)
        ensures
            r == (Job { container: Some(value), ..self }),
    {
        Job { container: Some(value), ..self }
    }

    /// Sets `outputs`.
    pub fn outputs(self, value: Outputs) -> (r: Self)
        ensures
            r == (Job { outputs: Some(value), ..self }),
    {
        Job { outputs: Some(value), ..self }
    }

    /// Sets `concurrency`.
    pub fn concurrency(self, value: Concurrency) -> (r: Self)
        ensures
            r == (Job { concurrency: Some(value), ..self }),
    {
        Job { concurrency: Some(value), ..self }
    }

    /// Sets `timeout_minutes`.
    pub fn timeout_minutes(self, value: u32) -> (r: Self)
        ensures
            r == (Job { timeout_minutes: Some(value), ..self }),
    {
        Job { timeout_minutes: Some(value), ..self }
    }

    /// Sets `services`.
    pub fn services(self, value: Services) -> (r: Self)
        ensures
            r == (Job { services: Some(value), ..self }),
    {
        Job { services: Some(value), ..self }
    }

    /// Sets `secrets`.
    pub fn secrets(self, value: Secrets) -> (r: Self)
        ensures
            r == (Job { secrets: Some(value), ..self }),
    {
        Job { secrets: Some(value), ..self }
    }

    /// Sets `defaults`.
    pub fn defaults(self, value: Defaults) -> (r: Self)
        ensures
            r == (Job { defaults: Some(value), ..self }),
    {
        Job { defaults: Some(value), ..self }
    }

    /// Sets `continue_on_error`.
    pub fn continue_on_error(self, value: bool) -> (r: Self)
        ensures
            r == (Job { continue_on_error: Some(value), ..self }),
    {
        Job { continue_on_error: Some(value), ..self }
    }

    /// Sets `retry`.
    pub fn retry(self, value: RetryStrategy) -> (r: Self)
        ensures
            r == (Job { retry: Some(value), ..self }),
    {
        Job { retry: Some(value), ..self }
    }

    /// Sets `artifacts`.
    pub fn artifacts(self, value: Artifacts) -> (r: Self)
        ensures
            r == (Job { artifacts: Some(value), ..self }),
    {
        Job { artifacts: Some(value), ..self }
    }
}

/// The content of a [`Job`].
pub struct JobView {
    pub needs: Option<Seq<Seq<char>>>,
    pub tmp_needs: Option<Seq<JobView>>,
    pub cond: Option<Seq<char>>,
    pub name: Option<Seq<char>>,
    pub runs_on: Option<ValueView>,
    pub permissions: Option<PermissionsView>,
    pub env: Option<Map<Seq<char>, ValueView>>,
    pub strategy: Option<StrategyView>,
    pub steps: Option<Seq<StepValueView>>,
    pub uses: Option<Seq<char>>,
    pub container: Option<ContainerView>,
    pub outputs: Option<Map<Seq<char>, Seq<char>>>,
    pub concurrency: Option<ConcurrencyView>,
    pub timeout_minutes: Option<u32>,
    pub services: Option<Map<Seq<char>, ContainerView>>,
    pub secrets: Option<Map<Seq<char>, SecretView>>,
    pub defaults: Option<DefaultsView>,
    pub continue_on_error: Option<bool>,
    pub retry: Option<RetryStrategyView>,
    pub artifacts: Option<ArtifactsView>,
}

/// The content of a job: the content of each field, and of each pending
/// dependency in turn.
pub open spec fn job_view(j: Job) -> JobView
    decreases j,
{
    JobView {
        needs: j.needs.deep_view(),
        tmp_needs: match j.tmp_needs {
            Some(v) => Some(
                Seq::new(
                    v@.len(),
                    |i: int|
                        if 0 <= i < v@.len() {
                            job_view(v@[i])
                        } else {
                            arbitrary()
                        },
                ),
            ),
            None => None,
        },
        cond: j.cond.deep_view(),
        name: j.name.deep_view(),
        runs_on: j.runs_on.deep_view(),
        permissions: j.permissions.deep_view(),
        env: j.env.deep_view(),
        strategy: j.strategy.deep_view(),
        steps: j.steps.deep_view(),
        uses: j.uses.deep_view(),
        container: j.container.deep_view(),
        outputs: j.outputs.deep_view(),
        concurrency: j.concurrency.deep_view(),
        timeout_minutes: j.timeout_minutes.deep_view(),
        services: j.services.deep_view(),
        secrets: j.secrets.deep_view(),
        defaults: j.defaults.deep_view(),
        continue_on_error: j.continue_on_error.deep_view(),
        retry: j.retry.deep_view(),
        artifacts: j.artifacts.deep_view(),
    }
}

impl DeepView for Job {
    type V = JobView;

    open spec fn deep_view(&self) -> JobView {
        job_view(*self)
    }
}

/// The pending dependencies of a job have the contents of the jobs in the
/// list.
pub proof fn pending_content(j: Job)
    ensures
        j.deep_view().tmp_needs == j.tmp_needs.deep_view(),
{
    match j.tmp_needs {
        Some(v) => {
            assert(j.deep_view().tmp_needs->0 =~= v.deep_view());
        },
        None => {},
    }
}

impl Job {
    fn copy_list(list: &Vec<Job>) -> (r: Vec<Job>)
        ensures
            r.deep_view() == list.deep_view(),
        decreases list, 0nat,
    {
        let mut out: Vec<Job> = Vec::new();
        let mut i: usize = 0;
        while i < list.len()
            invariant
                i <= list.len(),
                out.len() == i,
                forall|k: int| 0 <= k < i ==> (#[trigger] out@[k]).deep_view() == list@[k].deep_view(),
            decreases list.len() - i,
        {
            proof {
                assert(decreases_to!(*list => list@));
                assert(decreases_to!(list@ => list@[i as int]));
            }
            out.push(list[i].copy());
            i = i + 1;
        }
        assert(out.deep_view() =~= list.deep_view());
        out
    }

    fn copy(&self) -> (r: Job)
        ensures
            r.deep_view() == self.deep_view(),
        decreases self, 1nat,
    {
        let tmp_needs = match &self.tmp_needs {
            Some(v) => {
                proof {
                    assert(decreases_to!(self => self.tmp_needs));
                    assert(decreases_to!(self.tmp_needs => self.tmp_needs->Some_0));
                }
                Some(Job::copy_list(v))
            },
            None => None,
        };
        let r = Job {
            needs: self.needs.duplicate(),
            tmp_needs,
            cond: self.cond.duplicate(),
            name: self.name.duplicate(),
            runs_on: self.runs_on.duplicate(),
            permissions: self.permissions.duplicate(),
            env: self.env.duplicate(),
            strategy: self.strategy.duplicate(),
            steps: self.steps.duplicate(),
            uses: self.uses.duplicate(),
            container: self.container.duplicate(),
            outputs: self.outputs.duplicate(),
            concurrency: self.concurrency.duplicate(),
            timeout_minutes: self.timeout_minutes.duplicate(),
            services: self.services.duplicate(),
            secrets: self.secrets.duplicate(),
            defaults: self.defaults.duplicate(),
            continue_on_error: self.continue_on_error.duplicate(),
            retry: self.retry.duplicate(),
            artifacts: self.artifacts.duplicate(),
        };
        proof {
            pending_content(r);
            pending_content(*self);
        }
        r
    }

    fn same_list(a: &Vec<Job>, b: &Vec<Job>) -> (r: bool)
        ensures
            r == (a.deep_view() == b.deep_view()),
        decreases a, 0nat,
    {
        if a.len() != b.len() {
            assert(a.deep_view().len() != b.deep_view().len());
            return false;
        }
        let mut i: usize = 0;
        while i < a.len()
            invariant
                i <= a.len(),
                a.len() == b.len(),
                forall|k: int| 0 <= k < i ==> (#[trigger] a@[k]).deep_view() == b@[k].deep_view(),
            decreases a.len() - i,
        {
            proof {
                assert(decreases_to!(*a => a@));
                assert(decreases_to!(a@ => a@[i as int]));
            }
            if !a[i].equals(&b[i]) {
                assert(a.deep_view()[i as int] != b.deep_view()[i as int]);
                return false;
            }
            i = i + 1;
        }
        assert(a.deep_view() =~= b.deep_view());
        true
    }

    fn equals(&self, other: &Job) -> (r: bool)
        ensures
            r == (self.deep_view() == other.deep_view()),
        decreases self, 1nat,
    {
        proof {
            pending_content(*self);
            pending_content(*other);
        }
        let pending = match (&self.tmp_needs, &other.tmp_needs) {
            (Some(a), Some(b)) => {
                proof {
                    assert(decreases_to!(self => self.tmp_needs));
                    assert(decreases_to!(self.tmp_needs => self.tmp_needs->Some_0));
                }
                Job::same_list(a, b)
            },
            (None, None) => true,
            _ => false,
        };
        pending
            && self.needs.same(&other.needs)
            && self.cond.same(&other.cond)
            && self.name.same(&other.name)
            && self.runs_on.same(&other.runs_on)
            && self.permissions.same(&other.permissions)
            && self.env.same(&other.env)
            && self.strategy.same(&other.strategy)
            && self.steps.same(&other.steps)
            && self.uses.same(&other.uses)
            && self.container.same(&other.container)
            && self.outputs.same(&other.outputs)
            && self.concurrency.same(&other.concurrency)
            && self.timeout_minutes.same(&other.timeout_minutes)
            && self.services.same(&other.services)
            && self.secrets.same(&other.secrets)
            && self.defaults.same(&other.defaults)
            && self.continue_on_error.same(&other.continue_on_error)
            && self.retry.same(&other.retry)
            && self.artifacts.same(&other.artifacts)
    }
}

impl Clone for Job {
    fn clone(&self) -> (r: Job)
        ensures
            r.deep_view() == self.deep_view(),
    {
        self.copy()
    }
}

impl Data for Job {
    fn duplicate(&self) -> (r: Job) {
        self.copy()
    }

    fn same(&self, other: &Job) -> (r: bool) {
        self.equals(other)
    }
}

/// The runner of a job: a label, or whatever else selects one.
#[derive(Debug, Clone, PartialEq, Eq)]
pub struct RunsOn(pub Value);

impl DeepView for RunsOn {
    type V = ValueView;

    open spec fn deep_view(&self) -> ValueView {
        self.0.deep_view()
    }
}

impl Data for RunsOn {
    fn duplicate(&self) -> (r: Self) {
        RunsOn(self.0.duplicate())
    }

    fn same(&self, other: &Self) -> (r: bool) {
        self.0.same(&other.0)
    }
}

impl RunsOn {
    /// The runner selected by `value`.
    pub fn from_value(value: Value) -> (r: RunsOn)
        ensures
            r.0 == value,
    {
        RunsOn(value)
    }

    /// The runner with the label `label`.
    pub fn label(label: &str) -> (r: RunsOn)
        ensures
            r.deep_view() == ValueView::String(label@),
    {
        RunsOn(Value::text(label))
    }
}

/// The list that an open field stands for: its own, or the empty one.
pub open spec fn list_or_empty<T>(list: Option<Vec<T>>) -> Seq<T> {
    match list {
        Some(v) => v@,
        None => Seq::empty(),
    }
}

/// The job with `step` as its last step.
pub open spec fn with_step(job: JobView, step: StepValueView) -> JobView {
    JobView {
        steps: Some(
            (match job.steps {
                Some(s) => s,
                None => Seq::empty(),
            }).push(step),
        ),
        ..job
    }
}

/// The job with the identifier `id` as its last dependency.
pub open spec fn with_need(job: JobView, id: Seq<char>) -> JobView {
    JobView {
        needs: Some(
            (match job.needs {
                Some(n) => n,
                None => Seq::empty(),
            }).push(id),
        ),
        ..job
    }
}

/// The job named `name` that runs on `ubuntu-latest`, with nothing else
/// said of it.
pub open spec fn new_job(name: Seq<char>) -> JobView {
    JobView {
        name: Some(name),
        runs_on: Some(ValueView::String("ubuntu-latest"@)),
        ..Job::default_spec().deep_view()
    }
}

impl Job {
    /// A job named `name` that runs on `ubuntu-latest`.
    pub fn new(name: &str) -> (r: Self)
        ensures
            r.deep_view() == new_job(name@),
            r.name is Some,
            r.name->0@ == name@,
            r.runs_on is Some,
            r.runs_on->0.deep_view() == ValueView::String("ubuntu-latest"@),
            r == (Job { name: r.name, runs_on: r.runs_on, ..Job::default_spec() }),
    {
        Job {
            name: Some(String::from_str(name)),
            runs_on: Some(RunsOn::label("ubuntu-latest")),
            ..Job::default()
        }
    }

    /// This job with what `step` becomes as its last step.
    pub fn add_step<T: StepType>(self, step: Step<T>) -> (r: Self)
        ensures
            r.deep_view() == with_step(self.deep_view(), T::as_value(step)),
            r.steps is Some,
            r.steps->0.deep_view() == list_or_empty(self.steps).map_values(
                |s: StepValue| s.deep_view(),
            ).push(T::as_value(step)),
            r == (Job { steps: r.steps, ..self }),
    {
        let ghost before = list_or_empty(self.steps);
        let ghost start = self;
        let mut job = self;
        let mut steps = match job.steps.take() {
            Some(s) => s,
            None => Vec::new(),
        };
        let value = T::to_value(step);
        steps.push(value);
        assert(steps.deep_view() =~= before.map_values(|s: StepValue| s.deep_view()).push(
            T::as_value(step),
        ));
        job.steps = Some(steps);
        proof {
            assert((match start.deep_view().steps {
                Some(s) => s,
                None => Seq::empty(),
            }) =~= before.map_values(|s: StepValue| s.deep_view()));
            pending_content(start);
            pending_content(job);
        }
        job
    }

    /// This job with each variable of `new_env` set in its environment,
    /// which is empty where the job has none yet.
    pub fn add_env(self, new_env: Env) -> (r: Self)
        ensures
            r.env is Some,
            r.env->0.entries() == put_all(
                match self.env {
                    Some(e) => e.entries(),
                    None => Seq::empty(),
                },
                new_env.entries(),
            ),
            r == (Job { env: r.env, ..self }),
    {
        let mut job = self;
        let env = match job.env.take() {
            Some(e) => e,
            None => Env::default(),
        };
        job.env = Some(env.extend(new_env));
        job
    }

    /// This job with `job` as its last pending dependency: a job given by
    /// value, which must finish before this one.
    pub fn add_needs(self, job: Job) -> (r: Self)
        ensures
            r.tmp_needs is Some,
            r.tmp_needs->0@ == list_or_empty(self.tmp_needs).push(job),
            r == (Job { tmp_needs: r.tmp_needs, ..self }),
    {
        let mut this = self;
        let mut pending = match this.tmp_needs.take() {
            Some(p) => p,
            None => Vec::new(),
        };
        pending.push(job);
        this.tmp_needs = Some(pending);
        this
    }

    /// This job with the identifier `job_id` as its last dependency.
    pub fn add_need(self, job_id: &str) -> (r: Self)
        ensures
            r.deep_view() == with_need(self.deep_view(), job_id@),
            r.needs is Some,
            r.needs->0.deep_view() == list_or_empty(self.needs).map_values(|s: String| s@).push(
                job_id@,
            ),
            r == (Job { needs: r.needs, ..self }),
    {
        let ghost before = list_or_empty(self.needs);
        let ghost start = self;
        let mut this = self;
        let mut needs = match this.needs.take() {
            Some(n) => n,
            None => Vec::new(),
        };
        needs.push(String::from_str(job_id));
        assert(needs.deep_view() =~= before.map_values(|s: String| s@).push(job_id@));
        this.needs = Some(needs);
        proof {
            assert((match start.deep_view().needs {
                Some(n) => n,
                None => Seq::empty(),
            }) =~= before.map_values(|s: String| s@));
            pending_content(start);
            pending_content(this);
        }
        this
    }
}

/// The machine that runs a job.
#[derive(Debug, Clone, PartialEq, Eq)]
pub enum Runner {
    /// The newest Linux machine.
    Linux,
    /// The newest macOS machine.
    MacOS,
    /// The newest Windows machine.
    Windows,
    /// The machine with the given label.
    Custom(String),
}

impl Default for Runner {
    fn default() -> (r: Self)
        ensures
            r is Linux,
    {
        Runner::Linux
    }
}

} // verus!
