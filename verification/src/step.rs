//! Steps of a job.
//!
//! A [`StepValue`] is what the workflow document says of a step. A [`Step`]
//! is a step under construction, with a marker for the kind of step that it
//! will become: one that runs a command or one that uses an action.

use vstd::prelude::*;
use indexmap::IndexMap;
use crate::artifacts::Artifacts;
use crate::artifacts::ArtifactsView;
use crate::combine::merge_option;
use crate::combine::merged;
use crate::data::Data;
use crate::defaults::RetryStrategy;
use crate::defaults::RetryStrategyView;
use crate::env::Env;
use crate::expression::Expression;
use crate::ordered::as_map;
use crate::ordered::copy_values;
use crate::ordered::put;
use crate::ordered::put_all;
use crate::ordered::same_values;
use crate::ordered::value_entries;
use crate::ordered::value_map_extend;
use crate::ordered::value_map_insert;
use crate::ordered::value_map_len;
use crate::ordered::value_map_new;
use crate::ordered::Entries;
use crate::private::Sealed;
use crate::value::Value;
use crate::value::ValueView;

verus! {

/// What a workflow says of one step.
#[derive(Debug, Clone, PartialEq, Eq)]
pub struct StepValue {
    /// The identifier of the step.
    pub id: Option<String>,
    /// The name of the step.
    pub name: Option<String>,
    /// The condition under which the step runs.
    pub if_condition: Option<Expression>,
    /// The action that the step uses.
    pub uses: Option<String>,
    /// The inputs of the action.
    pub with: Option<Input>,
    /// The command that the step runs.
    pub run: Option<String>,
    /// The shell that runs the command.
    pub shell: Option<String>,
    /// The environment variables of the step.
    pub env: Option<Env>,
    /// The minutes after which the step is stopped.
    pub timeout_minutes: Option<u32>,
    /// Whether the job goes on when the step fails.
    pub continue_on_error: Option<bool>,
    /// The directory in which the step runs.
    pub working_directory: Option<String>,
    /// How the step is tried again.
    pub retry: Option<RetryStrategy>,
    /// The artifacts of the step.
    pub artifacts: Option<Artifacts>,
}

/// The content of a [`StepValue`].
pub struct StepValueView {
    pub id: Option<Seq<char>>,
    pub name: Option<Seq<char>>,
    pub if_condition: Option<Seq<char>>,
    pub uses: Option<Seq<char>>,
    pub with: Option<Map<Seq<char>, ValueView>>,
    pub run: Option<Seq<char>>,
    pub shell: Option<Seq<char>>,
    pub env: Option<Map<Seq<char>, ValueView>>,
    pub timeout_minutes: Option<u32>,
    pub continue_on_error: Option<bool>,
    pub working_directory: Option<Seq<char>>,
    pub retry: Option<RetryStrategyView>,
    pub artifacts: Option<ArtifactsView>,
}

impl DeepView for StepValue {
    type V = StepValueView;

    open spec fn deep_view(&self) -> StepValueView {
        StepValueView {
            id: self.id.deep_view(),
            name: self.name.deep_view(),
            if_condition: self.if_condition.deep_view(),
            uses: self.uses.deep_view(),
            with: self.with.deep_view(),
            run: self.run.deep_view(),
            shell: self.shell.deep_view(),
            env: self.env.deep_view(),
            timeout_minutes: self.timeout_minutes.deep_view(),
            continue_on_error: self.continue_on_error.deep_view(),
            working_directory: self.working_directory.deep_view(),
            retry: self.retry.deep_view(),
            artifacts: self.artifacts.deep_view(),
        }
    }
}

impl Data for StepValue {
    fn duplicate(&self) -> (r: Self) {
        StepValue {
            id: self.id.duplicate(),
            name: self.name.duplicate(),
            if_condition: self.if_condition.duplicate(),
            uses: self.uses.duplicate(),
            with: self.with.duplicate(),
            run: self.run.duplicate(),
            shell: self.shell.duplicate(),
            env: self.env.duplicate(),
            timeout_minutes: self.timeout_minutes.duplicate(),
            continue_on_error: self.continue_on_error.duplicate(),
            working_directory: self.working_directory.duplicate(),
            retry: self.retry.duplicate(),
            artifacts: self.artifacts.duplicate(),
        }
    }

    fn same(&self, other: &Self) -> (r: bool) {
        self.id.same(&other.id)
            && self.name.same(&other.name)
            && self.if_condition.same(&other.if_condition)
            && self.uses.same(&other.uses)
            && self.with.same(&other.with)
            && self.run.same(&other.run)
            && self.shell.same(&other.shell)
            && self.env.same(&other.env)
            && self.timeout_minutes.same(&other.timeout_minutes)
            && self.continue_on_error.same(&other.continue_on_error)
            && self.working_directory.same(&other.working_directory)
            && self.retry.same(&other.retry)
            && self.artifacts.same(&other.artifacts)
    }
}

impl StepValue {
    /// The step value of which nothing is said.
    pub open spec fn default_spec() -> StepValue {
        StepValue {
            id: None,
            name: None,
            if_condition: None,
            uses: None,
            with: None,
            run: None,
            shell: None,
            env: None,
            timeout_minutes: None,
            continue_on_error: None,
            working_directory: None,
            retry: None,
            artifacts: None,
        }
    }
}

impl Default for StepValue {
    fn default() -> (r: Self)
        ensures
            r == StepValue::default_spec(),
    {
        StepValue {
            id: None,
            name: None,
            if_condition: None,
            uses: None,
            with: None,
            run: None,
            shell: None,
            env: None,
            timeout_minutes: None,
            continue_on_error: None,
            working_directory: None,
            retry: None,
            artifacts: None,
        }
    }
}

impl StepValue {
    /// Sets `id`.
    pub fn id(self, value: String) -> (r: Self)
        ensures
            r == (StepValue { id: Some(value), ..self }),
    {
        StepValue { id: Some(value), ..self }
    }

    /// Sets `name`.
    pub fn name(self, value: String) -> (r: Self)
        ensures
            r == (StepValue { name: Some(value), ..self }),
    {
        StepValue { name: Some(value), ..self }
    }

    /// Sets `if_condition`.
    pub fn if_condition(self, value: Expression) -> (r: Self)
        ensures
            r == (StepValue { if_condition: Some(value), ..self }),
    {
        StepValue { if_condition: Some(value), ..self }
    }

    /// Sets `with`.
    pub fn with(self, value: Input) -> (r: Self)
        ensures
            r == (StepValue { with: Some(value), ..self }),
    {
        StepValue { with: Some(value), ..self }
    }

    /// Sets `shell`.
    pub fn shell(self, value: String) -> (r: Self)
        ensures
            r == (StepValue { shell: Some(value), ..self }),
    {
        StepValue { shell: Some(value), ..self }
    }

    /// Sets `env`.
    pub fn env(self, value: Env) -> (r: Self)
        ensures
            r == (StepValue { env: Some(value), ..self }),
    {
        StepValue { env: Some(value), ..self }
    }

    /// Sets `timeout_minutes`.
    pub fn timeout_minutes(self, value: u32) -> (r: Self)
        ensures
            r == (StepValue { timeout_minutes: Some(value), ..self }),
    {
        StepValue { timeout_minutes: Some(value), ..self }
    }

    /// Sets `continue_on_error`.
    pub fn continue_on_error(self, value: bool) -> (r: Self)
        ensures
            r == (StepValue { continue_on_error: Some(value), ..self }),
    {
        StepValue { continue_on_error: Some(value), ..self }
    }

    /// Sets `working_directory`.
    pub fn working_directory(self, value: String) -> (r: Self)
        ensures
            r == (StepValue { working_directory: Some(value), ..self }),
    {
        StepValue { working_directory: Some(value), ..self }
    }

    /// Sets `retry`.
    pub fn retry(self, value: RetryStrategy) -> (r: Self)
        ensures
            r == (StepValue { retry: Some(value), ..self }),
    {
        StepValue { retry: Some(value), ..self }
    }

    /// Sets `artifacts`.
    pub fn artifacts(self, value: Artifacts) -> (r: Self)
        ensures
            r == (StepValue { artifacts: Some(value), ..self }),
    {
        StepValue { artifacts: Some(value), ..self }
    }
}

/// The inputs of an action, in the order in which they were first set.
#[derive(Debug, PartialEq, Eq)]
pub struct Input(pub IndexMap<String, Value>);

impl DeepView for Input {
    type V = Map<Seq<char>, ValueView>;

    open spec fn deep_view(&self) -> Map<Seq<char>, ValueView> {
        as_map(self.entries())
    }
}

impl Input {
    /// The inputs with their values, in order.
    pub open spec fn entries(&self) -> Entries<ValueView> {
        value_entries(self.0)
    }

    /// These inputs with `key` set to `value`: an input that is present
    /// keeps its place, a new one goes to the end.
    pub fn add(self, key: &str, value: Value) -> (r: Input)
        ensures
            r.entries() == put(self.entries(), key@, value.deep_view()),
    {
        let mut map = self.0;
        value_map_insert(&mut map, String::from_str(key), value);
        Input(map)
    }

    /// Whether there is no input.
    pub fn is_empty(&self) -> (r: bool)
        ensures
            r == (self.entries().len() == 0),
    {
        value_map_len(&self.0) == 0
    }

    /// Sets each input of `other`, in `other`'s order.
    pub fn merge(&mut self, other: Input)
        ensures
            final(self).entries() == put_all(old(self).entries(), other.entries()),
    {
        value_map_extend(&mut self.0, other.0);
    }

    /// The one input `key` with the text `value`.
    pub fn from_pair(key: &str, value: &str) -> (r: Input)
        ensures
            r.entries() == seq![(key@, ValueView::String(value@))],
    {
        let r = Input::default().add(key, Value::text(value));
        assert(r.entries() =~= seq![(key@, ValueView::String(value@))]);
        r
    }
}

impl Default for Input {
    fn default() -> (r: Input)
        ensures
            r.entries() == Seq::<(Seq<char>, ValueView)>::empty(),
    {
        Input(value_map_new())
    }
}

impl Data for Input {
    fn duplicate(&self) -> (r: Input)
        ensures
            r.entries() == self.entries(),
    {
        Input(copy_values(&self.0))
    }

    fn same(&self, other: &Input) -> (r: bool) {
        same_values(&self.0, &other.0)
    }
}

impl Clone for Input {
    fn clone(&self) -> (r: Input)
        ensures
            r.entries() == self.entries(),
    {
        self.duplicate()
    }
}

/// The reference to version `version` of the action `repo` of `owner`.
pub open spec fn action_ref(owner: Seq<char>, repo: Seq<char>, version: Seq<char>) -> Seq<char> {
    owner + "/"@ + repo + "@"@ + version
}

impl StepValue {
    /// A step that runs the shell command `cmd`.
    pub fn run(cmd: &str) -> (r: Self)
        ensures
            r.run is Some,
            r.run->0@ == cmd@,
            r == (StepValue { run: r.run, ..StepValue::default_spec() }),
    {
        StepValue { run: Some(String::from_str(cmd)), ..StepValue::default() }
    }

    /// A step that uses version `version` of the action `repo` of `owner`.
    pub fn uses(owner: &str, repo: &str, version: &str) -> (r: Self)
        ensures
            r.uses is Some,
            r.uses->0@ == action_ref(owner@, repo@, version@),
            r == (StepValue { uses: r.uses, ..StepValue::default_spec() }),
    {
        let mut text = String::from_str(owner);
        text.append("/");
        text.append(repo);
        text.append("@");
        text.append(version);
        StepValue { uses: Some(text), ..StepValue::default() }
    }

    /// What merging `other` into `this` gives: each field that `this` leaves
    /// open is taken from `other`.
    pub open spec fn merged_with(this: StepValue, other: StepValue) -> StepValue {
        StepValue {
            id: merged(this.id, other.id),
            name: merged(this.name, other.name),
            if_condition: merged(this.if_condition, other.if_condition),
            uses: merged(this.uses, other.uses),
            with: merged(this.with, other.with),
            run: merged(this.run, other.run),
            shell: merged(this.shell, other.shell),
            env: merged(this.env, other.env),
            timeout_minutes: merged(this.timeout_minutes, other.timeout_minutes),
            continue_on_error: merged(this.continue_on_error, other.continue_on_error),
            working_directory: merged(this.working_directory, other.working_directory),
            retry: merged(this.retry, other.retry),
            artifacts: merged(this.artifacts, other.artifacts),
        }
    }

    /// Fills each field that is open from `other`.
    pub fn merge(&mut self, other: StepValue)
        ensures
            *final(self) == StepValue::merged_with(*old(self), other),
    {
        merge_option(&mut self.id, other.id);
        merge_option(&mut self.name, other.name);
        merge_option(&mut self.if_condition, other.if_condition);
        merge_option(&mut self.uses, other.uses);
        merge_option(&mut self.with, other.with);
        merge_option(&mut self.run, other.run);
        merge_option(&mut self.shell, other.shell);
        merge_option(&mut self.env, other.env);
        merge_option(&mut self.timeout_minutes, other.timeout_minutes);
        merge_option(&mut self.continue_on_error, other.continue_on_error);
        merge_option(&mut self.working_directory, other.working_directory);
        merge_option(&mut self.retry, other.retry);
        merge_option(&mut self.artifacts, other.artifacts);
    }
}

/// The marker of a step that uses an action.
#[derive(Debug, Clone, Default, PartialEq, Eq)]
pub struct Use;

/// The marker of a step that runs a command.
#[derive(Debug, Clone, Default, PartialEq, Eq)]
pub struct Run;

/// A step under construction; `A` marks the kind of step.
#[derive(Debug, Clone, PartialEq, Eq)]
pub struct Step<A> {
    /// What the workflow will say of the step.
    pub value: StepValue,
    /// The kind of step.
    pub marker: A,
}

/// A kind of step: it says what a step of its kind becomes in the
/// workflow.
pub trait StepType: Sized + Sealed {
    /// The content of what `s` becomes.
    spec fn as_value(s: Step<Self>) -> StepValueView;

    /// What `s` becomes in the workflow.
    fn to_value(s: Step<Self>) -> (r: StepValue)
        ensures
            r.deep_view() == Self::as_value(s),
    ;
}

impl Sealed for Run {
}

impl Sealed for Use {
}

impl StepType for Run {
    open spec fn as_value(s: Step<Self>) -> StepValueView {
        s.value.deep_view()
    }

    fn to_value(s: Step<Self>) -> (r: StepValue) {
        s.value
    }
}

impl StepType for Use {
    open spec fn as_value(s: Step<Self>) -> StepValueView {
        s.value.deep_view()
    }

    fn to_value(s: Step<Self>) -> (r: StepValue) {
        s.value
    }
}

impl<A> Step<A> {
    /// Sets `id` of the step.
    pub fn id(self, value: String) -> (r: Self)
        ensures
            r == (Step { value: StepValue { id: Some(value), ..self.value }, marker: self.marker }),
    {
        Step { value: self.value.id(value), marker: self.marker }
    }

    /// Sets `name` of the step.
    pub fn name(self, value: String) -> (r: Self)
        ensures
            r == (Step { value: StepValue { name: Some(value), ..self.value }, marker: self.marker }),
    {
        Step { value: self.value.name(value), marker: self.marker }
    }

    /// Sets `if_condition` of the step.
    pub fn if_condition(self, value: Expression) -> (r: Self)
        ensures
            r == (Step { value: StepValue { if_condition: Some(value), ..self.value }, marker: self.marker }),
    {
        Step { value: self.value.if_condition(value), marker: self.marker }
    }

    /// Sets `with` of the step.
    pub fn with(self, value: Input) -> (r: Self)
        ensures
            r == (Step { value: StepValue { with: Some(value), ..self.value }, marker: self.marker }),
    {
        Step { value: self.value.with(value), marker: self.marker }
    }

    /// Sets `shell` of the step.
    pub fn shell(self, value: String) -> (r: Self)
        ensures
            r == (Step { value: StepValue { shell: Some(value), ..self.value }, marker: self.marker }),
    {
        Step { value: self.value.shell(value), marker: self.marker }
    }

    /// Sets `env` of the step.
    pub fn env(self, value: Env) -> (r: Self)
        ensures
            r == (Step { value: StepValue { env: Some(value), ..self.value }, marker: self.marker }),
    {
        Step { value: self.value.env(value), marker: self.marker }
    }

    /// Sets `timeout_minutes` of the step.
    pub fn timeout_minutes(self, value: u32) -> (r: Self)
        ensures
            r == (Step { value: StepValue { timeout_minutes: Some(value), ..self.value }, marker: self.marker }),
    {
        Step { value: self.value.timeout_minutes(value), marker: self.marker }
    }

    /// Sets `continue_on_error` of the step.
    pub fn continue_on_error(self, value: bool) -> (r: Self)
        ensures
            r == (Step { value: StepValue { continue_on_error: Some(value), ..self.value }, marker: self.marker }),
    {
        Step { value: self.value.continue_on_error(value), marker: self.marker }
    }

    /// Sets `working_directory` of the step.
    pub fn working_directory(self, value: String) -> (r: Self)
        ensures
            r == (Step { value: StepValue { working_directory: Some(value), ..self.value }, marker: self.marker }),
    {
        Step { value: self.value.working_directory(value), marker: self.marker }
    }

    /// Sets `retry` of the step.
    pub fn retry(self, value: RetryStrategy) -> (r: Self)
        ensures
            r == (Step { value: StepValue { retry: Some(value), ..self.value }, marker: self.marker }),
    {
        Step { value: self.value.retry(value), marker: self.marker }
    }

    /// Sets `artifacts` of the step.
    pub fn artifacts(self, value: Artifacts) -> (r: Self)
        ensures
            r == (Step { value: StepValue { artifacts: Some(value), ..self.value }, marker: self.marker }),
    {
        Step { value: self.value.artifacts(value), marker: self.marker }
    }

    /// Sets each variable of `new_env` in the environment of the step,
    /// which is empty where the step has none yet.
    pub fn add_env(self, new_env: Env) -> (r: Self)
        ensures
            r.value.env is Some,
            r.value.env->0.entries() == put_all(
                match self.value.env {
                    Some(e) => e.entries(),
                    None => Seq::empty(),
                },
                new_env.entries(),
            ),
            r == (Step { value: StepValue { env: r.value.env, ..self.value }, marker: self.marker }),
    {
        let Step { value, marker } = self;
        let StepValue {
            id,
            name,
            if_condition,
            uses,
            with,
            run,
            shell,
            env,
            timeout_minutes,
            continue_on_error,
            working_directory,
            retry,
            artifacts,
        } = value;
        let env = match env {
            Some(e) => e,
            None => Env::default(),
        };
        let env = env.extend(new_env);
        Step {
            value: StepValue {
                id,
                name,
                if_condition,
                uses,
                with,
                run,
                shell,
                env: Some(env),
                timeout_minutes,
                continue_on_error,
                working_directory,
                retry,
                artifacts,
            },
            marker,
        }
    }
}

impl Step<()> {
    /// A step named `name` whose kind is still open.
    pub fn new(name: &str) -> (r: Self)
        ensures
            r.value.name is Some,
            r.value.name->0@ == name@,
            r.value == (StepValue { name: r.value.name, ..StepValue::default_spec() }),
    {
        Step { value: StepValue::default().name(String::from_str(name)), marker: () }
    }

    /// This step as one that uses version `version` of the action `repo`
    /// of `owner`; an action that the step names already stays.
    pub fn uses(self, owner: &str, repo: &str, version: &str) -> (r: Step<Use>)
        ensures
            r.value.uses is Some,
            self.value.uses is Some ==> r.value.uses == self.value.uses,
            self.value.uses is None ==> r.value.uses->0@ == action_ref(owner@, repo@, version@),
            r.value == (StepValue { uses: r.value.uses, ..self.value }),
    {
        let mut value = self.value;
        value.merge(StepValue::uses(owner, repo, version));
        Step { value, marker: Use }
    }

    /// This step as one that runs the shell command `cmd`; a command that
    /// the step holds already stays.
    pub fn run(self, cmd: &str) -> (r: Step<Run>)
        ensures
            r.value.run is Some,
            self.value.run is Some ==> r.value.run == self.value.run,
            self.value.run is None ==> r.value.run->0@ == cmd@,
            r.value == (StepValue { run: r.value.run, ..self.value }),
    {
        let mut value = self.value;
        value.merge(StepValue::run(cmd));
        Step { value, marker: Run }
    }
}

/// The step that checks the repository out.
pub open spec fn checkout_step() -> StepValueView {
    StepValueView {
        name: Some("Checkout Code"@),
        uses: Some(action_ref("actions"@, "checkout"@, "v5"@)),
        ..StepValue::default_spec().deep_view()
    }
}

/// The step named `name` that uses an action with the inputs `with`.
pub open spec fn action_step(name: Seq<char>, uses: Seq<char>, with: Entries<ValueView>) -> StepValueView {
    StepValueView {
        name: Some(name),
        uses: Some(uses),
        with: if with.len() == 0 {
            None
        } else {
            Some(as_map(with))
        },
        ..StepValue::default_spec().deep_view()
    }
}

impl Step<Run> {
    /// A copy of the step with the same content.
    pub fn duplicate(&self) -> (r: Step<Run>)
        ensures
            r.value.deep_view() == self.value.deep_view(),
    {
        Step { value: self.value.duplicate(), marker: Run }
    }

    /// A step that runs the shell command `cmd`.
    pub fn run(cmd: &str) -> (r: Step<Run>)
        ensures
            r.value.run is Some,
            r.value.run->0@ == cmd@,
            r.value == (StepValue { run: r.value.run, ..StepValue::default_spec() }),
    {
        Step { value: StepValue::run(cmd), marker: Run }
    }
}

impl Step<Use> {
    /// A step that uses version `version` of the action `repo` of `owner`.
    pub fn uses(owner: &str, repo: &str, version: &str) -> (r: Step<Use>)
        ensures
            r.value.uses is Some,
            r.value.uses->0@ == action_ref(owner@, repo@, version@),
            r.value == (StepValue { uses: r.value.uses, ..StepValue::default_spec() }),
    {
        Step { value: StepValue::uses(owner, repo, version), marker: Use }
    }

    /// The step that checks the repository out.
    pub fn checkout() -> (r: Step<Use>)
        ensures
            r.value.deep_view() == checkout_step(),
            r.value.name is Some,
            r.value.name->0@ == "Checkout Code"@,
            r.value.uses is Some,
            r.value.uses->0@ == action_ref("actions"@, "checkout"@, "v5"@),
            r.value == (StepValue {
                name: r.value.name,
                uses: r.value.uses,
                ..StepValue::default_spec()
            }),
    {
        Step::new("Checkout Code").uses("actions", "checkout", "v5")
    }

    /// Sets each input of `new_with` among the inputs of the action; a step
    /// that has no input after that holds none.
    pub fn add_with(self, new_with: Input) -> (r: Self)
        ensures
            ({
                let all = put_all(
                    match self.value.with {
                        Some(w) => w.entries(),
                        None => Seq::empty(),
                    },
                    new_with.entries(),
                );
                if all.len() == 0 {
                    r.value.with is None
                } else {
                    r.value.with is Some && r.value.with->0.entries() == all
                }
            }),
            r == (Step { value: StepValue { with: r.value.with, ..self.value }, marker: self.marker }),
    {
        let Step { value, marker } = self;
        let StepValue {
            id,
            name,
            if_condition,
            uses,
            with,
            run,
            shell,
            env,
            timeout_minutes,
            continue_on_error,
            working_directory,
            retry,
            artifacts,
        } = value;
        let mut with = match with {
            Some(w) => w,
            None => Input::default(),
        };
        with.merge(new_with);
        let with = if with.is_empty() {
            None
        } else {
            Some(with)
        };
        Step {
            value: StepValue {
                id,
                name,
                if_condition,
                uses,
                with,
                run,
                shell,
                env,
                timeout_minutes,
                continue_on_error,
                working_directory,
                retry,
                artifacts,
            },
            marker,
        }
    }
}

} // verus!
