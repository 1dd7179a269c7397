//! Default settings of the jobs of a workflow.

use vstd::prelude::*;
use crate::concurrency::Concurrency;
use crate::concurrency::ConcurrencyView;
use crate::data::Data;

verus! {

/// Defaults of the steps that run a command.
#[derive(Debug, Clone, PartialEq, Eq)]
pub struct RunDefaults {
    /// The shell that runs the commands.
    pub shell: Option<String>,
    /// The directory in which the commands run.
    pub working_directory: Option<String>,
}

/// The content of a [`RunDefaults`].
pub struct RunDefaultsView {
    pub shell: Option<Seq<char>>,
    pub working_directory: Option<Seq<char>>,
}

impl DeepView for RunDefaults {
    type V = RunDefaultsView;

    open spec fn deep_view(&self) -> RunDefaultsView {
        RunDefaultsView {
            shell: self.shell.deep_view(),
            working_directory: self.working_directory.deep_view(),
        }
    }
}

impl Data for RunDefaults {
    fn duplicate(&self) -> (r: Self) {
        RunDefaults {
            shell: self.shell.duplicate(),
            working_directory: self.working_directory.duplicate(),
        }
    }

    fn same(&self, other: &Self) -> (r: bool) {
        self.shell.same(&other.shell)
            && self.working_directory.same(&other.working_directory)
    }
}

impl RunDefaults {
    /// The run defaults of which nothing is said.
    pub open spec fn default_spec() -> RunDefaults {
        RunDefaults {
            shell: None,
            working_directory: None,
        }
    }
}

impl Default for RunDefaults {
    fn default() -> (r: Self)
        ensures
            r == RunDefaults::default_spec(),
    {
        RunDefaults {
            shell: None,
            working_directory: None,
        }
    }
}

impl RunDefaults {
    /// Sets `shell`.
    pub fn shell(self, value: String) -> (r: Self)
        ensures
            r == (RunDefaults { shell: Some(value), ..self }),
    {
        RunDefaults { shell: Some(value), ..self }
    }

    /// Sets `working_directory`.
    pub fn working_directory(self, value: String) -> (r: Self)
        ensures
            r == (RunDefaults { working_directory: Some(value), ..self }),
    {
        RunDefaults { working_directory: Some(value), ..self }
    }
}

/// Defaults of retries.
#[derive(Debug, Clone, PartialEq, Eq)]
pub struct RetryDefaults {
    /// The most attempts.
    pub max_attempts: Option<u32>,
}

/// The content of a [`RetryDefaults`].
pub struct RetryDefaultsView {
    pub max_attempts: Option<u32>,
}

impl DeepView for RetryDefaults {
    type V = RetryDefaultsView;

    open spec fn deep_view(&self) -> RetryDefaultsView {
        RetryDefaultsView {
            max_attempts: self.max_attempts.deep_view(),
        }
    }
}

impl Data for RetryDefaults {
    fn duplicate(&self) -> (r: Self) {
        RetryDefaults {
            max_attempts: self.max_attempts.duplicate(),
        }
    }

    fn same(&self, other: &Self) -> (r: bool) {
        self.max_attempts.same(&other.max_attempts)
    }
}

impl RetryDefaults {
    /// The retry defaults of which nothing is said.
    pub open spec fn default_spec() -> RetryDefaults {
        RetryDefaults {
            max_attempts: None,
        }
    }
}

impl Default for RetryDefaults {
    fn default() -> (r: Self)
        ensures
            r == RetryDefaults::default_spec(),
    {
        RetryDefaults {
            max_attempts: None,
        }
    }
}

/// How a job or a step is tried again.
#[derive(Debug, Clone, PartialEq, Eq)]
pub struct RetryStrategy {
    /// The most attempts.
    pub max_attempts: Option<u32>,
}

/// The content of a [`RetryStrategy`].
pub struct RetryStrategyView {
    pub max_attempts: Option<u32>,
}

impl DeepView for RetryStrategy {
    type V = RetryStrategyView;

    open spec fn deep_view(&self) -> RetryStrategyView {
        RetryStrategyView {
            max_attempts: self.max_attempts.deep_view(),
        }
    }
}

impl Data for RetryStrategy {
    fn duplicate(&self) -> (r: Self) {
        RetryStrategy {
            max_attempts: self.max_attempts.duplicate(),
        }
    }

    fn same(&self, other: &Self) -> (r: bool) {
        self.max_attempts.same(&other.max_attempts)
    }
}

impl RetryStrategy {
    /// The retry strategy of which nothing is said.
    pub open spec fn default_spec() -> RetryStrategy {
        RetryStrategy {
            max_attempts: None,
        }
    }
}

impl Default for RetryStrategy {
    fn default() -> (r: Self)
        ensures
            r == RetryStrategy::default_spec(),
    {
        RetryStrategy {
            max_attempts: None,
        }
    }
}

/// The default settings of jobs.
#[derive(Debug, Clone, PartialEq, Eq)]
pub struct Defaults {
    /// Defaults of the steps that run a command.
    pub run: Option<RunDefaults>,
    /// Defaults of retries.
    pub retry: Option<RetryDefaults>,
    /// Default concurrency settings.
    pub concurrency: Option<Concurrency>,
}

/// The content of a [`Defaults`].
pub struct DefaultsView {
    pub run: Option<RunDefaultsView>,
    pub retry: Option<RetryDefaultsView>,
    pub concurrency: Option<ConcurrencyView>,
}

impl DeepView for Defaults {
    type V = DefaultsView;

    open spec fn deep_view(&self) -> DefaultsView {
        DefaultsView {
            run: self.run.deep_view(),
            retry: self.retry.deep_view(),
            concurrency: self.concurrency.deep_view(),
        }
    }
}

impl Data for Defaults {
    fn duplicate(&self) -> (r: Self) {
        Defaults {
            run: self.run.duplicate(),
            retry: self.retry.duplicate(),
            concurrency: self.concurrency.duplicate(),
        }
    }

    fn same(&self, other: &Self) -> (r: bool) {
        self.run.same(&other.run)
            && self.retry.same(&other.retry)
            && self.concurrency.same(&other.concurrency)
    }
}

impl Defaults {
    /// The defaults of which nothing is said.
    pub open spec fn default_spec() -> Defaults {
        Defaults {
            run: None,
            retry: None,
            concurrency: None,
        }
    }
}

impl Default for Defaults {
    fn default() -> (r: Self)
        ensures
            r == Defaults::default_spec(),
    {
        Defaults {
            run: None,
            retry: None,
            concurrency: None,
        }
    }
}

impl Defaults {
    /// Sets `run`.
    pub fn run(self, value: RunDefaults) -> (r: Self)
        ensures
            r == (Defaults { run: Some(value), ..self }),
    {
        Defaults { run: Some(value), ..self }
    }

    /// Sets `retry`.
    pub fn retry(self, value: RetryDefaults) -> (r: Self)
        ensures
            r == (Defaults { retry: Some(value), ..self }),
    {
        Defaults { retry: Some(value), ..self }
    }

    /// Sets `concurrency`.
    pub fn concurrency(self, value: Concurrency) -> (r: Self)
        ensures
            r == (Defaults { concurrency: Some(value), ..self }),
    {
        Defaults { concurrency: Some(value), ..self }
    }
}

} // verus!
