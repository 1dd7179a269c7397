//! Workflows and their jobs.

use vstd::prelude::*;
use indexmap::IndexMap;
use crate::concurrency::Concurrency;
use crate::data::Data;
use crate::defaults::Defaults;
use crate::env::Env;
use crate::error::Error;
use crate::event::Event;
use crate::job::Job;
use crate::job::JobView;
use crate::ordered::distinct_keys;
use crate::ordered::has_key;
use crate::ordered::position;
use crate::ordered::put;
use crate::ordered::put_all;
use crate::ordered::put_new_key;
use crate::ordered::Entries;
use crate::ordered::Secrets;
use crate::permissions::Permissions;

verus! {

/// A workflow: what runs, and when.
#[derive(Debug, Clone, PartialEq, Eq)]
pub struct Workflow {
    /// The name of the workflow.
    pub name: Option<String>,
    /// The environment variables of all jobs.
    pub envs: Option<Env>,
    /// The name of the runs of the workflow.
    pub run_name: Option<String>,
    /// The events that trigger the workflow.
    pub on: Option<Event>,
    /// The permissions of the token of the workflow.
    pub permissions: Option<Permissions>,
    /// The jobs of the workflow.
    pub jobs: Option<Jobs>,
    /// The concurrency settings of the workflow.
    pub concurrency: Option<Concurrency>,
    /// The defaults of the jobs.
    pub defaults: Option<Defaults>,
    /// The secrets that the workflow asks of its caller.
    pub secrets: Option<Secrets>,
    /// The minutes after which a job is stopped.
    pub timeout_minutes: Option<u32>,
}

impl Workflow {
    /// The workflow of which nothing is said.
    pub open spec fn default_spec() -> Workflow {
        Workflow {
            name: None,
            envs: None,
            run_name: None,
            on: None,
            permissions: None,
            jobs: None,
            concurrency: None,
            defaults: None,
            secrets: None,
            timeout_minutes: None,
        }
    }
}

impl Default for Workflow {
    fn default() -> (r: Self)
        ensures
            r == Workflow::default_spec(),
    {
        Workflow {
            name: None,
            envs: None,
            run_name: None,
            on: None,
            permissions: None,
            jobs: None,
            concurrency: None,
            defaults: None,
            secrets: None,
            timeout_minutes: None,
        }
    }
}

impl Workflow {
    /// Sets `name`.
    pub fn name(self, value: String) -> (r: Self)
        ensures
            r == (Workflow { name: Some(value), ..self }),
    {
        Workflow { name: Some(value), ..self }
    }

    /// Sets `envs`.
    pub fn envs(self, value: Env) -> (r: Self)
        ensures
            r == (Workflow { envs: Some(value), ..self }),
    {
        Workflow { envs: Some(value), ..self }
    }

    /// Sets `run_name`.
    pub fn run_name(self, value: String) -> (r: Self)
        ensures
            r == (Workflow { run_name: Some(value), ..self }),
    {
        Workflow { run_name: Some(value), ..self }
    }

    /// Sets `on`.
    pub fn on(self, value: Event) -> (r: Self)
        ensures
            r == (Workflow { on: Some(value), ..self }),
    {
        Workflow { on: Some(value), ..self }
    }

    /// Sets `permissions`.
    pub fn permissions(self, value: Permissions) -> (r: Self)
        ensures
            r == (Workflow { permissions: Some(value), ..self }),
    {
        Workflow { permissions: Some(value), ..self }
    }

    /// Sets `jobs`.
    pub fn jobs(self, value: Jobs) -> (r: Self)
        ensures
            r == (Workflow { jobs: Some(value), ..self }),
    {
        Workflow { jobs: Some(value), ..self }
    }

    /// Sets `concurrency`.
    pub fn concurrency(self, value: Concurrency) -> (r: Self)
        ensures
            r == (Workflow { concurrency: Some(value), ..self }),
    {
        Workflow { concurrency: Some(value), ..self }
    }

    /// Sets `defaults`.
    pub fn defaults(self, value: Defaults) -> (r: Self)
        ensures
            r == (Workflow { defaults: Some(value), ..self }),
    {
        Workflow { defaults: Some(value), ..self }
    }

    /// Sets `secrets`.
    pub fn secrets(self, value: Secrets) -> (r: Self)
        ensures
            r == (Workflow { secrets: Some(value), ..self }),
    {
        Workflow { secrets: Some(value), ..self }
    }

    /// Sets `timeout_minutes`.
    pub fn timeout_minutes(self, value: u32) -> (r: Self)
        ensures
            r == (Workflow { timeout_minutes: Some(value), ..self }),
    {
        Workflow { timeout_minutes: Some(value), ..self }
    }
}

/// The entries of a map of jobs, in their order, each as key and content.
pub uninterp spec fn job_entries(m: IndexMap<String, Job>) -> Entries<JobView>;

/// `IndexMap::new`: the new map has no entries.
#[verifier::external_body]
pub(crate) fn job_map_new() -> (m: IndexMap<String, Job>)
    ensures
        job_entries(m) == Seq::<(Seq<char>, JobView)>::empty(),
{
    IndexMap::new()
}

/// `IndexMap::len`: the number of entries. A map holds each key once, so
/// the keys of these entries are pairwise distinct.
#[verifier::external_body]
pub(crate) fn job_map_len(m: &IndexMap<String, Job>) -> (n: usize)
    ensures
        n == job_entries(*m).len(),
        forall|i: int, j: int| 0 <= i < j < n ==> job_entries(*m)[i].0 != job_entries(*m)[j].0,
{
    m.len()
}

/// `IndexMap::insert`: where the key is present its entry keeps its place
/// and takes the new value, else the pair becomes the last entry.
#[verifier::external_body]
pub(crate) fn job_map_insert(m: &mut IndexMap<String, Job>, key: String, value: Job)
    ensures
        job_entries(*final(m)) == put(job_entries(*old(m)), key@, value.deep_view()),
{
    m.insert(key, value);
}

/// `IndexMap::get_index`: the entry at position `index`, `None` past the
/// end.
#[verifier::external_body]
pub(crate) fn job_map_get_index(m: &IndexMap<String, Job>, index: usize) -> (r: Option<
    (&String, &Job),
>)
    ensures
        r is Some <==> index < job_entries(*m).len(),
        r matches Some((k, v)) ==> k@ == job_entries(*m)[index as int].0 && v.deep_view()
            == job_entries(*m)[index as int].1,
{
    m.get_index(index)
}

/// `IndexMap::get`: the value stored for `key`, `None` where the key is
/// absent.
#[verifier::external_body]
pub(crate) fn job_map_get<'a>(m: &'a IndexMap<String, Job>, key: &str) -> (r: Option<&'a Job>)
    ensures
        r is Some <==> has_key(job_entries(*m), key@),
        r matches Some(v) ==> v.deep_view() == job_entries(*m)[position(job_entries(*m), key@)].1,
{
    m.get(key)
}

/// The jobs of a workflow by their identifiers, in the order in which the
/// identifiers were first used.
#[derive(Debug, PartialEq, Eq)]
pub struct Jobs(pub IndexMap<String, Job>);

impl Jobs {
    /// The identifiers with the contents of their jobs, in order.
    pub open spec fn entries(&self) -> Entries<JobView> {
        job_entries(self.0)
    }

    /// These jobs with `value` under `key`: a job that is present under the
    /// key is replaced in its place, a new key goes to the end.
    pub fn add(self, key: String, value: Job) -> (r: Self)
        ensures
            r.entries() == put(self.entries(), key@, value.deep_view()),
    {
        let mut map = self.0;
        job_map_insert(&mut map, key, value);
        Jobs(map)
    }

    /// Puts `value` under `key`: a job that is present under the key is
    /// replaced in its place, a new key goes to the end.
    pub fn insert(&mut self, key: String, value: Job)
        ensures
            final(self).entries() == put(old(self).entries(), key@, value.deep_view()),
    {
        job_map_insert(&mut self.0, key, value);
    }

    /// The job under `key`, if there is one.
    pub fn get(&self, key: &str) -> (r: Option<&Job>)
        ensures
            r is Some <==> has_key(self.entries(), key@),
            r matches Some(job) ==> job.deep_view() == self.entries()[position(
                self.entries(),
                key@,
            )].1,
    {
        job_map_get(&self.0, key)
    }

    /// The number of jobs.
    pub fn len(&self) -> (n: usize)
        ensures
            n == self.entries().len(),
            distinct_keys(self.entries()),
    {
        job_map_len(&self.0)
    }

    /// The identifier and the job at position `index`, `None` past the end.
    pub fn get_index(&self, index: usize) -> (r: Option<(&String, &Job)>)
        ensures
            r is Some <==> index < self.entries().len(),
            r matches Some((k, v)) ==> k@ == self.entries()[index as int].0 && v.deep_view()
                == self.entries()[index as int].1,
    {
        job_map_get_index(&self.0, index)
    }

    /// Jobs with the same identifiers and contents in the same order.
    pub fn duplicate(&self) -> (r: Jobs)
        ensures
            r.entries() == self.entries(),
    {
        let n = job_map_len(&self.0);
        let mut out = job_map_new();
        let mut i: usize = 0;
        while i < n
            invariant
                i <= n,
                n == job_entries(self.0).len(),
                distinct_keys(job_entries(self.0)),
                job_entries(out) == job_entries(self.0).take(i as int),
            decreases n - i,
        {
            let ghost all = job_entries(self.0);
            let ghost before = job_entries(out);
            match job_map_get_index(&self.0, i) {
                Some((k, v)) => {
                    proof {
                        assert(!has_key(before, k@)) by {
                            if has_key(before, k@) {
                                let j = choose|j: int|
                                    0 <= j < before.len() && #[trigger] before[j].0 == k@;
                                assert(all[j].0 == all[i as int].0);
                            }
                        }
                        put_new_key(before, k@, v.deep_view());
                        assert(before.push((k@, v.deep_view())) =~= all.take(i + 1));
                    }
                    job_map_insert(&mut out, k.clone(), v.duplicate());
                },
                None => {},
            }
            i = i + 1;
        }
        assert(job_entries(self.0).take(n as int) =~= job_entries(self.0));
        Jobs(out)
    }
}

impl Default for Jobs {
    fn default() -> (r: Jobs)
        ensures
            r.entries() == Seq::<(Seq<char>, JobView)>::empty(),
    {
        Jobs(job_map_new())
    }
}

impl Clone for Jobs {
    fn clone(&self) -> (r: Jobs)
        ensures
            r.entries() == self.entries(),
    {
        self.duplicate()
    }
}

/// What happened to the subject of an event.
#[derive(Debug, Clone, Copy, PartialEq, Eq, Structural)]
pub enum ActivityType {
    /// It was created.
    Created,
    /// It was edited.
    Edited,
    /// It was deleted.
    Deleted,
}

/// The branches of an event that act and those that do not.
#[derive(Debug, Clone, PartialEq, Eq)]
pub struct EventAction {
    /// The branches for which the event acts.
    pub branches: Vec<String>,
    /// The branches for which the event does not act.
    pub branches_ignore: Vec<String>,
}

/// The entries that an open field stands for: its own, or none.
pub open spec fn jobs_or_empty(jobs: Option<Jobs>) -> Entries<JobView> {
    match jobs {
        Some(j) => j.entries(),
        None => Seq::empty(),
    }
}

impl Workflow {
    /// A workflow named `name`.
    pub fn new(name: &str) -> (r: Self)
        ensures
            r.name is Some,
            r.name->0@ == name@,
            r == (Workflow { name: r.name, ..Workflow::default_spec() }),
    {
        Workflow { name: Some(String::from_str(name)), ..Workflow::default() }
    }

    /// This workflow with `job` under the identifier `id`: a job that is
    /// present under the identifier is replaced in its place, a new
    /// identifier goes to the end.
    pub fn add_job(self, id: &str, job: Job) -> (r: Self)
        ensures
            r.jobs is Some,
            r.jobs->0.entries() == put(jobs_or_empty(self.jobs), id@, job.deep_view()),
            r == (Workflow { jobs: r.jobs, ..self }),
    {
        let mut this = self;
        let jobs = match this.jobs.take() {
            Some(j) => j,
            None => Jobs::default(),
        };
        this.jobs = Some(jobs.add(String::from_str(id), job));
        this
    }

    /// This workflow with `job` under the identifier `id`, which must be
    /// free: an identifier that is taken is a failure.
    pub fn add_job_once(self, id: String, job: Job) -> (r: Result<Self, Error>)
        ensures
            has_key(jobs_or_empty(self.jobs), id@) ==> (r matches Err(
                Error::JobIdAlreadyExists(taken),
            ) && taken == id),
            !has_key(jobs_or_empty(self.jobs), id@) ==> (r matches Ok(w) && w.jobs is Some
                && w.jobs->0.entries() == jobs_or_empty(self.jobs).push((id@, job.deep_view()))
                && w == (Workflow { jobs: w.jobs, ..self })),
    {
        let mut this = self;
        let jobs = match this.jobs.take() {
            Some(j) => j,
            None => Jobs::default(),
        };
        if jobs.get(id.as_str()).is_some() {
            return Err(Error::JobIdAlreadyExists(id));
        }
        proof {
            put_new_key(jobs.entries(), id@, job.deep_view());
        }
        this.jobs = Some(jobs.add(id, job));
        Ok(this)
    }

    /// This workflow with the events of `that` among its triggers: an event
    /// that the workflow has already stays as it is.
    pub fn add_event(self, that: Event) -> (r: Self)
        ensures
            r.on == (match self.on {
                Some(this) => Some(Event::merged_with(this, that)),
                None => Some(that),
            }),
            r == (Workflow { on: r.on, ..self }),
    {
        let mut workflow = self;
        match workflow.on.take() {
            Some(this) => {
                let mut this = this;
                this.merge(that);
                workflow.on = Some(this);
            },
            None => {
                workflow.on = Some(that);
            },
        }
        workflow
    }

    /// This workflow with each variable of `new_env` set in its
    /// environment, which is empty where the workflow has none yet.
    pub fn add_env(self, new_env: Env) -> (r: Self)
        ensures
            r.envs is Some,
            r.envs->0.entries() == put_all(
                match self.envs {
                    Some(e) => e.entries(),
                    None => Seq::empty(),
                },
                new_env.entries(),
            ),
            r == (Workflow { envs: r.envs, ..self }),
    {
        let mut this = self;
        let env = match this.envs.take() {
            Some(e) => e,
            None => Env::default(),
        };
        this.envs = Some(env.extend(new_env));
        this
    }
}

} // verus!
