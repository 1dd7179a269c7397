//! Organizing the dependencies between the jobs of a workflow.
//!
//! A job may name a dependency by value: a whole job, which has no
//! identifier yet. Before a workflow is written out, every such dependency
//! is replaced by an identifier. A dependency whose value stands in the
//! workflow already takes the identifier that it has there; any other gets
//! the next free identifier `job-0`, `job-1`, ... and is added to the jobs
//! of the workflow under it.

use vstd::prelude::*;
use indexmap::IndexMap;
use crate::data::Data;
use crate::error::Error;
use crate::job::pending_content;
use crate::job::Job;
use crate::job::JobView;
use crate::ordered::distinct_keys;
use crate::ordered::has_key;
use crate::ordered::put;
use crate::ordered::put_new_key;
use crate::ordered::Entries;
use crate::text::decimal;
use crate::text::decimal_text;
use crate::workflow::job_entries;
use crate::workflow::job_map_get_index;
use crate::workflow::job_map_insert;
use crate::workflow::job_map_len;
use crate::workflow::job_map_new;
use crate::workflow::jobs_or_empty;
use crate::workflow::Jobs;
use crate::workflow::Workflow;

verus! {

/// The identifier of the `n`-th job that had none: `job-` and the number.
pub open spec fn job_key(n: nat) -> Seq<char> {
    "job-"@ + decimal(n)
}

/// The key of the first entry whose job has the content `job`, if there is
/// one.
pub open spec fn first_key_of(job: JobView, s: Entries<JobView>) -> Option<Seq<char>>
    decreases s.len(),
{
    if s.len() == 0 {
        None
    } else if s[0].1 == job {
        Some(s[0].0)
    } else {
        first_key_of(job, s.subrange(1, s.len() as int))
    }
}

/// What one pass over the jobs has produced so far: the jobs of the result,
/// and the jobs that got a new identifier, in the order in which they got
/// it.
pub struct Pass {
    pub resolved: Entries<JobView>,
    pub made: Entries<JobView>,
}

/// The pass after the dependency `d` is resolved, and the identifier that
/// stands for it.
///
/// A job that got a new identifier earlier in the pass is looked for first,
/// then a job of the workflow as it was, `jobs`. Where neither has the
/// content of `d`, the next identifier is made and `d` is put among the
/// jobs.
pub open spec fn resolve(p: Pass, jobs: Entries<JobView>, d: JobView) -> (Pass, Seq<char>) {
    match first_key_of(d, p.made) {
        Some(k) => (p, k),
        None => match first_key_of(d, jobs) {
            Some(k) => (p, k),
            None => {
                let k = job_key(p.made.len());
                (Pass { resolved: put(p.resolved, k, d), made: p.made.push((k, d)) }, k)
            },
        },
    }
}

/// The pass after the dependencies `deps` are resolved in order, and their
/// identifiers.
pub open spec fn resolve_all(p: Pass, jobs: Entries<JobView>, deps: Seq<JobView>) -> (
    Pass,
    Seq<Seq<char>>,
)
    decreases deps.len(),
{
    if deps.len() == 0 {
        (p, Seq::empty())
    } else {
        let before = resolve_all(p, jobs, deps.drop_last());
        let last = resolve(before.0, jobs, deps.last());
        (last.0, before.1.push(last.1))
    }
}

/// The dependencies that a job names by value.
pub open spec fn pending(job: JobView) -> Seq<JobView> {
    match job.tmp_needs {
        Some(d) => d,
        None => Seq::empty(),
    }
}

/// The dependencies that a job names by identifier.
pub open spec fn needed(job: JobView) -> Seq<Seq<char>> {
    match job.needs {
        Some(n) => n,
        None => Seq::empty(),
    }
}

/// The pass after `job` is put under `key`.
///
/// A job without pending dependencies is put as it is. Of any other job the
/// pending dependencies are resolved first, and their identifiers are added
/// to those that the job needs.
pub open spec fn place(p: Pass, jobs: Entries<JobView>, key: Seq<char>, job: JobView) -> Pass {
    if pending(job).len() == 0 {
        Pass { resolved: put(p.resolved, key, job), made: p.made }
    } else {
        let r = resolve_all(p, jobs, pending(job));
        Pass {
            resolved: put(r.0.resolved, key, with_needs(job, r.1)),
            made: r.0.made,
        }
    }
}

/// The pass after the first `n` jobs of `jobs` are placed.
pub open spec fn organize_first(jobs: Entries<JobView>, n: nat) -> Pass
    decreases n,
{
    if n == 0 {
        Pass { resolved: Seq::empty(), made: Seq::empty() }
    } else {
        let before = organize_first(jobs, (n - 1) as nat);
        place(before, jobs, jobs[n - 1].0, jobs[n - 1].1)
    }
}

/// The jobs of a workflow after its dependencies are organized.
pub open spec fn organized(jobs: Entries<JobView>) -> Entries<JobView> {
    organize_first(jobs, jobs.len()).resolved
}

/// Whether no job names a dependency by value.
pub open spec fn nothing_pending(s: Entries<JobView>) -> bool {
    forall|i: int| 0 <= i < s.len() ==> pending((#[trigger] s[i]).1).len() == 0
}

/// Where entry `i` is the first with the content `job`, its key is found;
/// where no entry has that content, nothing is found.
pub proof fn first_key_found(job: JobView, s: Entries<JobView>, i: int)
    requires
        0 <= i <= s.len(),
        forall|k: int| 0 <= k < i ==> (#[trigger] s[k]).1 != job,
        i < s.len() ==> s[i].1 == job,
    ensures
        first_key_of(job, s) == (if i < s.len() {
            Some(s[i].0)
        } else {
            None
        }),
    decreases s.len(),
{
    if s.len() == 0 {
    } else if i == 0 {
    } else {
        let rest = s.subrange(1, s.len() as int);
        assert(s[0].1 != job);
        assert forall|k: int| 0 <= k < i - 1 implies (#[trigger] rest[k]).1 != job by {
            assert(rest[k] == s[k + 1]);
        }
        if i < s.len() {
            assert(rest[i - 1] == s[i]);
        }
        first_key_found(job, rest, i - 1);
    }
}

/// A key that is found is the key of an entry.
pub proof fn first_key_occurs(job: JobView, s: Entries<JobView>)
    ensures
        first_key_of(job, s) matches Some(k) ==> has_key(s, k),
    decreases s.len(),
{
    if s.len() == 0 {
    } else if s[0].1 == job {
        assert(s[0].0 == first_key_of(job, s)->0);
    } else {
        let rest = s.subrange(1, s.len() as int);
        first_key_occurs(job, rest);
        if first_key_of(job, rest) is Some {
            let k = first_key_of(job, rest)->0;
            let i = choose|i: int| 0 <= i < rest.len() && #[trigger] rest[i].0 == k;
            assert(s[i + 1] == rest[i]);
            assert(s[i + 1].0 == k);
        }
    }
}

/// The identifier that stands for a dependency is the identifier of a job
/// of the workflow as it was, or of a job that got its identifier in the
/// pass; and a job that got its identifier earlier keeps it.
pub proof fn resolved_key_is_known(p: Pass, jobs: Entries<JobView>, d: JobView)
    ensures
        has_key(jobs, resolve(p, jobs, d).1) || has_key(
            resolve(p, jobs, d).0.made,
            resolve(p, jobs, d).1,
        ),
        forall|k: Seq<char>| has_key(p.made, k) ==> has_key(resolve(p, jobs, d).0.made, k),
{
    first_key_occurs(d, p.made);
    first_key_occurs(d, jobs);
    let r = resolve(p, jobs, d);
    if first_key_of(d, p.made) is None && first_key_of(d, jobs) is None {
        assert(r.0.made[p.made.len() as int].0 == r.1);
        assert forall|k: Seq<char>| has_key(p.made, k) implies has_key(r.0.made, k) by {
            let i = choose|i: int| 0 <= i < p.made.len() && #[trigger] p.made[i].0 == k;
            assert(r.0.made[i].0 == k);
        }
    }
}

/// Every identifier that stands for a pending dependency is the identifier
/// of a job of the workflow as it was, or of a job that got its identifier
/// in the pass.
pub proof fn resolved_keys_are_known(p: Pass, jobs: Entries<JobView>, deps: Seq<JobView>)
    ensures
        forall|i: int|
            0 <= i < resolve_all(p, jobs, deps).1.len() ==> has_key(
                jobs,
                #[trigger] resolve_all(p, jobs, deps).1[i],
            ) || has_key(resolve_all(p, jobs, deps).0.made, resolve_all(p, jobs, deps).1[i]),
        resolve_all(p, jobs, deps).1.len() == deps.len(),
        forall|k: Seq<char>| has_key(p.made, k) ==> has_key(resolve_all(p, jobs, deps).0.made, k),
    decreases deps.len(),
{
    if deps.len() > 0 {
        let before = resolve_all(p, jobs, deps.drop_last());
        resolved_keys_are_known(p, jobs, deps.drop_last());
        resolved_key_is_known(before.0, jobs, deps.last());
    }
}

/// The job that `job` becomes once its pending dependencies stand under
/// the identifiers `keys`.
pub open spec fn with_needs(job: JobView, keys: Seq<Seq<char>>) -> JobView {
    JobView { needs: Some(needed(job) + keys), ..job }
}

proof fn unchanged_prefix(jobs: Entries<JobView>, n: nat)
    requires
        distinct_keys(jobs),
        nothing_pending(jobs),
        n <= jobs.len(),
    ensures
        organize_first(jobs, n) == (Pass { resolved: jobs.take(n as int), made: Seq::empty() }),
    decreases n,
{
    if n == 0 {
        assert(jobs.take(0) =~= Seq::<(Seq<char>, JobView)>::empty());
    } else {
        unchanged_prefix(jobs, (n - 1) as nat);
        let before = jobs.take(n - 1);
        let entry = jobs[n - 1];
        assert(pending(entry.1).len() == 0);
        assert(!has_key(before, entry.0)) by {
            if has_key(before, entry.0) {
                let j = choose|j: int| 0 <= j < before.len() && #[trigger] before[j].0 == entry.0;
                assert(jobs[j].0 == jobs[n - 1].0);
            }
        }
        put_new_key(before, entry.0, entry.1);
        assert(before.push(entry) =~= jobs.take(n as int));
    }
}

/// A workflow in which no job names a dependency by value is left as it
/// is: the same identifiers in the same order, each with the same job.
pub proof fn nothing_pending_is_unchanged(jobs: Entries<JobView>)
    requires
        distinct_keys(jobs),
        nothing_pending(jobs),
    ensures
        organized(jobs) == jobs,
{
    unchanged_prefix(jobs, jobs.len());
    assert(jobs.take(jobs.len() as int) =~= jobs);
}

/// Organizing a workflow in which no job names a dependency by value, then
/// organizing the result, gives what organizing once gives.
pub proof fn organizing_twice_is_organizing_once(jobs: Entries<JobView>)
    requires
        distinct_keys(jobs),
        nothing_pending(jobs),
    ensures
        organized(organized(jobs)) == organized(jobs),
{
    nothing_pending_is_unchanged(jobs);
}

proof fn resolve_single(p: Pass, jobs: Entries<JobView>, base: JobView)
    ensures
        resolve_all(p, jobs, seq![base]) == (
            resolve(p, jobs, base).0,
            seq![resolve(p, jobs, base).1],
        ),
{
    let deps = seq![base];
    assert(deps.drop_last() =~= Seq::<JobView>::empty());
    assert(deps.last() == base);
    assert(resolve_all(p, jobs, deps.drop_last()) == (p, Seq::<Seq<char>>::empty()));
    assert(Seq::<Seq<char>>::empty().push(resolve(p, jobs, base).1) =~= seq![
        resolve(p, jobs, base).1,
    ]);
}

/// The first new identifier is `job-0`.
pub proof fn first_job_key()
    ensures
        job_key(0) == "job-0"@,
{
    reveal_strlit("job-");
    reveal_strlit("job-0");
    assert(decimal(0) =~= seq!['0']);
    assert("job-"@ + seq!['0'] =~= "job-0"@);
}

/// A workflow of one job that names one dependency by value, which is
/// not the job itself: the dependency is added under `job-0`, and the job
/// needs `job-0` after what it needed before.
pub proof fn single_dependency_gets_first_key(key: Seq<char>, job: JobView, base: JobView)
    requires
        pending(job) == seq![base],
        base != job,
    ensures
        organized(seq![(key, job)]) == put(
            seq![(job_key(0), base)],
            key,
            with_needs(job, seq![job_key(0)]),
        ),
{
    let jobs = seq![(key, job)];
    let start = Pass { resolved: Seq::empty(), made: Seq::empty() };
    assert(organize_first(jobs, 0) == start);
    assert(organize_first(jobs, 1) == place(start, jobs, key, job));
    resolve_single(start, jobs, base);
    first_key_found(base, start.made, 0);
    first_key_found(base, jobs, 1);
    put_new_key(start.resolved, job_key(0), base);
    assert(start.resolved.push((job_key(0), base)) =~= seq![(job_key(0), base)]);
}

/// Two jobs that name the same dependency by value, which stands under no
/// identifier: the dependency is added once, under `job-0`, and both jobs
/// need `job-0`.
pub proof fn shared_dependency_is_made_once(
    first: Seq<char>,
    job1: JobView,
    second: Seq<char>,
    job2: JobView,
    base: JobView,
)
    requires
        pending(job1) == seq![base],
        pending(job2) == seq![base],
        base != job1,
        base != job2,
    ensures
        organized(seq![(first, job1), (second, job2)]) == put(
            put(seq![(job_key(0), base)], first, with_needs(job1, seq![job_key(0)])),
            second,
            with_needs(job2, seq![job_key(0)]),
        ),
{
    let jobs = seq![(first, job1), (second, job2)];
    let start = Pass { resolved: Seq::empty(), made: Seq::empty() };
    assert(organize_first(jobs, 0) == start);
    let one = organize_first(jobs, 1);
    assert(one == place(start, jobs, first, job1));
    assert(organize_first(jobs, 2) == place(one, jobs, second, job2));
    resolve_single(start, jobs, base);
    first_key_found(base, start.made, 0);
    first_key_found(base, jobs, 2);
    put_new_key(start.resolved, job_key(0), base);
    assert(start.resolved.push((job_key(0), base)) =~= seq![(job_key(0), base)]);
    assert(start.made.push((job_key(0), base)) =~= seq![(job_key(0), base)]);
    assert(one.made == seq![(job_key(0), base)]);
    resolve_single(one, jobs, base);
    first_key_found(base, one.made, 0);
}

/// A job that names by value a dependency which stands in the workflow
/// already: no job is added, and the job needs the identifier under which
/// the dependency stands.
pub proof fn present_dependency_keeps_its_key(
    base_key: Seq<char>,
    base: JobView,
    key: Seq<char>,
    job: JobView,
)
    requires
        base_key != key,
        pending(base).len() == 0,
        pending(job) == seq![base],
    ensures
        organized(seq![(base_key, base), (key, job)]) == seq![
            (base_key, base),
            (key, with_needs(job, seq![base_key])),
        ],
{
    let jobs = seq![(base_key, base), (key, job)];
    let start = Pass { resolved: Seq::empty(), made: Seq::empty() };
    assert(organize_first(jobs, 0) == start);
    let one = organize_first(jobs, 1);
    assert(one == place(start, jobs, base_key, base));
    assert(organize_first(jobs, 2) == place(one, jobs, key, job));
    put_new_key(start.resolved, base_key, base);
    assert(one.resolved =~= seq![(base_key, base)]);
    assert(one.made == start.made);
    resolve_single(one, jobs, base);
    first_key_found(base, one.made, 0);
    first_key_found(base, jobs, 0);
    assert(!has_key(one.resolved, key)) by {
        if has_key(one.resolved, key) {
            let j = choose|j: int| 0 <= j < one.resolved.len() && #[trigger] one.resolved[j].0 == key;
            assert(j == 0);
        }
    }
    put_new_key(one.resolved, key, with_needs(job, seq![base_key]));
    assert(one.resolved.push((key, with_needs(job, seq![base_key]))) =~= seq![
        (base_key, base),
        (key, with_needs(job, seq![base_key])),
    ]);
}

/// The identifier of the `n`-th job that had none.
fn synthetic_key(n: usize) -> (r: String)
    ensures
        r@ == job_key(n as nat),
{
    let mut key = String::from_str("job-");
    key.append(decimal_text(n as u64).as_str());
    key
}

/// The identifier of the first job of `map` that has the content of `job`.
pub fn find_value<'a>(job: &Job, map: &'a IndexMap<String, Job>) -> (r: Option<&'a String>)
    ensures
        r.deep_view() == first_key_of(job.deep_view(), job_entries(*map)),
{
    let n = job_map_len(map);
    let mut i: usize = 0;
    while i < n
        invariant
            i <= n,
            n == job_entries(*map).len(),
            forall|k: int| 0 <= k < i ==> (#[trigger] job_entries(*map)[k]).1 != job.deep_view(),
        decreases n - i,
    {
        match job_map_get_index(map, i) {
            Some((k, v)) => {
                if v.same(job) {
                    proof {
                        first_key_found(job.deep_view(), job_entries(*map), i as int);
                    }
                    return Some(k);
                }
            },
            None => {},
        }
        i = i + 1;
    }
    proof {
        first_key_found(job.deep_view(), job_entries(*map), n as int);
    }
    None
}

/// The identifier of the first job of `made` that has the content of `job`.
fn find_made<'a>(job: &Job, made: &'a Vec<(String, Job)>) -> (r: Option<&'a String>)
    ensures
        r.deep_view() == first_key_of(job.deep_view(), made.deep_view()),
{
    let mut i: usize = 0;
    while i < made.len()
        invariant
            i <= made.len(),
            forall|k: int| 0 <= k < i ==> (#[trigger] made.deep_view()[k]).1 != job.deep_view(),
        decreases made.len() - i,
    {
        if made[i].1.same(job) {
            proof {
                first_key_found(job.deep_view(), made.deep_view(), i as int);
            }
            return Some(&made[i].0);
        }
        i = i + 1;
    }
    proof {
        first_key_found(job.deep_view(), made.deep_view(), made.len() as int);
    }
    None
}

/// Resolves the dependency `d` and returns the identifier that stands for
/// it.
fn resolve_one(
    d: &Job,
    source: &IndexMap<String, Job>,
    resolved: &mut IndexMap<String, Job>,
    made: &mut Vec<(String, Job)>,
) -> (key: String)
    ensures
        ({
            let r = resolve(
                Pass { resolved: job_entries(*old(resolved)), made: old(made).deep_view() },
                job_entries(*source),
                d.deep_view(),
            );
            &&& job_entries(*final(resolved)) == r.0.resolved
            &&& final(made).deep_view() == r.0.made
            &&& key@ == r.1
        }),
{
    match find_made(d, made) {
        Some(k) => k.clone(),
        None => match find_value(d, source) {
            Some(k) => k.clone(),
            None => {
                let ghost before = made.deep_view();
                let key = synthetic_key(made.len());
                job_map_insert(resolved, key.clone(), d.duplicate());
                made.push((key.clone(), d.duplicate()));
                assert(made.deep_view() =~= before.push((key@, d.deep_view())));
                key
            },
        },
    }
}

/// Resolves the dependencies `deps` in order and adds their identifiers to
/// `ids`.
fn resolve_pending(
    deps: &Vec<Job>,
    source: &IndexMap<String, Job>,
    resolved: &mut IndexMap<String, Job>,
    made: &mut Vec<(String, Job)>,
    ids: &mut Vec<String>,
)
    ensures
        ({
            let r = resolve_all(
                Pass { resolved: job_entries(*old(resolved)), made: old(made).deep_view() },
                job_entries(*source),
                deps.deep_view(),
            );
            &&& job_entries(*final(resolved)) == r.0.resolved
            &&& final(made).deep_view() == r.0.made
            &&& final(ids).deep_view() == old(ids).deep_view() + r.1
        }),
{
    let ghost start = Pass { resolved: job_entries(*resolved), made: made.deep_view() };
    let ghost ids_before = ids.deep_view();
    let mut j: usize = 0;
    assert(deps.deep_view().take(0) =~= Seq::<JobView>::empty());
    assert(ids.deep_view() =~= ids_before + Seq::<Seq<char>>::empty());
    while j < deps.len()
        invariant
            j <= deps.len(),
            ({
                let r = resolve_all(start, job_entries(*source), deps.deep_view().take(j as int));
                &&& job_entries(*resolved) == r.0.resolved
                &&& made.deep_view() == r.0.made
                &&& ids.deep_view() == ids_before + r.1
            }),
        decreases deps.len() - j,
    {
        let ghost ids_now = ids.deep_view();
        let ghost prefix = deps.deep_view().take(j as int);
        let ghost next = deps.deep_view().take(j + 1);
        let key = resolve_one(&deps[j], source, resolved, made);
        ids.push(key);
        proof {
            assert(next.drop_last() =~= prefix);
            assert(next.last() == deps[j as int].deep_view());
            let before = resolve_all(start, job_entries(*source), prefix);
            assert(ids.deep_view() =~= ids_now.push(key@));
            assert(ids_now.push(key@) =~= ids_before + before.1.push(key@));
        }
        j = j + 1;
    }
    assert(deps.deep_view().take(deps.len() as int) =~= deps.deep_view());
}

/// The workflow with its dependencies organized.
///
/// The jobs are taken in their order. A job without pending dependencies
/// keeps its content. Of any other job each pending dependency is resolved
/// in turn and its identifier is added to those that the job needs; a
/// dependency that no job of the workflow stands for is added to the jobs
/// under the next identifier `job-<n>`. The workflow has jobs after that,
/// even where it had none.
pub fn organize_job_dependency(workflow: Workflow) -> (r: Workflow)
    ensures
        r.jobs is Some,
        r.jobs->0.entries() == organized(jobs_or_empty(workflow.jobs)),
        r == (Workflow { jobs: r.jobs, ..workflow }),
{
    let mut this = workflow;
    let before = match this.jobs.take() {
        Some(jobs) => jobs,
        None => Jobs::default(),
    };
    let n = job_map_len(&before.0);
    let mut resolved = job_map_new();
    let mut made: Vec<(String, Job)> = Vec::new();
    let mut i: usize = 0;
    assert(made.deep_view() =~= Seq::<(Seq<char>, JobView)>::empty());
    while i < n
        invariant
            i <= n,
            n == job_entries(before.0).len(),
            job_entries(resolved) == organize_first(job_entries(before.0), i as nat).resolved,
            made.deep_view() == organize_first(job_entries(before.0), i as nat).made,
        decreases n - i,
    {
        match job_map_get_index(&before.0, i) {
            Some((id, job)) => {
                let mut placed = job.duplicate();
                proof {
                    pending_content(*job);
                    pending_content(placed);
                }
                match &job.tmp_needs {
                    Some(deps) => {
                        if deps.len() > 0 {
                            let mut ids = match placed.needs.take() {
                                Some(ids) => ids,
                                None => Vec::new(),
                            };
                            let ghost needs_before = ids.deep_view();
                            assert(needs_before =~= needed(job.deep_view()));
                            resolve_pending(deps, &before.0, &mut resolved, &mut made, &mut ids);
                            placed.needs = Some(ids);
                            proof {
                                pending_content(placed);
                            }
                        }
                    },
                    None => {},
                }
                job_map_insert(&mut resolved, id.clone(), placed);
            },
            None => {},
        }
        i = i + 1;
    }
    this.jobs = Some(Jobs(resolved));
    this
}

/// What is done with the file of a workflow after it was checked.
#[derive(Debug, PartialEq, Eq)]
pub enum Action {
    /// Nothing is done; the outcome is handed on.
    Return(Result<(), Error>),
    /// The file is up to date, which is reported.
    ReportUpToDate,
    /// The file is written again.
    Update,
    /// The directories of the path are created and the file is written.
    Create(String),
}

/// A workflow under a file name, with its dependencies organized.
#[derive(Debug, Clone)]
pub struct Generate {
    /// The workflow.
    pub workflow: Workflow,
    /// The name of the file of the workflow.
    pub name: String,
}

impl Generate {
    /// The workflow with its dependencies organized, under the name
    /// `ci.yml`.
    pub fn new(workflow: Workflow) -> (r: Self)
        ensures
            r.workflow.jobs is Some,
            r.workflow.jobs->0.entries() == organized(jobs_or_empty(workflow.jobs)),
            r.workflow == (Workflow { jobs: r.workflow.jobs, ..workflow }),
            r.name@ == "ci.yml"@,
    {
        Generate { workflow: organize_job_dependency(workflow), name: String::from_str("ci.yml") }
    }

    /// Whether the file at `path`, which holds `previous` or is missing,
    /// is the file of `content`: a missing file and a file with another
    /// content are failures.
    pub fn check_content(path: &str, previous: Option<&String>, content: &String) -> (r: Result<
        (),
        Error,
    >)
        ensures
            previous matches Some(p) && p@ == content@ ==> r is Ok,
            previous matches Some(p) && p@ != content@ ==> r == Err::<(), Error>(
                Error::OutdatedWorkflow,
            ),
            previous is None ==> (r matches Err(Error::MissingWorkflowFile(at)) && at@ == path@),
    {
        match previous {
            Some(p) => {
                if *content == *p {
                    Ok(())
                } else {
                    Err(Error::OutdatedWorkflow)
                }
            },
            None => Err(Error::MissingWorkflowFile(String::from_str(path))),
        }
    }

    /// The content of the file: the comment, a line break, and the
    /// workflow as text.
    pub fn content(comment: &str, workflow: &str) -> (r: String)
        ensures
            r@ == comment@ + "\n"@ + workflow@,
    {
        let mut out = String::from_str(comment);
        out.append("\n");
        out.append(workflow);
        out
    }

    /// What to do with the file after it was checked.
    ///
    /// On a build server the outcome of the check is handed on as it is.
    /// Elsewhere a file that is up to date is reported, a file that is
    /// outdated is written again, a file that is missing is created with
    /// its directories, and any other failure is handed on.
    pub fn next_action(checked: Result<(), Error>, on_build_server: bool) -> (r: Action)
        ensures
            r == (if on_build_server {
                Action::Return(checked)
            } else {
                match checked {
                    Ok(_) => Action::ReportUpToDate,
                    Err(Error::OutdatedWorkflow) => Action::Update,
                    Err(Error::MissingWorkflowFile(path)) => Action::Create(path),
                    Err(e) => Action::Return(Err(e)),
                }
            }),
    {
        if on_build_server {
            Action::Return(checked)
        } else {
            match checked {
                Ok(_) => Action::ReportUpToDate,
                Err(Error::OutdatedWorkflow) => Action::Update,
                Err(Error::MissingWorkflowFile(path)) => Action::Create(path),
                Err(e) => Action::Return(Err(e)),
            }
        }
    }

    /// Whether the workflow `actual`, as text, is the workflow `expected`.
    pub fn compare(actual: &String, expected: &String) -> (r: Result<(), Error>)
        ensures
            actual@ == expected@ ==> r is Ok,
            actual@ != expected@ ==> r == Err::<(), Error>(Error::GitHubWorkflowMismatch),
    {
        if *actual == *expected {
            Ok(())
        } else {
            Err(Error::GitHubWorkflowMismatch)
        }
    }

    /// Sets `workflow`.
    pub fn workflow(self, value: Workflow) -> (r: Self)
        ensures
            r == (Generate { workflow: value, ..self }),
    {
        Generate { workflow: value, ..self }
    }

    /// Sets `name`.
    pub fn name(self, value: String) -> (r: Self)
        ensures
            r == (Generate { name: value, ..self }),
    {
        Generate { name: value, ..self }
    }
}

} // verus!
