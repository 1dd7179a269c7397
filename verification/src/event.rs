//! The events that trigger a workflow, and their filters.

use vstd::prelude::*;
use std::collections::HashMap;
use crate::combine::merge_option;
use crate::combine::merged;

verus! {

/// The events that trigger a workflow.
#[derive(Debug, Clone, PartialEq, Eq)]
pub struct Event {
    /// A branch protection rule changes.
    pub branch_protection_rule: Option<BranchProtectionRule>,
    /// A check run changes.
    pub check_run: Option<CheckRun>,
    /// A check suite changes.
    pub check_suite: Option<CheckSuite>,
    /// A branch or a tag is created.
    pub create: Option<Create>,
    /// A branch or a tag is deleted.
    pub delete: Option<Delete>,
    /// A deployment is created.
    pub deployment: Option<Deployment>,
    /// The status of a deployment changes.
    pub deployment_status: Option<DeploymentStatus>,
    /// A discussion changes.
    pub discussion: Option<Discussion>,
    /// A comment on a discussion changes.
    pub discussion_comment: Option<DiscussionComment>,
    /// The repository is forked.
    pub fork: Option<bool>,
    /// A wiki page is created or updated.
    pub gollum: Option<bool>,
    /// A comment on an issue or a pull request changes.
    pub issue_comment: Option<IssueComment>,
    /// An issue changes.
    pub issues: Option<Issues>,
    /// A label changes.
    pub label: Option<Label>,
    /// A pull request is added to a merge queue.
    pub merge_group: Option<MergeGroup>,
    /// A milestone changes.
    pub milestone: Option<Milestone>,
    /// A push is made to the branch that the pages are published from.
    pub page_build: Option<bool>,
    /// The repository becomes public.
    pub public: Option<bool>,
    /// A pull request changes.
    pub pull_request: Option<PullRequest>,
    /// A review of a pull request changes.
    pub pull_request_review: Option<PullRequestReview>,
    /// A comment on the diff of a pull request changes.
    pub pull_request_review_comment: Option<PullRequestReviewComment>,
    /// A pull request changes; the workflow runs in the context of the base.
    pub pull_request_target: Option<PullRequestTarget>,
    /// A commit or a tag is pushed.
    pub push: Option<Push>,
    /// A package changes.
    pub registry_package: Option<RegistryPackage>,
    /// A release changes.
    pub release: Option<Release>,
    /// An event is sent from outside.
    pub repository_dispatch: Option<RepositoryDispatch>,
    /// A time of the schedule is reached.
    pub schedule: Option<Schedule>,
    /// The status of a commit changes.
    pub status: Option<bool>,
    /// The repository is starred.
    pub watch: Option<Watch>,
    /// Another workflow calls this one.
    pub workflow_call: Option<WorkflowCall>,
    /// The workflow is started by hand.
    pub workflow_dispatch: Option<WorkflowDispatch>,
    /// A run of another workflow is requested or completed.
    pub workflow_run: Option<WorkflowRun>,
}

impl Event {
    /// The event of which nothing is said.
    pub open spec fn default_spec() -> Event {
        Event {
            branch_protection_rule: None,
            check_run: None,
            check_suite: None,
            create: None,
            delete: None,
            deployment: None,
            deployment_status: None,
            discussion: None,
            discussion_comment: None,
            fork: None,
            gollum: None,
            issue_comment: None,
            issues: None,
            label: None,
            merge_group: None,
            milestone: None,
            page_build: None,
            public: None,
            pull_request: None,
            pull_request_review: None,
            pull_request_review_comment: None,
            pull_request_target: None,
            push: None,
            registry_package: None,
            release: None,
            repository_dispatch: None,
            schedule: None,
            status: None,
            watch: None,
            workflow_call: None,
            workflow_dispatch: None,
            workflow_run: None,
        }
    }
}

impl Default for Event {
    fn default() -> (r: Self)
        ensures
            r == Event::default_spec(),
    {
        Event {
            branch_protection_rule: None,
            check_run: None,
            check_suite: None,
            create: None,
            delete: None,
            deployment: None,
            deployment_status: None,
            discussion: None,
            discussion_comment: None,
            fork: None,
            gollum: None,
            issue_comment: None,
            issues: None,
            label: None,
            merge_group: None,
            milestone: None,
            page_build: None,
            public: None,
            pull_request: None,
            pull_request_review: None,
            pull_request_review_comment: None,
            pull_request_target: None,
            push: None,
            registry_package: None,
            release: None,
            repository_dispatch: None,
            schedule: None,
            status: None,
            watch: None,
            workflow_call: None,
            workflow_dispatch: None,
            workflow_run: None,
        }
    }
}

impl Event {
    /// Sets `branch_protection_rule`.
    pub fn branch_protection_rule(self, value: BranchProtectionRule) -> (r: Self)
        ensures
            r == (Event { branch_protection_rule: Some(value), ..self }),
    {
        Event { branch_protection_rule: Some(value), ..self }
    }

    /// Sets `check_run`.
    pub fn check_run(self, value: CheckRun) -> (r: Self)
        ensures
            r == (Event { check_run: Some(value), ..self }),
    {
        Event { check_run: Some(value), ..self }
    }

    /// Sets `check_suite`.
    pub fn check_suite(self, value: CheckSuite) -> (r: Self)
        ensures
            r == (Event { check_suite: Some(value), ..self }),
    {
        Event { check_suite: Some(value), ..self }
    }

    /// Sets `create`.
    pub fn create(self, value: Create) -> (r: Self)
        ensures
            r == (Event { create: Some(value), ..self }),
    {
        Event { create: Some(value), ..self }
    }

    /// Sets `delete`.
    pub fn delete(self, value: Delete) -> (r: Self)
        ensures
            r == (Event { delete: Some(value), ..self }),
    {
        Event { delete: Some(value), ..self }
    }

    /// Sets `deployment`.
    pub fn deployment(self, value: Deployment) -> (r: Self)
        ensures
            r == (Event { deployment: Some(value), ..self }),
    {
        Event { deployment: Some(value), ..self }
    }

    /// Sets `deployment_status`.
    pub fn deployment_status(self, value: DeploymentStatus) -> (r: Self)
        ensures
            r == (Event { deployment_status: Some(value), ..self }),
    {
        Event { deployment_status: Some(value), ..self }
    }

    /// Sets `discussion`.
    pub fn discussion(self, value: Discussion) -> (r: Self)
        ensures
            r == (Event { discussion: Some(value), ..self }),
    {
        Event { discussion: Some(value), ..self }
    }

    /// Sets `discussion_comment`.
    pub fn discussion_comment(self, value: DiscussionComment) -> (r: Self)
        ensures
            r == (Event { discussion_comment: Some(value), ..self }),
    {
        Event { discussion_comment: Some(value), ..self }
    }

    /// Sets `fork`.
    pub fn fork(self, value: bool) -> (r: Self)
        ensures
            r == (Event { fork: Some(value), ..self }),
    {
        Event { fork: Some(value), ..self }
    }

    /// Sets `gollum`.
    pub fn gollum(self, value: bool) -> (r: Self)
        ensures
            r == (Event { gollum: Some(value), ..self }),
    {
        Event { gollum: Some(value), ..self }
    }

    /// Sets `issue_comment`.
    pub fn issue_comment(self, value: IssueComment) -> (r: Self)
        ensures
            r == (Event { issue_comment: Some(value), ..self }),
    {
        Event { issue_comment: Some(value), ..self }
    }

    /// Sets `issues`.
    pub fn issues(self, value: Issues) -> (r: Self)
        ensures
            r == (Event { issues: Some(value), ..self }),
    {
        Event { issues: Some(value), ..self }
    }

    /// Sets `label`.
    pub fn label(self, value: Label) -> (r: Self)
        ensures
            r == (Event { label: Some(value), ..self }),
    {
        Event { label: Some(value), ..self }
    }

    /// Sets `merge_group`.
    pub fn merge_group(self, value: MergeGroup) -> (r: Self)
        ensures
            r == (Event { merge_group: Some(value), ..self }),
    {
        Event { merge_group: Some(value), ..self }
    }

    /// Sets `milestone`.
    pub fn milestone(self, value: Milestone) -> (r: Self)
        ensures
            r == (Event { milestone: Some(value), ..self }),
    {
        Event { milestone: Some(value), ..self }
    }

    /// Sets `page_build`.
    pub fn page_build(self, value: bool) -> (r: Self)
        ensures
            r == (Event { page_build: Some(value), ..self }),
    {
        Event { page_build: Some(value), ..self }
    }

    /// Sets `public`.
    pub fn public(self, value: bool) -> (r: Self)
        ensures
            r == (Event { public: Some(value), ..self }),
    {
        Event { public: Some(value), ..self }
    }

    /// Sets `pull_request`.
    pub fn pull_request(self, value: PullRequest) -> (r: Self)
        ensures
            r == (Event { pull_request: Some(value), ..self }),
    {
        Event { pull_request: Some(value), ..self }
    }

    /// Sets `pull_request_review`.
    pub fn pull_request_review(self, value: PullRequestReview) -> (r: Self)
        ensures
            r == (Event { pull_request_review: Some(value), ..self }),
    {
        Event { pull_request_review: Some(value), ..self }
    }

    /// Sets `pull_request_review_comment`.
    pub fn pull_request_review_comment(self, value: PullRequestReviewComment) -> (r: Self)
        ensures
            r == (Event { pull_request_review_comment: Some(value), ..self }),
    {
        Event { pull_request_review_comment: Some(value), ..self }
    }

    /// Sets `pull_request_target`.
    pub fn pull_request_target(self, value: PullRequestTarget) -> (r: Self)
        ensures
            r == (Event { pull_request_target: Some(value), ..self }),
    {
        Event { pull_request_target: Some(value), ..self }
    }

    /// Sets `push`.
    pub fn push(self, value: Push) -> (r: Self)
        ensures
            r == (Event { push: Some(value), ..self }),
    {
        Event { push: Some(value), ..self }
    }

    /// Sets `registry_package`.
    pub fn registry_package(self, value: RegistryPackage) -> (r: Self)
        ensures
            r == (Event { registry_package: Some(value), ..self }),
    {
        Event { registry_package: Some(value), ..self }
    }

    /// Sets `release`.
    pub fn release(self, value: Release) -> (r: Self)
        ensures
            r == (Event { release: Some(value), ..self }),
    {
        Event { release: Some(value), ..self }
    }

    /// Sets `repository_dispatch`.
    pub fn repository_dispatch(self, value: RepositoryDispatch) -> (r: Self)
        ensures
            r == (Event { repository_dispatch: Some(value), ..self }),
    {
        Event { repository_dispatch: Some(value), ..self }
    }

    /// Sets `schedule`.
    pub fn schedule(self, value: Schedule) -> (r: Self)
        ensures
            r == (Event { schedule: Some(value), ..self }),
    {
        Event { schedule: Some(value), ..self }
    }

    /// Sets `status`.
    pub fn status(self, value: bool) -> (r: Self)
        ensures
            r == (Event { status: Some(value), ..self }),
    {
        Event { status: Some(value), ..self }
    }

    /// Sets `watch`.
    pub fn watch(self, value: Watch) -> (r: Self)
        ensures
            r == (Event { watch: Some(value), ..self }),
    {
        Event { watch: Some(value), ..self }
    }

    /// Sets `workflow_call`.
    pub fn workflow_call(self, value: WorkflowCall) -> (r: Self)
        ensures
            r == (Event { workflow_call: Some(value), ..self }),
    {
        Event { workflow_call: Some(value), ..self }
    }

    /// Sets `workflow_dispatch`.
    pub fn workflow_dispatch(self, value: WorkflowDispatch) -> (r: Self)
        ensures
            r == (Event { workflow_dispatch: Some(value), ..self }),
    {
        Event { workflow_dispatch: Some(value), ..self }
    }

    /// Sets `workflow_run`.
    pub fn workflow_run(self, value: WorkflowRun) -> (r: Self)
        ensures
            r == (Event { workflow_run: Some(value), ..self }),
    {
        Event { workflow_run: Some(value), ..self }
    }
}

impl Event {
    /// What merging `other` into `this` gives: each event that `this` leaves
    /// open is taken from `other`.
    pub open spec fn merged_with(this: Event, other: Event) -> Event {
        Event {
            branch_protection_rule: merged(this.branch_protection_rule, other.branch_protection_rule),
            check_run: merged(this.check_run, other.check_run),
            check_suite: merged(this.check_suite, other.check_suite),
            create: merged(this.create, other.create),
            delete: merged(this.delete, other.delete),
            deployment: merged(this.deployment, other.deployment),
            deployment_status: merged(this.deployment_status, other.deployment_status),
            discussion: merged(this.discussion, other.discussion),
            discussion_comment: merged(this.discussion_comment, other.discussion_comment),
            fork: merged(this.fork, other.fork),
            gollum: merged(this.gollum, other.gollum),
            issue_comment: merged(this.issue_comment, other.issue_comment),
            issues: merged(this.issues, other.issues),
            label: merged(this.label, other.label),
            merge_group: merged(this.merge_group, other.merge_group),
            milestone: merged(this.milestone, other.milestone),
            page_build: merged(this.page_build, other.page_build),
            public: merged(this.public, other.public),
            pull_request: merged(this.pull_request, other.pull_request),
            pull_request_review: merged(this.pull_request_review, other.pull_request_review),
            pull_request_review_comment: merged(this.pull_request_review_comment, other.pull_request_review_comment),
            pull_request_target: merged(this.pull_request_target, other.pull_request_target),
            push: merged(this.push, other.push),
            registry_package: merged(this.registry_package, other.registry_package),
            release: merged(this.release, other.release),
            repository_dispatch: merged(this.repository_dispatch, other.repository_dispatch),
            schedule: merged(this.schedule, other.schedule),
            status: merged(this.status, other.status),
            watch: merged(this.watch, other.watch),
            workflow_call: merged(this.workflow_call, other.workflow_call),
            workflow_dispatch: merged(this.workflow_dispatch, other.workflow_dispatch),
            workflow_run: merged(this.workflow_run, other.workflow_run),
        }
    }

    /// Takes each event that is open from `other`.
    pub fn merge(&mut self, other: Event)
        ensures
            *final(self) == Event::merged_with(*old(self), other),
    {
        merge_option(&mut self.branch_protection_rule, other.branch_protection_rule);
        merge_option(&mut self.check_run, other.check_run);
        merge_option(&mut self.check_suite, other.check_suite);
        merge_option(&mut self.create, other.create);
        merge_option(&mut self.delete, other.delete);
        merge_option(&mut self.deployment, other.deployment);
        merge_option(&mut self.deployment_status, other.deployment_status);
        merge_option(&mut self.discussion, other.discussion);
        merge_option(&mut self.discussion_comment, other.discussion_comment);
        merge_option(&mut self.fork, other.fork);
        merge_option(&mut self.gollum, other.gollum);
        merge_option(&mut self.issue_comment, other.issue_comment);
        merge_option(&mut self.issues, other.issues);
        merge_option(&mut self.label, other.label);
        merge_option(&mut self.merge_group, other.merge_group);
        merge_option(&mut self.milestone, other.milestone);
        merge_option(&mut self.page_build, other.page_build);
        merge_option(&mut self.public, other.public);
        merge_option(&mut self.pull_request, other.pull_request);
        merge_option(&mut self.pull_request_review, other.pull_request_review);
        merge_option(&mut self.pull_request_review_comment, other.pull_request_review_comment);
        merge_option(&mut self.pull_request_target, other.pull_request_target);
        merge_option(&mut self.push, other.push);
        merge_option(&mut self.registry_package, other.registry_package);
        merge_option(&mut self.release, other.release);
        merge_option(&mut self.repository_dispatch, other.repository_dispatch);
        merge_option(&mut self.schedule, other.schedule);
        merge_option(&mut self.status, other.status);
        merge_option(&mut self.watch, other.watch);
        merge_option(&mut self.workflow_call, other.workflow_call);
        merge_option(&mut self.workflow_dispatch, other.workflow_dispatch);
        merge_option(&mut self.workflow_run, other.workflow_run);
    }
}

/// The activities of a branch protection rule that can trigger a workflow.
#[derive(Debug, Clone, Copy, PartialEq, Eq, Structural)]
pub enum BranchProtectionRuleType {
    /// A rule was created.
    Created,
    /// A rule was edited.
    Edited,
    /// A rule was deleted.
    Deleted,
}

/// The trigger on changes of branch protection rules.
#[derive(Debug, Clone, PartialEq, Eq)]
pub struct BranchProtectionRule {
    /// The activities that trigger the workflow; all of them where the list is
    /// empty.
    pub types: Vec<BranchProtectionRuleType>,
}

impl Default for BranchProtectionRule {
    fn default() -> (r: Self)
        ensures
            r.types@.len() == 0,
    {
        BranchProtectionRule {
            types: Vec::new(),
        }
    }
}

impl BranchProtectionRule {
    /// Sets `types`.
    pub fn types(self, value: Vec<BranchProtectionRuleType>) -> (r: Self)
        ensures
            r == (BranchProtectionRule { types: value, ..self }),
    {
        BranchProtectionRule { types: value, ..self }
    }
}

impl BranchProtectionRule {
    /// Adds an activity to the list of those that trigger the workflow.
    pub fn add_type(self, type_: BranchProtectionRuleType) -> (r: Self)
        ensures
            r.types@ == self.types@.push(type_),
            r == (BranchProtectionRule { types: r.types, ..self }),
    {
        let mut this = self;
        this.types.push(type_);
        this
    }
}

/// The activities of a check run that can trigger a workflow.
#[derive(Debug, Clone, Copy, PartialEq, Eq, Structural)]
pub enum CheckRunType {
    /// A check run was created.
    Created,
    /// A check run was asked to run again.
    Rerequested,
    /// A check run was completed.
    Completed,
    /// A user asked an action of the check run.
    RequestedAction,
}

/// The trigger on check runs.
#[derive(Debug, Clone, PartialEq, Eq)]
pub struct CheckRun {
    /// The activities that trigger the workflow; all of them where the list is
    /// empty.
    pub types: Vec<CheckRunType>,
}

impl Default for CheckRun {
    fn default() -> (r: Self)
        ensures
            r.types@.len() == 0,
    {
        CheckRun {
            types: Vec::new(),
        }
    }
}

impl CheckRun {
    /// Sets `types`.
    pub fn types(self, value: Vec<CheckRunType>) -> (r: Self)
        ensures
            r == (CheckRun { types: value, ..self }),
    {
        CheckRun { types: value, ..self }
    }
}

impl CheckRun {
    /// Adds an activity to the list of those that trigger the workflow.
    pub fn add_type(self, type_: CheckRunType) -> (r: Self)
        ensures
            r.types@ == self.types@.push(type_),
            r == (CheckRun { types: r.types, ..self }),
    {
        let mut this = self;
        this.types.push(type_);
        this
    }
}

/// The activities of a check suite that can trigger a workflow.
#[derive(Debug, Clone, Copy, PartialEq, Eq, Structural)]
pub enum CheckSuiteType {
    /// A check suite was completed.
    Completed,
}

/// The trigger on check suites.
#[derive(Debug, Clone, PartialEq, Eq)]
pub struct CheckSuite {
    /// The activities that trigger the workflow; all of them where the list is
    /// empty.
    pub types: Vec<CheckSuiteType>,
}

impl Default for CheckSuite {
    fn default() -> (r: Self)
        ensures
            r.types@.len() == 0,
    {
        CheckSuite {
            types: Vec::new(),
        }
    }
}

impl CheckSuite {
    /// Sets `types`.
    pub fn types(self, value: Vec<CheckSuiteType>) -> (r: Self)
        ensures
            r == (CheckSuite { types: value, ..self }),
    {
        CheckSuite { types: value, ..self }
    }
}

impl CheckSuite {
    /// Adds an activity to the list of those that trigger the workflow.
    pub fn add_type(self, type_: CheckSuiteType) -> (r: Self)
        ensures
            r.types@ == self.types@.push(type_),
            r == (CheckSuite { types: r.types, ..self }),
    {
        let mut this = self;
        this.types.push(type_);
        this
    }
}

/// The trigger on the creation of a branch or a tag.
#[derive(Debug, Clone, PartialEq, Eq)]
pub struct Create {
    /// The branches to watch.
    pub branches: Vec<String>,
    /// The tags to watch.
    pub tags: Vec<String>,
}

impl Default for Create {
    fn default() -> (r: Self)
        ensures
            r.branches@.len() == 0,
            r.tags@.len() == 0,
    {
        Create {
            branches: Vec::new(),
            tags: Vec::new(),
        }
    }
}

impl Create {
    /// Sets `branches`.
    pub fn branches(self, value: Vec<String>) -> (r: Self)
        ensures
            r == (Create { branches: value, ..self }),
    {
        Create { branches: value, ..self }
    }

    /// Sets `tags`.
    pub fn tags(self, value: Vec<String>) -> (r: Self)
        ensures
            r == (Create { tags: value, ..self }),
    {
        Create { tags: value, ..self }
    }
}

impl Create {
    /// Adds a branch to watch.
    pub fn add_branch(self, branch: &str) -> (r: Self)
        ensures
            r.branches.deep_view() == self.branches.deep_view().push(branch@),
            r == (Create { branches: r.branches, ..self }),
    {
        let ghost before = self.branches.deep_view();
        let mut this = self;
        this.branches.push(String::from_str(branch));
        assert(this.branches.deep_view() =~= before.push(branch@));
        this
    }

    /// Adds a tag to watch.
    pub fn add_tag(self, tag: &str) -> (r: Self)
        ensures
            r.tags.deep_view() == self.tags.deep_view().push(tag@),
            r == (Create { tags: r.tags, ..self }),
    {
        let ghost before = self.tags.deep_view();
        let mut this = self;
        this.tags.push(String::from_str(tag));
        assert(this.tags.deep_view() =~= before.push(tag@));
        this
    }
}

/// The trigger on the deletion of a branch or a tag.
#[derive(Debug, Clone, PartialEq, Eq)]
pub struct Delete {
    /// The branches to watch.
    pub branches: Vec<String>,
    /// The tags to watch.
    pub tags: Vec<String>,
}

impl Default for Delete {
    fn default() -> (r: Self)
        ensures
            r.branches@.len() == 0,
            r.tags@.len() == 0,
    {
        Delete {
            branches: Vec::new(),
            tags: Vec::new(),
        }
    }
}

impl Delete {
    /// Sets `branches`.
    pub fn branches(self, value: Vec<String>) -> (r: Self)
        ensures
            r == (Delete { branches: value, ..self }),
    {
        Delete { branches: value, ..self }
    }

    /// Sets `tags`.
    pub fn tags(self, value: Vec<String>) -> (r: Self)
        ensures
            r == (Delete { tags: value, ..self }),
    {
        Delete { tags: value, ..self }
    }
}

impl Delete {
    /// Adds a branch to watch.
    pub fn add_branch(self, branch: &str) -> (r: Self)
        ensures
            r.branches.deep_view() == self.branches.deep_view().push(branch@),
            r == (Delete { branches: r.branches, ..self }),
    {
        let ghost before = self.branches.deep_view();
        let mut this = self;
        this.branches.push(String::from_str(branch));
        assert(this.branches.deep_view() =~= before.push(branch@));
        this
    }

    /// Adds a tag to watch.
    pub fn add_tag(self, tag: &str) -> (r: Self)
        ensures
            r.tags.deep_view() == self.tags.deep_view().push(tag@),
            r == (Delete { tags: r.tags, ..self }),
    {
        let ghost before = self.tags.deep_view();
        let mut this = self;
        this.tags.push(String::from_str(tag));
        assert(this.tags.deep_view() =~= before.push(tag@));
        this
    }
}

/// The trigger on deployments.
#[derive(Debug, Clone, PartialEq, Eq)]
pub struct Deployment {
    /// The branches to watch.
    pub branches: Vec<String>,
}

impl Default for Deployment {
    fn default() -> (r: Self)
        ensures
            r.branches@.len() == 0,
    {
        Deployment {
            branches: Vec::new(),
        }
    }
}

impl Deployment {
    /// Sets `branches`.
    pub fn branches(self, value: Vec<String>) -> (r: Self)
        ensures
            r == (Deployment { branches: value, ..self }),
    {
        Deployment { branches: value, ..self }
    }
}

impl Deployment {
    /// Adds a branch to watch.
    pub fn add_branch(self, branch: &str) -> (r: Self)
        ensures
            r.branches.deep_view() == self.branches.deep_view().push(branch@),
            r == (Deployment { branches: r.branches, ..self }),
    {
        let ghost before = self.branches.deep_view();
        let mut this = self;
        this.branches.push(String::from_str(branch));
        assert(this.branches.deep_view() =~= before.push(branch@));
        this
    }
}

/// The trigger on the status of deployments.
#[derive(Debug, Clone, PartialEq, Eq)]
pub struct DeploymentStatus {
    /// The states to watch.
    pub states: Vec<String>,
}

impl Default for DeploymentStatus {
    fn default() -> (r: Self)
        ensures
            r.states@.len() == 0,
    {
        DeploymentStatus {
            states: Vec::new(),
        }
    }
}

impl DeploymentStatus {
    /// Sets `states`.
    pub fn states(self, value: Vec<String>) -> (r: Self)
        ensures
            r == (DeploymentStatus { states: value, ..self }),
    {
        DeploymentStatus { states: value, ..self }
    }
}

impl DeploymentStatus {
    /// Adds a state to watch.
    pub fn add_state(self, state: &str) -> (r: Self)
        ensures
            r.states.deep_view() == self.states.deep_view().push(state@),
            r == (DeploymentStatus { states: r.states, ..self }),
    {
        let ghost before = self.states.deep_view();
        let mut this = self;
        this.states.push(String::from_str(state));
        assert(this.states.deep_view() =~= before.push(state@));
        this
    }
}

/// The activities of a discussion that can trigger a workflow.
#[derive(Debug, Clone, Copy, PartialEq, Eq, Structural)]
pub enum DiscussionType {
    /// A discussion was created.
    Created,
    /// A discussion was edited.
    Edited,
    /// A discussion was deleted.
    Deleted,
    /// A discussion was moved to another repository.
    Transferred,
    /// A discussion was pinned.
    Pinned,
    /// A discussion was unpinned.
    Unpinned,
    /// A discussion got a label.
    Labeled,
    /// A discussion lost a label.
    Unlabeled,
    /// A discussion was locked.
    Locked,
    /// A discussion was unlocked.
    Unlocked,
    /// The category of a discussion changed.
    CategoryChanged,
    /// A discussion was marked as answered.
    Answered,
    /// A discussion was no longer marked as answered.
    Unanswered,
}

/// The trigger on discussions.
#[derive(Debug, Clone, PartialEq, Eq)]
pub struct Discussion {
    /// The activities that trigger the workflow; all of them where the list is
    /// empty.
    pub types: Vec<DiscussionType>,
}

impl Default for Discussion {
    fn default() -> (r: Self)
        ensures
            r.types@.len() == 0,
    {
        Discussion {
            types: Vec::new(),
        }
    }
}

impl Discussion {
    /// Sets `types`.
    pub fn types(self, value: Vec<DiscussionType>) -> (r: Self)
        ensures
            r == (Discussion { types: value, ..self }),
    {
        Discussion { types: value, ..self }
    }
}

impl Discussion {
    /// Adds an activity to the list of those that trigger the workflow.
    pub fn add_type(self, type_: DiscussionType) -> (r: Self)
        ensures
            r.types@ == self.types@.push(type_),
            r == (Discussion { types: r.types, ..self }),
    {
        let mut this = self;
        this.types.push(type_);
        this
    }
}

/// The activities of a comment on a discussion that can trigger a workflow.
#[derive(Debug, Clone, Copy, PartialEq, Eq, Structural)]
pub enum DiscussionCommentType {
    /// A comment was created.
    Created,
    /// A comment was edited.
    Edited,
    /// A comment was deleted.
    Deleted,
}

/// The trigger on comments on discussions.
#[derive(Debug, Clone, PartialEq, Eq)]
pub struct DiscussionComment {
    /// The activities that trigger the workflow; all of them where the list is
    /// empty.
    pub types: Vec<DiscussionCommentType>,
}

impl Default for DiscussionComment {
    fn default() -> (r: Self)
        ensures
            r.types@.len() == 0,
    {
        DiscussionComment {
            types: Vec::new(),
        }
    }
}

impl DiscussionComment {
    /// Sets `types`.
    pub fn types(self, value: Vec<DiscussionCommentType>) -> (r: Self)
        ensures
            r == (DiscussionComment { types: value, ..self }),
    {
        DiscussionComment { types: value, ..self }
    }
}

impl DiscussionComment {
    /// Adds an activity to the list of those that trigger the workflow.
    pub fn add_type(self, type_: DiscussionCommentType) -> (r: Self)
        ensures
            r.types@ == self.types@.push(type_),
            r == (DiscussionComment { types: r.types, ..self }),
    {
        let mut this = self;
        this.types.push(type_);
        this
    }
}

/// The activities of a comment on an issue that can trigger a workflow.
#[derive(Debug, Clone, Copy, PartialEq, Eq, Structural)]
pub enum IssueCommentType {
    /// A comment was created.
    Created,
    /// A comment was edited.
    Edited,
    /// A comment was deleted.
    Deleted,
}

/// The trigger on comments on issues and pull requests.
#[derive(Debug, Clone, PartialEq, Eq)]
pub struct IssueComment {
    /// The activities that trigger the workflow; all of them where the list is
    /// empty.
    pub types: Vec<IssueCommentType>,
}

impl Default for IssueComment {
    fn default() -> (r: Self)
        ensures
            r.types@.len() == 0,
    {
        IssueComment {
            types: Vec::new(),
        }
    }
}

impl IssueComment {
    /// Sets `types`.
    pub fn types(self, value: Vec<IssueCommentType>) -> (r: Self)
        ensures
            r == (IssueComment { types: value, ..self }),
    {
        IssueComment { types: value, ..self }
    }
}

impl IssueComment {
    /// Adds an activity to the list of those that trigger the workflow.
    pub fn add_type(self, type_: IssueCommentType) -> (r: Self)
        ensures
            r.types@ == self.types@.push(type_),
            r == (IssueComment { types: r.types, ..self }),
    {
        let mut this = self;
        this.types.push(type_);
        this
    }
}

/// The activities of an issue that can trigger a workflow.
#[derive(Debug, Clone, Copy, PartialEq, Eq, Structural)]
pub enum IssuesType {
    /// An issue was opened.
    Opened,
    /// An issue was edited.
    Edited,
    /// An issue was deleted.
    Deleted,
    /// An issue was moved to another repository.
    Transferred,
    /// An issue was pinned.
    Pinned,
    /// An issue was unpinned.
    Unpinned,
    /// An issue was closed.
    Closed,
    /// A closed issue was opened again.
    Reopened,
    /// An issue was assigned to a user.
    Assigned,
    /// An issue was taken from a user.
    Unassigned,
    /// An issue got a label.
    Labeled,
    /// An issue lost a label.
    Unlabeled,
    /// An issue was locked.
    Locked,
    /// An issue was unlocked.
    Unlocked,
    /// An issue was added to a milestone.
    Milestoned,
    /// An issue was removed from a milestone.
    Demilestoned,
}

/// The trigger on issues.
#[derive(Debug, Clone, PartialEq, Eq)]
pub struct Issues {
    /// The activities that trigger the workflow; all of them where the list is
    /// empty.
    pub types: Vec<IssuesType>,
}

impl Default for Issues {
    fn default() -> (r: Self)
        ensures
            r.types@.len() == 0,
    {
        Issues {
            types: Vec::new(),
        }
    }
}

impl Issues {
    /// Sets `types`.
    pub fn types(self, value: Vec<IssuesType>) -> (r: Self)
        ensures
            r == (Issues { types: value, ..self }),
    {
        Issues { types: value, ..self }
    }
}

impl Issues {
    /// Adds an activity to the list of those that trigger the workflow.
    pub fn add_type(self, type_: IssuesType) -> (r: Self)
        ensures
            r.types@ == self.types@.push(type_),
            r == (Issues { types: r.types, ..self }),
    {
        let mut this = self;
        this.types.push(type_);
        this
    }
}

/// The activities of a label that can trigger a workflow.
#[derive(Debug, Clone, Copy, PartialEq, Eq, Structural)]
pub enum LabelType {
    /// A label was created.
    Created,
    /// A label was edited.
    Edited,
    /// A label was deleted.
    Deleted,
}

/// The trigger on labels.
#[derive(Debug, Clone, PartialEq, Eq)]
pub struct Label {
    /// The activities that trigger the workflow; all of them where the list is
    /// empty.
    pub types: Vec<LabelType>,
}

impl Default for Label {
    fn default() -> (r: Self)
        ensures
            r.types@.len() == 0,
    {
        Label {
            types: Vec::new(),
        }
    }
}

impl Label {
    /// Sets `types`.
    pub fn types(self, value: Vec<LabelType>) -> (r: Self)
        ensures
            r == (Label { types: value, ..self }),
    {
        Label { types: value, ..self }
    }
}

impl Label {
    /// Adds an activity to the list of those that trigger the workflow.
    pub fn add_type(self, type_: LabelType) -> (r: Self)
        ensures
            r.types@ == self.types@.push(type_),
            r == (Label { types: r.types, ..self }),
    {
        let mut this = self;
        this.types.push(type_);
        this
    }
}

/// The activities of a merge group that can trigger a workflow.
#[derive(Debug, Clone, Copy, PartialEq, Eq, Structural)]
pub enum MergeGroupType {
    /// The checks of a merge group were requested.
    ChecksRequested,
}

/// The trigger on merge queues.
#[derive(Debug, Clone, PartialEq, Eq)]
pub struct MergeGroup {
    /// The activities that trigger the workflow; all of them where the list is
    /// empty.
    pub types: Vec<MergeGroupType>,
}

impl Default for MergeGroup {
    fn default() -> (r: Self)
        ensures
            r.types@.len() == 0,
    {
        MergeGroup {
            types: Vec::new(),
        }
    }
}

impl MergeGroup {
    /// Sets `types`.
    pub fn types(self, value: Vec<MergeGroupType>) -> (r: Self)
        ensures
            r == (MergeGroup { types: value, ..self }),
    {
        MergeGroup { types: value, ..self }
    }
}

impl MergeGroup {
    /// Adds an activity to the list of those that trigger the workflow.
    pub fn add_type(self, type_: MergeGroupType) -> (r: Self)
        ensures
            r.types@ == self.types@.push(type_),
            r == (MergeGroup { types: r.types, ..self }),
    {
        let mut this = self;
        this.types.push(type_);
        this
    }
}

/// The activities of a milestone that can trigger a workflow.
#[derive(Debug, Clone, Copy, PartialEq, Eq, Structural)]
pub enum MilestoneType {
    /// A milestone was created.
    Created,
    /// A milestone was closed.
    Closed,
    /// A milestone was opened.
    Opened,
    /// A milestone was edited.
    Edited,
    /// A milestone was deleted.
    Deleted,
}

/// The trigger on milestones.
#[derive(Debug, Clone, PartialEq, Eq)]
pub struct Milestone {
    /// The activities that trigger the workflow; all of them where the list is
    /// empty.
    pub types: Vec<MilestoneType>,
}

impl Default for Milestone {
    fn default() -> (r: Self)
        ensures
            r.types@.len() == 0,
    {
        Milestone {
            types: Vec::new(),
        }
    }
}

impl Milestone {
    /// Sets `types`.
    pub fn types(self, value: Vec<MilestoneType>) -> (r: Self)
        ensures
            r == (Milestone { types: value, ..self }),
    {
        Milestone { types: value, ..self }
    }
}

impl Milestone {
    /// Adds an activity to the list of those that trigger the workflow.
    pub fn add_type(self, type_: MilestoneType) -> (r: Self)
        ensures
            r.types@ == self.types@.push(type_),
            r == (Milestone { types: r.types, ..self }),
    {
        let mut this = self;
        this.types.push(type_);
        this
    }
}

/// The activities of a pull request that can trigger a workflow.
#[derive(Debug, Clone, Copy, PartialEq, Eq, Structural)]
pub enum PullRequestType {
    /// The pull request was assigned to a user.
    Assigned,
    /// The pull request was taken from a user.
    Unassigned,
    /// The pull request got a label.
    Labeled,
    /// The pull request lost a label.
    Unlabeled,
    /// The pull request was opened.
    Opened,
    /// The pull request was edited.
    Edited,
    /// The pull request was closed.
    Closed,
    /// The pull request was opened again.
    Reopened,
    /// The head of the pull request was updated.
    Synchronize,
    /// The pull request left the draft state.
    ReadyForReview,
    /// The pull request was locked.
    Locked,
    /// The pull request was unlocked.
    Unlocked,
    /// A review was requested.
    ReviewRequested,
    /// A request for a review was withdrawn.
    ReviewRequestRemoved,
}

/// The trigger on pull requests.
#[derive(Debug, Clone, PartialEq, Eq)]
pub struct PullRequest {
    /// The activities that trigger the workflow; all of them where the list is
    /// empty.
    pub types: Vec<PullRequestType>,
    /// The base branches to watch.
    pub branches: Vec<String>,
    /// The paths to watch.
    pub paths: Vec<String>,
}

impl Default for PullRequest {
    fn default() -> (r: Self)
        ensures
            r.types@.len() == 0,
            r.branches@.len() == 0,
            r.paths@.len() == 0,
    {
        PullRequest {
            types: Vec::new(),
            branches: Vec::new(),
            paths: Vec::new(),
        }
    }
}

impl PullRequest {
    /// Sets `types`.
    pub fn types(self, value: Vec<PullRequestType>) -> (r: Self)
        ensures
            r == (PullRequest { types: value, ..self }),
    {
        PullRequest { types: value, ..self }
    }

    /// Sets `branches`.
    pub fn branches(self, value: Vec<String>) -> (r: Self)
        ensures
            r == (PullRequest { branches: value, ..self }),
    {
        PullRequest { branches: value, ..self }
    }

    /// Sets `paths`.
    pub fn paths(self, value: Vec<String>) -> (r: Self)
        ensures
            r == (PullRequest { paths: value, ..self }),
    {
        PullRequest { paths: value, ..self }
    }
}

impl PullRequest {
    /// Adds an activity to the list of those that trigger the workflow.
    pub fn add_type(self, type_: PullRequestType) -> (r: Self)
        ensures
            r.types@ == self.types@.push(type_),
            r == (PullRequest { types: r.types, ..self }),
    {
        let mut this = self;
        this.types.push(type_);
        this
    }

    /// Adds a base branch to watch.
    pub fn add_branch(self, branch: &str) -> (r: Self)
        ensures
            r.branches.deep_view() == self.branches.deep_view().push(branch@),
            r == (PullRequest { branches: r.branches, ..self }),
    {
        let ghost before = self.branches.deep_view();
        let mut this = self;
        this.branches.push(String::from_str(branch));
        assert(this.branches.deep_view() =~= before.push(branch@));
        this
    }

    /// Adds a path to watch.
    pub fn add_path(self, path: &str) -> (r: Self)
        ensures
            r.paths.deep_view() == self.paths.deep_view().push(path@),
            r == (PullRequest { paths: r.paths, ..self }),
    {
        let ghost before = self.paths.deep_view();
        let mut this = self;
        this.paths.push(String::from_str(path));
        assert(this.paths.deep_view() =~= before.push(path@));
        this
    }
}

/// The activities of a review of a pull request that can trigger a workflow.
#[derive(Debug, Clone, Copy, PartialEq, Eq, Structural)]
pub enum PullRequestReviewType {
    /// A review was submitted.
    Submitted,
    /// A review was edited.
    Edited,
    /// A review was dismissed.
    Dismissed,
}

/// The trigger on reviews of pull requests.
#[derive(Debug, Clone, PartialEq, Eq)]
pub struct PullRequestReview {
    /// The activities that trigger the workflow; all of them where the list is
    /// empty.
    pub types: Vec<PullRequestReviewType>,
}

impl Default for PullRequestReview {
    fn default() -> (r: Self)
        ensures
            r.types@.len() == 0,
    {
        PullRequestReview {
            types: Vec::new(),
        }
    }
}

impl PullRequestReview {
    /// Sets `types`.
    pub fn types(self, value: Vec<PullRequestReviewType>) -> (r: Self)
        ensures
            r == (PullRequestReview { types: value, ..self }),
    {
        PullRequestReview { types: value, ..self }
    }
}

impl PullRequestReview {
    /// Adds an activity to the list of those that trigger the workflow.
    pub fn add_type(self, type_: PullRequestReviewType) -> (r: Self)
        ensures
            r.types@ == self.types@.push(type_),
            r == (PullRequestReview { types: r.types, ..self }),
    {
        let mut this = self;
        this.types.push(type_);
        this
    }
}

/// The activities of a comment on the diff of a pull request that can trigger a
/// workflow.
#[derive(Debug, Clone, Copy, PartialEq, Eq, Structural)]
pub enum PullRequestReviewCommentType {
    /// A comment was created.
    Created,
    /// A comment was edited.
    Edited,
    /// A comment was deleted.
    Deleted,
}

/// The trigger on comments on the diffs of pull requests.
#[derive(Debug, Clone, PartialEq, Eq)]
pub struct PullRequestReviewComment {
    /// The activities that trigger the workflow; all of them where the list is
    /// empty.
    pub types: Vec<PullRequestReviewCommentType>,
}

impl Default for PullRequestReviewComment {
    fn default() -> (r: Self)
        ensures
            r.types@.len() == 0,
    {
        PullRequestReviewComment {
            types: Vec::new(),
        }
    }
}

impl PullRequestReviewComment {
    /// Sets `types`.
    pub fn types(self, value: Vec<PullRequestReviewCommentType>) -> (r: Self)
        ensures
            r == (PullRequestReviewComment { types: value, ..self }),
    {
        PullRequestReviewComment { types: value, ..self }
    }
}

impl PullRequestReviewComment {
    /// Adds an activity to the list of those that trigger the workflow.
    pub fn add_type(self, type_: PullRequestReviewCommentType) -> (r: Self)
        ensures
            r.types@ == self.types@.push(type_),
            r == (PullRequestReviewComment { types: r.types, ..self }),
    {
        let mut this = self;
        this.types.push(type_);
        this
    }
}

/// The trigger on pull requests, run in the context of the base of the pull
/// request.
#[derive(Debug, Clone, PartialEq, Eq)]
pub struct PullRequestTarget {
    /// The activities that trigger the workflow; all of them where the list is
    /// empty.
    pub types: Vec<PullRequestType>,
    /// The base branches to watch.
    pub branches: Vec<String>,
}

impl Default for PullRequestTarget {
    fn default() -> (r: Self)
        ensures
            r.types@.len() == 0,
            r.branches@.len() == 0,
    {
        PullRequestTarget {
            types: Vec::new(),
            branches: Vec::new(),
        }
    }
}

impl PullRequestTarget {
    /// Sets `types`.
    pub fn types(self, value: Vec<PullRequestType>) -> (r: Self)
        ensures
            r == (PullRequestTarget { types: value, ..self }),
    {
        PullRequestTarget { types: value, ..self }
    }

    /// Sets `branches`.
    pub fn branches(self, value: Vec<String>) -> (r: Self)
        ensures
            r == (PullRequestTarget { branches: value, ..self }),
    {
        PullRequestTarget { branches: value, ..self }
    }
}

impl PullRequestTarget {
    /// Adds an activity to the list of those that trigger the workflow.
    pub fn add_type(self, type_: PullRequestType) -> (r: Self)
        ensures
            r.types@ == self.types@.push(type_),
            r == (PullRequestTarget { types: r.types, ..self }),
    {
        let mut this = self;
        this.types.push(type_);
        this
    }

    /// Adds a base branch to watch.
    pub fn add_branch(self, branch: &str) -> (r: Self)
        ensures
            r.branches.deep_view() == self.branches.deep_view().push(branch@),
            r == (PullRequestTarget { branches: r.branches, ..self }),
    {
        let ghost before = self.branches.deep_view();
        let mut this = self;
        this.branches.push(String::from_str(branch));
        assert(this.branches.deep_view() =~= before.push(branch@));
        this
    }
}

/// The trigger on pushes.
#[derive(Debug, Clone, PartialEq, Eq)]
pub struct Push {
    /// The branches to watch.
    pub branches: Vec<String>,
    /// The paths to watch.
    pub paths: Vec<String>,
    /// The tags to watch.
    pub tags: Vec<String>,
}

impl Default for Push {
    fn default() -> (r: Self)
        ensures
            r.branches@.len() == 0,
            r.paths@.len() == 0,
            r.tags@.len() == 0,
    {
        Push {
            branches: Vec::new(),
            paths: Vec::new(),
            tags: Vec::new(),
        }
    }
}

impl Push {
    /// Sets `branches`.
    pub fn branches(self, value: Vec<String>) -> (r: Self)
        ensures
            r == (Push { branches: value, ..self }),
    {
        Push { branches: value, ..self }
    }

    /// Sets `paths`.
    pub fn paths(self, value: Vec<String>) -> (r: Self)
        ensures
            r == (Push { paths: value, ..self }),
    {
        Push { paths: value, ..self }
    }

    /// Sets `tags`.
    pub fn tags(self, value: Vec<String>) -> (r: Self)
        ensures
            r == (Push { tags: value, ..self }),
    {
        Push { tags: value, ..self }
    }
}

impl Push {
    /// Adds a branch to watch.
    pub fn add_branch(self, branch: &str) -> (r: Self)
        ensures
            r.branches.deep_view() == self.branches.deep_view().push(branch@),
            r == (Push { branches: r.branches, ..self }),
    {
        let ghost before = self.branches.deep_view();
        let mut this = self;
        this.branches.push(String::from_str(branch));
        assert(this.branches.deep_view() =~= before.push(branch@));
        this
    }

    /// Adds a path to watch.
    pub fn add_path(self, path: &str) -> (r: Self)
        ensures
            r.paths.deep_view() == self.paths.deep_view().push(path@),
            r == (Push { paths: r.paths, ..self }),
    {
        let ghost before = self.paths.deep_view();
        let mut this = self;
        this.paths.push(String::from_str(path));
        assert(this.paths.deep_view() =~= before.push(path@));
        this
    }

    /// Adds a tag to watch.
    pub fn add_tag(self, tag: &str) -> (r: Self)
        ensures
            r.tags.deep_view() == self.tags.deep_view().push(tag@),
            r == (Push { tags: r.tags, ..self }),
    {
        let ghost before = self.tags.deep_view();
        let mut this = self;
        this.tags.push(String::from_str(tag));
        assert(this.tags.deep_view() =~= before.push(tag@));
        this
    }
}

/// The activities of a package that can trigger a workflow.
#[derive(Debug, Clone, Copy, PartialEq, Eq, Structural)]
pub enum RegistryPackageType {
    /// A package was published.
    Published,
    /// A package was updated.
    Updated,
}

/// The trigger on packages.
#[derive(Debug, Clone, PartialEq, Eq)]
pub struct RegistryPackage {
    /// The activities that trigger the workflow; all of them where the list is
    /// empty.
    pub types: Vec<RegistryPackageType>,
}

impl Default for RegistryPackage {
    fn default() -> (r: Self)
        ensures
            r.types@.len() == 0,
    {
        RegistryPackage {
            types: Vec::new(),
        }
    }
}

impl RegistryPackage {
    /// Sets `types`.
    pub fn types(self, value: Vec<RegistryPackageType>) -> (r: Self)
        ensures
            r == (RegistryPackage { types: value, ..self }),
    {
        RegistryPackage { types: value, ..self }
    }
}

impl RegistryPackage {
    /// Adds an activity to the list of those that trigger the workflow.
    pub fn add_type(self, type_: RegistryPackageType) -> (r: Self)
        ensures
            r.types@ == self.types@.push(type_),
            r == (RegistryPackage { types: r.types, ..self }),
    {
        let mut this = self;
        this.types.push(type_);
        this
    }
}

/// The activities of a release that can trigger a workflow.
#[derive(Debug, Clone, Copy, PartialEq, Eq, Structural)]
pub enum ReleaseType {
    /// A release was published.
    Published,
    /// A release was unpublished.
    Unpublished,
    /// A release was created.
    Created,
    /// A release was edited.
    Edited,
    /// A release was deleted.
    Deleted,
    /// A release was marked as a pre-release.
    Prereleased,
    /// A release was released.
    Released,
}

/// The trigger on releases.
#[derive(Debug, Clone, PartialEq, Eq)]
pub struct Release {
    /// The activities that trigger the workflow; all of them where the list is
    /// empty.
    pub types: Vec<ReleaseType>,
}

impl Default for Release {
    fn default() -> (r: Self)
        ensures
            r.types@.len() == 0,
    {
        Release {
            types: Vec::new(),
        }
    }
}

impl Release {
    /// Sets `types`.
    pub fn types(self, value: Vec<ReleaseType>) -> (r: Self)
        ensures
            r == (Release { types: value, ..self }),
    {
        Release { types: value, ..self }
    }
}

impl Release {
    /// Adds an activity to the list of those that trigger the workflow.
    pub fn add_type(self, type_: ReleaseType) -> (r: Self)
        ensures
            r.types@ == self.types@.push(type_),
            r == (Release { types: r.types, ..self }),
    {
        let mut this = self;
        this.types.push(type_);
        this
    }
}

/// The trigger on events sent from outside.
#[derive(Debug, Clone, PartialEq, Eq)]
pub struct RepositoryDispatch {
    /// The event types to watch.
    pub types: Vec<String>,
}

impl Default for RepositoryDispatch {
    fn default() -> (r: Self)
        ensures
            r.types@.len() == 0,
    {
        RepositoryDispatch {
            types: Vec::new(),
        }
    }
}

impl RepositoryDispatch {
    /// Sets `types`.
    pub fn types(self, value: Vec<String>) -> (r: Self)
        ensures
            r == (RepositoryDispatch { types: value, ..self }),
    {
        RepositoryDispatch { types: value, ..self }
    }
}

impl RepositoryDispatch {
    /// Adds an event type to watch.
    pub fn add_type(self, type_: &str) -> (r: Self)
        ensures
            r.types.deep_view() == self.types.deep_view().push(type_@),
            r == (RepositoryDispatch { types: r.types, ..self }),
    {
        let ghost before = self.types.deep_view();
        let mut this = self;
        this.types.push(String::from_str(type_));
        assert(this.types.deep_view() =~= before.push(type_@));
        this
    }
}

/// The trigger on a schedule.
#[derive(Debug, Clone, PartialEq, Eq)]
pub struct Schedule {
    /// The times of the schedule, each in cron syntax.
    pub cron: Vec<String>,
}

impl Default for Schedule {
    fn default() -> (r: Self)
        ensures
            r.cron@.len() == 0,
    {
        Schedule {
            cron: Vec::new(),
        }
    }
}

impl Schedule {
    /// Sets `cron`.
    pub fn cron(self, value: Vec<String>) -> (r: Self)
        ensures
            r == (Schedule { cron: value, ..self }),
    {
        Schedule { cron: value, ..self }
    }
}

impl Schedule {
    /// Adds a time to the schedule.
    pub fn add_cron(self, cron: &str) -> (r: Self)
        ensures
            r.cron.deep_view() == self.cron.deep_view().push(cron@),
            r == (Schedule { cron: r.cron, ..self }),
    {
        let ghost before = self.cron.deep_view();
        let mut this = self;
        this.cron.push(String::from_str(cron));
        assert(this.cron.deep_view() =~= before.push(cron@));
        this
    }
}

/// The trigger on stars.
#[derive(Debug, Clone, PartialEq, Eq)]
pub struct Watch {
    /// The activities to watch.
    pub types: Vec<String>,
}

impl Default for Watch {
    fn default() -> (r: Self)
        ensures
            r.types@.len() == 0,
    {
        Watch {
            types: Vec::new(),
        }
    }
}

impl Watch {
    /// Sets `types`.
    pub fn types(self, value: Vec<String>) -> (r: Self)
        ensures
            r == (Watch { types: value, ..self }),
    {
        Watch { types: value, ..self }
    }
}

impl Watch {
    /// Adds an activity to watch.
    pub fn add_type(self, type_: &str) -> (r: Self)
        ensures
            r.types.deep_view() == self.types.deep_view().push(type_@),
            r == (Watch { types: r.types, ..self }),
    {
        let ghost before = self.types.deep_view();
        let mut this = self;
        this.types.push(String::from_str(type_));
        assert(this.types.deep_view() =~= before.push(type_@));
        this
    }
}

/// An input of a workflow that other workflows call.
#[derive(Debug, Clone, PartialEq, Eq)]
pub struct WorkflowCallInput {
    /// What the input is for.
    pub description: String,
    /// Whether the caller must give the input.
    pub required: bool,
    /// The type of the input.
    pub input_type: String,
    /// The value of the input where the caller gives none.
    pub default: Option<String>,
}

impl Default for WorkflowCallInput {
    fn default() -> (r: Self)
        ensures
            r.description@ == Seq::<char>::empty(),
            !r.required,
            r.input_type@ == Seq::<char>::empty(),
            r.default is None,
    {
        WorkflowCallInput {
            description: String::new(),
            required: false,
            input_type: String::new(),
            default: None,
        }
    }
}

impl WorkflowCallInput {
    /// Sets `description`.
    pub fn description(self, value: String) -> (r: Self)
        ensures
            r == (WorkflowCallInput { description: value, ..self }),
    {
        WorkflowCallInput { description: value, ..self }
    }

    /// Sets `required`.
    pub fn required(self, value: bool) -> (r: Self)
        ensures
            r == (WorkflowCallInput { required: value, ..self }),
    {
        WorkflowCallInput { required: value, ..self }
    }

    /// Sets `input_type`.
    pub fn input_type(self, value: String) -> (r: Self)
        ensures
            r == (WorkflowCallInput { input_type: value, ..self }),
    {
        WorkflowCallInput { input_type: value, ..self }
    }
}

/// An output of a workflow that other workflows call.
#[derive(Debug, Clone, PartialEq, Eq)]
pub struct WorkflowCallOutput {
    /// What the output is.
    pub description: String,
    /// The value of the output.
    pub value: String,
}

impl Default for WorkflowCallOutput {
    fn default() -> (r: Self)
        ensures
            r.description@ == Seq::<char>::empty(),
            r.value@ == Seq::<char>::empty(),
    {
        WorkflowCallOutput {
            description: String::new(),
            value: String::new(),
        }
    }
}

impl WorkflowCallOutput {
    /// Sets `description`.
    pub fn description(self, value: String) -> (r: Self)
        ensures
            r == (WorkflowCallOutput { description: value, ..self }),
    {
        WorkflowCallOutput { description: value, ..self }
    }

    /// Sets `value`.
    pub fn value(self, value: String) -> (r: Self)
        ensures
            r == (WorkflowCallOutput { value: value, ..self }),
    {
        WorkflowCallOutput { value: value, ..self }
    }
}

/// A secret of a workflow that other workflows call.
#[derive(Debug, Clone, PartialEq, Eq)]
pub struct WorkflowCallSecret {
    /// What the secret is for.
    pub description: String,
    /// Whether the caller must give the secret.
    pub required: bool,
}

impl Default for WorkflowCallSecret {
    fn default() -> (r: Self)
        ensures
            r.description@ == Seq::<char>::empty(),
            !r.required,
    {
        WorkflowCallSecret {
            description: String::new(),
            required: false,
        }
    }
}

impl WorkflowCallSecret {
    /// Sets `description`.
    pub fn description(self, value: String) -> (r: Self)
        ensures
            r == (WorkflowCallSecret { description: value, ..self }),
    {
        WorkflowCallSecret { description: value, ..self }
    }

    /// Sets `required`.
    pub fn required(self, value: bool) -> (r: Self)
        ensures
            r == (WorkflowCallSecret { required: value, ..self }),
    {
        WorkflowCallSecret { required: value, ..self }
    }
}

/// The trigger on calls from other workflows.
#[derive(Debug, Clone, PartialEq, Eq)]
pub struct WorkflowCall {
    /// The inputs of the call.
    pub inputs: HashMap<String, WorkflowCallInput>,
    /// The outputs of the call.
    pub outputs: HashMap<String, WorkflowCallOutput>,
    /// The secrets of the call.
    pub secrets: HashMap<String, WorkflowCallSecret>,
}

impl Default for WorkflowCall {
    fn default() -> (r: Self)
        ensures
            r.inputs@.len() == 0,
            r.outputs@.len() == 0,
            r.secrets@.len() == 0,
    {
        WorkflowCall {
            inputs: HashMap::new(),
            outputs: HashMap::new(),
            secrets: HashMap::new(),
        }
    }
}

impl WorkflowCall {
    /// Sets `inputs`.
    pub fn inputs(self, value: HashMap<String, WorkflowCallInput>) -> (r: Self)
        ensures
            r == (WorkflowCall { inputs: value, ..self }),
    {
        WorkflowCall { inputs: value, ..self }
    }

    /// Sets `outputs`.
    pub fn outputs(self, value: HashMap<String, WorkflowCallOutput>) -> (r: Self)
        ensures
            r == (WorkflowCall { outputs: value, ..self }),
    {
        WorkflowCall { outputs: value, ..self }
    }

    /// Sets `secrets`.
    pub fn secrets(self, value: HashMap<String, WorkflowCallSecret>) -> (r: Self)
        ensures
            r == (WorkflowCall { secrets: value, ..self }),
    {
        WorkflowCall { secrets: value, ..self }
    }
}

/// An input of a workflow that is started by hand.
#[derive(Debug, Clone, PartialEq, Eq)]
pub struct WorkflowDispatchInput {
    /// What the input is for.
    pub description: String,
    /// Whether the input must be given.
    pub required: bool,
    /// The type of the input.
    pub input_type: String,
    /// The value of the input where none is given.
    pub default: Option<String>,
}

impl Default for WorkflowDispatchInput {
    fn default() -> (r: Self)
        ensures
            r.description@ == Seq::<char>::empty(),
            !r.required,
            r.input_type@ == Seq::<char>::empty(),
            r.default is None,
    {
        WorkflowDispatchInput {
            description: String::new(),
            required: false,
            input_type: String::new(),
            default: None,
        }
    }
}

impl WorkflowDispatchInput {
    /// Sets `description`.
    pub fn description(self, value: String) -> (r: Self)
        ensures
            r == (WorkflowDispatchInput { description: value, ..self }),
    {
        WorkflowDispatchInput { description: value, ..self }
    }

    /// Sets `required`.
    pub fn required(self, value: bool) -> (r: Self)
        ensures
            r == (WorkflowDispatchInput { required: value, ..self }),
    {
        WorkflowDispatchInput { required: value, ..self }
    }

    /// Sets `input_type`.
    pub fn input_type(self, value: String) -> (r: Self)
        ensures
            r == (WorkflowDispatchInput { input_type: value, ..self }),
    {
        WorkflowDispatchInput { input_type: value, ..self }
    }
}

/// The trigger on a start by hand.
#[derive(Debug, Clone, PartialEq, Eq)]
pub struct WorkflowDispatch {
    /// The inputs of the start.
    pub inputs: HashMap<String, WorkflowDispatchInput>,
}

impl Default for WorkflowDispatch {
    fn default() -> (r: Self)
        ensures
            r.inputs@.len() == 0,
    {
        WorkflowDispatch {
            inputs: HashMap::new(),
        }
    }
}

impl WorkflowDispatch {
    /// Sets `inputs`.
    pub fn inputs(self, value: HashMap<String, WorkflowDispatchInput>) -> (r: Self)
        ensures
            r == (WorkflowDispatch { inputs: value, ..self }),
    {
        WorkflowDispatch { inputs: value, ..self }
    }
}

/// The activities of a workflow run that can trigger a workflow.
#[derive(Debug, Clone, Copy, PartialEq, Eq, Structural)]
pub enum WorkflowRunType {
    /// A run was completed.
    Completed,
    /// A run was requested.
    Requested,
    /// A run is in progress.
    InProgress,
}

/// The trigger on runs of other workflows.
#[derive(Debug, Clone, PartialEq, Eq)]
pub struct WorkflowRun {
    /// The activities that trigger the workflow; all of them where the list is
    /// empty.
    pub types: Vec<WorkflowRunType>,
    /// The workflows to watch.
    pub workflows: Vec<String>,
    /// The branches to watch.
    pub branches: Vec<String>,
}

impl Default for WorkflowRun {
    fn default() -> (r: Self)
        ensures
            r.types@.len() == 0,
            r.workflows@.len() == 0,
            r.branches@.len() == 0,
    {
        WorkflowRun {
            types: Vec::new(),
            workflows: Vec::new(),
            branches: Vec::new(),
        }
    }
}

impl WorkflowRun {
    /// Sets `types`.
    pub fn types(self, value: Vec<WorkflowRunType>) -> (r: Self)
        ensures
            r == (WorkflowRun { types: value, ..self }),
    {
        WorkflowRun { types: value, ..self }
    }

    /// Sets `workflows`.
    pub fn workflows(self, value: Vec<String>) -> (r: Self)
        ensures
            r == (WorkflowRun { workflows: value, ..self }),
    {
        WorkflowRun { workflows: value, ..self }
    }

    /// Sets `branches`.
    pub fn branches(self, value: Vec<String>) -> (r: Self)
        ensures
            r == (WorkflowRun { branches: value, ..self }),
    {
        WorkflowRun { branches: value, ..self }
    }
}

impl WorkflowRun {
    /// Adds an activity to the list of those that trigger the workflow.
    pub fn add_type(self, type_: WorkflowRunType) -> (r: Self)
        ensures
            r.types@ == self.types@.push(type_),
            r == (WorkflowRun { types: r.types, ..self }),
    {
        let mut this = self;
        this.types.push(type_);
        this
    }

    /// Adds a workflow to watch.
    pub fn add_workflow(self, workflow: &str) -> (r: Self)
        ensures
            r.workflows.deep_view() == self.workflows.deep_view().push(workflow@),
            r == (WorkflowRun { workflows: r.workflows, ..self }),
    {
        let ghost before = self.workflows.deep_view();
        let mut this = self;
        this.workflows.push(String::from_str(workflow));
        assert(this.workflows.deep_view() =~= before.push(workflow@));
        this
    }

    /// Adds a branch to watch.
    pub fn add_branch(self, branch: &str) -> (r: Self)
        ensures
            r.branches.deep_view() == self.branches.deep_view().push(branch@),
            r == (WorkflowRun { branches: r.branches, ..self }),
    {
        let ghost before = self.branches.deep_view();
        let mut this = self;
        this.branches.push(String::from_str(branch));
        assert(this.branches.deep_view() =~= before.push(branch@));
        this
    }
}

impl PullRequest {
    /// Adds the opening of a pull request to the activities.
    pub fn open(self) -> (r: Self)
        ensures
            r.types@ == self.types@.push(PullRequestType::Opened),
            r == (PullRequest { types: r.types, ..self }),
    {
        self.add_type(PullRequestType::Opened)
    }

    /// Adds the update of the head of a pull request to the activities.
    pub fn synchronize(self) -> (r: Self)
        ensures
            r.types@ == self.types@.push(PullRequestType::Synchronize),
            r == (PullRequest { types: r.types, ..self }),
    {
        self.add_type(PullRequestType::Synchronize)
    }

    /// Adds the reopening of a pull request to the activities.
    pub fn reopen(self) -> (r: Self)
        ensures
            r.types@ == self.types@.push(PullRequestType::Reopened),
            r == (PullRequest { types: r.types, ..self }),
    {
        self.add_type(PullRequestType::Reopened)
    }
}

impl PullRequestTarget {
    /// Adds the opening of a pull request to the activities.
    pub fn open(self) -> (r: Self)
        ensures
            r.types@ == self.types@.push(PullRequestType::Opened),
            r == (PullRequestTarget { types: r.types, ..self }),
    {
        self.add_type(PullRequestType::Opened)
    }

    /// Adds the update of the head of a pull request to the activities.
    pub fn synchronize(self) -> (r: Self)
        ensures
            r.types@ == self.types@.push(PullRequestType::Synchronize),
            r == (PullRequestTarget { types: r.types, ..self }),
    {
        self.add_type(PullRequestType::Synchronize)
    }

    /// Adds the reopening of a pull request to the activities.
    pub fn reopen(self) -> (r: Self)
        ensures
            r.types@ == self.types@.push(PullRequestType::Reopened),
            r == (PullRequestTarget { types: r.types, ..self }),
    {
        self.add_type(PullRequestType::Reopened)
    }
}

} // verus!
