//! Paths into the workflow run contexts, rendered between plain braces.
//!
//! An [`Expr`] is a chain of field selections like a
//! [`Context`](crate::ctx::Context); its text stands between `{{` and `}}`,
//! without the dollar sign.

use vstd::prelude::*;
use crate::ctx::render_inner;
use crate::ctx::Container;
use crate::ctx::Context;
use crate::ctx::Github;
use crate::ctx::Job;
use crate::ctx::JobStatus;
use crate::ctx::Path;
use crate::ctx::Services;
use crate::value::Value;

verus! {

/// The text of a tree between plain braces.
pub open spec fn render_plain(p: Path) -> Seq<char> {
    "{{ "@ + render_inner(p) + " }}"@
}

/// A path into the workflow run contexts that denotes a value of type `A`.
pub struct Expr<A> {
    inner: Context<A>,
}

impl<A> View for Expr<A> {
    type V = Path;

    closed spec fn view(&self) -> Path {
        self.inner@
    }
}

impl<A> Expr<A> {
    /// The root, from which every selection starts.
    pub fn new() -> (r: Self)
        ensures
            r@ == Path::Root,
    {
        Expr { inner: Context::new() }
    }

    /// The field `path` of this expression, denoting a value of type `B`.
    pub fn select<B>(&self, path: &str) -> (r: Expr<B>)
        ensures
            r@ == (Path::Select { name: path@, parent: Box::new(self@) }),
    {
        Expr { inner: self.inner.select(path) }
    }

    /// The text of the expression between `{{` and `}}`.
    pub fn to_string(&self) -> (r: String)
        ensures
            r@ == render_plain(self@),
    {
        let mut out = String::from_str("{{ ");
        out.append(self.inner.inner_text().as_str());
        out.append(" }}");
        out
    }
}

impl Expr<Github> {
    /// The `github` context.
    pub fn github() -> (r: Expr<Github>)
        ensures
            r@ == (Path::Select { name: "\"github\""@, parent: Box::new(Path::Root) }),
    {
        let root: Expr<Github> = Expr::new();
        root.select("\"github\"")
    }

    /// The name of the action currently running, or the id of a step.
    pub fn action(&self) -> (r: Expr<String>)
        ensures
            r@ == (Path::Select { name: "action"@, parent: Box::new(self@) }),
    {
        self.select("action")
    }

    /// The path where an action is located.
    pub fn action_path(&self) -> (r: Expr<String>)
        ensures
            r@ == (Path::Select { name: "action_path"@, parent: Box::new(self@) }),
    {
        self.select("action_path")
    }

    /// For a step executing an action, the ref of the action.
    pub fn action_ref(&self) -> (r: Expr<String>)
        ensures
            r@ == (Path::Select { name: "action_ref"@, parent: Box::new(self@) }),
    {
        self.select("action_ref")
    }

    /// For a step executing an action, the owner and repository name of the action.
    pub fn action_repository(&self) -> (r: Expr<String>)
        ensures
            r@ == (Path::Select { name: "action_repository"@, parent: Box::new(self@) }),
    {
        self.select("action_repository")
    }

    /// For a composite action, the current result of the action.
    pub fn action_status(&self) -> (r: Expr<String>)
        ensures
            r@ == (Path::Select { name: "action_status"@, parent: Box::new(self@) }),
    {
        self.select("action_status")
    }

    /// The username of the user that triggered the initial run.
    pub fn actor(&self) -> (r: Expr<String>)
        ensures
            r@ == (Path::Select { name: "actor"@, parent: Box::new(self@) }),
    {
        self.select("actor")
    }

    /// The account id of the person or app that triggered the initial run.
    pub fn actor_id(&self) -> (r: Expr<String>)
        ensures
            r@ == (Path::Select { name: "actor_id"@, parent: Box::new(self@) }),
    {
        self.select("actor_id")
    }

    /// The URL of the REST API.
    pub fn api_url(&self) -> (r: Expr<String>)
        ensures
            r@ == (Path::Select { name: "api_url"@, parent: Box::new(self@) }),
    {
        self.select("api_url")
    }

    /// The target branch of the pull request of the run.
    pub fn base_ref(&self) -> (r: Expr<String>)
        ensures
            r@ == (Path::Select { name: "base_ref"@, parent: Box::new(self@) }),
    {
        self.select("base_ref")
    }

    /// The path of the file that sets environment variables from workflow commands.
    pub fn env(&self) -> (r: Expr<String>)
        ensures
            r@ == (Path::Select { name: "env"@, parent: Box::new(self@) }),
    {
        self.select("env")
    }

    /// The full event webhook payload.
    pub fn event(&self) -> (r: Expr<Value>)
        ensures
            r@ == (Path::Select { name: "event"@, parent: Box::new(self@) }),
    {
        self.select("event")
    }

    /// The name of the event that triggered the run.
    pub fn event_name(&self) -> (r: Expr<String>)
        ensures
            r@ == (Path::Select { name: "event_name"@, parent: Box::new(self@) }),
    {
        self.select("event_name")
    }

    /// The path of the file that contains the full event payload.
    pub fn event_path(&self) -> (r: Expr<String>)
        ensures
            r@ == (Path::Select { name: "event_path"@, parent: Box::new(self@) }),
    {
        self.select("event_path")
    }

    /// The URL of the GraphQL API.
    pub fn graphql_url(&self) -> (r: Expr<String>)
        ensures
            r@ == (Path::Select { name: "graphql_url"@, parent: Box::new(self@) }),
    {
        self.select("graphql_url")
    }

    /// The source branch of the pull request of the run.
    pub fn head_ref(&self) -> (r: Expr<String>)
        ensures
            r@ == (Path::Select { name: "head_ref"@, parent: Box::new(self@) }),
    {
        self.select("head_ref")
    }

    /// The id of the current job.
    pub fn job(&self) -> (r: Expr<String>)
        ensures
            r@ == (Path::Select { name: "job"@, parent: Box::new(self@) }),
    {
        self.select("job")
    }

    /// The path of the repository.
    pub fn path(&self) -> (r: Expr<String>)
        ensures
            r@ == (Path::Select { name: "path"@, parent: Box::new(self@) }),
    {
        self.select("path")
    }

    /// The short name of the branch or tag that triggered the run.
    pub fn ref_name(&self) -> (r: Expr<String>)
        ensures
            r@ == (Path::Select { name: "ref_name"@, parent: Box::new(self@) }),
    {
        self.select("ref_name")
    }

    /// Whether branch protections are configured for the ref that triggered the run.
    pub fn ref_protected(&self) -> (r: Expr<bool>)
        ensures
            r@ == (Path::Select { name: "ref_protected"@, parent: Box::new(self@) }),
    {
        self.select("ref_protected")
    }

    /// The type of ref that triggered the run: branch or tag.
    pub fn ref_type(&self) -> (r: Expr<String>)
        ensures
            r@ == (Path::Select { name: "ref_type"@, parent: Box::new(self@) }),
    {
        self.select("ref_type")
    }

    /// The owner and repository name.
    pub fn repository(&self) -> (r: Expr<String>)
        ensures
            r@ == (Path::Select { name: "repository"@, parent: Box::new(self@) }),
    {
        self.select("repository")
    }

    /// The id of the repository.
    pub fn repository_id(&self) -> (r: Expr<String>)
        ensures
            r@ == (Path::Select { name: "repository_id"@, parent: Box::new(self@) }),
    {
        self.select("repository_id")
    }

    /// The username of the repository owner.
    pub fn repository_owner(&self) -> (r: Expr<String>)
        ensures
            r@ == (Path::Select { name: "repository_owner"@, parent: Box::new(self@) }),
    {
        self.select("repository_owner")
    }

    /// The account id of the repository owner.
    pub fn repository_owner_id(&self) -> (r: Expr<String>)
        ensures
            r@ == (Path::Select { name: "repository_owner_id"@, parent: Box::new(self@) }),
    {
        self.select("repository_owner_id")
    }

    /// The Git URL of the repository.
    pub fn repository_url(&self) -> (r: Expr<String>)
        ensures
            r@ == (Path::Select { name: "repository_url"@, parent: Box::new(self@) }),
    {
        self.select("repository_url")
    }

    /// The number of days that logs and artifacts are kept.
    pub fn retention_days(&self) -> (r: Expr<String>)
        ensures
            r@ == (Path::Select { name: "retention_days"@, parent: Box::new(self@) }),
    {
        self.select("retention_days")
    }

    /// A unique number for each run within a repository.
    pub fn run_id(&self) -> (r: Expr<String>)
        ensures
            r@ == (Path::Select { name: "run_id"@, parent: Box::new(self@) }),
    {
        self.select("run_id")
    }

    /// A unique number for each run of a particular workflow.
    pub fn run_number(&self) -> (r: Expr<String>)
        ensures
            r@ == (Path::Select { name: "run_number"@, parent: Box::new(self@) }),
    {
        self.select("run_number")
    }

    /// A unique number for each attempt of a particular run.
    pub fn run_attempt(&self) -> (r: Expr<String>)
        ensures
            r@ == (Path::Select { name: "run_attempt"@, parent: Box::new(self@) }),
    {
        self.select("run_attempt")
    }

    /// The source of a secret used in a workflow.
    pub fn secret_source(&self) -> (r: Expr<String>)
        ensures
            r@ == (Path::Select { name: "secret_source"@, parent: Box::new(self@) }),
    {
        self.select("secret_source")
    }

    /// The URL of the server.
    pub fn server_url(&self) -> (r: Expr<String>)
        ensures
            r@ == (Path::Select { name: "server_url"@, parent: Box::new(self@) }),
    {
        self.select("server_url")
    }

    /// The commit that triggered the workflow.
    pub fn sha(&self) -> (r: Expr<String>)
        ensures
            r@ == (Path::Select { name: "sha"@, parent: Box::new(self@) }),
    {
        self.select("sha")
    }

    /// A token to authenticate on behalf of the app installed on the repository.
    pub fn token(&self) -> (r: Expr<String>)
        ensures
            r@ == (Path::Select { name: "token"@, parent: Box::new(self@) }),
    {
        self.select("token")
    }

    /// The username of the user that initiated the run.
    pub fn triggering_actor(&self) -> (r: Expr<String>)
        ensures
            r@ == (Path::Select { name: "triggering_actor"@, parent: Box::new(self@) }),
    {
        self.select("triggering_actor")
    }

    /// The name of the workflow.
    pub fn workflow(&self) -> (r: Expr<String>)
        ensures
            r@ == (Path::Select { name: "workflow"@, parent: Box::new(self@) }),
    {
        self.select("workflow")
    }

    /// The ref path to the workflow.
    pub fn workflow_ref(&self) -> (r: Expr<String>)
        ensures
            r@ == (Path::Select { name: "workflow_ref"@, parent: Box::new(self@) }),
    {
        self.select("workflow_ref")
    }

    /// The commit of the workflow file.
    pub fn workflow_sha(&self) -> (r: Expr<String>)
        ensures
            r@ == (Path::Select { name: "workflow_sha"@, parent: Box::new(self@) }),
    {
        self.select("workflow_sha")
    }

    /// The default working directory on the runner for steps.
    pub fn workspace(&self) -> (r: Expr<String>)
        ensures
            r@ == (Path::Select { name: "workspace"@, parent: Box::new(self@) }),
    {
        self.select("workspace")
    }

    /// The fully formed ref of the branch or tag that triggered the run.
    pub fn ref_(&self) -> (r: Expr<String>)
        ensures
            r@ == (Path::Select { name: "ref"@, parent: Box::new(self@) }),
    {
        self.select("ref")
    }
}

impl Expr<Job> {
    /// The `job` context.
    pub fn job() -> (r: Expr<Job>)
        ensures
            r@ == (Path::Select { name: "\"job\""@, parent: Box::new(Path::Root) }),
    {
        let root: Expr<Job> = Expr::new();
        root.select("\"job\"")
    }

    /// The container of the job.
    pub fn container(&self) -> (r: Expr<Container>)
        ensures
            r@ == (Path::Select { name: "container"@, parent: Box::new(self@) }),
    {
        self.select("container")
    }

    /// The service containers of the job.
    pub fn services(&self) -> (r: Expr<Services>)
        ensures
            r@ == (Path::Select { name: "services"@, parent: Box::new(self@) }),
    {
        self.select("services")
    }

    /// The status of the job.
    pub fn status(&self) -> (r: Expr<JobStatus>)
        ensures
            r@ == (Path::Select { name: "status"@, parent: Box::new(self@) }),
    {
        self.select("status")
    }
}

impl Expr<Container> {
    /// The `container` context.
    pub fn container() -> (r: Expr<Container>)
        ensures
            r@ == (Path::Select { name: "\"container\""@, parent: Box::new(Path::Root) }),
    {
        let root: Expr<Container> = Expr::new();
        root.select("\"container\"")
    }

    /// The id of the container.
    pub fn id(&self) -> (r: Expr<String>)
        ensures
            r@ == (Path::Select { name: "id"@, parent: Box::new(self@) }),
    {
        self.select("id")
    }

    /// The network of the container.
    pub fn network(&self) -> (r: Expr<String>)
        ensures
            r@ == (Path::Select { name: "network"@, parent: Box::new(self@) }),
    {
        self.select("network")
    }
}

impl Expr<Services> {
    /// The `services` context.
    pub fn services() -> (r: Expr<Services>)
        ensures
            r@ == (Path::Select { name: "\"services\""@, parent: Box::new(Path::Root) }),
    {
        let root: Expr<Services> = Expr::new();
        root.select("\"services\"")
    }
}

} // verus!
