//! Typed paths into the workflow run contexts, and the conditions built
//! from them.
//!
//! A [`Context`] is a small expression tree: a chain of field selections
//! starting at a context root, string literals, and the combinators `==`,
//! `&&`, `||` and concatenation. The type parameter says what the expression
//! denotes; the tree itself is untyped. [`Context::to_string`] renders the
//! tree between `${{` and `}}`.

use vstd::prelude::*;
use std::marker::PhantomData;
use crate::expression::Expression;
use crate::text::remove_char;
use crate::text::without;
use crate::value::Value;

verus! {

/// The expression tree that a [`Context`] stands for.
pub enum Path {
    /// The start of every selection chain.
    Root,
    /// The field `name` of `parent`.
    Select { name: Seq<char>, parent: Box<Path> },
    /// `left == right`.
    Eq { left: Box<Path>, right: Box<Path> },
    /// `left && right`.
    And { left: Box<Path>, right: Box<Path> },
    /// `left || right`.
    Or { left: Box<Path>, right: Box<Path> },
    /// A quoted string constant.
    Literal(Seq<char>),
    /// `left` directly followed by `right`.
    Concat { left: Box<Path>, right: Box<Path> },
}

/// The text of a tree, without the delimiters.
///
/// A selection made directly on the root is the field's name with its double
/// quotes removed; any further selection is joined to its parent with a dot.
pub open spec fn render_inner(p: Path) -> Seq<char>
    decreases p,
{
    match p {
        Path::Root => Seq::empty(),
        Path::Select { name, parent } => if *parent is Root {
            without(name, '"')
        } else {
            render_inner(*parent) + "."@ + name
        },
        Path::Eq { left, right } => render_inner(*left) + " == "@ + render_inner(*right),
        Path::And { left, right } => render_inner(*left) + " && "@ + render_inner(*right),
        Path::Or { left, right } => render_inner(*left) + " || "@ + render_inner(*right),
        Path::Literal(s) => "'"@ + s + "'"@,
        Path::Concat { left, right } => render_inner(*left) + render_inner(*right),
    }
}

/// The opening delimiter of a rendered expression.
pub const OPENING: &'static str = "${{ ";

/// The closing delimiter of a rendered expression.
pub const CLOSING: &'static str = " }}";

/// The text of a tree between the opening and the closing delimiter.
pub open spec fn render(p: Path) -> Seq<char> {
    OPENING@ + render_inner(p) + CLOSING@
}

enum Step {
    Root,
    Select { name: String, object: Box<Step> },
    Eq { left: Box<Step>, right: Box<Step> },
    And { left: Box<Step>, right: Box<Step> },
    Or { left: Box<Step>, right: Box<Step> },
    Literal(String),
    Concat { left: Box<Step>, right: Box<Step> },
}

impl Step {
    spec fn path(&self) -> Path
        decreases self,
    {
        match self {
            Step::Root => Path::Root,
            Step::Select { name, object } => Path::Select {
                name: name@,
                parent: Box::new(object.path()),
            },
            Step::Eq { left, right } => Path::Eq {
                left: Box::new(left.path()),
                right: Box::new(right.path()),
            },
            Step::And { left, right } => Path::And {
                left: Box::new(left.path()),
                right: Box::new(right.path()),
            },
            Step::Or { left, right } => Path::Or {
                left: Box::new(left.path()),
                right: Box::new(right.path()),
            },
            Step::Literal(s) => Path::Literal(s@),
            Step::Concat { left, right } => Path::Concat {
                left: Box::new(left.path()),
                right: Box::new(right.path()),
            },
        }
    }
}

impl View for Step {
    type V = Path;

    closed spec fn view(&self) -> Path {
        self.path()
    }
}

impl Step {
    fn duplicate(&self) -> (r: Step)
        ensures
            r@ == self@,
        decreases self,
    {
        match self {
            Step::Root => Step::Root,
            Step::Select { name, object } => Step::Select {
                name: name.clone(),
                object: Box::new(object.duplicate()),
            },
            Step::Eq { left, right } => Step::Eq {
                left: Box::new(left.duplicate()),
                right: Box::new(right.duplicate()),
            },
            Step::And { left, right } => Step::And {
                left: Box::new(left.duplicate()),
                right: Box::new(right.duplicate()),
            },
            Step::Or { left, right } => Step::Or {
                left: Box::new(left.duplicate()),
                right: Box::new(right.duplicate()),
            },
            Step::Literal(s) => Step::Literal(s.clone()),
            Step::Concat { left, right } => Step::Concat {
                left: Box::new(left.duplicate()),
                right: Box::new(right.duplicate()),
            },
        }
    }

    fn infix(left: String, op: &str, right: String) -> (r: String)
        ensures
            r@ == left@ + op@ + right@,
    {
        let mut out = left;
        out.append(op);
        out.append(right.as_str());
        out
    }

    fn render(&self) -> (r: String)
        ensures
            r@ == render_inner(self@),
        decreases self,
    {
        match self {
            Step::Root => String::new(),
            Step::Select { name, object } => {
                if let Step::Root = **object {
                    assert(object.path() is Root);
                    remove_char(name.as_str(), '"')
                } else {
                    let mut out = object.render();
                    out.append(".");
                    out.append(name.as_str());
                    out
                }
            },
            Step::Eq { left, right } => Step::infix(left.render(), " == ", right.render()),
            Step::And { left, right } => Step::infix(left.render(), " && ", right.render()),
            Step::Or { left, right } => Step::infix(left.render(), " || ", right.render()),
            Step::Literal(value) => {
                let mut out = String::from_str("'");
                out.append(value.as_str());
                out.append("'");
                out
            },
            Step::Concat { left, right } => {
                let mut out = left.render();
                out.append(right.render().as_str());
                out
            },
        }
    }
}

/// An expression over the workflow run contexts that denotes a value of
/// type `A`.
pub struct Context<A> {
    marker: PhantomData<A>,
    step: Step,
}

impl<A> View for Context<A> {
    type V = Path;

    closed spec fn view(&self) -> Path {
        self.step@
    }
}

impl<A> Context<A> {
    /// The root, from which every selection starts.
    pub fn new() -> (r: Self)
        ensures
            r@ == Path::Root,
    {
        Context { marker: PhantomData, step: Step::Root }
    }

    /// The field `path` of this expression, denoting a value of type `B`.
    pub fn select<B>(&self, path: &str) -> (r: Context<B>)
        ensures
            r@ == (Path::Select { name: path@, parent: Box::new(self@) }),
    {
        Context {
            marker: PhantomData,
            step: Step::Select { name: String::from_str(path), object: Box::new(self.step.duplicate()) },
        }
    }

    /// The comparison `self == other`.
    pub fn eq(&self, other: Context<A>) -> (r: Context<bool>)
        ensures
            r@ == (Path::Eq { left: Box::new(self@), right: Box::new(other@) }),
    {
        Context {
            marker: PhantomData,
            step: Step::Eq { left: Box::new(self.step.duplicate()), right: Box::new(other.step) },
        }
    }

    /// The conjunction `self && other`.
    pub fn and(&self, other: Context<A>) -> (r: Context<bool>)
        ensures
            r@ == (Path::And { left: Box::new(self@), right: Box::new(other@) }),
    {
        Context {
            marker: PhantomData,
            step: Step::And { left: Box::new(self.step.duplicate()), right: Box::new(other.step) },
        }
    }

    /// The disjunction `self || other`.
    pub fn or(&self, other: Context<A>) -> (r: Context<bool>)
        ensures
            r@ == (Path::Or { left: Box::new(self@), right: Box::new(other@) }),
    {
        Context {
            marker: PhantomData,
            step: Step::Or { left: Box::new(self.step.duplicate()), right: Box::new(other.step) },
        }
    }

    /// A copy that stands for the same tree.
    pub fn duplicate(&self) -> (r: Self)
        ensures
            r@ == self@,
    {
        Context { marker: PhantomData, step: self.step.duplicate() }
    }

    /// The text of the expression between `${{` and `}}`.
    pub fn to_string(&self) -> (r: String)
        ensures
            r@ == render(self@),
    {
        let mut out = String::from_str(OPENING);
        out.append(self.step.render().as_str());
        out.append(CLOSING);
        out
    }

    /// The text of the expression without the delimiters.
    pub fn inner_text(&self) -> (r: String)
        ensures
            r@ == render_inner(self@),
    {
        self.step.render()
    }

    /// The expression as the text of a condition.
    pub fn to_expression(&self) -> (r: Expression)
        ensures
            r@ == render(self@),
    {
        Expression(self.to_string())
    }
}

impl Context<String> {
    /// The string constant `value`, rendered between single quotes.
    pub fn literal(value: &str) -> (r: Context<String>)
        ensures
            r@ == Path::Literal(value@),
    {
        Context { marker: PhantomData, step: Step::Literal(String::from_str(value)) }
    }

    /// This string directly followed by `other`.
    pub fn concat(&self, other: Context<String>) -> (r: Context<String>)
        ensures
            r@ == (Path::Concat { left: Box::new(self@), right: Box::new(other@) }),
    {
        Context {
            marker: PhantomData,
            step: Step::Concat { left: Box::new(self.step.duplicate()), right: Box::new(other.step) },
        }
    }
}

impl<A> Clone for Context<A> {
    fn clone(&self) -> (r: Self)
        ensures
            r@ == self@,
    {
        self.duplicate()
    }
}

impl From<&str> for Context<String> {
    fn from(value: &str) -> (r: Context<String>)
        ensures
            r@ == Path::Literal(value@),
    {
        Context::literal(value)
    }
}

impl vstd::std_specs::convert::FromSpecImpl<&str> for Context<String> {
    open spec fn obeys_from_spec() -> bool {
        false
    }

    open spec fn from_spec(v: &str) -> Self {
        arbitrary()
    }
}

impl<A> vstd::std_specs::convert::FromSpecImpl<Context<A>> for Expression {
    open spec fn obeys_from_spec() -> bool {
        false
    }

    open spec fn from_spec(v: Context<A>) -> Self {
        arbitrary()
    }
}

impl<A> From<Context<A>> for Expression {
    fn from(value: Context<A>) -> (r: Expression)
        ensures
            r@ == render(value@),
    {
        value.to_expression()
    }
}

/// The `github` context: information about the run and the event that
/// triggered it.
pub struct Github {}

/// The `job` context: information about the running job.
pub struct Job {}

/// The status of a job.
#[derive(Clone, Debug)]
pub enum JobStatus {
    /// The job completed successfully.
    Success,
    /// The job failed.
    Failure,
    /// The job was cancelled.
    Cancelled,
}

/// The container of a job; present only where the job runs in one.
pub struct Container {}

/// The service containers of a job.
pub struct Services {}

impl Context<Github> {
    /// The `github` context.
    pub fn github() -> (r: Context<Github>)
        ensures
            r@ == (Path::Select { name: "\"github\""@, parent: Box::new(Path::Root) }),
    {
        let root: Context<Github> = Context::new();
        root.select("\"github\"")
    }

    /// The name of the action currently running, or the id of a step.
    pub fn action(&self) -> (r: Context<String>)
        ensures
            r@ == (Path::Select { name: "action"@, parent: Box::new(self@) }),
    {
        self.select("action")
    }

    /// The path where an action is located.
    pub fn action_path(&self) -> (r: Context<String>)
        ensures
            r@ == (Path::Select { name: "action_path"@, parent: Box::new(self@) }),
    {
        self.select("action_path")
    }

    /// For a step executing an action, the ref of the action.
    pub fn action_ref(&self) -> (r: Context<String>)
        ensures
            r@ == (Path::Select { name: "action_ref"@, parent: Box::new(self@) }),
    {
        self.select("action_ref")
    }

    /// For a step executing an action, the owner and repository name of the action.
    pub fn action_repository(&self) -> (r: Context<String>)
        ensures
            r@ == (Path::Select { name: "action_repository"@, parent: Box::new(self@) }),
    {
        self.select("action_repository")
    }

    /// For a composite action, the current result of the action.
    pub fn action_status(&self) -> (r: Context<String>)
        ensures
            r@ == (Path::Select { name: "action_status"@, parent: Box::new(self@) }),
    {
        self.select("action_status")
    }

    /// The username of the user that triggered the initial run.
    pub fn actor(&self) -> (r: Context<String>)
        ensures
            r@ == (Path::Select { name: "actor"@, parent: Box::new(self@) }),
    {
        self.select("actor")
    }

    /// The account id of the person or app that triggered the initial run.
    pub fn actor_id(&self) -> (r: Context<String>)
        ensures
            r@ == (Path::Select { name: "actor_id"@, parent: Box::new(self@) }),
    {
        self.select("actor_id")
    }

    /// The URL of the REST API.
    pub fn api_url(&self) -> (r: Context<String>)
        ensures
            r@ == (Path::Select { name: "api_url"@, parent: Box::new(self@) }),
    {
        self.select("api_url")
    }

    /// The target branch of the pull request of the run.
    pub fn base_ref(&self) -> (r: Context<String>)
        ensures
            r@ == (Path::Select { name: "base_ref"@, parent: Box::new(self@) }),
    {
        self.select("base_ref")
    }

    /// The path of the file that sets environment variables from workflow commands.
    pub fn env(&self) -> (r: Context<String>)
        ensures
            r@ == (Path::Select { name: "env"@, parent: Box::new(self@) }),
    {
        self.select("env")
    }

    /// The full event webhook payload.
    pub fn event(&self) -> (r: Context<Value>)
        ensures
            r@ == (Path::Select { name: "event"@, parent: Box::new(self@) }),
    {
        self.select("event")
    }

    /// The name of the event that triggered the run.
    pub fn event_name(&self) -> (r: Context<String>)
        ensures
            r@ == (Path::Select { name: "event_name"@, parent: Box::new(self@) }),
    {
        self.select("event_name")
    }

    /// The path of the file that contains the full event payload.
    pub fn event_path(&self) -> (r: Context<String>)
        ensures
            r@ == (Path::Select { name: "event_path"@, parent: Box::new(self@) }),
    {
        self.select("event_path")
    }

    /// The URL of the GraphQL API.
    pub fn graphql_url(&self) -> (r: Context<String>)
        ensures
            r@ == (Path::Select { name: "graphql_url"@, parent: Box::new(self@) }),
    {
        self.select("graphql_url")
    }

    /// The source branch of the pull request of the run.
    pub fn head_ref(&self) -> (r: Context<String>)
        ensures
            r@ == (Path::Select { name: "head_ref"@, parent: Box::new(self@) }),
    {
        self.select("head_ref")
    }

    /// The id of the current job.
    pub fn job(&self) -> (r: Context<String>)
        ensures
            r@ == (Path::Select { name: "job"@, parent: Box::new(self@) }),
    {
        self.select("job")
    }

    /// The path of the repository.
    pub fn path(&self) -> (r: Context<String>)
        ensures
            r@ == (Path::Select { name: "path"@, parent: Box::new(self@) }),
    {
        self.select("path")
    }

    /// The short name of the branch or tag that triggered the run.
    pub fn ref_name(&self) -> (r: Context<String>)
        ensures
            r@ == (Path::Select { name: "ref_name"@, parent: Box::new(self@) }),
    {
        self.select("ref_name")
    }

    /// Whether branch protections are configured for the ref that triggered the run.
    pub fn ref_protected(&self) -> (r: Context<bool>)
        ensures
            r@ == (Path::Select { name: "ref_protected"@, parent: Box::new(self@) }),
    {
        self.select("ref_protected")
    }

    /// The type of ref that triggered the run: branch or tag.
    pub fn ref_type(&self) -> (r: Context<String>)
        ensures
            r@ == (Path::Select { name: "ref_type"@, parent: Box::new(self@) }),
    {
        self.select("ref_type")
    }

    /// The owner and repository name.
    pub fn repository(&self) -> (r: Context<String>)
        ensures
            r@ == (Path::Select { name: "repository"@, parent: Box::new(self@) }),
    {
        self.select("repository")
    }

    /// The id of the repository.
    pub fn repository_id(&self) -> (r: Context<String>)
        ensures
            r@ == (Path::Select { name: "repository_id"@, parent: Box::new(self@) }),
    {
        self.select("repository_id")
    }

    /// The username of the repository owner.
    pub fn repository_owner(&self) -> (r: Context<String>)
        ensures
            r@ == (Path::Select { name: "repository_owner"@, parent: Box::new(self@) }),
    {
        self.select("repository_owner")
    }

    /// The account id of the repository owner.
    pub fn repository_owner_id(&self) -> (r: Context<String>)
        ensures
            r@ == (Path::Select { name: "repository_owner_id"@, parent: Box::new(self@) }),
    {
        self.select("repository_owner_id")
    }

    /// The Git URL of the repository.
    pub fn repository_url(&self) -> (r: Context<String>)
        ensures
            r@ == (Path::Select { name: "repository_url"@, parent: Box::new(self@) }),
    {
        self.select("repository_url")
    }

    /// The number of days that logs and artifacts are kept.
    pub fn retention_days(&self) -> (r: Context<String>)
        ensures
            r@ == (Path::Select { name: "retention_days"@, parent: Box::new(self@) }),
    {
        self.select("retention_days")
    }

    /// A unique number for each run within a repository.
    pub fn run_id(&self) -> (r: Context<String>)
        ensures
            r@ == (Path::Select { name: "run_id"@, parent: Box::new(self@) }),
    {
        self.select("run_id")
    }

    /// A unique number for each run of a particular workflow.
    pub fn run_number(&self) -> (r: Context<String>)
        ensures
            r@ == (Path::Select { name: "run_number"@, parent: Box::new(self@) }),
    {
        self.select("run_number")
    }

    /// A unique number for each attempt of a particular run.
    pub fn run_attempt(&self) -> (r: Context<String>)
        ensures
            r@ == (Path::Select { name: "run_attempt"@, parent: Box::new(self@) }),
    {
        self.select("run_attempt")
    }

    /// The source of a secret used in a workflow.
    pub fn secret_source(&self) -> (r: Context<String>)
        ensures
            r@ == (Path::Select { name: "secret_source"@, parent: Box::new(self@) }),
    {
        self.select("secret_source")
    }

    /// The URL of the server.
    pub fn server_url(&self) -> (r: Context<String>)
        ensures
            r@ == (Path::Select { name: "server_url"@, parent: Box::new(self@) }),
    {
        self.select("server_url")
    }

    /// The commit that triggered the workflow.
    pub fn sha(&self) -> (r: Context<String>)
        ensures
            r@ == (Path::Select { name: "sha"@, parent: Box::new(self@) }),
    {
        self.select("sha")
    }

    /// A token to authenticate on behalf of the app installed on the repository.
    pub fn token(&self) -> (r: Context<String>)
        ensures
            r@ == (Path::Select { name: "token"@, parent: Box::new(self@) }),
    {
        self.select("token")
    }

    /// The username of the user that initiated the run.
    pub fn triggering_actor(&self) -> (r: Context<String>)
        ensures
            r@ == (Path::Select { name: "triggering_actor"@, parent: Box::new(self@) }),
    {
        self.select("triggering_actor")
    }

    /// The name of the workflow.
    pub fn workflow(&self) -> (r: Context<String>)
        ensures
            r@ == (Path::Select { name: "workflow"@, parent: Box::new(self@) }),
    {
        self.select("workflow")
    }

    /// The ref path to the workflow.
    pub fn workflow_ref(&self) -> (r: Context<String>)
        ensures
            r@ == (Path::Select { name: "workflow_ref"@, parent: Box::new(self@) }),
    {
        self.select("workflow_ref")
    }

    /// The commit of the workflow file.
    pub fn workflow_sha(&self) -> (r: Context<String>)
        ensures
            r@ == (Path::Select { name: "workflow_sha"@, parent: Box::new(self@) }),
    {
        self.select("workflow_sha")
    }

    /// The default working directory on the runner for steps.
    pub fn workspace(&self) -> (r: Context<String>)
        ensures
            r@ == (Path::Select { name: "workspace"@, parent: Box::new(self@) }),
    {
        self.select("workspace")
    }

    /// The fully formed ref of the branch or tag that triggered the run.
    pub fn ref_(&self) -> (r: Context<String>)
        ensures
            r@ == (Path::Select { name: "ref"@, parent: Box::new(self@) }),
    {
        self.select("ref")
    }
}

impl Context<Job> {
    /// The `job` context.
    pub fn job() -> (r: Context<Job>)
        ensures
            r@ == (Path::Select { name: "\"job\""@, parent: Box::new(Path::Root) }),
    {
        let root: Context<Job> = Context::new();
        root.select("\"job\"")
    }

    /// The container of the job.
    pub fn container(&self) -> (r: Context<Container>)
        ensures
            r@ == (Path::Select { name: "container"@, parent: Box::new(self@) }),
    {
        self.select("container")
    }

    /// The service containers of the job.
    pub fn services(&self) -> (r: Context<Services>)
        ensures
            r@ == (Path::Select { name: "services"@, parent: Box::new(self@) }),
    {
        self.select("services")
    }

    /// The status of the job.
    pub fn status(&self) -> (r: Context<JobStatus>)
        ensures
            r@ == (Path::Select { name: "status"@, parent: Box::new(self@) }),
    {
        self.select("status")
    }
}

impl Context<Container> {
    /// The `container` context.
    pub fn container() -> (r: Context<Container>)
        ensures
            r@ == (Path::Select { name: "\"container\""@, parent: Box::new(Path::Root) }),
    {
        let root: Context<Container> = Context::new();
        root.select("\"container\"")
    }

    /// The id of the container.
    pub fn id(&self) -> (r: Context<String>)
        ensures
            r@ == (Path::Select { name: "id"@, parent: Box::new(self@) }),
    {
        self.select("id")
    }

    /// The network of the container.
    pub fn network(&self) -> (r: Context<String>)
        ensures
            r@ == (Path::Select { name: "network"@, parent: Box::new(self@) }),
    {
        self.select("network")
    }
}

impl Context<Services> {
    /// The `services` context.
    pub fn services() -> (r: Context<Services>)
        ensures
            r@ == (Path::Select { name: "\"services\""@, parent: Box::new(Path::Root) }),
    {
        let root: Context<Services> = Context::new();
        root.select("\"services\"")
    }
}

/// Rendering is a function of the tree: two expressions that stand for the
/// same tree have the same text, and so has one expression rendered twice.
pub proof fn render_is_deterministic<A, B>(a: Context<A>, b: Context<B>)
    requires
        a@ == b@,
    ensures
        render(a@) == render(b@),
{
}

/// A field selected on the root renders as its name without double quotes;
/// a field selected on such a selection is joined to it with a dot.
pub proof fn render_of_selection_chain(first: Seq<char>, second: Seq<char>)
    ensures
        render(Path::Select { name: first, parent: Box::new(Path::Root) }) == OPENING@ + without(
            first,
            '"',
        ) + CLOSING@,
        render(
            Path::Select {
                name: second,
                parent: Box::new(Path::Select { name: first, parent: Box::new(Path::Root) }),
            },
        ) == OPENING@ + (without(first, '"') + "."@ + second) + CLOSING@,
{
    let inner = Path::Select { name: first, parent: Box::new(Path::Root) };
    assert(render_inner(inner) == without(first, '"'));
    assert(!(inner is Root));
}

/// A combination renders as the text of its left operand, the operator
/// between two spaces, and the text of its right operand, all between the
/// delimiters; a concatenation has no operator.
pub proof fn render_of_combinators(x: Path, y: Path)
    ensures
        render(Path::Eq { left: Box::new(x), right: Box::new(y) }) == OPENING@ + (render_inner(x)
            + " == "@ + render_inner(y)) + CLOSING@,
        render(Path::And { left: Box::new(x), right: Box::new(y) }) == OPENING@ + (render_inner(x)
            + " && "@ + render_inner(y)) + CLOSING@,
        render(Path::Or { left: Box::new(x), right: Box::new(y) }) == OPENING@ + (render_inner(x)
            + " || "@ + render_inner(y)) + CLOSING@,
        render(Path::Concat { left: Box::new(x), right: Box::new(y) }) == OPENING@ + (render_inner(
            x,
        ) + render_inner(y)) + CLOSING@,
{
}

} // verus!
