//! Steps that release with release-plz.

use vstd::prelude::*;
use crate::ordered::Entries;
use crate::ordered::as_map;
use crate::step::action_ref;
use crate::step::Input;
use crate::step::Step;
use crate::step::StepValue;
use crate::step::StepValueView;
use crate::step::Use;
use crate::toolchain::put_some;
use crate::value::Value;
use crate::value::ValueView;

verus! {

/// What release-plz does.
#[derive(Debug, Clone, Copy, PartialEq, Eq, Structural)]
pub enum Command {
    /// Opens a pull request that prepares the release.
    ReleasePR,
    /// Releases the packages.
    Release,
}

impl DeepView for Command {
    type V = Command;

    open spec fn deep_view(&self) -> Command {
        *self
    }
}

impl Command {
    /// The name as it is written in a workflow.
    pub open spec fn text(self) -> Seq<char> {
        match self {
            Command::ReleasePR => "release-pr"@,
            Command::Release => "release"@,
        }
    }

    /// The name as it is written in a workflow.
    pub fn to_string(&self) -> (r: String)
        ensures
            r@ == self.text(),
    {
        match self {
            Command::ReleasePR => String::from_str("release-pr"),
            Command::Release => String::from_str("release"),
        }
    }
}

/// The forge that release-plz talks to.
#[derive(Debug, Clone, Copy, PartialEq, Eq, Structural)]
pub enum Backend {
    GitHub,
    Gitea,
}

impl DeepView for Backend {
    type V = Backend;

    open spec fn deep_view(&self) -> Backend {
        *self
    }
}

impl Backend {
    /// The name as it is written in a workflow.
    pub open spec fn text(self) -> Seq<char> {
        match self {
            Backend::GitHub => "github"@,
            Backend::Gitea => "gitea"@,
        }
    }

    /// The name as it is written in a workflow.
    pub fn to_string(&self) -> (r: String)
        ensures
            r@ == self.text(),
    {
        match self {
            Backend::GitHub => String::from_str("github"),
            Backend::Gitea => String::from_str("gitea"),
        }
    }
}

/// The inputs of the release-plz action.
#[derive(Debug, Clone, PartialEq, Eq)]
pub struct Release {
    /// What to do; both commands where none is given.
    pub command: Option<Command>,
    /// The registry of the packages.
    pub registry: Option<String>,
    /// The path of the manifest of the project.
    pub manifest_path: Option<String>,
    /// The version of release-plz.
    pub version: Option<String>,
    /// The path of the configuration of release-plz.
    pub config: Option<String>,
    /// The token for the registry.
    pub token: Option<String>,
    /// The forge.
    pub backend: Option<Backend>,
}

/// The content of a [`Release`].
pub struct ReleaseView {
    pub command: Option<Command>,
    pub registry: Option<Seq<char>>,
    pub manifest_path: Option<Seq<char>>,
    pub version: Option<Seq<char>>,
    pub config: Option<Seq<char>>,
    pub token: Option<Seq<char>>,
    pub backend: Option<Backend>,
}

impl DeepView for Release {
    type V = ReleaseView;

    open spec fn deep_view(&self) -> ReleaseView {
        ReleaseView {
            command: self.command.deep_view(),
            registry: self.registry.deep_view(),
            manifest_path: self.manifest_path.deep_view(),
            version: self.version.deep_view(),
            config: self.config.deep_view(),
            token: self.token.deep_view(),
            backend: self.backend.deep_view(),
        }
    }
}

impl Release {
    /// The release of which nothing is said.
    pub open spec fn default_spec() -> Release {
        Release {
            command: None,
            registry: None,
            manifest_path: None,
            version: None,
            config: None,
            token: None,
            backend: None,
        }
    }
}

impl Default for Release {
    fn default() -> (r: Self)
        ensures
            r == Release::default_spec(),
    {
        Release {
            command: None,
            registry: None,
            manifest_path: None,
            version: None,
            config: None,
            token: None,
            backend: None,
        }
    }
}

impl Release {
    /// Sets `command`.
    pub fn command(self, value: Command) -> (r: Self)
        ensures
            r == (Release { command: Some(value), ..self }),
    {
        Release { command: Some(value), ..self }
    }

    /// Sets `registry`.
    pub fn registry(self, value: String) -> (r: Self)
        ensures
            r == (Release { registry: Some(value), ..self }),
    {
        Release { registry: Some(value), ..self }
    }

    /// Sets `manifest_path`.
    pub fn manifest_path(self, value: String) -> (r: Self)
        ensures
            r == (Release { manifest_path: Some(value), ..self }),
    {
        Release { manifest_path: Some(value), ..self }
    }

    /// Sets `version`.
    pub fn version(self, value: String) -> (r: Self)
        ensures
            r == (Release { version: Some(value), ..self }),
    {
        Release { version: Some(value), ..self }
    }

    /// Sets `config`.
    pub fn config(self, value: String) -> (r: Self)
        ensures
            r == (Release { config: Some(value), ..self }),
    {
        Release { config: Some(value), ..self }
    }

    /// Sets `token`.
    pub fn token(self, value: String) -> (r: Self)
        ensures
            r == (Release { token: Some(value), ..self }),
    {
        Release { token: Some(value), ..self }
    }

    /// Sets `backend`.
    pub fn backend(self, value: Backend) -> (r: Self)
        ensures
            r == (Release { backend: Some(value), ..self }),
    {
        Release { backend: Some(value), ..self }
    }
}

/// The text of a setting that is made.
pub open spec fn some_string(text: Option<Seq<char>>) -> Option<ValueView> {
    match text {
        Some(t) => Some(ValueView::String(t)),
        None => None,
    }
}

impl ReleaseView {
    /// The step that releases: it uses the release-plz action with the
    /// inputs of the settings that are made, or without inputs where none
    /// is made.
    pub open spec fn step(self) -> StepValueView {
        StepValueView {
            name: Some("Release Plz"@),
            uses: Some(action_ref("MarcoIeni"@, "release-plz-action"@, "v0.5"@)),
            with: if self.inputs().len() == 0 {
                None
            } else {
                Some(as_map(self.inputs()))
            },
            ..StepValue::default_spec().deep_view()
        }
    }

    /// The inputs that stand for the settings that are made, in the order
    /// of the fields.
    pub open spec fn inputs(self) -> Entries<ValueView> {
        let s = Seq::empty();
        let s = put_some(
            s,
            "command"@,
            match self.command {
                Some(c) => Some(ValueView::String(c.text())),
                None => None,
            },
        );
        let s = put_some(s, "registry"@, some_string(self.registry));
        let s = put_some(s, "manifest_path"@, some_string(self.manifest_path));
        let s = put_some(s, "version"@, some_string(self.version));
        let s = put_some(s, "config"@, some_string(self.config));
        let s = put_some(s, "token"@, some_string(self.token));
        let s = put_some(
            s,
            "backend"@,
            match self.backend {
                Some(b) => Some(ValueView::String(b.text())),
                None => None,
            },
        );
        s
    }
}

impl Release {
    /// The inputs that stand for the settings that are made.
    pub open spec fn inputs(self) -> Entries<ValueView> {
        self.deep_view().inputs()
    }

    /// The inputs that stand for the settings that are made.
    pub fn to_input(&self) -> (r: Input)
        ensures
            r.entries() == self.inputs(),
    {
        let mut input = Input::default();
        match self.command {
            Some(command) => {
                input = input.add("command", Value::text(command.to_string().as_str()));
            },
            None => {},
        }
        match &self.registry {
            Some(registry) => {
                input = input.add("registry", Value::text(registry.as_str()));
            },
            None => {},
        }
        match &self.manifest_path {
            Some(path) => {
                input = input.add("manifest_path", Value::text(path.as_str()));
            },
            None => {},
        }
        match &self.version {
            Some(version) => {
                input = input.add("version", Value::text(version.as_str()));
            },
            None => {},
        }
        match &self.config {
            Some(config) => {
                input = input.add("config", Value::text(config.as_str()));
            },
            None => {},
        }
        match &self.token {
            Some(token) => {
                input = input.add("token", Value::text(token.as_str()));
            },
            None => {},
        }
        match self.backend {
            Some(backend) => {
                input = input.add("backend", Value::text(backend.to_string().as_str()));
            },
            None => {},
        }
        input
    }

    /// The step that releases: it uses the release-plz action with the
    /// inputs of the settings that are made, or without inputs where none
    /// is made.
    pub fn to_step(&self) -> (r: Step<Use>)
        ensures
            r.value.deep_view() == self.deep_view().step(),
            r.value.name is Some,
            r.value.name->0@ == "Release Plz"@,
            r.value.uses is Some,
            r.value.uses->0@ == action_ref("MarcoIeni"@, "release-plz-action"@, "v0.5"@),
            self.inputs().len() == 0 ==> r.value.with is None,
            self.inputs().len() > 0 ==> r.value.with is Some && r.value.with->0.entries()
                == self.inputs(),
            r.value == (StepValue {
                name: r.value.name,
                uses: r.value.uses,
                with: r.value.with,
                ..StepValue::default_spec()
            }),
    {
        let step = Step::new("Release Plz").uses("MarcoIeni", "release-plz-action", "v0.5");
        let input = self.to_input();
        if !input.is_empty() {
            step.with(input)
        } else {
            step
        }
    }
}

impl vstd::std_specs::convert::FromSpecImpl<Release> for Step<Use> {
    open spec fn obeys_from_spec() -> bool {
        false
    }

    open spec fn from_spec(v: Release) -> Self {
        arbitrary()
    }
}

impl From<Release> for Step<Use> {
    fn from(value: Release) -> (r: Step<Use>)
        ensures
            r.value.name is Some,
            r.value.name->0@ == "Release Plz"@,
            r.value.uses is Some,
            r.value.uses->0@ == action_ref("MarcoIeni"@, "release-plz-action"@, "v0.5"@),
            value.inputs().len() == 0 ==> r.value.with is None,
            value.inputs().len() > 0 ==> r.value.with is Some && r.value.with->0.entries()
                == value.inputs(),
    {
        value.to_step()
    }
}

} // verus!
