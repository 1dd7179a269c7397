//! Permissions of the token that a workflow runs with.

use vstd::prelude::*;
use crate::data::Data;

verus! {

/// How much a token may do with one kind of resource.
#[derive(Debug, Clone, Copy, PartialEq, Eq, Structural)]
pub enum Level {
    /// The token may read.
    Read,
    /// The token may read and write.
    Write,
    /// The token has no access.
    NoAccess,
}

impl DeepView for Level {
    type V = Level;

    open spec fn deep_view(&self) -> Level {
        *self
    }
}

impl Data for Level {
    fn duplicate(&self) -> (r: Self) {
        *self
    }

    fn same(&self, other: &Self) -> (r: bool) {
        *self == *other
    }
}

impl Default for Level {
    fn default() -> (r: Self)
        ensures
            r == Level::NoAccess,
    {
        Level::NoAccess
    }
}

/// The permissions of the token, by kind of resource.
#[derive(Debug, Clone, PartialEq, Eq)]
pub struct Permissions {
    /// Workflow runs and their artifacts.
    pub actions: Option<Level>,
    /// The contents of the repository.
    pub contents: Option<Level>,
    /// Issues.
    pub issues: Option<Level>,
    /// Pull requests.
    pub pull_requests: Option<Level>,
    /// Deployments.
    pub deployments: Option<Level>,
    /// Check runs and check suites.
    pub checks: Option<Level>,
    /// Commit statuses.
    pub statuses: Option<Level>,
    /// Packages.
    pub packages: Option<Level>,
    /// Pages.
    pub pages: Option<Level>,
    /// The identity token.
    pub id_token: Option<Level>,
}

/// The content of a [`Permissions`].
pub struct PermissionsView {
    pub actions: Option<Level>,
    pub contents: Option<Level>,
    pub issues: Option<Level>,
    pub pull_requests: Option<Level>,
    pub deployments: Option<Level>,
    pub checks: Option<Level>,
    pub statuses: Option<Level>,
    pub packages: Option<Level>,
    pub pages: Option<Level>,
    pub id_token: Option<Level>,
}

impl DeepView for Permissions {
    type V = PermissionsView;

    open spec fn deep_view(&self) -> PermissionsView {
        PermissionsView {
            actions: self.actions.deep_view(),
            contents: self.contents.deep_view(),
            issues: self.issues.deep_view(),
            pull_requests: self.pull_requests.deep_view(),
            deployments: self.deployments.deep_view(),
            checks: self.checks.deep_view(),
            statuses: self.statuses.deep_view(),
            packages: self.packages.deep_view(),
            pages: self.pages.deep_view(),
            id_token: self.id_token.deep_view(),
        }
    }
}

impl Data for Permissions {
    fn duplicate(&self) -> (r: Self) {
        Permissions {
            actions: self.actions.duplicate(),
            contents: self.contents.duplicate(),
            issues: self.issues.duplicate(),
            pull_requests: self.pull_requests.duplicate(),
            deployments: self.deployments.duplicate(),
            checks: self.checks.duplicate(),
            statuses: self.statuses.duplicate(),
            packages: self.packages.duplicate(),
            pages: self.pages.duplicate(),
            id_token: self.id_token.duplicate(),
        }
    }

    fn same(&self, other: &Self) -> (r: bool) {
        self.actions.same(&other.actions)
            && self.contents.same(&other.contents)
            && self.issues.same(&other.issues)
            && self.pull_requests.same(&other.pull_requests)
            && self.deployments.same(&other.deployments)
            && self.checks.same(&other.checks)
            && self.statuses.same(&other.statuses)
            && self.packages.same(&other.packages)
            && self.pages.same(&other.pages)
            && self.id_token.same(&other.id_token)
    }
}

impl Permissions {
    /// The permissions of which nothing is said.
    pub open spec fn default_spec() -> Permissions {
        Permissions {
            actions: None,
            contents: None,
            issues: None,
            pull_requests: None,
            deployments: None,
            checks: None,
            statuses: None,
            packages: None,
            pages: None,
            id_token: None,
        }
    }
}

impl Default for Permissions {
    fn default() -> (r: Self)
        ensures
            r == Permissions::default_spec(),
    {
        Permissions {
            actions: None,
            contents: None,
            issues: None,
            pull_requests: None,
            deployments: None,
            checks: None,
            statuses: None,
            packages: None,
            pages: None,
            id_token: None,
        }
    }
}

impl Permissions {
    /// Sets `actions`.
    pub fn actions(self, value: Level) -> (r: Self)
        ensures
            r == (Permissions { actions: Some(value), ..self }),
    {
        Permissions { actions: Some(value), ..self }
    }

    /// Sets `contents`.
    pub fn contents(self, value: Level) -> (r: Self)
        ensures
            r == (Permissions { contents: Some(value), ..self }),
    {
        Permissions { contents: Some(value), ..self }
    }

    /// Sets `issues`.
    pub fn issues(self, value: Level) -> (r: Self)
        ensures
            r == (Permissions { issues: Some(value), ..self }),
    {
        Permissions { issues: Some(value), ..self }
    }

    /// Sets `pull_requests`.
    pub fn pull_requests(self, value: Level) -> (r: Self)
        ensures
            r == (Permissions { pull_requests: Some(value), ..self }),
    {
        Permissions { pull_requests: Some(value), ..self }
    }

    /// Sets `deployments`.
    pub fn deployments(self, value: Level) -> (r: Self)
        ensures
            r == (Permissions { deployments: Some(value), ..self }),
    {
        Permissions { deployments: Some(value), ..self }
    }

    /// Sets `checks`.
    pub fn checks(self, value: Level) -> (r: Self)
        ensures
            r == (Permissions { checks: Some(value), ..self }),
    {
        Permissions { checks: Some(value), ..self }
    }

    /// Sets `statuses`.
    pub fn statuses(self, value: Level) -> (r: Self)
        ensures
            r == (Permissions { statuses: Some(value), ..self }),
    {
        Permissions { statuses: Some(value), ..self }
    }

    /// Sets `packages`.
    pub fn packages(self, value: Level) -> (r: Self)
        ensures
            r == (Permissions { packages: Some(value), ..self }),
    {
        Permissions { packages: Some(value), ..self }
    }

    /// Sets `pages`.
    pub fn pages(self, value: Level) -> (r: Self)
        ensures
            r == (Permissions { pages: Some(value), ..self }),
    {
        Permissions { pages: Some(value), ..self }
    }

    /// Sets `id_token`.
    pub fn id_token(self, value: Level) -> (r: Self)
        ensures
            r == (Permissions { id_token: Some(value), ..self }),
    {
        Permissions { id_token: Some(value), ..self }
    }
}

} // verus!
