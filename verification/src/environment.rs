//! Deployment environments.

use vstd::prelude::*;
use crate::data::Data;

verus! {

/// The environment that a job deploys to.
#[derive(Debug, Clone, PartialEq, Eq)]
pub struct Environment {
    /// The name of the environment.
    pub name: String,
    /// The address of the deployment.
    pub url: Option<String>,
}

/// The content of an [`Environment`].
pub struct EnvironmentView {
    pub name: Seq<char>,
    pub url: Option<Seq<char>>,
}

impl DeepView for Environment {
    type V = EnvironmentView;

    open spec fn deep_view(&self) -> EnvironmentView {
        EnvironmentView {
            name: self.name.deep_view(),
            url: self.url.deep_view(),
        }
    }
}

impl Data for Environment {
    fn duplicate(&self) -> (r: Self) {
        Environment {
            name: self.name.duplicate(),
            url: self.url.duplicate(),
        }
    }

    fn same(&self, other: &Self) -> (r: bool) {
        self.name.same(&other.name)
            && self.url.same(&other.url)
    }
}

impl EnvironmentView {
    /// The content of the environment of which nothing is said.
    pub open spec fn default_spec() -> EnvironmentView {
        EnvironmentView {
            name: Seq::empty(),
            url: None,
        }
    }
}

impl Default for Environment {
    fn default() -> (r: Self)
        ensures
            r.deep_view() == EnvironmentView::default_spec(),
            r.name@ == Seq::<char>::empty(),
            r.url is None,
    {
        let r = Environment {
            name: String::new(),
            url: None,
        };
        r
    }
}

impl Environment {
    /// Sets `name`.
    pub fn name(self, value: String) -> (r: Self)
        ensures
            r == (Environment { name: value, ..self }),
    {
        Environment { name: value, ..self }
    }

    /// Sets `url`.
    pub fn url(self, value: String) -> (r: Self)
        ensures
            r == (Environment { url: Some(value), ..self }),
    {
        Environment { url: Some(value), ..self }
    }
}

} // verus!
