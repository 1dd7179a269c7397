//! Secrets that a workflow asks for.

use vstd::prelude::*;
use crate::data::Data;

verus! {

/// A secret that a workflow asks of its caller.
#[derive(Debug, Clone, PartialEq, Eq)]
pub struct Secret {
    /// Whether the secret must be given.
    pub required: bool,
    /// What the secret is for.
    pub description: Option<String>,
}

/// The content of a [`Secret`].
pub struct SecretView {
    pub required: bool,
    pub description: Option<Seq<char>>,
}

impl DeepView for Secret {
    type V = SecretView;

    open spec fn deep_view(&self) -> SecretView {
        SecretView {
            required: self.required.deep_view(),
            description: self.description.deep_view(),
        }
    }
}

impl Data for Secret {
    fn duplicate(&self) -> (r: Self) {
        Secret {
            required: self.required.duplicate(),
            description: self.description.duplicate(),
        }
    }

    fn same(&self, other: &Self) -> (r: bool) {
        self.required.same(&other.required)
            && self.description.same(&other.description)
    }
}

impl Secret {
    /// The secret of which nothing is said.
    pub open spec fn default_spec() -> Secret {
        Secret {
            required: false,
            description: None,
        }
    }
}

impl Default for Secret {
    fn default() -> (r: Self)
        ensures
            r == Secret::default_spec(),
    {
        Secret {
            required: false,
            description: None,
        }
    }
}

impl Secret {
    /// Sets `required`.
    pub fn required(self, value: bool) -> (r: Self)
        ensures
            r == (Secret { required: value, ..self }),
    {
        Secret { required: value, ..self }
    }

    /// Sets `description`.
    pub fn description(self, value: String) -> (r: Self)
        ensures
            r == (Secret { description: Some(value), ..self }),
    {
        Secret { description: Some(value), ..self }
    }
}

} // verus!
