//! Concurrency groups.

use vstd::prelude::*;
use crate::data::Data;
use crate::expression::Expression;

verus! {

/// The concurrency settings of a workflow or a job.
#[derive(Debug, Clone, PartialEq, Eq)]
pub struct Concurrency {
    /// The name of the group; runs of one group do not overlap.
    pub group: String,
    /// Whether a new run cancels the run in progress.
    pub cancel_in_progress: Option<bool>,
    /// The most runs of the group at a time.
    pub limit: Option<u32>,
}

/// The content of a [`Concurrency`].
pub struct ConcurrencyView {
    pub group: Seq<char>,
    pub cancel_in_progress: Option<bool>,
    pub limit: Option<u32>,
}

impl DeepView for Concurrency {
    type V = ConcurrencyView;

    open spec fn deep_view(&self) -> ConcurrencyView {
        ConcurrencyView {
            group: self.group.deep_view(),
            cancel_in_progress: self.cancel_in_progress.deep_view(),
            limit: self.limit.deep_view(),
        }
    }
}

impl Data for Concurrency {
    fn duplicate(&self) -> (r: Self) {
        Concurrency {
            group: self.group.duplicate(),
            cancel_in_progress: self.cancel_in_progress.duplicate(),
            limit: self.limit.duplicate(),
        }
    }

    fn same(&self, other: &Self) -> (r: bool) {
        self.group.same(&other.group)
            && self.cancel_in_progress.same(&other.cancel_in_progress)
            && self.limit.same(&other.limit)
    }
}

impl ConcurrencyView {
    /// The content of the concurrency of which nothing is said.
    pub open spec fn default_spec() -> ConcurrencyView {
        ConcurrencyView {
            group: Seq::empty(),
            cancel_in_progress: None,
            limit: None,
        }
    }
}

impl Default for Concurrency {
    fn default() -> (r: Self)
        ensures
            r.deep_view() == ConcurrencyView::default_spec(),
            r.group@ == Seq::<char>::empty(),
            r.cancel_in_progress is None,
            r.limit is None,
    {
        let r = Concurrency {
            group: String::new(),
            cancel_in_progress: None,
            limit: None,
        };
        r
    }
}

impl Concurrency {
    /// Sets `group`.
    pub fn group(self, value: String) -> (r: Self)
        ensures
            r == (Concurrency { group: value, ..self }),
    {
        Concurrency { group: value, ..self }
    }

    /// Sets `cancel_in_progress`.
    pub fn cancel_in_progress(self, value: bool) -> (r: Self)
        ensures
            r == (Concurrency { cancel_in_progress: Some(value), ..self }),
    {
        Concurrency { cancel_in_progress: Some(value), ..self }
    }

    /// Sets `limit`.
    pub fn limit(self, value: u32) -> (r: Self)
        ensures
            r == (Concurrency { limit: Some(value), ..self }),
    {
        Concurrency { limit: Some(value), ..self }
    }
}

impl Concurrency {
    /// The settings of the group named by `group`, with nothing else set.
    pub fn new(group: Expression) -> (r: Self)
        ensures
            r.deep_view() == (ConcurrencyView { group: group@, cancel_in_progress: None, limit: None }),
    {
        Concurrency { group: group.0, cancel_in_progress: None, limit: None }
    }
}

} // verus!
