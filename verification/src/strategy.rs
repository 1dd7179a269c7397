//! How the runs of a job are multiplied.

use vstd::prelude::*;
use crate::data::Data;
use crate::value::Value;
use crate::value::ValueView;

verus! {

/// The strategy of a job.
#[derive(Debug, Clone, PartialEq, Eq)]
pub struct Strategy {
    /// The matrix of the runs.
    pub matrix: Option<Value>,
    /// Whether one failed run cancels the others.
    pub fail_fast: Option<bool>,
    /// The most runs at a time.
    pub max_parallel: Option<u32>,
}

/// The content of a [`Strategy`].
pub struct StrategyView {
    pub matrix: Option<ValueView>,
    pub fail_fast: Option<bool>,
    pub max_parallel: Option<u32>,
}

impl DeepView for Strategy {
    type V = StrategyView;

    open spec fn deep_view(&self) -> StrategyView {
        StrategyView {
            matrix: self.matrix.deep_view(),
            fail_fast: self.fail_fast.deep_view(),
            max_parallel: self.max_parallel.deep_view(),
        }
    }
}

impl Data for Strategy {
    fn duplicate(&self) -> (r: Self) {
        Strategy {
            matrix: self.matrix.duplicate(),
            fail_fast: self.fail_fast.duplicate(),
            max_parallel: self.max_parallel.duplicate(),
        }
    }

    fn same(&self, other: &Self) -> (r: bool) {
        self.matrix.same(&other.matrix)
            && self.fail_fast.same(&other.fail_fast)
            && self.max_parallel.same(&other.max_parallel)
    }
}

impl Strategy {
    /// The strategy of which nothing is said.
    pub open spec fn default_spec() -> Strategy {
        Strategy {
            matrix: None,
            fail_fast: None,
            max_parallel: None,
        }
    }
}

impl Default for Strategy {
    fn default() -> (r: Self)
        ensures
            r == Strategy::default_spec(),
    {
        Strategy {
            matrix: None,
            fail_fast: None,
            max_parallel: None,
        }
    }
}

impl Strategy {
    /// Sets `matrix`.
    pub fn matrix(self, value: Value) -> (r: Self)
        ensures
            r == (Strategy { matrix: Some(value), ..self }),
    {
        Strategy { matrix: Some(value), ..self }
    }

    /// Sets `fail_fast`.
    pub fn fail_fast(self, value: bool) -> (r: Self)
        ensures
            r == (Strategy { fail_fast: Some(value), ..self }),
    {
        Strategy { fail_fast: Some(value), ..self }
    }

    /// Sets `max_parallel`.
    pub fn max_parallel(self, value: u32) -> (r: Self)
        ensures
            r == (Strategy { max_parallel: Some(value), ..self }),
    {
        Strategy { max_parallel: Some(value), ..self }
    }
}

} // verus!
