//! Expressions used in conditions.

use vstd::prelude::*;
use crate::data::Data;

verus! {

/// The text of a condition or of an interpolated value.
#[derive(Debug, Clone, Default, PartialEq, Eq)]
pub struct Expression(pub String);

impl View for Expression {
    type V = Seq<char>;

    open spec fn view(&self) -> Seq<char> {
        self.0@
    }
}

impl DeepView for Expression {
    type V = Seq<char>;

    open spec fn deep_view(&self) -> Seq<char> {
        self.0@
    }
}

impl Expression {
    /// An expression with the text `expr`.
    pub fn new(expr: &str) -> (r: Expression)
        ensures
            r@ == expr@,
    {
        Expression(String::from_str(expr))
    }
}

impl Data for Expression {
    fn duplicate(&self) -> (r: Expression) {
        Expression(self.0.clone())
    }

    fn same(&self, other: &Expression) -> (r: bool) {
        self.0 == other.0
    }
}

} // verus!
