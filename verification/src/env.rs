//! Environment variables.

use vstd::prelude::*;
use indexmap::IndexMap;
use crate::data::Data;
use crate::ordered::as_map;
use crate::ordered::copy_values;
use crate::ordered::put;
use crate::ordered::put_all;
use crate::ordered::same_values;
use crate::ordered::value_entries;
use crate::ordered::value_map_extend;
use crate::ordered::value_map_insert;
use crate::ordered::value_map_new;
use crate::ordered::Entries;
use crate::value::Value;
use crate::value::ValueView;

verus! {

/// The environment variables of a workflow, a job or a step, in the order
/// in which they were first set.
#[derive(Debug, PartialEq, Eq)]
pub struct Env(pub IndexMap<String, Value>);

impl DeepView for Env {
    type V = Map<Seq<char>, ValueView>;

    open spec fn deep_view(&self) -> Map<Seq<char>, ValueView> {
        as_map(self.entries())
    }
}

impl Env {
    /// The variables with their values, in order.
    pub open spec fn entries(&self) -> Entries<ValueView> {
        value_entries(self.0)
    }

    /// The one variable `GITHUB_TOKEN`, read from the secret of that name.
    pub fn github() -> (r: Env)
        ensures
            r.entries() == seq![
                ("GITHUB_TOKEN"@, ValueView::String("${{ secrets.GITHUB_TOKEN }}"@)),
            ],
    {
        Env::new("GITHUB_TOKEN", Value::text("${{ secrets.GITHUB_TOKEN }}"))
    }

    /// The one variable `key` with `value`.
    pub fn new(key: &str, value: Value) -> (r: Env)
        ensures
            r.entries() == seq![(key@, value.deep_view())],
    {
        let r = Env::default().add(key, value);
        assert(r.entries() =~= seq![(key@, value.deep_view())]);
        r
    }

    /// These variables with `key` set to `value`: a variable that is present
    /// keeps its place, a new one goes to the end.
    pub fn add(self, key: &str, value: Value) -> (r: Env)
        ensures
            r.entries() == put(self.entries(), key@, value.deep_view()),
    {
        let mut map = self.0;
        value_map_insert(&mut map, String::from_str(key), value);
        Env(map)
    }

    /// The one variable `key` with the text `value`.
    pub fn from_pair(key: &str, value: &str) -> (r: Env)
        ensures
            r.entries() == seq![(key@, ValueView::String(value@))],
    {
        Env::new(key, Value::text(value))
    }

    /// These variables with each variable of `other` set, in `other`'s
    /// order.
    pub fn extend(self, other: Env) -> (r: Env)
        ensures
            r.entries() == put_all(self.entries(), other.entries()),
    {
        let mut map = self.0;
        value_map_extend(&mut map, other.0);
        Env(map)
    }
}

impl Default for Env {
    fn default() -> (r: Env)
        ensures
            r.entries() == Seq::<(Seq<char>, ValueView)>::empty(),
    {
        Env(value_map_new())
    }
}

impl Data for Env {
    fn duplicate(&self) -> (r: Env)
        ensures
            r.entries() == self.entries(),
    {
        Env(copy_values(&self.0))
    }

    fn same(&self, other: &Env) -> (r: bool) {
        same_values(&self.0, &other.0)
    }
}

impl Clone for Env {
    fn clone(&self) -> (r: Env)
        ensures
            r.entries() == self.entries(),
    {
        self.duplicate()
    }
}

} // verus!
