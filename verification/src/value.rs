//! The values carried by environment variables, step inputs, runner labels
//! and matrices.

use vstd::prelude::*;
use crate::data::Data;

verus! {

/// A value of the workflow document.
#[derive(Debug, PartialEq, Eq)]
pub enum Value {
    /// Nothing.
    Null,
    /// A flag.
    Bool(bool),
    /// A number that is not negative.
    PosInt(u64),
    /// A negative number.
    NegInt(i64),
    /// A number with a fraction, as the bits of its double precision
    /// encoding.
    Float(u64),
    /// A text.
    String(String),
    /// A list of values.
    Array(Vec<Value>),
    /// Named values, in the order of their names.
    Object(Vec<(String, Value)>),
}

/// The content of a [`Value`].
pub enum ValueView {
    Null,
    Bool(bool),
    PosInt(u64),
    NegInt(i64),
    Float(u64),
    String(Seq<char>),
    Array(Seq<ValueView>),
    Object(Seq<(Seq<char>, ValueView)>),
}

/// The content of a value: of a list and of named values, the contents of
/// their members in turn.
pub open spec fn value_view(v: Value) -> ValueView
    decreases v,
{
    match v {
        Value::Null => ValueView::Null,
        Value::Bool(b) => ValueView::Bool(b),
        Value::PosInt(n) => ValueView::PosInt(n),
        Value::NegInt(n) => ValueView::NegInt(n),
        Value::Float(bits) => ValueView::Float(bits),
        Value::String(s) => ValueView::String(s@),
        Value::Array(items) => ValueView::Array(
            Seq::new(
                items@.len(),
                |i: int|
                    if 0 <= i < items@.len() {
                        value_view(items@[i])
                    } else {
                        arbitrary()
                    },
            ),
        ),
        Value::Object(members) => ValueView::Object(
            Seq::new(
                members@.len(),
                |i: int|
                    if 0 <= i < members@.len() {
                        (members@[i].0@, value_view(members@[i].1))
                    } else {
                        arbitrary()
                    },
            ),
        ),
    }
}

impl DeepView for Value {
    type V = ValueView;

    open spec fn deep_view(&self) -> ValueView {
        value_view(*self)
    }
}

/// The content of a list is the list of the contents, and likewise for
/// named values.
pub proof fn members_content(v: Value)
    ensures
        v matches Value::Array(items) ==> v.deep_view() == ValueView::Array(items.deep_view()),
        v matches Value::Object(members) ==> v.deep_view() == ValueView::Object(
            members.deep_view(),
        ),
{
    match v {
        Value::Array(items) => {
            assert(v.deep_view()->Array_0 =~= items.deep_view());
        },
        Value::Object(members) => {
            assert(v.deep_view()->Object_0 =~= members.deep_view());
        },
        _ => {},
    }
}

impl Value {
    /// A text value holding the characters of `s`.
    pub fn text(s: &str) -> (r: Value)
        ensures
            r.deep_view() == ValueView::String(s@),
    {
        Value::String(String::from_str(s))
    }

    /// A flag value.
    pub fn flag(b: bool) -> (r: Value)
        ensures
            r.deep_view() == ValueView::Bool(b),
    {
        Value::Bool(b)
    }

    fn copy_items(items: &Vec<Value>) -> (r: Vec<Value>)
        ensures
            r.deep_view() == items.deep_view(),
        decreases items, 0nat,
    {
        let mut out: Vec<Value> = Vec::new();
        let mut i: usize = 0;
        while i < items.len()
            invariant
                i <= items.len(),
                out.len() == i,
                forall|k: int| 0 <= k < i ==> (#[trigger] out@[k]).deep_view() == items@[k].deep_view(),
            decreases items.len() - i,
        {
            proof {
                assert(decreases_to!(*items => items@));
                assert(decreases_to!(items@ => items@[i as int]));
            }
            out.push(items[i].copy());
            i = i + 1;
        }
        assert(out.deep_view() =~= items.deep_view());
        out
    }

    fn copy_members(members: &Vec<(String, Value)>) -> (r: Vec<(String, Value)>)
        ensures
            r.deep_view() == members.deep_view(),
        decreases members, 0nat,
    {
        let mut out: Vec<(String, Value)> = Vec::new();
        let mut i: usize = 0;
        while i < members.len()
            invariant
                i <= members.len(),
                out.len() == i,
                forall|k: int|
                    0 <= k < i ==> (#[trigger] out@[k]).deep_view() == members@[k].deep_view(),
            decreases members.len() - i,
        {
            proof {
                assert(decreases_to!(*members => members@));
                assert(decreases_to!(members@ => members@[i as int]));
                assert(decreases_to!(members@[i as int] => members@[i as int].1));
            }
            out.push((members[i].0.clone(), members[i].1.copy()));
            i = i + 1;
        }
        assert(out.deep_view() =~= members.deep_view());
        out
    }

    fn copy(&self) -> (r: Value)
        ensures
            r.deep_view() == self.deep_view(),
        decreases self, 1nat,
    {
        let r = match self {
            Value::Null => Value::Null,
            Value::Bool(b) => Value::Bool(*b),
            Value::PosInt(n) => Value::PosInt(*n),
            Value::NegInt(n) => Value::NegInt(*n),
            Value::Float(bits) => Value::Float(*bits),
            Value::String(s) => Value::String(s.clone()),
            Value::Array(items) => Value::Array(Value::copy_items(items)),
            Value::Object(members) => Value::Object(Value::copy_members(members)),
        };
        proof {
            members_content(r);
            members_content(*self);
        }
        r
    }

    fn same_items(a: &Vec<Value>, b: &Vec<Value>) -> (r: bool)
        ensures
            r == (a.deep_view() == b.deep_view()),
        decreases a, 0nat,
    {
        if a.len() != b.len() {
            assert(a.deep_view().len() != b.deep_view().len());
            return false;
        }
        let mut i: usize = 0;
        while i < a.len()
            invariant
                i <= a.len(),
                a.len() == b.len(),
                forall|k: int| 0 <= k < i ==> (#[trigger] a@[k]).deep_view() == b@[k].deep_view(),
            decreases a.len() - i,
        {
            proof {
                assert(decreases_to!(*a => a@));
                assert(decreases_to!(a@ => a@[i as int]));
            }
            if !a[i].equals(&b[i]) {
                assert(a.deep_view()[i as int] != b.deep_view()[i as int]);
                return false;
            }
            i = i + 1;
        }
        assert(a.deep_view() =~= b.deep_view());
        true
    }

    fn same_members(a: &Vec<(String, Value)>, b: &Vec<(String, Value)>) -> (r: bool)
        ensures
            r == (a.deep_view() == b.deep_view()),
        decreases a, 0nat,
    {
        if a.len() != b.len() {
            assert(a.deep_view().len() != b.deep_view().len());
            return false;
        }
        let mut i: usize = 0;
        while i < a.len()
            invariant
                i <= a.len(),
                a.len() == b.len(),
                forall|k: int| 0 <= k < i ==> (#[trigger] a@[k]).deep_view() == b@[k].deep_view(),
            decreases a.len() - i,
        {
            proof {
                assert(decreases_to!(*a => a@));
                assert(decreases_to!(a@ => a@[i as int]));
                assert(decreases_to!(a@[i as int] => a@[i as int].1));
            }
            if !(a[i].0 == b[i].0 && a[i].1.equals(&b[i].1)) {
                assert(a.deep_view()[i as int] != b.deep_view()[i as int]);
                return false;
            }
            i = i + 1;
        }
        assert(a.deep_view() =~= b.deep_view());
        true
    }

    fn equals(&self, other: &Value) -> (r: bool)
        ensures
            r == (self.deep_view() == other.deep_view()),
        decreases self, 1nat,
    {
        proof {
            members_content(*self);
            members_content(*other);
        }
        match (self, other) {
            (Value::Null, Value::Null) => true,
            (Value::Bool(a), Value::Bool(b)) => *a == *b,
            (Value::PosInt(a), Value::PosInt(b)) => *a == *b,
            (Value::NegInt(a), Value::NegInt(b)) => *a == *b,
            (Value::Float(a), Value::Float(b)) => *a == *b,
            (Value::String(a), Value::String(b)) => *a == *b,
            (Value::Array(a), Value::Array(b)) => Value::same_items(a, b),
            (Value::Object(a), Value::Object(b)) => Value::same_members(a, b),
            _ => false,
        }
    }
}

impl Data for Value {
    fn duplicate(&self) -> (r: Value) {
        self.copy()
    }

    fn same(&self, other: &Value) -> (r: bool) {
        self.equals(other)
    }
}

impl Clone for Value {
    fn clone(&self) -> (r: Value)
        ensures
            r.deep_view() == self.deep_view(),
    {
        self.copy()
    }
}

} // verus!
