//! Flags for the Rust compiler.

use vstd::prelude::*;
use crate::env::Env;
use crate::value::Value;
use crate::value::ValueView;

verus! {

/// What a flag does with a lint or an option.
#[derive(Debug, Clone, Copy, PartialEq, Eq, Structural)]
pub enum Lint {
    /// The lint is allowed.
    Allow,
    /// The lint warns.
    Warn,
    /// The lint is an error.
    Deny,
    /// The lint is an error that nothing can allow again.
    Forbid,
    /// A code generation option.
    Codegen,
    /// An unstable option.
    Experiment,
}

impl Lint {
    /// The option of the compiler that stands for the level.
    pub open spec fn text(self) -> Seq<char> {
        match self {
            Lint::Allow => "-A"@,
            Lint::Warn => "-W"@,
            Lint::Deny => "-D"@,
            Lint::Forbid => "-F"@,
            Lint::Codegen => "-C"@,
            Lint::Experiment => "-Z"@,
        }
    }

    /// The option of the compiler that stands for the level.
    pub fn to_string(&self) -> (r: String)
        ensures
            r@ == self.text(),
    {
        match self {
            Lint::Allow => String::from_str("-A"),
            Lint::Warn => String::from_str("-W"),
            Lint::Deny => String::from_str("-D"),
            Lint::Forbid => String::from_str("-F"),
            Lint::Codegen => String::from_str("-C"),
            Lint::Experiment => String::from_str("-Z"),
        }
    }
}

/// One flag, or several.
#[derive(Debug, PartialEq, Eq)]
pub enum RustFlags {
    /// The flag that sets the lint or option of the given name.
    Lint(String, Lint),
    /// The flags of the left side, then those of the right side.
    Combine(Box<RustFlags>, Box<RustFlags>),
}

impl DeepView for RustFlags {
    type V = Seq<char>;

    open spec fn deep_view(&self) -> Seq<char> {
        self.text()
    }
}

impl RustFlags {
    /// The flags as they are handed to the compiler: each flag is its level
    /// directly followed by its name, and flags are separated by one space.
    pub open spec fn text(self) -> Seq<char>
        decreases self,
    {
        match self {
            RustFlags::Lint(name, lint) => lint.text() + name@,
            RustFlags::Combine(lhs, rhs) => lhs.text() + " "@ + rhs.text(),
        }
    }

    /// The flag that allows the lint `name`.
    pub fn allow(name: &str) -> (r: Self)
        ensures
            r.text() == "-A"@ + name@,
            r matches RustFlags::Lint(n, l) && n@ == name@ && l == Lint::Allow,
    {
        RustFlags::Lint(String::from_str(name), Lint::Allow)
    }

    /// The flag that makes the lint `name` warn.
    pub fn warn(name: &str) -> (r: Self)
        ensures
            r.text() == "-W"@ + name@,
            r matches RustFlags::Lint(n, l) && n@ == name@ && l == Lint::Warn,
    {
        RustFlags::Lint(String::from_str(name), Lint::Warn)
    }

    /// The flag that makes the lint `name` an error.
    pub fn deny(name: &str) -> (r: Self)
        ensures
            r.text() == "-D"@ + name@,
            r matches RustFlags::Lint(n, l) && n@ == name@ && l == Lint::Deny,
    {
        RustFlags::Lint(String::from_str(name), Lint::Deny)
    }

    /// The flag that forbids the lint `name`.
    pub fn forbid(name: &str) -> (r: Self)
        ensures
            r.text() == "-F"@ + name@,
            r matches RustFlags::Lint(n, l) && n@ == name@ && l == Lint::Forbid,
    {
        RustFlags::Lint(String::from_str(name), Lint::Forbid)
    }

    /// The flag that sets the code generation option `name`.
    pub fn codegen(name: &str) -> (r: Self)
        ensures
            r.text() == "-C"@ + name@,
            r matches RustFlags::Lint(n, l) && n@ == name@ && l == Lint::Codegen,
    {
        RustFlags::Lint(String::from_str(name), Lint::Codegen)
    }

    /// These flags followed by those of `rhs`.
    pub fn combine(self, rhs: RustFlags) -> (r: Self)
        ensures
            r == RustFlags::Combine(Box::new(self), Box::new(rhs)),
            r.text() == self.text() + " "@ + rhs.text(),
    {
        RustFlags::Combine(Box::new(self), Box::new(rhs))
    }

    /// A copy with the same flags.
    pub fn duplicate(&self) -> (r: Self)
        ensures
            r == *self,
        decreases self,
    {
        match self {
            RustFlags::Lint(name, lint) => RustFlags::Lint(name.clone(), *lint),
            RustFlags::Combine(lhs, rhs) => RustFlags::Combine(
                Box::new(lhs.duplicate()),
                Box::new(rhs.duplicate()),
            ),
        }
    }

    /// The flags as they are handed to the compiler.
    pub fn to_string(&self) -> (r: String)
        ensures
            r@ == self.text(),
        decreases self,
    {
        match self {
            RustFlags::Lint(name, lint) => {
                let mut out = lint.to_string();
                out.append(name.as_str());
                out
            },
            RustFlags::Combine(lhs, rhs) => {
                let mut out = lhs.to_string();
                out.append(" ");
                out.append(rhs.to_string().as_str());
                out
            },
        }
    }

    /// The environment that hands the flags to the compiler: the one
    /// variable `RUSTFLAGS`.
    pub fn to_env(&self) -> (r: Env)
        ensures
            r.entries() == seq![("RUSTFLAGS"@, ValueView::String(self.text()))],
    {
        let text = self.to_string();
        Env::new("RUSTFLAGS", Value::text(text.as_str()))
    }
}

impl Clone for RustFlags {
    fn clone(&self) -> (r: Self)
        ensures
            r == *self,
    {
        self.duplicate()
    }
}

impl vstd::std_specs::ops::AddSpecImpl for RustFlags {
    open spec fn obeys_add_spec() -> bool {
        true
    }

    open spec fn add_req(self, rhs: RustFlags) -> bool {
        true
    }

    open spec fn add_spec(self, rhs: RustFlags) -> RustFlags {
        RustFlags::Combine(Box::new(self), Box::new(rhs))
    }
}

impl core::ops::Add for RustFlags {
    type Output = RustFlags;

    fn add(self, rhs: Self) -> (r: RustFlags) {
        RustFlags::Combine(Box::new(self), Box::new(rhs))
    }
}

impl vstd::std_specs::convert::FromSpecImpl<RustFlags> for Env {
    open spec fn obeys_from_spec() -> bool {
        false
    }

    open spec fn from_spec(v: RustFlags) -> Self {
        arbitrary()
    }
}

impl From<RustFlags> for Env {
    fn from(value: RustFlags) -> (r: Env)
        ensures
            r.entries() == seq![("RUSTFLAGS"@, ValueView::String(value.text()))],
    {
        value.to_env()
    }
}

} // verus!
