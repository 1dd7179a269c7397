//! Steps that run cargo.

use vstd::prelude::*;
use crate::step::Run;
use crate::step::Step;
use crate::step::StepValue;
use crate::step::StepValueView;
use crate::text::join;
use crate::text::joined;
use crate::text::non_empty;
use crate::text::split_words;
use crate::text::trim;
use crate::text::trimmed;
use crate::text::words;
use crate::toolchain::Version;

verus! {

/// A call of cargo.
#[derive(Debug, Clone, PartialEq, Eq)]
pub struct Cargo {
    /// The command of cargo: `fmt`, `clippy`, `build`, `test` and so on.
    pub command: String,
    /// The identifier of the step.
    pub id: Option<String>,
    /// The name of the step.
    pub name: Option<String>,
    /// The toolchain that runs the command.
    pub toolchain: Option<Version>,
    /// The arguments of the command.
    pub args: Vec<String>,
}

/// The content of a [`Cargo`].
pub struct CargoView {
    pub command: Seq<char>,
    pub id: Option<Seq<char>>,
    pub name: Option<Seq<char>>,
    pub toolchain: Option<Version>,
    pub args: Seq<Seq<char>>,
}

impl DeepView for Cargo {
    type V = CargoView;

    open spec fn deep_view(&self) -> CargoView {
        CargoView {
            command: self.command.deep_view(),
            id: self.id.deep_view(),
            name: self.name.deep_view(),
            toolchain: self.toolchain.deep_view(),
            args: self.args.deep_view(),
        }
    }
}

impl Cargo {
    /// Sets `command`.
    pub fn command(self, value: String) -> (r: Self)
        ensures
            r == (Cargo { command: value, ..self }),
    {
        Cargo { command: value, ..self }
    }

    /// Sets `id`.
    pub fn id(self, value: String) -> (r: Self)
        ensures
            r == (Cargo { id: Some(value), ..self }),
    {
        Cargo { id: Some(value), ..self }
    }

    /// Sets `name`.
    pub fn name(self, value: String) -> (r: Self)
        ensures
            r == (Cargo { name: Some(value), ..self }),
    {
        Cargo { name: Some(value), ..self }
    }

    /// Sets `toolchain`.
    pub fn toolchain(self, value: Version) -> (r: Self)
        ensures
            r == (Cargo { toolchain: Some(value), ..self }),
    {
        Cargo { toolchain: Some(value), ..self }
    }
}

/// The parts of a command line of cargo: `cargo`, the toolchain with a plus
/// sign before it where one is given, the command, and the arguments that
/// are not empty.
pub open spec fn command_parts(
    toolchain: Option<Version>,
    command: Seq<char>,
    args: Seq<Seq<char>>,
) -> Seq<Seq<char>> {
    (match toolchain {
        Some(v) => seq!["cargo"@, "+"@ + v.text(), command],
        None => seq!["cargo"@, command],
    }) + non_empty(args)
}

/// Each text without the white space at its start and at its end.
pub open spec fn all_trimmed(args: Seq<Seq<char>>) -> Seq<Seq<char>> {
    args.map_values(|a: Seq<char>| trimmed(a))
}

impl CargoView {
    /// The command line of the call, each argument without the white space
    /// around it.
    pub open spec fn line(self) -> Seq<char> {
        joined(command_parts(self.toolchain, self.command, all_trimmed(self.args)), " "@)
    }

    /// The step that runs the call: it runs the command line and has the
    /// identifier and the name of the call.
    pub open spec fn step(self) -> StepValueView {
        StepValueView {
            run: Some(self.line()),
            id: self.id,
            name: self.name,
            ..StepValue::default_spec().deep_view()
        }
    }
}

impl Cargo {
    /// A call of the command `cmd` without arguments.
    pub fn new(cmd: &str) -> (r: Cargo)
        ensures
            r.deep_view() == (CargoView {
                command: cmd@,
                id: None,
                name: None,
                toolchain: None,
                args: Seq::empty(),
            }),
            r.command@ == cmd@,
            r.id is None,
            r.name is None,
            r.toolchain is None,
            r.args@.len() == 0,
    {
        let r = Cargo {
            command: String::from_str(cmd),
            id: None,
            name: None,
            toolchain: None,
            args: Vec::new(),
        };
        assert(r.args.deep_view() =~= Seq::<Seq<char>>::empty());
        r
    }

    /// This call with the nightly toolchain.
    pub fn nightly(self) -> (r: Self)
        ensures
            r == (Cargo { toolchain: Some(Version::Nightly), ..self }),
    {
        Cargo { toolchain: Some(Version::Nightly), ..self }
    }

    /// This call with `args` as its one argument, in place of any that it
    /// had.
    pub fn args(self, args: &str) -> (r: Self)
        ensures
            r.args.deep_view() == seq![args@],
            r == (Cargo { args: r.args, ..self }),
    {
        let mut list: Vec<String> = Vec::new();
        list.push(String::from_str(args));
        assert(list.deep_view() =~= seq![args@]);
        Cargo { args: list, ..self }
    }

    /// This call with the words of `args` after the arguments that it had.
    pub fn add_args(self, args: &str) -> (r: Self)
        ensures
            r.args.deep_view() == self.args.deep_view() + words(args@),
            r == (Cargo { args: r.args, ..self }),
    {
        let ghost before = self.args.deep_view();
        let mut this = self;
        let mut more = split_words(args);
        let ghost added = more.deep_view();
        this.args.append(&mut more);
        assert(this.args.deep_view() =~= before + added);
        this
    }

    /// The command line made of the given toolchain, command and arguments,
    /// with one space between each two parts. An argument that is empty is
    /// left out.
    pub fn command_line(toolchain: Option<Version>, command: &str, args: &Vec<String>) -> (r: String)
        ensures
            r@ == joined(command_parts(toolchain, command@, args.deep_view()), " "@),
    {
        let mut parts: Vec<String> = Vec::new();
        parts.push(String::from_str("cargo"));
        match toolchain {
            Some(v) => {
                let mut plus = String::from_str("+");
                plus.append(v.to_string().as_str());
                parts.push(plus);
            },
            None => {},
        }
        parts.push(String::from_str(command));
        let ghost head = parts.deep_view();
        assert(head =~= (match toolchain {
            Some(v) => seq!["cargo"@, "+"@ + v.text(), command@],
            None => seq!["cargo"@, command@],
        }));
        let mut i: usize = 0;
        assert(args.deep_view().take(0) =~= Seq::<Seq<char>>::empty());
        assert(parts.deep_view() =~= head + non_empty(args.deep_view().take(0)));
        while i < args.len()
            invariant
                i <= args.len(),
                parts.deep_view() == head + non_empty(args.deep_view().take(i as int)),
            decreases args.len() - i,
        {
            let ghost now = parts.deep_view();
            let ghost next = args.deep_view().take(i + 1);
            assert(next.drop_last() =~= args.deep_view().take(i as int));
            assert(next.last() == args[i as int]@);
            if !args[i].as_str().is_empty() {
                parts.push(args[i].clone());
                assert(parts.deep_view() =~= now.push(args[i as int]@));
                assert(now.push(args[i as int]@) =~= head + non_empty(next));
            }
            i = i + 1;
        }
        assert(args.deep_view().take(args.len() as int) =~= args.deep_view());
        join(&parts, " ")
    }

    /// The step that runs this call: its command line is made of the
    /// toolchain, the command and the arguments, each argument without the
    /// white space around it; the step has the identifier and the name of
    /// the call.
    pub fn to_step(&self) -> (r: Step<Run>)
        ensures
            r.value.deep_view() == self.deep_view().step(),
            r.value.run is Some,
            r.value.run->0@ == joined(
                command_parts(self.toolchain, self.command@, all_trimmed(self.args.deep_view())),
                " "@,
            ),
            r.value.id.deep_view() == self.id.deep_view(),
            r.value.name.deep_view() == self.name.deep_view(),
            r.value == (StepValue {
                run: r.value.run,
                id: r.value.id,
                name: r.value.name,
                ..StepValue::default_spec()
            }),
    {
        let mut args: Vec<String> = Vec::new();
        let mut i: usize = 0;
        while i < self.args.len()
            invariant
                i <= self.args.len(),
                args.len() == i,
                forall|k: int| 0 <= k < i ==> (#[trigger] args@[k])@ == trimmed(self.args@[k]@),
            decreases self.args.len() - i,
        {
            args.push(trim(self.args[i].as_str()));
            i = i + 1;
        }
        assert(args.deep_view() =~= all_trimmed(self.args.deep_view()));
        let line = Cargo::command_line(self.toolchain, self.command.as_str(), &args);
        let mut step = Step::<Run>::run(line.as_str());
        match &self.id {
            Some(id) => {
                step = step.id(id.clone());
            },
            None => {},
        }
        match &self.name {
            Some(name) => {
                step = step.name(name.clone());
            },
            None => {},
        }
        step
    }
}

impl vstd::std_specs::convert::FromSpecImpl<Cargo> for Step<Run> {
    open spec fn obeys_from_spec() -> bool {
        false
    }

    open spec fn from_spec(v: Cargo) -> Self {
        arbitrary()
    }
}

impl From<Cargo> for Step<Run> {
    fn from(value: Cargo) -> (r: Step<Run>)
        ensures
            r.value.run is Some,
            r.value.run->0@ == joined(
                command_parts(value.toolchain, value.command@, all_trimmed(value.args.deep_view())),
                " "@,
            ),
            r.value.id.deep_view() == value.id.deep_view(),
            r.value.name.deep_view() == value.name.deep_view(),
    {
        value.to_step()
    }
}

} // verus!
