//! The toolchain of a Rust project, as the inputs of the action that sets it up.

use vstd::prelude::*;
use crate::ordered::as_map;
use crate::ordered::put;
use crate::ordered::Entries;
use crate::private::Sealed;
use crate::rust_flag::RustFlags;
use crate::step::action_ref;
use crate::step::Input;
use crate::step::Step;
use crate::step::StepType;
use crate::step::StepValue;
use crate::step::StepValueView;
use crate::step::Use;
use crate::text::decimal;
use crate::text::decimal_text;
use crate::text::join;
use crate::text::joined;
use crate::text::prefix_each;
use crate::text::prefixed;
use crate::value::Value;
use crate::value::ValueView;

verus! {

/// A component of a toolchain.
#[derive(Debug, Clone, Copy, PartialEq, Eq, Structural)]
pub enum Component {
    /// The linter.
    Clippy,
    /// The formatter.
    Rustfmt,
    /// The documentation tool.
    RustDoc,
}

impl DeepView for Component {
    type V = Component;

    open spec fn deep_view(&self) -> Component {
        *self
    }
}

impl Component {
    /// The name as it is written in a workflow.
    pub open spec fn text(self) -> Seq<char> {
        match self {
            Component::Clippy => "clippy"@,
            Component::Rustfmt => "rustfmt"@,
            Component::RustDoc => "rust-doc"@,
        }
    }

    /// The name as it is written in a workflow.
    pub fn to_string(&self) -> (r: String)
        ensures
            r@ == self.text(),
    {
        match self {
            Component::Clippy => String::from_str("clippy"),
            Component::Rustfmt => String::from_str("rustfmt"),
            Component::RustDoc => String::from_str("rust-doc"),
        }
    }
}

/// The architecture of a target.
#[derive(Debug, Clone, Copy, PartialEq, Eq, Structural)]
pub enum Arch {
    X86_64,
    Aarch64,
    Arm,
    Wasm32,
}

impl Arch {
    /// The name as it is written in a workflow.
    pub open spec fn text(self) -> Seq<char> {
        match self {
            Arch::X86_64 => "x86_64"@,
            Arch::Aarch64 => "aarch64"@,
            Arch::Arm => "arm"@,
            Arch::Wasm32 => "wasm32"@,
        }
    }

    /// The name as it is written in a workflow.
    pub fn to_string(&self) -> (r: String)
        ensures
            r@ == self.text(),
    {
        match self {
            Arch::X86_64 => String::from_str("x86_64"),
            Arch::Aarch64 => String::from_str("aarch64"),
            Arch::Arm => String::from_str("arm"),
            Arch::Wasm32 => String::from_str("wasm32"),
        }
    }
}

/// The vendor of a target.
#[derive(Debug, Clone, Copy, PartialEq, Eq, Structural)]
pub enum Vendor {
    Unknown,
    Apple,
    PC,
}

impl Vendor {
    /// The name as it is written in a workflow.
    pub open spec fn text(self) -> Seq<char> {
        match self {
            Vendor::Unknown => "unknown"@,
            Vendor::Apple => "apple"@,
            Vendor::PC => "pc"@,
        }
    }

    /// The name as it is written in a workflow.
    pub fn to_string(&self) -> (r: String)
        ensures
            r@ == self.text(),
    {
        match self {
            Vendor::Unknown => String::from_str("unknown"),
            Vendor::Apple => String::from_str("apple"),
            Vendor::PC => String::from_str("pc"),
        }
    }
}

/// The operating system of a target.
#[derive(Debug, Clone, Copy, PartialEq, Eq, Structural)]
pub enum System {
    Unknown,
    Windows,
    Linux,
    Darwin,
}

impl System {
    /// The name as it is written in a workflow.
    pub open spec fn text(self) -> Seq<char> {
        match self {
            System::Unknown => "unknown"@,
            System::Windows => "windows"@,
            System::Linux => "linux"@,
            System::Darwin => "darwin"@,
        }
    }

    /// The name as it is written in a workflow.
    pub fn to_string(&self) -> (r: String)
        ensures
            r@ == self.text(),
    {
        match self {
            System::Unknown => String::from_str("unknown"),
            System::Windows => String::from_str("windows"),
            System::Linux => String::from_str("linux"),
            System::Darwin => String::from_str("darwin"),
        }
    }
}

/// The binary interface of a target.
#[derive(Debug, Clone, Copy, PartialEq, Eq, Structural)]
pub enum Abi {
    Unknown,
    Gnu,
    Msvc,
    Musl,
}

impl Abi {
    /// The name as it is written in a workflow.
    pub open spec fn text(self) -> Seq<char> {
        match self {
            Abi::Unknown => "unknown"@,
            Abi::Gnu => "gnu"@,
            Abi::Msvc => "msvc"@,
            Abi::Musl => "musl"@,
        }
    }

    /// The name as it is written in a workflow.
    pub fn to_string(&self) -> (r: String)
        ensures
            r@ == self.text(),
    {
        match self {
            Abi::Unknown => String::from_str("unknown"),
            Abi::Gnu => String::from_str("gnu"),
            Abi::Msvc => String::from_str("msvc"),
            Abi::Musl => String::from_str("musl"),
        }
    }
}

/// The platform that the toolchain builds for.
#[derive(Debug, Clone, Copy, PartialEq, Eq)]
pub struct Target {
    /// The architecture.
    pub arch: Arch,
    /// The vendor.
    pub vendor: Vendor,
    /// The operating system.
    pub system: System,
    /// The binary interface.
    pub abi: Option<Abi>,
}

impl Target {
    /// Sets `arch`.
    pub fn arch(self, value: Arch) -> (r: Self)
        ensures
            r == (Target { arch: value, ..self }),
    {
        Target { arch: value, ..self }
    }

    /// Sets `vendor`.
    pub fn vendor(self, value: Vendor) -> (r: Self)
        ensures
            r == (Target { vendor: value, ..self }),
    {
        Target { vendor: value, ..self }
    }

    /// Sets `system`.
    pub fn system(self, value: System) -> (r: Self)
        ensures
            r == (Target { system: value, ..self }),
    {
        Target { system: value, ..self }
    }

    /// Sets `abi`.
    pub fn abi(self, value: Option<Abi>) -> (r: Self)
        ensures
            r == (Target { abi: value, ..self }),
    {
        Target { abi: value, ..self }
    }
}

/// The inputs of the action that sets a toolchain up.
#[derive(Debug, Clone, PartialEq, Eq)]
pub struct Toolchain {
    /// The versions to install.
    pub toolchain: Vec<Version>,
    /// The platform to build for.
    pub target: Option<Target>,
    /// The components to install.
    pub components: Vec<Component>,
    /// Whether the build is cached.
    pub cache: Option<bool>,
    /// Further directories to cache.
    pub cache_directories: Vec<String>,
    /// The workspaces to cache.
    pub cache_workspaces: Vec<String>,
    /// Whether the cache is saved when the job fails.
    pub cache_on_failure: Option<bool>,
    /// A further key of the cache.
    pub cache_key: Option<String>,
    /// Whether the problem matchers are set up.
    pub matcher: Option<bool>,
    /// The flags for the compiler.
    pub rust_flags: Option<RustFlags>,
    /// Whether the toolchain becomes the default of the directory.
    pub override_default: Option<bool>,
}

/// The content of a [`Toolchain`].
pub struct ToolchainView {
    pub toolchain: Seq<Version>,
    pub target: Option<Target>,
    pub components: Seq<Component>,
    pub cache: Option<bool>,
    pub cache_directories: Seq<Seq<char>>,
    pub cache_workspaces: Seq<Seq<char>>,
    pub cache_on_failure: Option<bool>,
    pub cache_key: Option<Seq<char>>,
    pub matcher: Option<bool>,
    pub rust_flags: Option<Seq<char>>,
    pub override_default: Option<bool>,
}

impl DeepView for Toolchain {
    type V = ToolchainView;

    open spec fn deep_view(&self) -> ToolchainView {
        ToolchainView {
            toolchain: self.toolchain.deep_view(),
            target: self.target.deep_view(),
            components: self.components.deep_view(),
            cache: self.cache.deep_view(),
            cache_directories: self.cache_directories.deep_view(),
            cache_workspaces: self.cache_workspaces.deep_view(),
            cache_on_failure: self.cache_on_failure.deep_view(),
            cache_key: self.cache_key.deep_view(),
            matcher: self.matcher.deep_view(),
            rust_flags: self.rust_flags.deep_view(),
            override_default: self.override_default.deep_view(),
        }
    }
}

impl ToolchainView {
    /// The content of the toolchain of which nothing is said.
    pub open spec fn default_spec() -> ToolchainView {
        ToolchainView {
            toolchain: Seq::empty(),
            target: None,
            components: Seq::empty(),
            cache: None,
            cache_directories: Seq::empty(),
            cache_workspaces: Seq::empty(),
            cache_on_failure: None,
            cache_key: None,
            matcher: None,
            rust_flags: None,
            override_default: None,
        }
    }
}

impl Default for Toolchain {
    fn default() -> (r: Self)
        ensures
            r.deep_view() == ToolchainView::default_spec(),
            r.toolchain@.len() == 0,
            r.target is None,
            r.components@.len() == 0,
            r.cache is None,
            r.cache_directories@.len() == 0,
            r.cache_workspaces@.len() == 0,
            r.cache_on_failure is None,
            r.cache_key is None,
            r.matcher is None,
            r.rust_flags is None,
            r.override_default is None,
    {
        let r = Toolchain {
            toolchain: Vec::new(),
            target: None,
            components: Vec::new(),
            cache: None,
            cache_directories: Vec::new(),
            cache_workspaces: Vec::new(),
            cache_on_failure: None,
            cache_key: None,
            matcher: None,
            rust_flags: None,
            override_default: None,
        };
        assert(r.toolchain.deep_view() =~= Seq::empty());
        assert(r.components.deep_view() =~= Seq::empty());
        assert(r.cache_directories.deep_view() =~= Seq::empty());
        assert(r.cache_workspaces.deep_view() =~= Seq::empty());
        r
    }
}

impl Toolchain {
    /// Sets `toolchain`.
    pub fn toolchain(self, value: Vec<Version>) -> (r: Self)
        ensures
            r == (Toolchain { toolchain: value, ..self }),
    {
        Toolchain { toolchain: value, ..self }
    }

    /// Sets `components`.
    pub fn components(self, value: Vec<Component>) -> (r: Self)
        ensures
            r == (Toolchain { components: value, ..self }),
    {
        Toolchain { components: value, ..self }
    }

    /// Sets `cache`.
    pub fn cache(self, value: bool) -> (r: Self)
        ensures
            r == (Toolchain { cache: Some(value), ..self }),
    {
        Toolchain { cache: Some(value), ..self }
    }

    /// Sets `cache_directories`.
    pub fn cache_directories(self, value: Vec<String>) -> (r: Self)
        ensures
            r == (Toolchain { cache_directories: value, ..self }),
    {
        Toolchain { cache_directories: value, ..self }
    }

    /// Sets `cache_workspaces`.
    pub fn cache_workspaces(self, value: Vec<String>) -> (r: Self)
        ensures
            r == (Toolchain { cache_workspaces: value, ..self }),
    {
        Toolchain { cache_workspaces: value, ..self }
    }

    /// Sets `cache_on_failure`.
    pub fn cache_on_failure(self, value: bool) -> (r: Self)
        ensures
            r == (Toolchain { cache_on_failure: Some(value), ..self }),
    {
        Toolchain { cache_on_failure: Some(value), ..self }
    }

    /// Sets `cache_key`.
    pub fn cache_key(self, value: String) -> (r: Self)
        ensures
            r == (Toolchain { cache_key: Some(value), ..self }),
    {
        Toolchain { cache_key: Some(value), ..self }
    }

    /// Sets `matcher`.
    pub fn matcher(self, value: bool) -> (r: Self)
        ensures
            r == (Toolchain { matcher: Some(value), ..self }),
    {
        Toolchain { matcher: Some(value), ..self }
    }

    /// Sets `rust_flags`.
    pub fn rust_flags(self, value: RustFlags) -> (r: Self)
        ensures
            r == (Toolchain { rust_flags: Some(value), ..self }),
    {
        Toolchain { rust_flags: Some(value), ..self }
    }

    /// Sets `override_default`.
    pub fn override_default(self, value: bool) -> (r: Self)
        ensures
            r == (Toolchain { override_default: Some(value), ..self }),
    {
        Toolchain { override_default: Some(value), ..self }
    }
}

/// A version of the toolchain.
#[derive(Debug, Clone, Copy, PartialEq, Eq)]
pub enum Version {
    /// The stable release.
    Stable,
    /// The nightly build.
    Nightly,
    /// The release with the given major, minor and patch number.
    Custom((u64, u64, u64)),
}

impl DeepView for Version {
    type V = Version;

    open spec fn deep_view(&self) -> Version {
        *self
    }
}

impl DeepView for Target {
    type V = Target;

    open spec fn deep_view(&self) -> Target {
        *self
    }
}

impl Version {
    /// The release `major.minor.patch`.
    pub fn new(major: u64, minor: u64, patch: u64) -> (r: Self)
        ensures
            r == Version::Custom((major, minor, patch)),
    {
        Version::Custom((major, minor, patch))
    }

    /// The name of the version: `stable`, `nightly`, or the three numbers
    /// in decimal with dots between them.
    pub open spec fn text(self) -> Seq<char> {
        match self {
            Version::Stable => "stable"@,
            Version::Nightly => "nightly"@,
            Version::Custom(s) => decimal(s.0 as nat) + "."@ + decimal(s.1 as nat) + "."@ + decimal(
                s.2 as nat,
            ),
        }
    }

    /// The name of the version.
    pub fn to_string(&self) -> (r: String)
        ensures
            r@ == self.text(),
    {
        match self {
            Version::Stable => String::from_str("stable"),
            Version::Nightly => String::from_str("nightly"),
            Version::Custom(s) => {
                let mut out = decimal_text(s.0);
                out.append(".");
                out.append(decimal_text(s.1).as_str());
                out.append(".");
                out.append(decimal_text(s.2).as_str());
                out
            },
        }
    }
}

impl Target {
    /// The name of the platform: architecture, vendor and system with
    /// dashes between them, directly followed by the binary interface where
    /// there is one.
    pub open spec fn text(self) -> Seq<char> {
        self.arch.text() + "-"@ + self.vendor.text() + "-"@ + self.system.text() + (match self.abi {
            Some(abi) => abi.text(),
            None => Seq::empty(),
        })
    }

    /// The name of the platform.
    pub fn to_string(&self) -> (r: String)
        ensures
            r@ == self.text(),
    {
        let mut out = self.arch.to_string();
        out.append("-");
        out.append(self.vendor.to_string().as_str());
        out.append("-");
        out.append(self.system.to_string().as_str());
        match self.abi {
            Some(abi) => {
                out.append(abi.to_string().as_str());
            },
            None => {
                assert(out@ + Seq::<char>::empty() =~= out@);
            },
        }
        out
    }
}

/// The names of the versions.
pub open spec fn version_texts(versions: Seq<Version>) -> Seq<Seq<char>> {
    versions.map_values(|v: Version| v.text())
}

/// The names of the components.
pub open spec fn component_texts(components: Seq<Component>) -> Seq<Seq<char>> {
    components.map_values(|c: Component| c.text())
}

/// The entries with `key` set to `value` where there is one.
pub open spec fn put_some(s: Entries<ValueView>, key: Seq<char>, value: Option<ValueView>) -> Entries<
    ValueView,
> {
    match value {
        Some(v) => put(s, key, v),
        None => s,
    }
}

/// The text of a list that is not empty.
pub open spec fn some_text(empty: bool, text: Seq<char>) -> Option<ValueView> {
    if empty {
        None
    } else {
        Some(ValueView::String(text))
    }
}

/// The flag of a setting that is made.
pub open spec fn some_flag(flag: Option<bool>) -> Option<ValueView> {
    match flag {
        Some(b) => Some(ValueView::Bool(b)),
        None => None,
    }
}

impl ToolchainView {
    /// The inputs that stand for the toolchain, in the order of the
    /// action's documentation. A list that is empty and a setting that is
    /// not made give no input.
    pub open spec fn inputs(self) -> Entries<ValueView> {
        let s = Seq::empty();
        let s = put_some(
            s,
            "toolchain"@,
            some_text(self.toolchain.len() == 0, joined(version_texts(self.toolchain), ", "@)),
        );
        let s = put_some(
            s,
            "target"@,
            match self.target {
                Some(t) => Some(ValueView::String(t.text())),
                None => None,
            },
        );
        let s = put_some(
            s,
            "components"@,
            some_text(self.components.len() == 0, joined(component_texts(self.components), ", "@)),
        );
        let s = put_some(s, "cache"@, some_flag(self.cache));
        let s = put_some(
            s,
            "cache-directories"@,
            some_text(
                self.cache_directories.len() == 0,
                prefixed(self.cache_directories, "\n"@),
            ),
        );
        let s = put_some(
            s,
            "cache-workspaces"@,
            some_text(
                self.cache_workspaces.len() == 0,
                prefixed(self.cache_workspaces, "\n"@),
            ),
        );
        let s = put_some(s, "cache-on-failure"@, some_flag(self.cache_on_failure));
        let s = put_some(
            s,
            "cache-key"@,
            match self.cache_key {
                Some(k) => Some(ValueView::String(k)),
                None => None,
            },
        );
        let s = put_some(s, "matcher"@, some_flag(self.matcher));
        let s = put_some(
            s,
            "rust-flags"@,
            match self.rust_flags {
                Some(f) => Some(ValueView::String(f)),
                None => None,
            },
        );
        let s = put_some(s, "override"@, some_flag(self.override_default));
        s
    }

    /// The step that sets the toolchain up: it uses the set-up action with
    /// the inputs of the toolchain, or without inputs where there are none.
    pub open spec fn step(self) -> StepValueView {
        StepValueView {
            name: Some("Setup Rust Toolchain"@),
            uses: Some(action_ref("actions-rust-lang"@, "setup-rust-toolchain"@, "v1"@)),
            with: if self.inputs().len() == 0 {
                None
            } else {
                Some(as_map(self.inputs()))
            },
            ..StepValue::default_spec().deep_view()
        }
    }
}

impl Toolchain {
    /// The inputs that stand for the toolchain.
    pub open spec fn inputs(self) -> Entries<ValueView> {
        self.deep_view().inputs()
    }

    /// This toolchain with `version` as its last version.
    pub fn add_version(self, version: Version) -> (r: Self)
        ensures
            r.toolchain@ == self.toolchain@.push(version),
            r == (Toolchain { toolchain: r.toolchain, ..self }),
    {
        let mut this = self;
        this.toolchain.push(version);
        this
    }

    /// This toolchain with `component` as its last component.
    pub fn add_component(self, component: Component) -> (r: Self)
        ensures
            r.components@ == self.components@.push(component),
            r == (Toolchain { components: r.components, ..self }),
    {
        let mut this = self;
        this.components.push(component);
        this
    }

    /// This toolchain with the stable release as its last version.
    pub fn add_stable(self) -> (r: Self)
        ensures
            r.toolchain@ == self.toolchain@.push(Version::Stable),
            r == (Toolchain { toolchain: r.toolchain, ..self }),
    {
        self.add_version(Version::Stable)
    }

    /// This toolchain with the nightly build as its last version.
    pub fn add_nightly(self) -> (r: Self)
        ensures
            r.toolchain@ == self.toolchain@.push(Version::Nightly),
            r == (Toolchain { toolchain: r.toolchain, ..self }),
    {
        self.add_version(Version::Nightly)
    }

    /// This toolchain with the linter as its last component.
    pub fn add_clippy(self) -> (r: Self)
        ensures
            r.components@ == self.components@.push(Component::Clippy),
            r == (Toolchain { components: r.components, ..self }),
    {
        self.add_component(Component::Clippy)
    }

    /// This toolchain with the formatter as its last component.
    pub fn add_fmt(self) -> (r: Self)
        ensures
            r.components@ == self.components@.push(Component::Rustfmt),
            r == (Toolchain { components: r.components, ..self }),
    {
        self.add_component(Component::Rustfmt)
    }

    /// This toolchain for the given platform.
    pub fn target(self, arch: Arch, vendor: Vendor, system: System, abi: Option<Abi>) -> (r: Self)
        ensures
            r == (Toolchain { target: Some(Target { arch, vendor, system, abi }), ..self }),
    {
        Toolchain { target: Some(Target { arch, vendor, system, abi }), ..self }
    }

    fn version_names(&self) -> (r: Vec<String>)
        ensures
            r.deep_view() == version_texts(self.toolchain@),
    {
        let mut out: Vec<String> = Vec::new();
        let mut i: usize = 0;
        while i < self.toolchain.len()
            invariant
                i <= self.toolchain.len(),
                out.len() == i,
                forall|k: int| 0 <= k < i ==> (#[trigger] out@[k])@ == self.toolchain@[k].text(),
            decreases self.toolchain.len() - i,
        {
            out.push(self.toolchain[i].to_string());
            i = i + 1;
        }
        assert(out.deep_view() =~= version_texts(self.toolchain@));
        out
    }

    fn component_names(&self) -> (r: Vec<String>)
        ensures
            r.deep_view() == component_texts(self.components@),
    {
        let mut out: Vec<String> = Vec::new();
        let mut i: usize = 0;
        while i < self.components.len()
            invariant
                i <= self.components.len(),
                out.len() == i,
                forall|k: int| 0 <= k < i ==> (#[trigger] out@[k])@ == self.components@[k].text(),
            decreases self.components.len() - i,
        {
            out.push(self.components[i].to_string());
            i = i + 1;
        }
        assert(out.deep_view() =~= component_texts(self.components@));
        out
    }

    /// The inputs that stand for the toolchain.
    pub fn to_input(&self) -> (r: Input)
        ensures
            r.entries() == self.inputs(),
    {
        proof {
            assert(self.toolchain.deep_view() =~= self.toolchain@);
            assert(self.components.deep_view() =~= self.components@);
        }
        let mut input = Input::default();
        if self.toolchain.len() > 0 {
            let text = join(&self.version_names(), ", ");
            input = input.add("toolchain", Value::text(text.as_str()));
        }
        match &self.target {
            Some(target) => {
                input = input.add("target", Value::text(target.to_string().as_str()));
            },
            None => {},
        }
        if self.components.len() > 0 {
            let text = join(&self.component_names(), ", ");
            input = input.add("components", Value::text(text.as_str()));
        }
        match self.cache {
            Some(cache) => {
                input = input.add("cache", Value::flag(cache));
            },
            None => {},
        }
        if self.cache_directories.len() > 0 {
            let text = prefix_each(&self.cache_directories, "\n");
            input = input.add("cache-directories", Value::text(text.as_str()));
        }
        if self.cache_workspaces.len() > 0 {
            let text = prefix_each(&self.cache_workspaces, "\n");
            input = input.add("cache-workspaces", Value::text(text.as_str()));
        }
        match self.cache_on_failure {
            Some(flag) => {
                input = input.add("cache-on-failure", Value::flag(flag));
            },
            None => {},
        }
        match &self.cache_key {
            Some(key) => {
                input = input.add("cache-key", Value::text(key.as_str()));
            },
            None => {},
        }
        match self.matcher {
            Some(flag) => {
                input = input.add("matcher", Value::flag(flag));
            },
            None => {},
        }
        match &self.rust_flags {
            Some(flags) => {
                input = input.add("rust-flags", Value::text(flags.to_string().as_str()));
            },
            None => {},
        }
        match self.override_default {
            Some(flag) => {
                input = input.add("override", Value::flag(flag));
            },
            None => {},
        }
        input
    }

    /// The step that sets the toolchain up: it uses the set-up action with
    /// the inputs of the toolchain, or without inputs where there are none.
    pub fn to_step(&self) -> (r: Step<Use>)
        ensures
            r.value.deep_view() == self.deep_view().step(),
            r.value.name is Some,
            r.value.name->0@ == "Setup Rust Toolchain"@,
            r.value.uses is Some,
            r.value.uses->0@ == action_ref("actions-rust-lang"@, "setup-rust-toolchain"@, "v1"@),
            self.inputs().len() == 0 ==> r.value.with is None,
            self.inputs().len() > 0 ==> r.value.with is Some && r.value.with->0.entries()
                == self.inputs(),
            r.value == (StepValue {
                name: r.value.name,
                uses: r.value.uses,
                with: r.value.with,
                ..StepValue::default_spec()
            }),
    {
        let step = Step::new("Setup Rust Toolchain").uses(
            "actions-rust-lang",
            "setup-rust-toolchain",
            "v1",
        );
        let input = self.to_input();
        if !input.is_empty() {
            step.with(input)
        } else {
            step
        }
    }
}

impl vstd::std_specs::convert::FromSpecImpl<Toolchain> for Step<Use> {
    open spec fn obeys_from_spec() -> bool {
        false
    }

    open spec fn from_spec(v: Toolchain) -> Self {
        arbitrary()
    }
}

impl From<Toolchain> for Step<Use> {
    fn from(value: Toolchain) -> (r: Step<Use>)
        ensures
            r.value.name is Some,
            r.value.name->0@ == "Setup Rust Toolchain"@,
            r.value.uses is Some,
            r.value.uses->0@ == action_ref("actions-rust-lang"@, "setup-rust-toolchain"@, "v1"@),
            value.inputs().len() == 0 ==> r.value.with is None,
            value.inputs().len() > 0 ==> r.value.with is Some && r.value.with->0.entries()
                == value.inputs(),
            r.value == (StepValue {
                name: r.value.name,
                uses: r.value.uses,
                with: r.value.with,
                ..StepValue::default_spec()
            }),
    {
        value.to_step()
    }
}

impl Sealed for Toolchain {
}

impl StepType for Toolchain {
    open spec fn as_value(s: Step<Self>) -> StepValueView {
        s.marker.deep_view().step()
    }

    fn to_value(s: Step<Self>) -> (r: StepValue) {
        s.marker.to_step().value
    }
}

impl Step<Toolchain> {
    /// A step that sets up a toolchain of which nothing is said yet.
    pub fn toolchain() -> (r: Step<Toolchain>)
        ensures
            r.value == StepValue::default_spec(),
            r.marker.inputs().len() == 0,
    {
        Step { value: StepValue::default(), marker: Toolchain::default() }
    }

    /// This step with `version` as the last version of its toolchain.
    pub fn add_version(self, version: Version) -> (r: Self)
        ensures
            r.marker.toolchain@ == self.marker.toolchain@.push(version),
            r == (Step {
                value: self.value,
                marker: Toolchain { toolchain: r.marker.toolchain, ..self.marker },
            }),
    {
        Step { value: self.value, marker: self.marker.add_version(version) }
    }

    /// This step with `component` as the last component of its toolchain.
    pub fn add_component(self, component: Component) -> (r: Self)
        ensures
            r.marker.components@ == self.marker.components@.push(component),
            r == (Step {
                value: self.value,
                marker: Toolchain { components: r.marker.components, ..self.marker },
            }),
    {
        Step { value: self.value, marker: self.marker.add_component(component) }
    }

    /// This step with the stable release as the last version.
    pub fn add_stable(self) -> (r: Self)
        ensures
            r.marker.toolchain@ == self.marker.toolchain@.push(Version::Stable),
            r == (Step {
                value: self.value,
                marker: Toolchain { toolchain: r.marker.toolchain, ..self.marker },
            }),
    {
        self.add_version(Version::Stable)
    }

    /// This step with the nightly build as the last version.
    pub fn add_nightly(self) -> (r: Self)
        ensures
            r.marker.toolchain@ == self.marker.toolchain@.push(Version::Nightly),
            r == (Step {
                value: self.value,
                marker: Toolchain { toolchain: r.marker.toolchain, ..self.marker },
            }),
    {
        self.add_version(Version::Nightly)
    }

    /// This step with the linter as the last component.
    pub fn add_clippy(self) -> (r: Self)
        ensures
            r.marker.components@ == self.marker.components@.push(Component::Clippy),
            r == (Step {
                value: self.value,
                marker: Toolchain { components: r.marker.components, ..self.marker },
            }),
    {
        self.add_component(Component::Clippy)
    }

    /// This step with the formatter as the last component.
    pub fn add_fmt(self) -> (r: Self)
        ensures
            r.marker.components@ == self.marker.components@.push(Component::Rustfmt),
            r == (Step {
                value: self.value,
                marker: Toolchain { components: r.marker.components, ..self.marker },
            }),
    {
        self.add_component(Component::Rustfmt)
    }

    /// This step with a toolchain for the given platform.
    pub fn target(self, arch: Arch, vendor: Vendor, system: System, abi: Option<Abi>) -> (r: Self)
        ensures
            r == (Step {
                value: self.value,
                marker: Toolchain {
                    target: Some(Target { arch, vendor, system, abi }),
                    ..self.marker
                },
            }),
    {
        Step { value: self.value, marker: self.marker.target(arch, vendor, system, abi) }
    }
}

} // verus!
