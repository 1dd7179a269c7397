//! Containers that jobs and services run in.

use vstd::prelude::*;
use crate::data::Data;
use crate::env::Env;
use crate::value::ValueView;

verus! {

/// The credentials for a container registry.
#[derive(Debug, Clone, PartialEq, Eq)]
pub struct Credentials {
    /// The name of the user.
    pub username: String,
    /// The password of the user.
    pub password: String,
}

/// The content of a [`Credentials`].
pub struct CredentialsView {
    pub username: Seq<char>,
    pub password: Seq<char>,
}

impl DeepView for Credentials {
    type V = CredentialsView;

    open spec fn deep_view(&self) -> CredentialsView {
        CredentialsView {
            username: self.username.deep_view(),
            password: self.password.deep_view(),
        }
    }
}

impl Data for Credentials {
    fn duplicate(&self) -> (r: Self) {
        Credentials {
            username: self.username.duplicate(),
            password: self.password.duplicate(),
        }
    }

    fn same(&self, other: &Self) -> (r: bool) {
        self.username.same(&other.username)
            && self.password.same(&other.password)
    }
}

impl CredentialsView {
    /// The content of the credentials of which nothing is said.
    pub open spec fn default_spec() -> CredentialsView {
        CredentialsView {
            username: Seq::empty(),
            password: Seq::empty(),
        }
    }
}

impl Default for Credentials {
    fn default() -> (r: Self)
        ensures
            r.deep_view() == CredentialsView::default_spec(),
            r.username@ == Seq::<char>::empty(),
            r.password@ == Seq::<char>::empty(),
    {
        let r = Credentials {
            username: String::new(),
            password: String::new(),
        };
        r
    }
}

impl Credentials {
    /// Sets `username`.
    pub fn username(self, value: String) -> (r: Self)
        ensures
            r == (Credentials { username: value, ..self }),
    {
        Credentials { username: value, ..self }
    }

    /// Sets `password`.
    pub fn password(self, value: String) -> (r: Self)
        ensures
            r == (Credentials { password: value, ..self }),
    {
        Credentials { password: value, ..self }
    }
}

/// A volume mounted into a container.
#[derive(Debug, Clone, PartialEq, Eq)]
pub struct Volume {
    /// The path or the name of the volume on the host.
    pub source: String,
    /// The path of the volume in the container.
    pub destination: String,
}

/// The content of a [`Volume`].
pub struct VolumeView {
    pub source: Seq<char>,
    pub destination: Seq<char>,
}

impl DeepView for Volume {
    type V = VolumeView;

    open spec fn deep_view(&self) -> VolumeView {
        VolumeView {
            source: self.source.deep_view(),
            destination: self.destination.deep_view(),
        }
    }
}

impl Data for Volume {
    fn duplicate(&self) -> (r: Self) {
        Volume {
            source: self.source.duplicate(),
            destination: self.destination.duplicate(),
        }
    }

    fn same(&self, other: &Self) -> (r: bool) {
        self.source.same(&other.source)
            && self.destination.same(&other.destination)
    }
}

impl VolumeView {
    /// The content of the volume of which nothing is said.
    pub open spec fn default_spec() -> VolumeView {
        VolumeView {
            source: Seq::empty(),
            destination: Seq::empty(),
        }
    }
}

impl Default for Volume {
    fn default() -> (r: Self)
        ensures
            r.deep_view() == VolumeView::default_spec(),
            r.source@ == Seq::<char>::empty(),
            r.destination@ == Seq::<char>::empty(),
    {
        let r = Volume {
            source: String::new(),
            destination: String::new(),
        };
        r
    }
}

impl Volume {
    /// Sets `source`.
    pub fn source(self, value: String) -> (r: Self)
        ensures
            r == (Volume { source: value, ..self }),
    {
        Volume { source: value, ..self }
    }

    /// Sets `destination`.
    pub fn destination(self, value: String) -> (r: Self)
        ensures
            r == (Volume { destination: value, ..self }),
    {
        Volume { destination: value, ..self }
    }
}

/// The container of a job or of a service.
#[derive(Debug, Clone, PartialEq, Eq)]
pub struct Container {
    /// The image of the container.
    pub image: String,
    /// The credentials for the registry of the image.
    pub credentials: Option<Credentials>,
    /// The environment variables of the container.
    pub env: Option<Env>,
    /// The ports that the container exposes.
    pub ports: Option<Vec<Port>>,
    /// The volumes that the container mounts.
    pub volumes: Option<Vec<Volume>>,
    /// Further options for creating the container.
    pub options: Option<String>,
    /// The host name of the container.
    pub hostname: Option<String>,
}

/// The content of a [`Container`].
pub struct ContainerView {
    pub image: Seq<char>,
    pub credentials: Option<CredentialsView>,
    pub env: Option<Map<Seq<char>, ValueView>>,
    pub ports: Option<Seq<PortView>>,
    pub volumes: Option<Seq<VolumeView>>,
    pub options: Option<Seq<char>>,
    pub hostname: Option<Seq<char>>,
}

impl DeepView for Container {
    type V = ContainerView;

    open spec fn deep_view(&self) -> ContainerView {
        ContainerView {
            image: self.image.deep_view(),
            credentials: self.credentials.deep_view(),
            env: self.env.deep_view(),
            ports: self.ports.deep_view(),
            volumes: self.volumes.deep_view(),
            options: self.options.deep_view(),
            hostname: self.hostname.deep_view(),
        }
    }
}

impl Data for Container {
    fn duplicate(&self) -> (r: Self) {
        Container {
            image: self.image.duplicate(),
            credentials: self.credentials.duplicate(),
            env: self.env.duplicate(),
            ports: self.ports.duplicate(),
            volumes: self.volumes.duplicate(),
            options: self.options.duplicate(),
            hostname: self.hostname.duplicate(),
        }
    }

    fn same(&self, other: &Self) -> (r: bool) {
        self.image.same(&other.image)
            && self.credentials.same(&other.credentials)
            && self.env.same(&other.env)
            && self.ports.same(&other.ports)
            && self.volumes.same(&other.volumes)
            && self.options.same(&other.options)
            && self.hostname.same(&other.hostname)
    }
}

impl ContainerView {
    /// The content of the container of which nothing is said.
    pub open spec fn default_spec() -> ContainerView {
        ContainerView {
            image: Seq::empty(),
            credentials: None,
            env: None,
            ports: None,
            volumes: None,
            options: None,
            hostname: None,
        }
    }
}

impl Default for Container {
    fn default() -> (r: Self)
        ensures
            r.deep_view() == ContainerView::default_spec(),
            r.image@ == Seq::<char>::empty(),
            r.credentials is None,
            r.env is None,
            r.ports is None,
            r.volumes is None,
            r.options is None,
            r.hostname is None,
    {
        let r = Container {
            image: String::new(),
            credentials: None,
            env: None,
            ports: None,
            volumes: None,
            options: None,
            hostname: None,
        };
        r
    }
}

impl Container {
    /// Sets `image`.
    pub fn image(self, value: String) -> (r: Self)
        ensures
            r == (Container { image: value, ..self }),
    {
        Container { image: value, ..self }
    }

    /// Sets `credentials`.
    pub fn credentials(self, value: Credentials) -> (r: Self)
        ensures
            r == (Container { credentials: Some(value), ..self }),
    {
        Container { credentials: Some(value), ..self }
    }

    /// Sets `env`.
    pub fn env(self, value: Env) -> (r: Self)
        ensures
            r == (Container { env: Some(value), ..self }),
    {
        Container { env: Some(value), ..self }
    }

    /// Sets `ports`.
    pub fn ports(self, value: Vec<Port>) -> (r: Self)
        ensures
            r == (Container { ports: Some(value), ..self }),
    {
        Container { ports: Some(value), ..self }
    }

    /// Sets `volumes`.
    pub fn volumes(self, value: Vec<Volume>) -> (r: Self)
        ensures
            r == (Container { volumes: Some(value), ..self }),
    {
        Container { volumes: Some(value), ..self }
    }

    /// Sets `options`.
    pub fn options(self, value: String) -> (r: Self)
        ensures
            r == (Container { options: Some(value), ..self }),
    {
        Container { options: Some(value), ..self }
    }

    /// Sets `hostname`.
    pub fn hostname(self, value: String) -> (r: Self)
        ensures
            r == (Container { hostname: Some(value), ..self }),
    {
        Container { hostname: Some(value), ..self }
    }
}

/// A network port.
#[derive(Debug, Clone, PartialEq, Eq)]
pub enum Port {
    /// A port given by its number.
    Number(u16),
    /// A port given by its name.
    Name(String),
}

/// The content of a [`Port`].
pub enum PortView {
    Number(u16),
    Name(Seq<char>),
}

impl DeepView for Port {
    type V = PortView;

    open spec fn deep_view(&self) -> PortView {
        match self {
            Port::Number(n) => PortView::Number(*n),
            Port::Name(s) => PortView::Name(s@),
        }
    }
}

impl Data for Port {
    fn duplicate(&self) -> (r: Self) {
        match self {
            Port::Number(n) => Port::Number(*n),
            Port::Name(s) => Port::Name(s.clone()),
        }
    }

    fn same(&self, other: &Self) -> (r: bool) {
        match (self, other) {
            (Port::Number(a), Port::Number(b)) => *a == *b,
            (Port::Name(a), Port::Name(b)) => *a == *b,
            _ => false,
        }
    }
}

/// Whether position `i` of `s` holds a colon and no other position does.
pub open spec fn sole_colon(s: Seq<char>, i: int) -> bool {
    &&& 0 <= i < s.len()
    &&& s[i] == ':'
    &&& forall|j: int| 0 <= j < s.len() && j != i ==> s[j] != ':'
}

impl Volume {
    /// The volume written as `source:destination`.
    ///
    /// The text must hold exactly one colon; what stands before it is the
    /// source and what stands after it the destination. Any other text gives
    /// `None`.
    pub fn new(volume_str: &str) -> (r: Option<Self>)
        ensures
            r matches Some(v) ==> exists|i: int|
                sole_colon(volume_str@, i) && v.source@ == volume_str@.take(i) && v.destination@
                    == volume_str@.skip(i + 1),
            r is None ==> forall|i: int| !sole_colon(volume_str@, i),
    {
        let n = volume_str.unicode_len();
        let mut first: usize = n;
        let mut more = false;
        let mut i: usize = 0;
        while i < n
            invariant
                i <= n,
                n == volume_str@.len(),
                first <= n,
                first == n ==> !more && forall|j: int| 0 <= j < i ==> volume_str@[j] != ':',
                first < n ==> first < i && volume_str@[first as int] == ':' && forall|j: int|
                    0 <= j < first ==> volume_str@[j] != ':',
                first < n && !more ==> forall|j: int| first < j < i ==> volume_str@[j] != ':',
                more ==> first < n && exists|j: int| first < j < i && volume_str@[j] == ':',
            decreases n - i,
        {
            let c = volume_str.get_char(i);
            if c == ':' {
                if first == n {
                    first = i;
                } else {
                    more = true;
                    assert(first < i && volume_str@[i as int] == ':');
                }
            }
            i = i + 1;
        }
        if first < n && !more {
            let source = volume_str.substring_char(0, first);
            let destination = volume_str.substring_char(first + 1, n);
            assert(sole_colon(volume_str@, first as int));
            assert(volume_str@.subrange(0, first as int) == volume_str@.take(first as int));
            assert(volume_str@.subrange(first + 1, n as int) == volume_str@.skip(first + 1));
            Some(Volume { source: String::from_str(source), destination: String::from_str(destination) })
        } else {
            assert forall|k: int| !sole_colon(volume_str@, k) by {
                if sole_colon(volume_str@, k) {
                    if first == n {
                        assert(volume_str@[k] != ':');
                    } else {
                        let j = choose|j: int| first < j < n && volume_str@[j] == ':';
                        assert(volume_str@[first as int] == ':');
                        assert(volume_str@[j] == ':');
                    }
                }
            }
            None
        }
    }
}

} // verus!
