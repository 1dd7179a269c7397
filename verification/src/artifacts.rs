//! Artifacts that a job or a step uploads and downloads.

use vstd::prelude::*;
use crate::data::Data;

verus! {

/// A named set of files.
#[derive(Debug, Clone, PartialEq, Eq)]
pub struct Artifact {
    /// The name of the artifact.
    pub name: String,
    /// The path of the files.
    pub path: String,
    /// The number of days to keep the artifact.
    pub retention_days: Option<u32>,
}

/// The content of an [`Artifact`].
pub struct ArtifactView {
    pub name: Seq<char>,
    pub path: Seq<char>,
    pub retention_days: Option<u32>,
}

impl DeepView for Artifact {
    type V = ArtifactView;

    open spec fn deep_view(&self) -> ArtifactView {
        ArtifactView {
            name: self.name.deep_view(),
            path: self.path.deep_view(),
            retention_days: self.retention_days.deep_view(),
        }
    }
}

impl Data for Artifact {
    fn duplicate(&self) -> (r: Self) {
        Artifact {
            name: self.name.duplicate(),
            path: self.path.duplicate(),
            retention_days: self.retention_days.duplicate(),
        }
    }

    fn same(&self, other: &Self) -> (r: bool) {
        self.name.same(&other.name)
            && self.path.same(&other.path)
            && self.retention_days.same(&other.retention_days)
    }
}

impl ArtifactView {
    /// The content of the artifact of which nothing is said.
    pub open spec fn default_spec() -> ArtifactView {
        ArtifactView {
            name: Seq::empty(),
            path: Seq::empty(),
            retention_days: None,
        }
    }
}

impl Default for Artifact {
    fn default() -> (r: Self)
        ensures
            r.deep_view() == ArtifactView::default_spec(),
            r.name@ == Seq::<char>::empty(),
            r.path@ == Seq::<char>::empty(),
            r.retention_days is None,
    {
        let r = Artifact {
            name: String::new(),
            path: String::new(),
            retention_days: None,
        };
        r
    }
}

impl Artifact {
    /// Sets `name`.
    pub fn name(self, value: String) -> (r: Self)
        ensures
            r == (Artifact { name: value, ..self }),
    {
        Artifact { name: value, ..self }
    }

    /// Sets `path`.
    pub fn path(self, value: String) -> (r: Self)
        ensures
            r == (Artifact { path: value, ..self }),
    {
        Artifact { path: value, ..self }
    }

    /// Sets `retention_days`.
    pub fn retention_days(self, value: u32) -> (r: Self)
        ensures
            r == (Artifact { retention_days: Some(value), ..self }),
    {
        Artifact { retention_days: Some(value), ..self }
    }
}

/// The artifacts of a job or a step.
#[derive(Debug, Clone, PartialEq, Eq)]
pub struct Artifacts {
    /// Artifacts to upload afterwards.
    pub upload: Option<Vec<Artifact>>,
    /// Artifacts to download before.
    pub download: Option<Vec<Artifact>>,
}

/// The content of an [`Artifacts`].
pub struct ArtifactsView {
    pub upload: Option<Seq<ArtifactView>>,
    pub download: Option<Seq<ArtifactView>>,
}

impl DeepView for Artifacts {
    type V = ArtifactsView;

    open spec fn deep_view(&self) -> ArtifactsView {
        ArtifactsView {
            upload: self.upload.deep_view(),
            download: self.download.deep_view(),
        }
    }
}

impl Data for Artifacts {
    fn duplicate(&self) -> (r: Self) {
        Artifacts {
            upload: self.upload.duplicate(),
            download: self.download.duplicate(),
        }
    }

    fn same(&self, other: &Self) -> (r: bool) {
        self.upload.same(&other.upload)
            && self.download.same(&other.download)
    }
}

impl Artifacts {
    /// The artifacts of which nothing is said.
    pub open spec fn default_spec() -> Artifacts {
        Artifacts {
            upload: None,
            download: None,
        }
    }
}

impl Default for Artifacts {
    fn default() -> (r: Self)
        ensures
            r == Artifacts::default_spec(),
    {
        Artifacts {
            upload: None,
            download: None,
        }
    }
}

impl Artifacts {
    /// Sets `upload`.
    pub fn upload(self, value: Vec<Artifact>) -> (r: Self)
        ensures
            r == (Artifacts { upload: Some(value), ..self }),
    {
        Artifacts { upload: Some(value), ..self }
    }

    /// Sets `download`.
    pub fn download(self, value: Vec<Artifact>) -> (r: Self)
        ensures
            r == (Artifacts { download: Some(value), ..self }),
    {
        Artifacts { download: Some(value), ..self }
    }
}

} // verus!
