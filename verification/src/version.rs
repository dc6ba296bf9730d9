//! The version descriptor: what one installable version consists of.

#![allow(non_snake_case)]

use vstd::prelude::*;
use crate::json::{Json, JsonView};
use crate::string_map::StringMap;

verus! {

/// Where the index of a version's assets is found.
#[derive(Debug, Clone)]
pub struct AssetIndex {
    pub id: String,
    pub url: String,
    pub sha1: String,
    pub size: u64,
}

/// What a `AssetIndex` holds, as plain values.
pub struct AssetIndexView {
    pub id: Seq<char>,
    pub url: Seq<char>,
    pub sha1: Seq<char>,
    pub size: u64,
}

impl DeepView for AssetIndex {
    type V = AssetIndexView;

    open spec fn deep_view(&self) -> AssetIndexView {
        AssetIndexView { id: self.id@, url: self.url@, sha1: self.sha1@, size: self.size }
    }
}

/// One downloadable file of a library, with its place under the libraries
/// directory.
#[derive(Debug, Clone)]
pub struct Artifact {
    pub path: String,
    pub url: String,
    pub sha1: String,
    pub size: u64,
}

/// What a `Artifact` holds, as plain values.
pub struct ArtifactView {
    pub path: Seq<char>,
    pub url: Seq<char>,
    pub sha1: Seq<char>,
    pub size: u64,
}

impl DeepView for Artifact {
    type V = ArtifactView;

    open spec fn deep_view(&self) -> ArtifactView {
        ArtifactView { path: self.path@, url: self.url@, sha1: self.sha1@, size: self.size }
    }
}

/// The operating system that a rule is about.
#[derive(Debug, Clone)]
pub struct OsRule {
    pub name: String,
}

/// A directive that allows or denies a library, on one operating system or
/// on all.
#[derive(Debug, Clone)]
pub struct Rule {
    pub action: String,
    pub os: Option<OsRule>,
}

/// What a `Rule` holds, as plain values.
pub struct RuleView {
    pub action: Seq<char>,
    pub os: Option<Seq<char>>,
}

impl DeepView for Rule {
    type V = RuleView;

    open spec fn deep_view(&self) -> RuleView {
        RuleView {
            action: self.action@,
            os: match self.os {
                Some(os) => Some(os.name@),
                None => None,
            },
        }
    }
}

/// The files of a library: one for every platform, and one per classifier.
#[derive(Debug, Clone)]
pub struct LibraryDownloads {
    pub artifact: Option<Artifact>,
    pub classifiers: StringMap<Artifact>,
}

/// One dependency of a version.
#[derive(Debug, Clone)]
pub struct Library {
    pub name: String,
    pub downloads: LibraryDownloads,
    pub natives: StringMap<String>,
    pub rules: Vec<Rule>,
}

/// What a `Library` holds, as plain values.
pub struct LibraryView {
    pub name: Seq<char>,
    pub artifact: Option<ArtifactView>,
    pub classifiers: Seq<(Seq<char>, ArtifactView)>,
    pub natives: Seq<(Seq<char>, Seq<char>)>,
    pub rules: Seq<RuleView>,
}

impl DeepView for Library {
    type V = LibraryView;

    open spec fn deep_view(&self) -> LibraryView {
        LibraryView {
            name: self.name@,
            artifact: self.downloads.artifact.deep_view(),
            classifiers: self.downloads.classifiers.deep_view(),
            natives: self.natives.deep_view(),
            rules: self.rules.deep_view(),
        }
    }
}

/// Where a file is downloaded from, with its expected hash and size.
#[derive(Debug, Clone)]
pub struct DownloadInfo {
    pub url: String,
    pub sha1: String,
    pub size: u64,
}

/// What a `DownloadInfo` holds, as plain values.
pub struct DownloadInfoView {
    pub url: Seq<char>,
    pub sha1: Seq<char>,
    pub size: u64,
}

impl DeepView for DownloadInfo {
    type V = DownloadInfoView;

    open spec fn deep_view(&self) -> DownloadInfoView {
        DownloadInfoView { url: self.url@, sha1: self.sha1@, size: self.size }
    }
}

/// The downloads of a version itself.
#[derive(Debug, Clone)]
pub struct Downloads {
    pub client: DownloadInfo,
}

/// The description of one installable version. A description with
/// `inheritsFrom` is a layer over the version named there.
#[derive(Debug, Clone)]
pub struct VersionJson {
    pub id: Option<String>,
    pub inheritsFrom: Option<String>,
    pub releaseTime: Option<String>,
    pub time: Option<String>,
    pub version_type: Option<String>,
    pub arguments: Option<Json>,
    pub libraries: Vec<Library>,
    pub downloads: Downloads,
    pub mainClass: String,
    pub assetIndex: AssetIndex,
}

/// What a `VersionJson` holds, as plain values.
pub struct VersionView {
    pub id: Option<Seq<char>>,
    pub inherits_from: Option<Seq<char>>,
    pub release_time: Option<Seq<char>>,
    pub time: Option<Seq<char>>,
    pub version_type: Option<Seq<char>>,
    pub arguments: Option<JsonView>,
    pub libraries: Seq<LibraryView>,
    pub client: DownloadInfoView,
    pub main_class: Seq<char>,
    pub asset_index: AssetIndexView,
}

impl DeepView for VersionJson {
    type V = VersionView;

    open spec fn deep_view(&self) -> VersionView {
        VersionView {
            id: self.id.deep_view(),
            inherits_from: self.inheritsFrom.deep_view(),
            release_time: self.releaseTime.deep_view(),
            time: self.time.deep_view(),
            version_type: self.version_type.deep_view(),
            arguments: self.arguments.deep_view(),
            libraries: self.libraries.deep_view(),
            client: self.downloads.client.deep_view(),
            main_class: self.mainClass@,
            asset_index: self.assetIndex.deep_view(),
        }
    }
}

} // verus!
