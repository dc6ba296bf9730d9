//! Loader profiles: checking that a profile targets the expected base
//! version, and mapping a profile onto a version description.
//!
//! A profile that does not have the shape of a version description is laid
//! over the description of its base version: its libraries are added after
//! those of the base, and its client download and main class replace those
//! of the base where the profile has them.

use vstd::prelude::*;
use vstd::string::StringExecFns;
use crate::json::{Json, JsonView};
use crate::loader::{maven_coords_to_path, maven_path};
use crate::string_map::StringMap;
use crate::text::{ends_with, has_suffix, prefix_of, same_text, take_chars};
use crate::version::{
    Artifact, ArtifactView, DownloadInfo, DownloadInfoView, Downloads, Library, LibraryDownloads,
    LibraryView, VersionJson, VersionView,
};

verus! {

/// Why a loader could not be installed.
#[derive(Debug, Clone)]
pub enum LoaderError {
    /// A fetch failed; the message is that of the fetch.
    Network(String),
    /// A document could not be read; the message says why.
    Schema(String),
    /// The profile names no base version.
    MissingBase,
    /// The profile targets another base version than the one asked for.
    BaseMismatch { expected: String, found: String },
    /// Writing or materializing the derived version failed.
    Install(String),
    /// An event arrived that the installation was not waiting for.
    Unexpected,
}

/// What a `LoaderError` holds, as plain values.
pub enum LoaderErrorView {
    Network(Seq<char>),
    Schema(Seq<char>),
    MissingBase,
    BaseMismatch { expected: Seq<char>, found: Seq<char> },
    Install(Seq<char>),
    Unexpected,
}

impl DeepView for LoaderError {
    type V = LoaderErrorView;

    open spec fn deep_view(&self) -> LoaderErrorView {
        match self {
            LoaderError::Network(m) => LoaderErrorView::Network(m@),
            LoaderError::Schema(m) => LoaderErrorView::Schema(m@),
            LoaderError::MissingBase => LoaderErrorView::MissingBase,
            LoaderError::BaseMismatch { expected, found } => LoaderErrorView::BaseMismatch {
                expected: expected@,
                found: found@,
            },
            LoaderError::Install(m) => LoaderErrorView::Install(m@),
            LoaderError::Unexpected => LoaderErrorView::Unexpected,
        }
    }
}

impl LoaderErrorView {
    /// The error in words.
    pub open spec fn message(self) -> Seq<char> {
        match self {
            LoaderErrorView::Network(m) => m,
            LoaderErrorView::Schema(m) => m,
            LoaderErrorView::MissingBase => "profile missing inheritsFrom"@,
            LoaderErrorView::BaseMismatch { expected, found } =>
                "profile inheritsFrom mismatch: expected "@ + expected + ", found "@ + found,
            LoaderErrorView::Install(m) => m,
            LoaderErrorView::Unexpected => "unexpected event during loader installation"@,
        }
    }
}

impl LoaderError {
    /// The error in words.
    pub fn message(&self) -> (m: String)
        ensures
            m@ == self.deep_view().message(),
    {
        match self {
            LoaderError::Network(m) => m.clone(),
            LoaderError::Schema(m) => m.clone(),
            LoaderError::MissingBase => String::from_str("profile missing inheritsFrom"),
            LoaderError::BaseMismatch { expected, found } => {
                let mut m = String::from_str("profile inheritsFrom mismatch: expected ");
                m.append(expected.as_str());
                m.append(", found ");
                m.append(found.as_str());
                m
            },
            LoaderError::Install(m) => m.clone(),
            LoaderError::Unexpected => String::from_str(
                "unexpected event during loader installation",
            ),
        }
    }
}

/// What is said of a response that is no JSON: the reader's message, and
/// the first 200 characters of the response.
pub open spec fn unreadable_response(error: Seq<char>, response: Seq<char>) -> Seq<char> {
    error + " - response (truncated): "@ + prefix_of(response, 200)
}

/// What is said of a response that is no JSON.
pub fn describe_unreadable(error: &str, response: &str) -> (m: String)
    ensures
        m@ == unreadable_response(error@, response@),
{
    let mut m = String::from_str(error);
    m.append(" - response (truncated): ");
    let snippet = take_chars(response, 200);
    m.append(snippet.as_str());
    m
}

/// Whether a profile targets the base version `base`: it must name one
/// under `inheritsFrom`, and that one.
pub open spec fn base_check(profile: JsonView, base: Seq<char>) -> Result<(), LoaderErrorView> {
    match profile.text_at("inheritsFrom"@) {
        None => Err(LoaderErrorView::MissingBase),
        Some(found) => if found == base {
            Ok(())
        } else {
            Err(LoaderErrorView::BaseMismatch { expected: base, found })
        },
    }
}

/// Checks that a profile targets the base version `base`.
pub fn check_profile_base(profile: &Json, base: &str) -> (r: Result<(), LoaderError>)
    ensures
        match r {
            Ok(_) => base_check(profile.deep_view(), base@) == Ok::<(), LoaderErrorView>(()),
            Err(e) => base_check(profile.deep_view(), base@) == Err::<(), LoaderErrorView>(
                e.deep_view(),
            ),
        },
{
    match profile.text_at("inheritsFrom") {
        None => Err(LoaderError::MissingBase),
        Some(found) => if same_text(found, base) {
            Ok(())
        } else {
            Err(
                LoaderError::BaseMismatch {
                    expected: String::from_str(base),
                    found: String::from_str(found),
                },
            )
        },
    }
}

/// The artifact that a download record describes, where the record has a
/// URL, a path, a hash and a size.
pub open spec fn complete_artifact(record: JsonView) -> Option<ArtifactView> {
    match (
        record.text_at("url"@),
        record.text_at("path"@),
        record.text_at("sha1"@),
        record.number_at("size"@),
    ) {
        (Some(url), Some(path), Some(sha1), Some(size)) => Some(
            ArtifactView { path, url, sha1, size },
        ),
        _ => None,
    }
}

/// The address of `path` below the repository `repository`, with exactly
/// one `/` between them where the repository ends with one or with none.
pub open spec fn repository_url(repository: Seq<char>, path: Seq<char>) -> Seq<char> {
    if has_suffix(repository, "/"@) {
        repository + path
    } else {
        repository + "/"@ + path
    }
}

/// The artifact of a library that is only known by its coordinates and its
/// repository. A missing hash is recorded as empty and a missing size as
/// zero. Nothing where the coordinates do not have three parts.
pub open spec fn repository_artifact(
    lib: JsonView,
    name: Seq<char>,
    repository: Seq<char>,
) -> Option<ArtifactView> {
    match maven_path(name) {
        Some(path) => Some(
            ArtifactView {
                path,
                url: repository_url(repository, path),
                sha1: match lib.text_at("sha1"@) {
                    Some(h) => h,
                    None => Seq::empty(),
                },
                size: match lib.number_at("size"@) {
                    Some(n) => n,
                    None => 0,
                },
            },
        ),
        None => None,
    }
}

/// The record under `downloads.artifact` of a library entry.
pub open spec fn artifact_record(lib: JsonView) -> Option<JsonView> {
    match lib.member("downloads"@) {
        Some(d) => d.member("artifact"@),
        None => None,
    }
}

/// The artifact of a profile's library entry with the name `name`: from its
/// download record where it has one, and only from there; else from its
/// coordinates and repository.
pub open spec fn profile_artifact(lib: JsonView, name: Seq<char>) -> Option<ArtifactView> {
    match artifact_record(lib) {
        Some(record) => complete_artifact(record),
        None => match lib.text_at("url"@) {
            Some(repository) => repository_artifact(lib, name, repository),
            None => None,
        },
    }
}

/// The library that a profile's library entry stands for: one without
/// rules, natives and classifiers. Nothing for an entry without a name.
pub open spec fn profile_library(lib: JsonView) -> Option<LibraryView> {
    match lib.text_at("name"@) {
        Some(name) => Some(
            LibraryView {
                name,
                artifact: profile_artifact(lib, name),
                classifiers: Seq::empty(),
                natives: Seq::empty(),
                rules: Seq::empty(),
            },
        ),
        None => None,
    }
}

/// The libraries that the entries stand for, in their order.
pub open spec fn profile_libraries(entries: Seq<JsonView>) -> Seq<LibraryView>
    decreases entries.len(),
{
    if entries.len() == 0 {
        Seq::empty()
    } else {
        let before = profile_libraries(entries.drop_last());
        match profile_library(entries.last()) {
            Some(lib) => before.push(lib),
            None => before,
        }
    }
}

/// The libraries that a profile declares.
pub open spec fn declared_libraries(profile: JsonView) -> Seq<LibraryView> {
    match profile.member("libraries"@) {
        Some(list) => match list.items() {
            Some(entries) => profile_libraries(entries),
            None => Seq::empty(),
        },
        None => Seq::empty(),
    }
}

/// The client download that a profile declares, where it declares one with
/// a URL, a hash and a size.
pub open spec fn declared_client(profile: JsonView) -> Option<DownloadInfoView> {
    let record = match profile.member("downloads"@) {
        Some(d) => d.member("client"@),
        None => None,
    };
    match record {
        Some(client) => match (
            client.text_at("url"@),
            client.text_at("sha1"@),
            client.number_at("size"@),
        ) {
            (Some(url), Some(sha1), Some(size)) => Some(DownloadInfoView { url, sha1, size }),
            _ => None,
        },
        None => None,
    }
}

/// The profile laid over the description of its base version `base_id`.
pub open spec fn merged(base: VersionView, profile: JsonView, base_id: Seq<char>) -> VersionView {
    VersionView {
        id: None,
        inherits_from: Some(base_id),
        release_time: None,
        time: None,
        version_type: None,
        arguments: None,
        libraries: base.libraries + declared_libraries(profile),
        client: match declared_client(profile) {
            Some(client) => client,
            None => base.client,
        },
        main_class: match profile.text_at("mainClass"@) {
            Some(main_class) => main_class,
            None => base.main_class,
        },
        asset_index: base.asset_index,
    }
}

/// The description as it is kept on disk under the id `id`: with that id,
/// with the base version `base_id` named where the description names none,
/// and with the type `release` where it has none.
pub open spec fn persisted(version: VersionView, id: Seq<char>, base_id: Seq<char>) -> VersionView {
    VersionView {
        id: Some(id),
        inherits_from: Some(
            match version.inherits_from {
                Some(b) => b,
                None => base_id,
            },
        ),
        version_type: Some(
            match version.version_type {
                Some(t) => t,
                None => "release"@,
            },
        ),
        ..version
    }
}

fn read_complete_artifact(record: &Json) -> (r: Option<Artifact>)
    ensures
        r.deep_view() == complete_artifact(record.deep_view()),
{
    match (
        record.text_at("url"),
        record.text_at("path"),
        record.text_at("sha1"),
        record.number_at("size"),
    ) {
        (Some(url), Some(path), Some(sha1), Some(size)) => Some(
            Artifact {
                path: String::from_str(path),
                url: String::from_str(url),
                sha1: String::from_str(sha1),
                size,
            },
        ),
        _ => None,
    }
}

fn read_repository_artifact(lib: &Json, name: &str, repository: &str) -> (r: Option<Artifact>)
    ensures
        r.deep_view() == repository_artifact(lib.deep_view(), name@, repository@),
{
    match maven_coords_to_path(name) {
        Some(path) => {
            let mut url = String::from_str(repository);
            if !ends_with(repository, "/") {
                url.append("/");
            }
            url.append(path.as_str());
            let sha1 = match lib.text_at("sha1") {
                Some(h) => String::from_str(h),
                None => String::new(),
            };
            let size = match lib.number_at("size") {
                Some(n) => n,
                None => 0,
            };
            Some(Artifact { path, url, sha1, size })
        },
        None => None,
    }
}

fn read_artifact_record(lib: &Json) -> (r: Option<&Json>)
    ensures
        r.deep_view() == artifact_record(lib.deep_view()),
{
    match lib.get("downloads") {
        Some(d) => d.get("artifact"),
        None => None,
    }
}

/// The library that a profile's library entry stands for.
pub fn read_profile_library(lib: &Json) -> (r: Option<Library>)
    ensures
        r.deep_view() == profile_library(lib.deep_view()),
{
    let name = match lib.text_at("name") {
        Some(name) => name,
        None => {
            return None;
        },
    };
    let artifact = match read_artifact_record(lib) {
        Some(record) => read_complete_artifact(record),
        None => match lib.text_at("url") {
            Some(repository) => read_repository_artifact(lib, name, repository),
            None => None,
        },
    };
    let classifiers: StringMap<Artifact> = StringMap::new();
    let natives: StringMap<String> = StringMap::new();
    let r = Library {
        name: String::from_str(name),
        downloads: LibraryDownloads { artifact, classifiers },
        natives,
        rules: Vec::new(),
    };
    assert(r.deep_view().classifiers =~= Seq::empty());
    assert(r.deep_view().natives =~= Seq::empty());
    assert(r.deep_view().rules =~= Seq::empty());
    Some(r)
}

fn read_declared_client(profile: &Json) -> (r: Option<DownloadInfo>)
    ensures
        r.deep_view() == declared_client(profile.deep_view()),
{
    let record = match profile.get("downloads") {
        Some(d) => d.get("client"),
        None => None,
    };
    match record {
        Some(client) => match (
            client.text_at("url"),
            client.text_at("sha1"),
            client.number_at("size"),
        ) {
            (Some(url), Some(sha1), Some(size)) => Some(
                DownloadInfo { url: String::from_str(url), sha1: String::from_str(sha1), size },
            ),
            _ => None,
        },
        None => None,
    }
}

/// Adds the libraries that `profile` declares at the end of `libraries`.
pub fn append_declared_libraries(libraries: &mut Vec<Library>, profile: &Json)
    ensures
        final(libraries).deep_view() == old(libraries).deep_view() + declared_libraries(
            profile.deep_view(),
        ),
{
    let ghost start = libraries.deep_view();
    assert(start + Seq::<LibraryView>::empty() =~= start);
    let entries = match profile.get("libraries") {
        Some(list) => match list.as_array() {
            Some(entries) => entries,
            None => {
                return ;
            },
        },
        None => {
            return ;
        },
    };
    let ghost all = entries.deep_view();
    let mut i: usize = 0;
    assert(profile_libraries(all.take(0)) =~= Seq::<LibraryView>::empty());
    while i < entries.len()
        invariant
            i <= entries.len(),
            all == entries.deep_view(),
            libraries.deep_view() == start + profile_libraries(all.take(i as int)),
        decreases entries.len() - i,
    {
        assert(all.take(i + 1).drop_last() =~= all.take(i as int));
        assert(all.take(i + 1).last() == entries@[i as int].deep_view());
        if let Some(lib) = read_profile_library(&entries[i]) {
            let ghost before = libraries.deep_view();
            libraries.push(lib);
            assert(libraries.deep_view() =~= before.push(lib.deep_view()));
            assert(libraries.deep_view() =~= start + profile_libraries(all.take(i + 1)));
        }
        i += 1;
    }
    assert(all.take(i as int) =~= all);
}

/// Lays `profile` over the description `base` of its base version
/// `base_id`.
pub fn merge_profile(base: VersionJson, profile: &Json, base_id: &str) -> (r: VersionJson)
    ensures
        r.deep_view() == merged(base.deep_view(), profile.deep_view(), base_id@),
{
    let VersionJson {
        id: _,
        inheritsFrom: _,
        releaseTime: _,
        time: _,
        version_type: _,
        arguments: _,
        libraries,
        downloads,
        mainClass,
        assetIndex,
    } = base;
    let mut libraries = libraries;
    append_declared_libraries(&mut libraries, profile);
    let downloads = match read_declared_client(profile) {
        Some(client) => Downloads { client },
        None => downloads,
    };
    let main_class = match profile.text_at("mainClass") {
        Some(main_class) => String::from_str(main_class),
        None => mainClass,
    };
    VersionJson {
        id: None,
        inheritsFrom: Some(String::from_str(base_id)),
        releaseTime: None,
        time: None,
        version_type: None,
        arguments: None,
        libraries,
        downloads,
        mainClass: main_class,
        assetIndex,
    }
}

/// The description as it is kept on disk under the id `id`.
pub fn derived_descriptor(version: VersionJson, id: &str, base_id: &str) -> (r: VersionJson)
    ensures
        r.deep_view() == persisted(version.deep_view(), id@, base_id@),
{
    let mut version = version;
    version.id = Some(String::from_str(id));
    if version.inheritsFrom.is_none() {
        version.inheritsFrom = Some(String::from_str(base_id));
    }
    if version.version_type.is_none() {
        version.version_type = Some(String::from_str("release"));
    }
    version
}

} // verus!
