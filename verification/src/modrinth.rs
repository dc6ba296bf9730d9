//! The mod registry: its records, its addresses, and what a pack asks for.

use vstd::prelude::*;
use vstd::string::StringExecFns;
use crate::choice::{first_some, lemma_first_some_at, lemma_first_some_none};
use crate::decimal::{decimal, decimal_string};
use crate::loader::{
    extract_loader_from_dependencies, loaders_in, normalize_loader_type, normalized_loader,
    LoaderCandidate, LoaderInfo, LoaderInfoView,
};
use crate::string_map::StringMap;
use crate::text::{
    ends_with, has_prefix, has_suffix, lowercase, same_text, starts_with, to_lowercase,
};

verus! {

/// The address of the registry.
pub const MODRINTH_API: &'static str = "https://api.modrinth.com/v2";

/// How many popular mods are asked for where no number is given.
pub const DEFAULT_POPULAR_LIMIT: u8 = 20;

/// A project of the registry.
#[derive(Debug, Clone)]
pub struct ModrinthProject {
    pub id: String,
    pub title: String,
    pub description: String,
    pub body: String,
    pub icon_url: Option<String>,
    pub author: String,
    pub categories: Vec<String>,
    pub versions: Vec<String>,
    pub follows: u32,
    pub downloads: u32,
    pub project_type: String,
}

/// One project as a search finds it.
#[derive(Debug, Clone)]
pub struct ModrinthProjectHit {
    pub project_id: String,
    pub title: String,
    pub description: String,
    pub icon_url: Option<String>,
    pub author: String,
    pub categories: Vec<String>,
    pub project_type: String,
    pub latest_version: String,
    pub gallery: Option<Vec<String>>,
}

/// What a search finds.
#[derive(Debug, Clone)]
pub struct ModrinthSearchResult {
    pub hits: Vec<ModrinthProjectHit>,
    pub total_hits: u32,
}

/// What a version of a project depends on.
#[derive(Debug, Clone)]
pub struct ModrinthDependency {
    pub version_id: Option<String>,
    pub project_id: Option<String>,
    pub dependency_type: String,
}

/// One file of a version of a project.
#[derive(Debug, Clone)]
pub struct ModrinthFile {
    pub url: String,
    pub filename: String,
    pub primary: bool,
    pub size: u32,
}

/// What a `ModrinthFile` holds, as plain values.
pub struct ModrinthFileView {
    pub url: Seq<char>,
    pub filename: Seq<char>,
    pub primary: bool,
    pub size: u32,
}

impl DeepView for ModrinthFile {
    type V = ModrinthFileView;

    open spec fn deep_view(&self) -> ModrinthFileView {
        ModrinthFileView {
            url: self.url@,
            filename: self.filename@,
            primary: self.primary,
            size: self.size,
        }
    }
}

/// One version of a project.
#[derive(Debug, Clone)]
pub struct ModrinthVersion {
    pub id: String,
    pub project_id: String,
    pub name: String,
    pub version_number: String,
    pub dependencies: Vec<ModrinthDependency>,
    pub game_versions: Vec<String>,
    pub loaders: Vec<String>,
    pub files: Vec<ModrinthFile>,
}

/// On which side a file of a pack is used.
#[derive(Debug, Clone)]
pub struct ModpackEnv {
    pub client: String,
    pub server: String,
}

/// One file of a pack.
#[derive(Debug, Clone)]
pub struct ModpackFile {
    pub path: String,
    pub hashes: StringMap<String>,
    pub env: Option<ModpackEnv>,
    pub downloads: Vec<String>,
    pub file_size: Option<u64>,
}

/// The index of a pack.
#[derive(Debug, Clone)]
pub struct ModpackIndex {
    pub format_version: Option<u32>,
    pub game: String,
    pub version_id: Option<String>,
    pub name: String,
    pub summary: Option<String>,
    pub files: Vec<ModpackFile>,
    pub dependencies: StringMap<String>,
}

/// Where projects of the type `project_type` that match `query` are
/// searched. Neither is escaped.
pub open spec fn search_url_of(query: Seq<char>, project_type: Seq<char>) -> Seq<char> {
    MODRINTH_API@ + "/search?query="@ + query + "&facets=[[\"project_type:"@ + project_type
        + "\"]]"@
}

/// Where the versions of the project `project_id` are listed.
pub open spec fn project_versions_url_of(project_id: Seq<char>) -> Seq<char> {
    MODRINTH_API@ + "/project/"@ + project_id + "/version"@
}

/// Where the version `version_id` is described.
pub open spec fn version_url_of(version_id: Seq<char>) -> Seq<char> {
    MODRINTH_API@ + "/version/"@ + version_id
}

/// Where the `limit` most downloaded mods are listed.
pub open spec fn popular_mods_url_of(limit: usize) -> Seq<char> {
    MODRINTH_API@ + "/search?query=&facets=[[\"project_type:mod\"]]&index=0&limit="@ + decimal(
        limit as nat,
    ) + "&sort=downloads"@
}

/// Where projects of the type `project_type` that match `query` are
/// searched.
pub fn search_url(query: &str, project_type: &str) -> (url: String)
    ensures
        url@ == search_url_of(query@, project_type@),
{
    let mut url = String::from_str(MODRINTH_API);
    url.append("/search?query=");
    url.append(query);
    url.append("&facets=[[\"project_type:");
    url.append(project_type);
    url.append("\"]]");
    url
}

/// Where the versions of the project `project_id` are listed.
pub fn project_versions_url(project_id: &str) -> (url: String)
    ensures
        url@ == project_versions_url_of(project_id@),
{
    let mut url = String::from_str(MODRINTH_API);
    url.append("/project/");
    url.append(project_id);
    url.append("/version");
    url
}

/// Where the version `version_id` is described.
pub fn version_url(version_id: &str) -> (url: String)
    ensures
        url@ == version_url_of(version_id@),
{
    let mut url = String::from_str(MODRINTH_API);
    url.append("/version/");
    url.append(version_id);
    url
}

/// Where the `limit` most downloaded mods are listed.
pub fn popular_mods_url(limit: usize) -> (url: String)
    ensures
        url@ == popular_mods_url_of(limit),
{
    let mut url = String::from_str(MODRINTH_API);
    url.append("/search?query=&facets=[[\"project_type:mod\"]]&index=0&limit=");
    url.append(decimal_string(limit as u64).as_str());
    url.append("&sort=downloads");
    url
}

/// How many popular mods are asked for: `limit`, or the default.
pub fn popular_limit(limit: Option<u8>) -> (n: usize)
    ensures
        n == match limit {
            Some(l) => l,
            None => DEFAULT_POPULAR_LIMIT,
        },
{
    match limit {
        Some(l) => l as usize,
        None => DEFAULT_POPULAR_LIMIT as usize,
    }
}

/// Whether a file of a pack is for the client: it is unless the pack says
/// that the client does not support it.
pub fn is_client_file(file: &ModpackFile) -> (r: bool)
    ensures
        r == match file.env {
            Some(env) => env.client@ != "unsupported"@,
            None => true,
        },
{
    match &file.env {
        Some(env) => !same_text(env.client.as_str(), "unsupported"),
        None => true,
    }
}

/// What is left of `name` below the directory `dir`, where `name` begins
/// with `dir` and something is left.
pub open spec fn below(name: Seq<char>, dir: Seq<char>) -> Option<Seq<char>> {
    if has_prefix(name, dir) && name.len() > dir.len() {
        Some(name.skip(dir.len() as int))
    } else {
        None
    }
}

/// Where an entry of a pack's archive goes, relative to the game
/// directory, if it is an override: what is left of its name below
/// `overrides/`, or else below `client-overrides/`.
pub open spec fn override_target_of(name: Seq<char>) -> Option<Seq<char>> {
    if has_prefix(name, "overrides/"@) {
        below(name, "overrides/"@)
    } else {
        below(name, "client-overrides/"@)
    }
}

fn strip_dir(name: &str, dir: &str) -> (r: Option<String>)
    ensures
        r.deep_view() == below(name@, dir@),
{
    if starts_with(name, dir) {
        let total: usize = name.unicode_len();
        let skip: usize = dir.unicode_len();
        if total > skip {
            let rest = name.substring_char(skip, total);
            assert(rest@ =~= name@.skip(skip as int));
            return Some(String::from_str(rest));
        }
    }
    None
}

/// Where an entry of a pack's archive goes, relative to the game
/// directory, if it is an override.
pub fn override_target(name: &str) -> (r: Option<String>)
    ensures
        r.deep_view() == override_target_of(name@),
{
    if starts_with(name, "overrides/") {
        strip_dir(name, "overrides/")
    } else {
        strip_dir(name, "client-overrides/")
    }
}

/// Whether a file's name marks it as a pack: it ends with `.mrpack` in any
/// case.
pub open spec fn names_pack(name: Seq<char>) -> bool {
    has_suffix(lowercase(name), ".mrpack"@)
}

/// Whether a file's name marks it as a pack.
pub fn is_mrpack_name(name: &str) -> (r: bool)
    ensures
        r == names_pack(name@),
{
    let lower = to_lowercase(name);
    ends_with(lower.as_str(), ".mrpack")
}

/// For each file, its position if it is the one to install: it is marked
/// primary, or it is the only file.
pub open spec fn primary_marks(files: Seq<ModrinthFile>) -> Seq<Option<int>> {
    Seq::new(
        files.len(),
        |i: int|
            if files[i].primary || files.len() == 1 {
                Some(i)
            } else {
                None
            },
    )
}

/// The position of the file of a version that is installed as the mod: the
/// first that is marked primary, or the only file there is.
#[verifier::loop_isolation(false)]
pub fn primary_file(files: &Vec<ModrinthFile>) -> (r: Option<usize>)
    ensures
        match r {
            Some(i) => first_some(primary_marks(files@)) == Some(i as int) && i < files@.len(),
            None => first_some(primary_marks(files@)) is None,
        },
{
    let mut i: usize = 0;
    while i < files.len()
        invariant
            i <= files.len(),
            forall|k: int| 0 <= k < i ==> primary_marks(files@)[k] is None,
        decreases files.len() - i,
    {
        if files[i].primary || files.len() == 1 {
            proof {
                lemma_first_some_at(primary_marks(files@), i as int);
            }
            return Some(i);
        }
        i += 1;
    }
    proof {
        lemma_first_some_none(primary_marks(files@));
    }
    None
}

/// Whether a version of a project is for the game version `game_version`.
pub fn supports_game_version(version: &ModrinthVersion, game_version: &str) -> (r: bool)
    ensures
        r == version.game_versions.deep_view().contains(game_version@),
{
    let ghost all = version.game_versions.deep_view();
    let mut i: usize = 0;
    while i < version.game_versions.len()
        invariant
            i <= version.game_versions.len(),
            all == version.game_versions.deep_view(),
            forall|k: int| 0 <= k < i ==> all[k] != game_version@,
        decreases version.game_versions.len() - i,
    {
        assert(all[i as int] == version.game_versions@[i as int]@);
        if same_text(version.game_versions[i].as_str(), game_version) {
            return true;
        }
        i += 1;
    }
    false
}

/// The versions of a project that are for the game version `game_version`,
/// in their order.
pub open spec fn fitting_versions(versions: Seq<ModrinthVersion>, game_version: Seq<char>) -> Seq<
    ModrinthVersion,
>
    decreases versions.len(),
{
    if versions.len() == 0 {
        Seq::empty()
    } else {
        let before = fitting_versions(versions.drop_last(), game_version);
        if versions.last().game_versions.deep_view().contains(game_version) {
            before.push(versions.last())
        } else {
            before
        }
    }
}

/// The candidates that the project `hit` offers for the game version
/// `game_version`: one for each of its versions that is for that game
/// version, in their order.
pub fn loader_candidates(
    hit: &ModrinthProjectHit,
    versions: &Vec<ModrinthVersion>,
    game_version: &str,
) -> (out: Vec<LoaderCandidate>)
    ensures
        out@.len() == fitting_versions(versions@, game_version@).len(),
        forall|i: int|
            0 <= i < out@.len() ==> {
                let from = fitting_versions(versions@, game_version@)[i];
                &&& (#[trigger] out@[i]).project_id@ == hit.project_id@
                &&& out@[i].project_title@ == hit.title@
                &&& out@[i].version_id@ == from.id@
                &&& out@[i].version_number@ == from.version_number@
                &&& out@[i].game_versions.deep_view() == from.game_versions.deep_view()
            },
{
    let mut out: Vec<LoaderCandidate> = Vec::new();
    let mut i: usize = 0;
    while i < versions.len()
        invariant
            i <= versions.len(),
            out@.len() == fitting_versions(versions@.take(i as int), game_version@).len(),
            forall|k: int|
                0 <= k < out@.len() ==> {
                    let from = fitting_versions(versions@.take(i as int), game_version@)[k];
                    &&& (#[trigger] out@[k]).project_id@ == hit.project_id@
                    &&& out@[k].project_title@ == hit.title@
                    &&& out@[k].version_id@ == from.id@
                    &&& out@[k].version_number@ == from.version_number@
                    &&& out@[k].game_versions.deep_view() == from.game_versions.deep_view()
                },
        decreases versions.len() - i,
    {
        let v = &versions[i];
        assert(versions@.take(i + 1).drop_last() =~= versions@.take(i as int));
        assert(versions@.take(i + 1).last() == *v);
        if supports_game_version(v, game_version) {
            let mut games: Vec<String> = Vec::new();
            let mut j: usize = 0;
            while j < v.game_versions.len()
                invariant
                    j <= v.game_versions.len(),
                    games@.len() == j,
                    forall|k: int| 0 <= k < j ==> games@[k]@ == v.game_versions@[k]@,
                decreases v.game_versions.len() - j,
            {
                games.push(v.game_versions[j].clone());
                j += 1;
            }
            assert(games.deep_view() =~= v.game_versions.deep_view());
            out.push(
                LoaderCandidate {
                    project_id: hit.project_id.clone(),
                    project_title: hit.title.clone(),
                    version_id: v.id.clone(),
                    version_number: v.version_number.clone(),
                    game_versions: games,
                },
            );
        }
        i += 1;
    }
    assert(versions@.take(i as int) =~= versions@);
    out
}

/// The base version that a pack is for: the one its index names, else the
/// first game version of the registry's record.
pub fn pack_base_version(index: Option<&ModpackIndex>, game_version: &str) -> (r: String)
    ensures
        r@ == match index {
            Some(idx) => match idx.version_id {
                Some(v) => v@,
                None => game_version@,
            },
            None => game_version@,
        },
{
    match index {
        Some(idx) => match &idx.version_id {
            Some(v) => v.clone(),
            None => String::from_str(game_version),
        },
        None => String::from_str(game_version),
    }
}

/// The loader that a pack asks for: where there is an index, the loader
/// that its dependencies stand for; else the plain name of the first loader
/// of the registry's record, without a version.
pub open spec fn pack_loader_of(
    dependencies: Option<Seq<(Seq<char>, Seq<char>)>>,
    loaders: Seq<Seq<char>>,
) -> Option<LoaderInfoView> {
    match dependencies {
        Some(deps) => first_some(loaders_in(deps)),
        None => if loaders.len() > 0 {
            Some(LoaderInfoView { loader_type: normalized_loader(loaders[0]), version: None })
        } else {
            None
        },
    }
}

/// The loader that a pack asks for.
pub fn pack_loader(index: Option<&ModpackIndex>, loaders: &Vec<String>) -> (r: Option<LoaderInfo>)
    ensures
        r.deep_view() == pack_loader_of(
            match index {
                Some(idx) => Some(idx.dependencies.deep_view()),
                None => None,
            },
            loaders.deep_view(),
        ),
{
    match index {
        Some(idx) => match extract_loader_from_dependencies(&idx.dependencies) {
            Ok(found) => found,
            Err(_) => None,
        },
        None => if loaders.len() > 0 {
            assert(loaders.deep_view()[0] == loaders@[0]@);
            Some(
                LoaderInfo {
                    loader_type: normalize_loader_type(loaders[0].as_str()),
                    version: None,
                },
            )
        } else {
            None
        },
    }
}

/// Whether packs for the loader `loader_type` can be installed: all but
/// those for `forge`.
pub fn is_supported_pack_loader(loader_type: &str) -> (r: bool)
    ensures
        r == (loader_type@ != "forge"@),
{
    !same_text(loader_type, "forge")
}

} // verus!
