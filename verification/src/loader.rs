//! Component loaders: where their profiles and catalogs are found, how a
//! catalog is read, and what names a loader goes by.

use vstd::prelude::*;
use vstd::string::StringExecFns;
use crate::choice::{
    first_some, lemma_first_some_at, lemma_first_some_is_candidate, lemma_first_some_none,
    lemma_first_some_push,
};
use crate::instance::{derived_id, derived_version_id};
use crate::layout::{version_json_path, Layout};
use crate::json::{Json, JsonView};
use crate::string_map::StringMap;
use crate::text::{
    contains, has_prefix, has_substring, lowercase, push_string, push_text, replace, replace_char,
    same_text, split, split_on, starts_with, to_lowercase,
};

verus! {

/// A version of a loader that fits an instance.
#[derive(Debug, Clone)]
pub struct LoaderCandidate {
    pub project_id: String,
    pub project_title: String,
    pub version_id: String,
    pub version_number: String,
    pub game_versions: Vec<String>,
}

/// The outcome of putting a loader into an instance.
#[derive(Debug, Clone)]
pub struct LoaderInstalled {
    pub instance_id: String,
    pub project_id: String,
    pub version_id: String,
    pub success: bool,
}

/// A loader that a pack asks for, with the version if it names one.
#[derive(Debug, Clone)]
pub struct LoaderInfo {
    pub loader_type: String,
    pub version: Option<String>,
}

/// The version of a loader as it stands in a URL: every `+` written `%2B`.
pub open spec fn escaped_version(version: Seq<char>) -> Seq<char> {
    replace_char(version, '+', "%2B"@)
}

/// Where the profile of `loader_type` in `version` for the base version
/// `base` is found. Empty for a loader that is neither `fabric` nor `quilt`.
pub open spec fn profile_url_of(loader_type: Seq<char>, base: Seq<char>, version: Seq<char>) -> Seq<
    char,
> {
    if loader_type == "fabric"@ {
        "https://meta.fabricmc.net/v2/versions/loader/"@ + base + "/"@ + escaped_version(version)
            + "/profile/json"@
    } else if loader_type == "quilt"@ {
        "https://meta.quiltmc.org/v3/versions/loader/"@ + base + "/"@ + escaped_version(version)
            + "/profile/json"@
    } else {
        Seq::empty()
    }
}

/// Where the catalog of the versions of `loader_type` for the base version
/// `base` is found, for the loaders that have one.
pub open spec fn catalog_url_of(loader_type: Seq<char>, base: Seq<char>) -> Option<Seq<char>> {
    if loader_type == "fabric"@ {
        Some("https://meta.fabricmc.net/v2/versions/loader/"@ + base)
    } else if loader_type == "quilt"@ {
        Some("https://meta.quiltmc.org/v3/versions/loader/"@ + base)
    } else {
        None
    }
}

/// Where the profile of a loader version is found.
pub fn profile_url(loader_type: &str, base: &str, version: &str) -> (url: String)
    ensures
        url@ == profile_url_of(loader_type@, base@, version@),
{
    let mut url = if same_text(loader_type, "fabric") {
        String::from_str("https://meta.fabricmc.net/v2/versions/loader/")
    } else if same_text(loader_type, "quilt") {
        String::from_str("https://meta.quiltmc.org/v3/versions/loader/")
    } else {
        return String::new();
    };
    let escaped = replace(version, '+', "%2B");
    url.append(base);
    url.append("/");
    url.append(escaped.as_str());
    url.append("/profile/json");
    url
}

/// Where the catalog of a loader's versions is found.
pub fn catalog_url(loader_type: &str, base: &str) -> (url: Option<String>)
    ensures
        url.deep_view() == catalog_url_of(loader_type@, base@),
{
    let mut url = if same_text(loader_type, "fabric") {
        String::from_str("https://meta.fabricmc.net/v2/versions/loader/")
    } else if same_text(loader_type, "quilt") {
        String::from_str("https://meta.quiltmc.org/v3/versions/loader/")
    } else {
        return None;
    };
    url.append(base);
    Some(url)
}

/// What is said of a loader that has no catalog.
pub open spec fn unsupported_loader(loader_type: Seq<char>) -> Seq<char> {
    "Unsupported loader type: "@ + loader_type
}

/// Where the catalog of a loader's versions is asked for, or why it cannot
/// be asked for: only `fabric` and `quilt` have one.
pub fn catalog_request(loader_type: &str, base: &str) -> (r: Result<String, String>)
    ensures
        match r {
            Ok(url) => catalog_url_of(loader_type@, base@) == Some(url@),
            Err(m) => catalog_url_of(loader_type@, base@) is None && m@ == unsupported_loader(
                loader_type@,
            ),
        },
{
    match catalog_url(loader_type, base) {
        Some(url) => Ok(url),
        None => {
            let mut m = String::from_str("Unsupported loader type: ");
            m.append(loader_type);
            Err(m)
        },
    }
}

/// Whether the message of a failed fetch says that the loader has no such
/// version. Only then is the catalog consulted.
pub open spec fn says_version_missing(message: Seq<char>) -> bool {
    has_substring(message, "no loader version found"@) || (has_prefix(message, "HTTP 400"@)
        && has_substring(message, "no loader"@))
}

/// Whether the message of a failed fetch says that the loader has no such
/// version.
pub fn is_missing_version_error(message: &str) -> (r: bool)
    ensures
        r == says_version_missing(message@),
{
    contains(message, "no loader version found") || (starts_with(message, "HTTP 400") && contains(
        message,
        "no loader",
    ))
}

/// Whether a version's name, with its lower-case form `lower`, marks it as
/// a pre-release: the lower-case form holds `beta`, `alpha`, `rc` or
/// `preview`, or the name holds a hyphen.
pub open spec fn marks_prerelease(lower: Seq<char>, name: Seq<char>) -> bool {
    has_substring(lower, "beta"@) || has_substring(lower, "alpha"@) || has_substring(lower, "rc"@)
        || has_substring(lower, "preview"@) || has_substring(name, "-"@)
}

/// Whether a version's name marks it as a pre-release: it holds `beta`,
/// `alpha`, `rc` or `preview` in any case, or a hyphen.
pub open spec fn looks_prerelease(name: Seq<char>) -> bool {
    marks_prerelease(lowercase(name), name)
}

/// Whether a version's name, with its lower-case form `lower`, marks it as
/// a pre-release.
pub fn has_prerelease_mark(lower: &str, name: &str) -> (r: bool)
    ensures
        r == marks_prerelease(lower@, name@),
{
    contains(lower, "beta") || contains(lower, "alpha") || contains(lower, "rc") || contains(
        lower,
        "preview",
    ) || contains(name, "-")
}

/// Whether a version's name marks it as a pre-release.
pub fn is_prerelease_name(name: &str) -> (r: bool)
    ensures
        r == looks_prerelease(name@),
{
    let lower = to_lowercase(name);
    has_prerelease_mark(lower.as_str(), name)
}

/// What a catalog entry says about its stability: the flag `stable` of its
/// member `loader` where that is a boolean, else its own flag `stable`.
pub open spec fn stability_flag(item: JsonView) -> Option<bool> {
    let nested = match item.member("loader"@) {
        Some(loader) => loader.flag_at("stable"@),
        None => None,
    };
    match nested {
        Some(b) => Some(b),
        None => item.flag_at("stable"@),
    }
}

/// What a catalog entry says about its stability.
pub fn entry_stability(item: &Json) -> (r: Option<bool>)
    ensures
        r == stability_flag(item.deep_view()),
{
    let nested = match item.get("loader") {
        Some(loader) => loader.flag_at("stable"),
        None => None,
    };
    match nested {
        Some(b) => Some(b),
        None => item.flag_at("stable"),
    }
}

/// Whether an entry with the name `name` counts as stable: by its flag
/// where it has one, else by its name.
pub open spec fn counts_as_stable(item: JsonView, name: Seq<char>) -> bool {
    match stability_flag(item) {
        Some(stable) => stable,
        None => !looks_prerelease(name),
    }
}

/// Whether an entry with the name `name` counts as stable.
pub fn is_stable_entry(item: &Json, name: &str) -> (r: bool)
    ensures
        r == counts_as_stable(item.deep_view(), name@),
{
    match entry_stability(item) {
        Some(stable) => stable,
        None => !is_prerelease_name(name),
    }
}

/// The version that a catalog entry lists: its `version`, else its `id`,
/// else the `version` of its member `loader`.
pub open spec fn listed_version(item: JsonView) -> Option<Seq<char>> {
    match item.text_at("version"@) {
        Some(v) => Some(v),
        None => match item.text_at("id"@) {
            Some(v) => Some(v),
            None => match item.member("loader"@) {
                Some(loader) => loader.text_at("version"@),
                None => None,
            },
        },
    }
}

/// The version that a catalog entry lists.
pub fn entry_version(item: &Json) -> (r: Option<&str>)
    ensures
        r.deep_view() == listed_version(item.deep_view()),
{
    match item.text_at("version") {
        Some(v) => Some(v),
        None => match item.text_at("id") {
            Some(v) => Some(v),
            None => match item.get("loader") {
                Some(loader) => loader.text_at("version"),
                None => None,
            },
        },
    }
}

/// The stable versions that a catalog lists, in its order.
pub open spec fn listed_stable(items: Seq<JsonView>) -> Seq<Seq<char>>
    decreases items.len(),
{
    if items.len() == 0 {
        Seq::empty()
    } else {
        let before = listed_stable(items.drop_last());
        match listed_version(items.last()) {
            Some(name) => if counts_as_stable(items.last(), name) {
                before.push(name)
            } else {
                before
            },
            None => before,
        }
    }
}

/// The versions that a catalog lists and that are not stable, in its order.
pub open spec fn listed_beta(items: Seq<JsonView>) -> Seq<Seq<char>>
    decreases items.len(),
{
    if items.len() == 0 {
        Seq::empty()
    } else {
        let before = listed_beta(items.drop_last());
        match listed_version(items.last()) {
            Some(name) => if counts_as_stable(items.last(), name) {
                before
            } else {
                before.push(name)
            },
            None => before,
        }
    }
}

/// The versions offered from a catalog: the stable ones, followed by the
/// others where those are asked for; the others alone where nothing is
/// stable.
pub open spec fn offered_versions(items: Seq<JsonView>, include_beta: bool) -> Seq<Seq<char>> {
    if listed_stable(items).len() == 0 {
        listed_beta(items)
    } else if include_beta {
        listed_stable(items) + listed_beta(items)
    } else {
        listed_stable(items)
    }
}

/// What is answered for a catalog that is no array.
pub open spec fn not_a_list() -> Seq<char> {
    "unexpected loader list response"@
}

/// The versions that the catalog `list` offers. The catalog must be an
/// array; entries that list no version are passed over.
pub fn get_loader_versions(list: &Json, include_beta: bool) -> (r: Result<Vec<String>, String>)
    ensures
        match list.deep_view().items() {
            Some(items) => r is Ok && r->Ok_0.deep_view() == offered_versions(items, include_beta),
            None => r is Err && r->Err_0@ == not_a_list(),
        },
{
    let items = match list.as_array() {
        Some(items) => items,
        None => {
            return Err(String::from_str("unexpected loader list response"));
        },
    };
    let ghost all = items.deep_view();
    let mut stable: Vec<String> = Vec::new();
    let mut beta: Vec<String> = Vec::new();
    let mut i: usize = 0;
    assert(stable.deep_view() =~= listed_stable(all.take(0)));
    assert(beta.deep_view() =~= listed_beta(all.take(0)));
    while i < items.len()
        invariant
            i <= items.len(),
            all == items.deep_view(),
            stable.deep_view() == listed_stable(all.take(i as int)),
            beta.deep_view() == listed_beta(all.take(i as int)),
        decreases items.len() - i,
    {
        let item = &items[i];
        assert(all.take(i + 1).drop_last() =~= all.take(i as int));
        assert(all.take(i + 1).last() == item.deep_view());
        if let Some(name) = entry_version(item) {
            if is_stable_entry(item, name) {
                push_string(&mut stable, String::from_str(name));
            } else {
                push_string(&mut beta, String::from_str(name));
            }
        }
        i += 1;
    }
    assert(all.take(i as int) =~= all);
    if stable.len() == 0 {
        Ok(beta)
    } else if include_beta {
        let ghost first = stable.deep_view();
        let ghost second = beta.deep_view();
        stable.append(&mut beta);
        assert(stable.deep_view() =~= first + second);
        Ok(stable)
    } else {
        Ok(stable)
    }
}

/// The part of a requested version before its first `+`.
pub open spec fn request_stem(requested: Seq<char>) -> Seq<char> {
    split_on(requested, '+')[0]
}

/// Whether a catalog name answers a request: it is the requested version,
/// or it begins with the stem of the request.
pub open spec fn answers_request(name: Seq<char>, requested: Seq<char>) -> bool {
    name == requested || has_prefix(name, request_stem(requested))
}

/// The `id` of a catalog entry where it answers the request.
pub open spec fn matching_id(item: JsonView, requested: Seq<char>) -> Option<Seq<char>> {
    match item.text_at("id"@) {
        Some(id) => if answers_request(id, requested) {
            Some(id)
        } else {
            None
        },
        None => None,
    }
}

/// The name under which a catalog entry answers the request: its `version`
/// where that answers, else its `id` where that does.
pub open spec fn matching_name(item: JsonView, requested: Seq<char>) -> Option<Seq<char>> {
    match item.text_at("version"@) {
        Some(v) => if answers_request(v, requested) {
            Some(v)
        } else {
            matching_id(item, requested)
        },
        None => matching_id(item, requested),
    }
}

/// The name of a catalog entry: its `version`, else its `id`.
pub open spec fn catalog_name(item: JsonView) -> Option<Seq<char>> {
    match item.text_at("version"@) {
        Some(v) => Some(v),
        None => item.text_at("id"@),
    }
}

/// The name of a catalog entry that counts as stable.
pub open spec fn stable_name(item: JsonView) -> Option<Seq<char>> {
    match catalog_name(item) {
        Some(name) => if counts_as_stable(item, name) {
            Some(name)
        } else {
            None
        },
        None => None,
    }
}

/// The name of a catalog entry that does not count as stable.
pub open spec fn unstable_name(item: JsonView) -> Option<Seq<char>> {
    match catalog_name(item) {
        Some(name) => if counts_as_stable(item, name) {
            None
        } else {
            Some(name)
        },
        None => None,
    }
}

/// For each entry, the name under which it answers the request.
pub open spec fn matches_in(items: Seq<JsonView>, requested: Seq<char>) -> Seq<Option<Seq<char>>> {
    Seq::new(items.len(), |i: int| matching_name(items[i], requested))
}

/// For each entry, its name if it counts as stable.
pub open spec fn stable_in(items: Seq<JsonView>) -> Seq<Option<Seq<char>>> {
    Seq::new(items.len(), |i: int| stable_name(items[i]))
}

/// For each entry, its name if it does not count as stable.
pub open spec fn unstable_in(items: Seq<JsonView>) -> Seq<Option<Seq<char>>> {
    Seq::new(items.len(), |i: int| unstable_name(items[i]))
}

/// The version taken from a catalog in place of a requested one that the
/// loader does not have: the first entry that answers the request; failing
/// that the first stable entry; failing that the first entry of any kind.
pub open spec fn catalog_choice(items: Seq<JsonView>, requested: Seq<char>) -> Option<Seq<char>> {
    match first_some(matches_in(items, requested)) {
        Some(v) => Some(v),
        None => match first_some(stable_in(items)) {
            Some(v) => Some(v),
            None => first_some(unstable_in(items)),
        },
    }
}

/// The choice from a catalog document, which offers nothing unless it is
/// an array.
pub open spec fn fallback_version(list: JsonView, requested: Seq<char>) -> Option<Seq<char>> {
    match list.items() {
        Some(items) => catalog_choice(items, requested),
        None => None,
    }
}

/// Where no entry of a catalog answers the request, the first stable entry
/// is taken, whatever stands before it.
pub proof fn lemma_first_stable_is_preferred(items: Seq<JsonView>, requested: Seq<char>, at: int)
    requires
        0 <= at < items.len(),
        forall|k: int| 0 <= k < items.len() ==> matching_name(items[k], requested) is None,
        stable_name(items[at]) is Some,
        forall|k: int| 0 <= k < at ==> stable_name(items[k]) is None,
    ensures
        catalog_choice(items, requested) == stable_name(items[at]),
{
    lemma_first_some_none(matches_in(items, requested));
    lemma_first_some_at(stable_in(items), at);
}

/// Whatever is chosen from a catalog is the name of one of its entries.
pub proof fn lemma_choice_is_listed(items: Seq<JsonView>, requested: Seq<char>)
    requires
        catalog_choice(items, requested) is Some,
    ensures
        exists|at: int|
            0 <= at < items.len() && (items[at].text_at("version"@) == catalog_choice(
                items,
                requested,
            ) || items[at].text_at("id"@) == catalog_choice(items, requested)),
{
    let choice = catalog_choice(items, requested);
    lemma_first_some_is_candidate(matches_in(items, requested));
    lemma_first_some_is_candidate(stable_in(items));
    lemma_first_some_is_candidate(unstable_in(items));
    if first_some(matches_in(items, requested)) is Some {
        let at = choose|at: int|
            0 <= at < items.len() && matches_in(items, requested)[at] == first_some(
                matches_in(items, requested),
            );
        assert(matching_name(items[at], requested) == choice);
    } else if first_some(stable_in(items)) is Some {
        let at = choose|at: int|
            0 <= at < items.len() && stable_in(items)[at] == first_some(stable_in(items));
        assert(stable_name(items[at]) == choice);
    } else {
        let at = choose|at: int|
            0 <= at < items.len() && unstable_in(items)[at] == first_some(unstable_in(items));
        assert(unstable_name(items[at]) == choice);
    }
}

/// A catalog without entries offers no choice.
pub proof fn lemma_empty_catalog_offers_nothing(requested: Seq<char>)
    ensures
        catalog_choice(Seq::<JsonView>::empty(), requested) is None,
{
    assert(matches_in(Seq::<JsonView>::empty(), requested) =~= Seq::empty());
    assert(stable_in(Seq::<JsonView>::empty()) =~= Seq::empty());
    assert(unstable_in(Seq::<JsonView>::empty()) =~= Seq::empty());
}

/// A name that holds the stem of the request further back does not answer
/// it: only the requested version itself and names that begin with the
/// stem do.
pub proof fn lemma_match_is_exact_or_prefix(name: Seq<char>, requested: Seq<char>)
    ensures
        answers_request(name, requested) <==> (name == requested || (request_stem(
            requested,
        ).len() <= name.len() && name.take(request_stem(requested).len() as int)
            == request_stem(requested))),
{
    let stem = request_stem(requested);
    if stem.len() <= name.len() {
        assert(name.take(stem.len() as int) =~= name.subrange(0, 0 + stem.len() as int));
    }
}

fn answers(name: &str, requested: &str, stem: &str) -> (r: bool)
    requires
        stem@ == request_stem(requested@),
    ensures
        r == answers_request(name@, requested@),
{
    same_text(name, requested) || starts_with(name, stem)
}

fn entry_match<'a>(item: &'a Json, requested: &str, stem: &str) -> (r: Option<&'a str>)
    requires
        stem@ == request_stem(requested@),
    ensures
        r.deep_view() == matching_name(item.deep_view(), requested@),
{
    if let Some(v) = item.text_at("version") {
        if answers(v, requested, stem) {
            return Some(v);
        }
    }
    if let Some(id) = item.text_at("id") {
        if answers(id, requested, stem) {
            return Some(id);
        }
    }
    None
}

fn entry_name(item: &Json) -> (r: Option<&str>)
    ensures
        r.deep_view() == catalog_name(item.deep_view()),
{
    match item.text_at("version") {
        Some(v) => Some(v),
        None => item.text_at("id"),
    }
}

/// The version to take from the catalog `list` in place of `requested`.
#[verifier::loop_isolation(false)]
pub fn resolve_from_catalog(list: &Json, requested: &str) -> (r: Option<String>)
    ensures
        r.deep_view() == fallback_version(list.deep_view(), requested@),
{
    let items = match list.as_array() {
        Some(items) => items,
        None => {
            return None;
        },
    };
    let pieces = split(requested, '+');
    let stem = pieces[0].as_str();
    let ghost all = items.deep_view();
    let mut first_stable: Option<&str> = None;
    let mut first_other: Option<&str> = None;
    let mut i: usize = 0;
    assert(stable_in(all).take(0) =~= Seq::empty());
    assert(unstable_in(all).take(0) =~= Seq::empty());
    while i < items.len()
        invariant
            i <= items.len(),
            all == items.deep_view(),
            stem@ == request_stem(requested@),
            forall|k: int| 0 <= k < i ==> matches_in(all, requested@)[k] is None,
            first_stable.deep_view() == first_some(stable_in(all).take(i as int)),
            first_other.deep_view() == first_some(unstable_in(all).take(i as int)),
        decreases items.len() - i,
    {
        let item = &items[i];
        assert(all[i as int] == item.deep_view());
        if let Some(found) = entry_match(item, requested, stem) {
            proof {
                lemma_first_some_at(matches_in(all, requested@), i as int);
            }
            return Some(String::from_str(found));
        }
        proof {
            assert(stable_in(all).take(i + 1) =~= stable_in(all).take(i as int).push(
                stable_name(all[i as int]),
            ));
            assert(unstable_in(all).take(i + 1) =~= unstable_in(all).take(i as int).push(
                unstable_name(all[i as int]),
            ));
            lemma_first_some_push(stable_in(all).take(i as int), stable_name(all[i as int]));
            lemma_first_some_push(unstable_in(all).take(i as int), unstable_name(all[i as int]));
        }
        if let Some(name) = entry_name(item) {
            if is_stable_entry(item, name) {
                if first_stable.is_none() {
                    first_stable = Some(name);
                }
            } else {
                if first_other.is_none() {
                    first_other = Some(name);
                }
            }
        }
        i += 1;
    }
    proof {
        lemma_first_some_none(matches_in(all, requested@));
        assert(stable_in(all).take(i as int) =~= stable_in(all));
        assert(unstable_in(all).take(i as int) =~= unstable_in(all));
    }
    match first_stable {
        Some(v) => Some(String::from_str(v)),
        None => match first_other {
            Some(v) => Some(String::from_str(v)),
            None => None,
        },
    }
}

/// The place of an artifact below a repository, from its coordinates
/// `group:artifact:version`: the group with `/` for every `.`, the
/// artifact, the version, and the file `artifact-version.jar`. Nothing for
/// coordinates that do not have exactly three parts.
pub open spec fn maven_path(coords: Seq<char>) -> Option<Seq<char>> {
    let parts = split_on(coords, ':');
    if parts.len() != 3 {
        None
    } else {
        Some(
            replace_char(parts[0], '.', "/"@) + "/"@ + parts[1] + "/"@ + parts[2] + "/"@ + parts[1]
                + "-"@ + parts[2] + ".jar"@,
        )
    }
}

/// The place of an artifact below a repository, from its coordinates.
pub fn maven_coords_to_path(coords: &str) -> (r: Option<String>)
    ensures
        r.deep_view() == maven_path(coords@),
{
    let parts = split(coords, ':');
    if parts.len() != 3 {
        return None;
    }
    assert(parts.deep_view()[0] == parts@[0]@);
    assert(parts.deep_view()[1] == parts@[1]@);
    assert(parts.deep_view()[2] == parts@[2]@);
    let mut path = replace(parts[0].as_str(), '.', "/");
    path.append("/");
    path.append(parts[1].as_str());
    path.append("/");
    path.append(parts[2].as_str());
    path.append("/");
    path.append(parts[1].as_str());
    path.append("-");
    path.append(parts[2].as_str());
    path.append(".jar");
    Some(path)
}

/// The plain name of the loader `loader` whose lower-case form is `lower`:
/// `fabric`, `quilt` or `forge` where the lower-case form holds one of
/// these (`neoforge` counts as `forge`), else the name as it is.
pub open spec fn plain_loader(lower: Seq<char>, loader: Seq<char>) -> Seq<char> {
    if has_substring(lower, "fabric"@) {
        "fabric"@
    } else if has_substring(lower, "quilt"@) {
        "quilt"@
    } else if has_substring(lower, "forge"@) || has_substring(lower, "neoforge"@) {
        "forge"@
    } else {
        loader
    }
}

/// The plain name of a loader: `fabric`, `quilt` or `forge` where the name
/// holds one of these in any case (`neoforge` counts as `forge`), else the
/// name as it is.
pub open spec fn normalized_loader(loader: Seq<char>) -> Seq<char> {
    plain_loader(lowercase(loader), loader)
}

/// The plain name of the loader `loader` whose lower-case form is `lower`.
pub fn plain_loader_name(lower: &str, loader: &str) -> (r: String)
    ensures
        r@ == plain_loader(lower@, loader@),
{
    if contains(lower, "fabric") {
        String::from_str("fabric")
    } else if contains(lower, "quilt") {
        String::from_str("quilt")
    } else if contains(lower, "forge") || contains(lower, "neoforge") {
        String::from_str("forge")
    } else {
        String::from_str(loader)
    }
}

/// The plain name of a loader.
pub fn normalize_loader_type(loader: &str) -> (r: String)
    ensures
        r@ == normalized_loader(loader@),
{
    let lower = to_lowercase(loader);
    plain_loader_name(lower.as_str(), loader)
}

/// What a `LoaderInfo` holds, as plain values.
pub struct LoaderInfoView {
    pub loader_type: Seq<char>,
    pub version: Option<Seq<char>>,
}

impl DeepView for LoaderInfo {
    type V = LoaderInfoView;

    open spec fn deep_view(&self) -> LoaderInfoView {
        LoaderInfoView { loader_type: self.loader_type@, version: self.version.deep_view() }
    }
}

/// The loader that a dependency with the lower-case name `lower` stands
/// for, if it stands for one.
pub open spec fn loader_named(lower: Seq<char>, version: Seq<char>) -> Option<LoaderInfoView> {
    if has_substring(lower, "fabric-loader"@) || lower == "fabric"@ {
        Some(LoaderInfoView { loader_type: "fabric"@, version: Some(version) })
    } else if has_substring(lower, "quilt-loader"@) || lower == "quilt"@ {
        Some(LoaderInfoView { loader_type: "quilt"@, version: Some(version) })
    } else if has_substring(lower, "forge"@) || has_substring(lower, "neoforge"@) {
        Some(LoaderInfoView { loader_type: "forge"@, version: Some(version) })
    } else {
        None
    }
}

/// The loader that one dependency of a pack stands for, if it stands for
/// one: by the dependency's name in lower case.
pub open spec fn loader_of_dependency(key: Seq<char>, version: Seq<char>) -> Option<LoaderInfoView> {
    loader_named(lowercase(key), version)
}

/// For each dependency, the loader it stands for.
pub open spec fn loaders_in(dependencies: Seq<(Seq<char>, Seq<char>)>) -> Seq<
    Option<LoaderInfoView>,
> {
    Seq::new(
        dependencies.len(),
        |i: int| loader_of_dependency(dependencies[i].0, dependencies[i].1),
    )
}

/// The loader that a dependency with the lower-case name `lower` stands
/// for, if it stands for one.
pub fn loader_for_dependency(lower: &str, version: &str) -> (r: Option<LoaderInfo>)
    ensures
        r.deep_view() == loader_named(lower@, version@),
{
    let name = if contains(lower, "fabric-loader") || same_text(lower, "fabric") {
        "fabric"
    } else if contains(lower, "quilt-loader") || same_text(lower, "quilt") {
        "quilt"
    } else if contains(lower, "forge") || contains(lower, "neoforge") {
        "forge"
    } else {
        return None;
    };
    Some(LoaderInfo { loader_type: String::from_str(name), version: Some(String::from_str(version)) })
}

fn dependency_loader(key: &str, version: &str) -> (r: Option<LoaderInfo>)
    ensures
        r.deep_view() == loader_of_dependency(key@, version@),
{
    let lower = to_lowercase(key);
    loader_for_dependency(lower.as_str(), version)
}

/// The loader that a pack asks for: the first of its dependencies, in their
/// order, that stands for one. Never fails.
pub fn extract_loader_from_dependencies(dependencies: &StringMap<String>) -> (r: Result<
    Option<LoaderInfo>,
    String,
>)
    ensures
        r is Ok,
        r->Ok_0.deep_view() == first_some(loaders_in(dependencies.deep_view())),
{
    let n = dependencies.len();
    let ghost all = dependencies.deep_view();
    let mut i: usize = 0;
    while i < n
        invariant
            i <= n,
            n == dependencies.pairs().len(),
            all == dependencies.deep_view(),
            forall|k: int| 0 <= k < i ==> loaders_in(all)[k] is None,
        decreases n - i,
    {
        let found = dependency_loader(
            dependencies.key_at(i).as_str(),
            dependencies.value_at(i).as_str(),
        );
        assert(all[i as int] == (dependencies.pairs()[i as int].0, dependencies.pairs()[i as int].1@));
        if found.is_some() {
            proof {
                lemma_first_some_at(loaders_in(all), i as int);
            }
            return Ok(found);
        }
        i += 1;
    }
    proof {
        lemma_first_some_none(loaders_in(all));
    }
    Ok(None)
}

/// For each offered version, itself if it begins with or holds the request.
pub open spec fn close_matches(versions: Seq<Seq<char>>, requested: Seq<char>) -> Seq<
    Option<Seq<char>>,
> {
    Seq::new(
        versions.len(),
        |i: int|
            if has_prefix(versions[i], requested) || has_substring(versions[i], requested) {
                Some(versions[i])
            } else {
                None
            },
    )
}

/// The version to install out of the offered ones: nothing where nothing is
/// offered; the first offered where nothing is requested; the requested one
/// where it is offered; else the first offered one that begins with or
/// holds the request; else the first offered.
pub open spec fn target_version(versions: Seq<Seq<char>>, requested: Option<Seq<char>>) -> Option<
    Seq<char>,
> {
    if versions.len() == 0 {
        None
    } else {
        match requested {
            None => Some(versions[0]),
            Some(wanted) => if versions.contains(wanted) {
                Some(wanted)
            } else {
                match first_some(close_matches(versions, wanted)) {
                    Some(v) => Some(v),
                    None => Some(versions[0]),
                }
            },
        }
    }
}

/// The version to install out of the offered ones.
#[verifier::loop_isolation(false)]
pub fn choose_target_version(versions: &Vec<String>, requested: Option<&str>) -> (r: Option<String>)
    ensures
        r.deep_view() == target_version(versions.deep_view(), requested.deep_view()),
{
    if versions.len() == 0 {
        return None;
    }
    let ghost all = versions.deep_view();
    assert(all[0] == versions@[0]@);
    let wanted = match requested {
        Some(wanted) => wanted,
        None => {
            return Some(versions[0].clone());
        },
    };
    let mut i: usize = 0;
    while i < versions.len()
        invariant
            i <= versions.len(),
            all == versions.deep_view(),
            forall|k: int| 0 <= k < i ==> all[k] != wanted@,
        decreases versions.len() - i,
    {
        assert(all[i as int] == versions@[i as int]@);
        if same_text(versions[i].as_str(), wanted) {
            assert(all.contains(wanted@));
            return Some(String::from_str(wanted));
        }
        i += 1;
    }
    assert(!all.contains(wanted@));
    let mut j: usize = 0;
    while j < versions.len()
        invariant
            j <= versions.len(),
            all == versions.deep_view(),
            forall|k: int| 0 <= k < j ==> close_matches(all, wanted@)[k] is None,
        decreases versions.len() - j,
    {
        assert(all[j as int] == versions@[j as int]@);
        let v = versions[j].as_str();
        if starts_with(v, wanted) || contains(v, wanted) {
            proof {
                lemma_first_some_at(close_matches(all, wanted@), j as int);
            }
            return Some(versions[j].clone());
        }
        j += 1;
    }
    proof {
        lemma_first_some_none(close_matches(all, wanted@));
    }
    Some(versions[0].clone())
}

/// The ids under which a Fabric loader may have been installed: the derived
/// id, and two older forms.
pub open spec fn fabric_ids(base: Seq<char>, loader_version: Seq<char>) -> Seq<Seq<char>> {
    seq![
        derived_id("fabric"@, loader_version, base),
        "fabric-"@ + base + "-"@ + loader_version,
        "fabric-loader-"@ + base + "-"@ + loader_version,
    ]
}

/// The descriptions whose presence shows that the Fabric loader
/// `loader_version` is installed for the base version `base`. One of them
/// is enough.
pub fn fabric_descriptor_paths(layout: &Layout, base: &str, loader_version: &str) -> (paths: Vec<
    String,
>)
    ensures
        paths.deep_view() == Seq::new(
            3,
            |i: int|
                version_json_path(
                    layout.root@,
                    layout.separator@,
                    fabric_ids(base@, loader_version@)[i],
                ),
        ),
{
    let first = derived_version_id("fabric", loader_version, base);
    let mut second = String::from_str("fabric-");
    second.append(base);
    second.append("-");
    second.append(loader_version);
    let mut third = String::from_str("fabric-loader-");
    third.append(base);
    third.append("-");
    third.append(loader_version);
    let mut paths: Vec<String> = Vec::new();
    assert(paths.deep_view() =~= Seq::<Seq<char>>::empty());
    push_string(&mut paths, layout.version_json_path(first.as_str()));
    push_string(&mut paths, layout.version_json_path(second.as_str()));
    push_string(&mut paths, layout.version_json_path(third.as_str()));
    assert(paths.deep_view() =~= Seq::new(
        3,
        |i: int|
            version_json_path(
                layout.root@,
                layout.separator@,
                fabric_ids(base@, loader_version@)[i],
            ),
    ));
    paths
}

/// Whether a version directory shows that the loader of a project is
/// installed, by the lower-case forms `p` of the project and `n` of the
/// directory's name.
pub open spec fn dir_shows(p: Seq<char>, n: Seq<char>) -> bool {
    (has_substring(p, "fabric"@) && (has_substring(n, "fabric-loader"@) || has_substring(
        n,
        "fabric"@,
    ))) || (has_substring(p, "quilt"@) && (has_substring(n, "quilt-loader"@) || has_substring(
        n,
        "quilt"@,
    ))) || (has_substring(p, "forge"@) && has_substring(n, "forge"@))
}

/// Whether the name of a version directory shows that the loader of the
/// project `project` is installed. Both are compared in lower case.
pub open spec fn version_dir_shows(project: Seq<char>, name: Seq<char>) -> bool {
    dir_shows(lowercase(project), lowercase(name))
}

/// Whether a file below the libraries directory shows that the loader of a
/// project is installed, by the lower-case forms `p` of the project and
/// `n` of the file's name.
pub open spec fn file_shows(p: Seq<char>, n: Seq<char>) -> bool {
    (has_substring(p, "fabric"@) && (has_substring(n, "fabric-loader"@) || has_substring(
        n,
        "fabric-api"@,
    ))) || (has_substring(p, "quilt"@) && (has_substring(n, "quilt-loader"@) || has_substring(
        n,
        "quilt"@,
    ))) || (has_substring(p, "forge"@) && has_substring(n, "forge"@))
}

/// Whether the name of a file below the libraries directory shows that the
/// loader of the project `project` is installed.
pub open spec fn library_file_shows(project: Seq<char>, name: Seq<char>) -> bool {
    file_shows(lowercase(project), lowercase(name))
}

/// Whether a version directory shows the loader of a project, by the
/// lower-case forms `p` of the project and `n` of the directory's name.
pub fn lowered_dir_indicates(p: &str, n: &str) -> (r: bool)
    ensures
        r == dir_shows(p@, n@),
{
    (contains(p, "fabric") && (contains(n, "fabric-loader") || contains(n, "fabric"))) || (contains(
        p,
        "quilt",
    ) && (contains(n, "quilt-loader") || contains(n, "quilt"))) || (contains(p, "forge")
        && contains(n, "forge"))
}

/// Whether a library file shows the loader of a project, by the lower-case
/// forms `p` of the project and `n` of the file's name.
pub fn lowered_file_indicates(p: &str, n: &str) -> (r: bool)
    ensures
        r == file_shows(p@, n@),
{
    (contains(p, "fabric") && (contains(n, "fabric-loader") || contains(n, "fabric-api"))) || (
    contains(p, "quilt") && (contains(n, "quilt-loader") || contains(n, "quilt"))) || (contains(
        p,
        "forge",
    ) && contains(n, "forge"))
}

/// Whether the name of a version directory shows the loader of `project`.
pub fn version_dir_indicates(project: &str, name: &str) -> (r: bool)
    ensures
        r == version_dir_shows(project@, name@),
{
    let p = to_lowercase(project);
    let n = to_lowercase(name);
    lowered_dir_indicates(p.as_str(), n.as_str())
}

/// Whether the name of a library file shows the loader of `project`.
pub fn library_file_indicates(project: &str, name: &str) -> (r: bool)
    ensures
        r == library_file_shows(project@, name@),
{
    let p = to_lowercase(project);
    let n = to_lowercase(name);
    lowered_file_indicates(p.as_str(), n.as_str())
}

/// Whether an installation shows the loader of the project `project`: by
/// the name of one of its version directories, or by the name of one of the
/// files below its libraries directory.
pub fn loader_verification(project: &str, version_dirs: &Vec<String>, library_files: &Vec<String>) -> (r:
    bool)
    ensures
        r == ((exists|i: int|
            0 <= i < version_dirs@.len() && version_dir_shows(project@, version_dirs@[i]@)) || (
        exists|i: int|
            0 <= i < library_files@.len() && library_file_shows(project@, library_files@[i]@))),
{
    let mut i: usize = 0;
    while i < version_dirs.len()
        invariant
            i <= version_dirs.len(),
            forall|k: int| 0 <= k < i ==> !version_dir_shows(project@, version_dirs@[k]@),
        decreases version_dirs.len() - i,
    {
        if version_dir_indicates(project, version_dirs[i].as_str()) {
            return true;
        }
        i += 1;
    }
    let mut j: usize = 0;
    while j < library_files.len()
        invariant
            j <= library_files.len(),
            forall|k: int|
                0 <= k < version_dirs@.len() ==> !version_dir_shows(project@, version_dirs@[k]@),
            forall|k: int| 0 <= k < j ==> !library_file_shows(project@, library_files@[k]@),
        decreases library_files.len() - j,
    {
        if library_file_indicates(project, library_files[j].as_str()) {
            return true;
        }
        j += 1;
    }
    false
}

/// Whether a file's name marks it as a loader's installer: it holds
/// `installer` in any case.
pub fn is_installer_name(name: &str) -> (r: bool)
    ensures
        r == has_substring(lowercase(name@), "installer"@),
{
    let lower = to_lowercase(name);
    contains(lower.as_str(), "installer")
}

/// The arguments that run a loader's installer without questions, after
/// the runtime's name.
pub open spec fn installer_arguments_of(
    installer: Seq<char>,
    game_dir: Seq<char>,
    base: Seq<char>,
    loader_version: Seq<char>,
) -> Seq<Seq<char>> {
    seq![
        "-jar"@,
        installer,
        "client"@,
        "-dir"@,
        game_dir,
        "-mcversion"@,
        base,
        "-loader"@,
        loader_version,
        "-y"@,
    ]
}

/// The arguments that run a loader's installer without questions.
pub fn installer_arguments(installer: &str, game_dir: &str, base: &str, loader_version: &str) -> (args:
    Vec<String>)
    ensures
        args.deep_view() == installer_arguments_of(installer@, game_dir@, base@, loader_version@),
{
    let mut args: Vec<String> = Vec::new();
    assert(args.deep_view() =~= Seq::<Seq<char>>::empty());
    push_text(&mut args, "-jar");
    push_text(&mut args, installer);
    push_text(&mut args, "client");
    push_text(&mut args, "-dir");
    push_text(&mut args, game_dir);
    push_text(&mut args, "-mcversion");
    push_text(&mut args, base);
    push_text(&mut args, "-loader");
    push_text(&mut args, loader_version);
    push_text(&mut args, "-y");
    assert(args.deep_view() =~= installer_arguments_of(
        installer@,
        game_dir@,
        base@,
        loader_version@,
    ));
    args
}

/// The loader that a downloaded loader version belongs to: the plain name
/// of the first loader it names, else the project it came from.
pub fn downloaded_loader_type(loaders: &Vec<String>, project_id: &str) -> (r: String)
    ensures
        r@ == if loaders@.len() > 0 {
            normalized_loader(loaders@[0]@)
        } else {
            project_id@
        },
{
    if loaders.len() > 0 {
        normalize_loader_type(loaders[0].as_str())
    } else {
        String::from_str(project_id)
    }
}

/// The loader whose installation is checked after a downloaded loader
/// version was put in: `fabric` or `quilt` where the first loader it names
/// holds one of these in any case, else that name as it is; the project it
/// came from where it names none.
pub fn verified_loader_type(loaders: &Vec<String>, project_id: &str) -> (r: String)
    ensures
        r@ == if loaders@.len() > 0 {
            checked_loader(lowercase(loaders@[0]@), loaders@[0]@)
        } else {
            project_id@
        },
{
    if loaders.len() > 0 {
        let lower = to_lowercase(loaders[0].as_str());
        checked_loader_name(lower.as_str(), loaders[0].as_str())
    } else {
        String::from_str(project_id)
    }
}

/// The name under which the installation of the loader `loader` is
/// checked, given its lower-case form `lower`: `fabric` or `quilt` where the
/// lower-case form holds one of these, else the name as it is.
pub open spec fn checked_loader(lower: Seq<char>, loader: Seq<char>) -> Seq<char> {
    if has_substring(lower, "fabric"@) {
        "fabric"@
    } else if has_substring(lower, "quilt"@) {
        "quilt"@
    } else {
        loader
    }
}

/// The name under which the installation of the loader `loader` is
/// checked, given its lower-case form `lower`.
pub fn checked_loader_name(lower: &str, loader: &str) -> (r: String)
    ensures
        r@ == checked_loader(lower@, loader@),
{
    if contains(lower, "fabric") {
        String::from_str("fabric")
    } else if contains(lower, "quilt") {
        String::from_str("quilt")
    } else {
        String::from_str(loader)
    }
}

/// For each offered version at or after `from`, its position if it is not
/// the version `installed`.
pub open spec fn alternative_marks(versions: Seq<Seq<char>>, installed: Seq<char>, from: int) -> Seq<
    Option<int>,
> {
    Seq::new(
        versions.len(),
        |i: int|
            if from <= i && versions[i] != installed {
                Some(i)
            } else {
                None
            },
    )
}

/// The position of the next version to try after an installation that
/// could not be confirmed: the first at or after `from` that is not the
/// version `installed`.
pub open spec fn alternative_at(versions: Seq<Seq<char>>, installed: Seq<char>, from: int) -> Option<
    int,
> {
    first_some(alternative_marks(versions, installed, from))
}

/// The position of the next version to try after an installation that
/// could not be confirmed.
#[verifier::loop_isolation(false)]
pub fn next_alternative(versions: &Vec<String>, installed: &str, from: usize) -> (r: Option<usize>)
    ensures
        match r {
            Some(i) => alternative_at(versions.deep_view(), installed@, from as int) == Some(
                i as int,
            ) && from <= i < versions@.len(),
            None => alternative_at(versions.deep_view(), installed@, from as int) is None,
        },
{
    let ghost marks = alternative_marks(versions.deep_view(), installed@, from as int);
    let mut i: usize = 0;
    while i < versions.len()
        invariant
            i <= versions.len(),
            forall|k: int| 0 <= k < i ==> marks[k] is None,
        decreases versions.len() - i,
    {
        assert(versions.deep_view()[i as int] == versions@[i as int]@);
        if i >= from && !same_text(versions[i].as_str(), installed) {
            proof {
                lemma_first_some_at(marks, i as int);
            }
            return Some(i);
        }
        i += 1;
    }
    proof {
        lemma_first_some_none(marks);
    }
    None
}

} // verus!
