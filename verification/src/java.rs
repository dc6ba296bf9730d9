//! The language runtime that a version needs, and how one is told from
//! what it prints.

use vstd::prelude::*;
use vstd::string::StringExecFns;
use crate::decimal::{decimal, decimal_string, parse_u32, parse_u32_text};
use crate::instance::{Instance, InstanceView};
use crate::settings::{Settings, SettingsView};
use crate::text::{
    contains, has_substring, lines, lines_of, nonempty_parts, push_string, split, split_on,
    split_whitespace, trim, trim_matches, trimmed, trimmed_of, words,
};

verus! {

/// The numbers of a version `major.minor` or `major.minor.patch`: the first
/// two parts must be numbers; a third part that is none counts as zero, and
/// so does a missing one; further parts are not looked at.
pub open spec fn version_numbers(version: Seq<char>) -> Option<(u32, u32, u32)> {
    let parts = split_on(version, '.');
    if parts.len() < 2 {
        None
    } else {
        match (parse_u32_text(parts[0]), parse_u32_text(parts[1])) {
            (Some(major), Some(minor)) => Some(
                (
                    major,
                    minor,
                    if parts.len() > 2 {
                        match parse_u32_text(parts[2]) {
                            Some(patch) => patch,
                            None => 0,
                        }
                    } else {
                        0
                    },
                ),
            ),
            _ => None,
        }
    }
}

/// Whether the version `v` is `major.minor.0` or later.
pub open spec fn at_least(v: (u32, u32, u32), major: u32, minor: u32) -> bool {
    v.0 > major || (v.0 == major && v.1 >= minor)
}

/// The runtime that a version needs: 17 from version 1.18 on, 16 for
/// version 1.17, and 8 for every other version and for whatever cannot be
/// read as a version.
pub open spec fn required_java(version: Seq<char>) -> u8 {
    match version_numbers(version) {
        Some(v) => if at_least(v, 1, 18) {
            17
        } else if at_least(v, 1, 17) {
            16
        } else {
            8
        },
        None => 8,
    }
}

/// The numbers of a version.
pub fn parse_version(version: &str) -> (r: Option<(u32, u32, u32)>)
    ensures
        r == version_numbers(version@),
{
    let parts = split(version, '.');
    if parts.len() < 2 {
        return None;
    }
    assert(parts.deep_view()[0] == parts@[0]@);
    assert(parts.deep_view()[1] == parts@[1]@);
    let major = match parse_u32(parts[0].as_str()) {
        Some(n) => n,
        None => {
            return None;
        },
    };
    let minor = match parse_u32(parts[1].as_str()) {
        Some(n) => n,
        None => {
            return None;
        },
    };
    let patch: u32 = if parts.len() > 2 {
        assert(parts.deep_view()[2] == parts@[2]@);
        match parse_u32(parts[2].as_str()) {
            Some(n) => n,
            None => 0,
        }
    } else {
        0
    };
    Some((major, minor, patch))
}

/// The runtime that the version `mc_version` needs.
pub fn get_required_java_version(mc_version: &str) -> (r: u8)
    ensures
        r == required_java(mc_version@),
{
    match parse_version(mc_version) {
        Some(v) => if v.0 > 1 || (v.0 == 1 && v.1 >= 18) {
            17
        } else if v.0 > 1 || (v.0 == 1 && v.1 >= 17) {
            16
        } else {
            8
        },
        None => 8,
    }
}

/// The runtime is 17 for everything from 1.18 on, whatever the patch.
pub proof fn lemma_modern_versions_need_17(version: Seq<char>)
    requires
        version_numbers(version) matches Some(v) && at_least(v, 1, 18),
    ensures
        required_java(version) == 17,
{
}

/// What a text stands for as a `u8`: as for a `u32`, but at most 255.
pub open spec fn parse_u8_text(s: Seq<char>) -> Option<u8> {
    match parse_u32_text(s) {
        Some(n) => if n <= u8::MAX {
            Some(n as u8)
        } else {
            None
        },
        None => None,
    }
}

fn parse_u8(s: &str) -> (r: Option<u8>)
    ensures
        r == parse_u8_text(s@),
{
    match parse_u32(s) {
        Some(n) => if n <= 255 {
            Some(n as u8)
        } else {
            None
        },
        None => None,
    }
}

/// The major version in a version number as runtimes print it: the second
/// part where the first is `1`, as in `1.8.0_311`, else the first, as in
/// `17.0.1`.
pub open spec fn major_of(number: Seq<char>) -> Option<u8> {
    let parts = split_on(number, '.');
    if parts[0] == "1"@ && parts.len() > 1 {
        parse_u8_text(parts[1])
    } else {
        parse_u8_text(parts[0])
    }
}

/// The major version that a runtime reports when asked for its version:
/// the third word of the first line it prints, without quotes, holds the
/// version number.
pub open spec fn reported_major(output: Seq<char>) -> Option<u8> {
    let all = lines_of(output);
    if all.len() == 0 {
        None
    } else {
        let the_words = words(all[0]);
        if the_words.len() < 3 {
            None
        } else {
            major_of(trimmed_of(the_words[2], '"'))
        }
    }
}

/// The major version that a runtime reports in `output`, which is what it
/// prints when asked for its version.
pub fn java_major_version(output: &str) -> (r: Option<u8>)
    ensures
        r == reported_major(output@),
{
    let all = lines(output);
    if all.len() == 0 {
        return None;
    }
    assert(all.deep_view()[0] == all@[0]@);
    let the_words = split_whitespace(all[0].as_str());
    if the_words.len() < 3 {
        return None;
    }
    assert(the_words.deep_view()[2] == the_words@[2]@);
    let number = trim_matches(the_words[2].as_str(), '"');
    let parts = split(number.as_str(), '.');
    assert(parts.deep_view()[0] == parts@[0]@);
    if crate::text::same_text(parts[0].as_str(), "1") && parts.len() > 1 {
        assert(parts.deep_view()[1] == parts@[1]@);
        parse_u8(parts[1].as_str())
    } else {
        parse_u8(parts[0].as_str())
    }
}

/// Where a runtime of the major version `version` is looked for first.
pub open spec fn standard_java_paths(version: u8) -> Seq<Seq<char>> {
    let v = decimal(version as nat);
    seq![
        "C:\\Program Files\\Java\\jdk-"@ + v + "\\bin\\java.exe"@,
        "C:\\Program Files\\Java\\jre-"@ + v + "\\bin\\java.exe"@,
        "C:\\Program Files (x86)\\Java\\jdk-"@ + v + "\\bin\\java.exe"@,
        "C:\\Program Files (x86)\\Java\\jre-"@ + v + "\\bin\\java.exe"@,
    ]
}

/// The trimmed lines.
pub open spec fn trimmed_lines(all: Seq<Seq<char>>) -> Seq<Seq<char>> {
    Seq::new(all.len(), |i: int| trimmed(all[i]))
}

/// The places that a listing names: its lines, trimmed, without the empty
/// ones.
pub open spec fn listed_paths(listing: Seq<char>) -> Seq<Seq<char>> {
    nonempty_parts(trimmed_lines(lines_of(listing)))
}

/// Where a runtime of the major version `version` is looked for, in order:
/// the standard places, then the places that the system's own search
/// listed, if it listed any.
pub open spec fn java_search_paths(version: u8, listing: Option<Seq<char>>) -> Seq<Seq<char>> {
    standard_java_paths(version) + match listing {
        Some(text) => listed_paths(text),
        None => Seq::empty(),
    }
}

fn standard_path(prefix: &str, version: &str) -> (r: String)
    ensures
        r@ == prefix@ + version@ + "\\bin\\java.exe"@,
{
    let mut r = String::from_str(prefix);
    r.append(version);
    r.append("\\bin\\java.exe");
    r
}

/// Where a runtime of the major version `version` is looked for. `listing`
/// is what the system's own search for the runtime printed, if it found
/// one.
pub fn system_java_candidates(version: u8, listing: Option<&str>) -> (paths: Vec<String>)
    ensures
        paths.deep_view() == java_search_paths(version, listing.deep_view()),
{
    let v = decimal_string(version as u64);
    let mut paths: Vec<String> = Vec::new();
    assert(paths.deep_view() =~= Seq::<Seq<char>>::empty());
    push_string(&mut paths, standard_path("C:\\Program Files\\Java\\jdk-", v.as_str()));
    push_string(&mut paths, standard_path("C:\\Program Files\\Java\\jre-", v.as_str()));
    push_string(&mut paths, standard_path("C:\\Program Files (x86)\\Java\\jdk-", v.as_str()));
    push_string(&mut paths, standard_path("C:\\Program Files (x86)\\Java\\jre-", v.as_str()));
    assert(paths.deep_view() =~= standard_java_paths(version));
    if let Some(text) = listing {
        let all = lines(text);
        let ghost trimmed_all = trimmed_lines(all.deep_view());
        let ghost head = paths.deep_view();
        let mut i: usize = 0;
        assert(head + nonempty_parts(trimmed_all.take(0)) =~= head);
        while i < all.len()
            invariant
                i <= all.len(),
                trimmed_all == trimmed_lines(all.deep_view()),
                paths.deep_view() == head + nonempty_parts(trimmed_all.take(i as int)),
            decreases all.len() - i,
        {
            let line = trim(all[i].as_str());
            assert(all.deep_view()[i as int] == all@[i as int]@);
            assert(trimmed_all.take(i + 1).drop_last() =~= trimmed_all.take(i as int));
            assert(trimmed_all.take(i + 1).last() == line@);
            if !line.as_str().is_empty() {
                let ghost before = paths.deep_view();
                push_string(&mut paths, line);
                assert(paths.deep_view() =~= head + nonempty_parts(trimmed_all.take(i + 1)));
            }
            i += 1;
        }
        assert(trimmed_all.take(i as int) =~= trimmed_all);
    } else {
        assert(paths.deep_view() + Seq::<Seq<char>>::empty() =~= paths.deep_view());
    }
    paths
}

/// Where the runtime of the major version `version` is downloaded from.
pub open spec fn java_download_url_of(version: u8) -> Seq<char> {
    "https://api.adoptium.net/v3/binary/latest/"@ + decimal(version as nat)
        + "/ga/windows/x64/jre/hotspot/normal/eclipse"@
}

/// Where the runtime of the major version `version` is downloaded from.
pub fn java_download_url(version: u8) -> (url: String)
    ensures
        url@ == java_download_url_of(version),
{
    let mut url = String::from_str("https://api.adoptium.net/v3/binary/latest/");
    url.append(decimal_string(version as u64).as_str());
    url.append("/ga/windows/x64/jre/hotspot/normal/eclipse");
    url
}

/// The name of the directory in which a downloaded runtime is kept.
pub open spec fn java_dir_name_of(version: u8) -> Seq<char> {
    "jdk-"@ + decimal(version as nat)
}

/// The name of the directory in which a downloaded runtime is kept.
pub fn java_dir_name(version: u8) -> (name: String)
    ensures
        name@ == java_dir_name_of(version),
{
    let mut name = String::from_str("jdk-");
    name.append(decimal_string(version as u64).as_str());
    name
}

/// Whether a directory that an archive unpacked to holds the runtime of the
/// major version `version`, by its name: the name holds `jdk` or `jre` and
/// then the version, with or without a hyphen between them.
pub open spec fn names_java(name: Seq<char>, version: u8) -> bool {
    let v = decimal(version as nat);
    has_substring(name, "jdk-"@ + v) || has_substring(name, "jdk"@ + v) || has_substring(
        name,
        "jre-"@ + v,
    ) || has_substring(name, "jre"@ + v)
}

fn tagged(tag: &str, version: &str) -> (r: String)
    ensures
        r@ == tag@ + version@,
{
    let mut r = String::from_str(tag);
    r.append(version);
    r
}

/// Whether a directory holds the runtime of the major version `version`,
/// by its name.
pub fn is_java_dir_name(name: &str, version: u8) -> (r: bool)
    ensures
        r == names_java(name@, version),
{
    let v = decimal_string(version as u64);
    contains(name, tagged("jdk-", v.as_str()).as_str()) || contains(
        name,
        tagged("jdk", v.as_str()).as_str(),
    ) || contains(name, tagged("jre-", v.as_str()).as_str()) || contains(
        name,
        tagged("jre", v.as_str()).as_str(),
    )
}

/// The runtime that is meant for an instance: the global setting, else the
/// instance's override, else the runtime found when the instance was
/// installed, else `java`.
pub open spec fn intended_java(settings: SettingsView, instance: InstanceView) -> Seq<char> {
    match settings.global_java_path {
        Some(p) => p,
        None => match instance.java_path_override {
            Some(p) => p,
            None => match instance.java_path {
                Some(p) => p,
                None => "java"@,
            },
        },
    }
}

/// The runtime that is meant for `instance`.
pub fn get_intended_java_path(settings: &Settings, instance: &Instance) -> (r: String)
    ensures
        r@ == intended_java(settings.deep_view(), instance.deep_view()),
{
    match &settings.global_java_path {
        Some(p) => p.clone(),
        None => match &instance.java_path_override {
            Some(p) => p.clone(),
            None => match &instance.java_path {
                Some(p) => p.clone(),
                None => String::from_str("java"),
            },
        },
    }
}

/// Whether the runtime of an instance fits its version.
#[derive(Debug, Clone)]
pub struct JavaCompatibility {
    pub compatible: bool,
    pub actual_version: Option<u8>,
    pub required_version: u8,
    pub path: String,
}

/// Whether the runtime of `instance` fits its version, given the major
/// version `actual_version` that the runtime at its intended path reports:
/// it fits if it is the one that the base version needs, and counts as
/// fitting where the check is switched off, for all instances or for this
/// one.
pub fn java_compatibility(
    settings: &Settings,
    instance: &Instance,
    actual_version: Option<u8>,
) -> (r: JavaCompatibility)
    ensures
        r.required_version == required_java(instance.deep_view().base_version()),
        r.path@ == intended_java(settings.deep_view(), instance.deep_view()),
        r.actual_version == actual_version,
        r.compatible == (settings.skip_java_check || instance.java_warning_ignored
            || actual_version == Some(r.required_version)),
{
    let required_version = get_required_java_version(instance.base_version());
    let path = get_intended_java_path(settings, instance);
    let fits = match actual_version {
        Some(v) => v == required_version,
        None => false,
    };
    JavaCompatibility {
        compatible: settings.skip_java_check || instance.java_warning_ignored || fits,
        actual_version,
        required_version,
        path,
    }
}

/// What is known of a runtime at a configured place.
#[derive(Debug, Clone, Copy, PartialEq, Eq, Structural)]
pub enum Probe {
    /// No place is configured.
    Unset,
    /// Nothing is at the place.
    Missing,
    /// A runtime is there; this is the major version it reports, if it
    /// reports one.
    Found(Option<u8>),
}

/// Where the runtime for a version comes from.
#[derive(Debug, Clone, Copy, PartialEq, Eq, Structural)]
pub enum JavaSource {
    /// The place that the global settings name.
    Global,
    /// A runtime found on the system.
    System,
    /// A runtime that is downloaded.
    Download,
}

/// Where the runtime of the major version `required` comes from: the
/// globally configured one where it is there and reports that version;
/// else one found on the system; else a download.
pub open spec fn java_source(required: u8, global: Probe, system_found: bool) -> JavaSource {
    if global == Probe::Found(Some(required)) {
        JavaSource::Global
    } else if system_found {
        JavaSource::System
    } else {
        JavaSource::Download
    }
}

/// Where the runtime of the major version `required` comes from.
pub fn choose_java_source(required: u8, global: Probe, system_found: bool) -> (r: JavaSource)
    ensures
        r == java_source(required, global, system_found),
{
    let global_fits = match global {
        Probe::Found(Some(v)) => v == required,
        _ => false,
    };
    if global_fits {
        JavaSource::Global
    } else if system_found {
        JavaSource::System
    } else {
        JavaSource::Download
    }
}

} // verus!
