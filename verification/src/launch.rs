//! The launch command: class path and arguments of the game process.

use vstd::prelude::*;
use vstd::string::StringExecFns;
use crate::decimal::{decimal, decimal_string};
use crate::instance::{Instance, InstanceView};
use crate::layout::{assets_dir, client_jar_path, game_dir, library_path, Layout, Platform};
use crate::rules::{rules_allow, rules_permit};
use crate::settings::{Settings, SettingsView};
use crate::string_map::{find_value, lemma_deep_lookup};
use crate::text::{join, join_with, push_all, push_string, push_text, split_whitespace, words};
use crate::version::{Artifact, ArtifactView, Library, LibraryView, VersionJson, VersionView};

verus! {

/// The artifact of a library that serves every platform, if it has one.
pub open spec fn common_artifact(lib: LibraryView) -> Seq<ArtifactView> {
    match lib.artifact {
        Some(a) => seq![a],
        None => Seq::empty(),
    }
}

/// The native artifact of a library for `os`: the one under the classifier
/// that the library names for that system, if it names one and has it.
pub open spec fn native_artifact(lib: LibraryView, os: Seq<char>) -> Seq<ArtifactView> {
    match find_value(lib.natives, os) {
        Some(classifier) => match find_value(lib.classifiers, classifier) {
            Some(a) => seq![a],
            None => Seq::empty(),
        },
        None => Seq::empty(),
    }
}

/// The artifacts that a library contributes on `os`: none where its rules
/// leave it out, else its common artifact and then its native one.
pub open spec fn library_artifacts(lib: LibraryView, os: Seq<char>) -> Seq<ArtifactView> {
    if rules_permit(lib.rules, os) {
        common_artifact(lib) + native_artifact(lib, os)
    } else {
        Seq::empty()
    }
}

/// The artifacts of all libraries, in the order of the libraries.
pub open spec fn required_artifacts(libs: Seq<LibraryView>, os: Seq<char>) -> Seq<ArtifactView>
    decreases libs.len(),
{
    if libs.len() == 0 {
        Seq::empty()
    } else {
        required_artifacts(libs.drop_last(), os) + library_artifacts(libs.last(), os)
    }
}

/// The artifacts that the version needs on the platform `os`, in the order
/// of its libraries.
pub fn select_artifacts<'a>(version: &'a VersionJson, os: &str) -> (out: Vec<&'a Artifact>)
    ensures
        out.deep_view() == required_artifacts(version.deep_view().libraries, os@),
{
    let mut out: Vec<&'a Artifact> = Vec::new();
    let ghost libs = version.libraries.deep_view();
    let mut i: usize = 0;
    assert(out.deep_view() =~= required_artifacts(libs.take(0), os@));
    while i < version.libraries.len()
        invariant
            i <= version.libraries.len(),
            libs == version.libraries.deep_view(),
            out.deep_view() == required_artifacts(libs.take(i as int), os@),
        decreases version.libraries.len() - i,
    {
        let lib: &'a Library = &version.libraries[i];
        assert(libs.take(i + 1).drop_last() =~= libs.take(i as int));
        assert(libs.take(i + 1).last() == lib.deep_view());
        let ghost before = out.deep_view();
        if rules_allow(&lib.rules, os) {
            if let Some(artifact) = &lib.downloads.artifact {
                out.push(artifact);
            }
            let ghost middle = out.deep_view();
            assert(middle =~= before + common_artifact(lib.deep_view()));
            proof {
                lemma_deep_lookup(lib.natives.pairs(), os@);
            }
            if let Some(classifier) = lib.natives.get(os) {
                proof {
                    lemma_deep_lookup(lib.downloads.classifiers.pairs(), classifier@);
                }
                if let Some(artifact) = lib.downloads.classifiers.get(classifier.as_str()) {
                    out.push(artifact);
                }
            }
            assert(out.deep_view() =~= middle + native_artifact(lib.deep_view(), os@));
        }
        assert(out.deep_view() =~= before + library_artifacts(lib.deep_view(), os@));
        i += 1;
    }
    assert(libs.take(i as int) =~= libs);
    out
}

/// The paths of the artifacts below the libraries directory.
pub open spec fn artifact_paths(artifacts: Seq<ArtifactView>, root: Seq<char>, sep: Seq<char>) -> Seq<
    Seq<char>,
> {
    Seq::new(artifacts.len(), |i: int| library_path(root, sep, artifacts[i].path))
}

/// The entries of the class path of the version `id`: the artifacts that
/// its libraries contribute on the platform, in the order of the libraries,
/// and the client jar last.
pub open spec fn classpath_of(
    version: VersionView,
    id: Seq<char>,
    os: Seq<char>,
    root: Seq<char>,
    sep: Seq<char>,
) -> Seq<Seq<char>> {
    artifact_paths(required_artifacts(version.libraries, os), root, sep).push(
        client_jar_path(root, sep, id),
    )
}

/// The entries of the class path of the version `id`, the client jar last.
pub fn classpath_entries(layout: &Layout, os: &str, id: &str, version: &VersionJson) -> (out: Vec<
    String,
>)
    ensures
        out.deep_view() == classpath_of(
            version.deep_view(),
            id@,
            os@,
            layout.root@,
            layout.separator@,
        ),
        out@.len() >= 1,
{
    let artifacts = select_artifacts(version, os);
    let ghost all = artifacts.deep_view();
    let mut out: Vec<String> = Vec::new();
    let mut i: usize = 0;
    while i < artifacts.len()
        invariant
            i <= artifacts.len(),
            all == artifacts.deep_view(),
            out.deep_view() == artifact_paths(all, layout.root@, layout.separator@).take(i as int),
        decreases artifacts.len() - i,
    {
        let path = layout.library_path(artifacts[i].path.as_str());
        let ghost before = out.deep_view();
        out.push(path);
        assert(out.deep_view() =~= before.push(path@));
        assert(out.deep_view() =~= artifact_paths(all, layout.root@, layout.separator@).take(
            i + 1,
        ));
        i += 1;
    }
    let jar = layout.client_jar_path(id);
    let ghost before = out.deep_view();
    out.push(jar);
    assert(out.deep_view() =~= before.push(jar@));
    assert(before =~= artifact_paths(all, layout.root@, layout.separator@));
    out
}

/// The class path of the version `id`: its entries, joined by the
/// platform's list separator.
pub fn build_classpath(layout: &Layout, platform: &Platform, id: &str, version: &VersionJson) -> (r:
    String)
    ensures
        r@ == join(
            classpath_of(version.deep_view(), id@, platform.os@, layout.root@, layout.separator@),
            platform.list_separator@,
        ),
{
    let entries = classpath_entries(layout, platform.os.as_str(), id, version);
    join_with(&entries, platform.list_separator.as_str())
}

/// The client jar is the last entry of every class path.
pub proof fn lemma_client_jar_is_last(
    version: VersionView,
    id: Seq<char>,
    os: Seq<char>,
    root: Seq<char>,
    sep: Seq<char>,
)
    ensures
        classpath_of(version, id, os, root, sep).last() == client_jar_path(root, sep, id),
        classpath_of(version, id, os, root, sep).len() == required_artifacts(
            version.libraries,
            os,
        ).len() + 1,
{
}

/// Libraries without rules and without natives contribute their common
/// artifacts, one each, in their order.
pub proof fn lemma_plain_libraries_in_order(libs: Seq<LibraryView>, os: Seq<char>)
    requires
        forall|i: int|
            0 <= i < libs.len() ==> (#[trigger] libs[i]).rules.len() == 0 && libs[i].natives.len()
                == 0 && libs[i].artifact is Some,
    ensures
        required_artifacts(libs, os) == Seq::new(libs.len(), |i: int| libs[i].artifact->0),
    decreases libs.len(),
{
    if libs.len() > 0 {
        let front = libs.drop_last();
        assert forall|i: int| 0 <= i < front.len() implies (#[trigger] front[i]).rules.len() == 0
            && front[i].natives.len() == 0 && front[i].artifact is Some by {
            assert(front[i] == libs[i]);
        }
        lemma_plain_libraries_in_order(front, os);
        let last = libs.last();
        assert(library_artifacts(last, os) =~= seq![last.artifact->0]);
        assert(required_artifacts(libs, os) =~= Seq::new(
            libs.len(),
            |i: int| libs[i].artifact->0,
        ));
    } else {
        assert(required_artifacts(libs, os) =~= Seq::new(
            libs.len(),
            |i: int| libs[i].artifact->0,
        ));
    }
}

/// What the game process is started with, besides the version itself.
#[derive(Debug, Clone)]
pub struct RuntimeConfig {
    pub min_memory: u32,
    pub max_memory: u32,
    pub global_java_args: String,
    pub instance_java_args: Option<String>,
    pub game_dir: String,
    pub assets_dir: String,
}

/// What a `RuntimeConfig` holds, as plain values.
pub struct RuntimeConfigView {
    pub min_memory: u32,
    pub max_memory: u32,
    pub global_java_args: Seq<char>,
    pub instance_java_args: Option<Seq<char>>,
    pub game_dir: Seq<char>,
    pub assets_dir: Seq<char>,
}

impl DeepView for RuntimeConfig {
    type V = RuntimeConfigView;

    open spec fn deep_view(&self) -> RuntimeConfigView {
        RuntimeConfigView {
            min_memory: self.min_memory,
            max_memory: self.max_memory,
            global_java_args: self.global_java_args@,
            instance_java_args: self.instance_java_args.deep_view(),
            game_dir: self.game_dir@,
            assets_dir: self.assets_dir@,
        }
    }
}

/// The runtime is told the smallest and the largest heap, in megabytes.
pub open spec fn memory_flags(min: u32, max: u32) -> Seq<Seq<char>> {
    seq!["-Xms"@ + decimal(min as nat) + "M"@, "-Xmx"@ + decimal(max as nat) + "M"@]
}

/// The words of the global flags, then those of the instance's own.
pub open spec fn extra_flags(global: Seq<char>, own: Option<Seq<char>>) -> Seq<Seq<char>> {
    words(global) + match own {
        Some(args) => words(args),
        None => Seq::empty(),
    }
}

/// The arguments that every launch ends with: the offline identity, the
/// version, the directories and the asset index.
pub open spec fn identity_arguments(
    version_id: Seq<char>,
    game_dir: Seq<char>,
    assets_dir: Seq<char>,
    asset_index: Seq<char>,
) -> Seq<Seq<char>> {
    seq![
        "--username"@,
        "Player"@,
        "--uuid"@,
        "00000000-0000-0000-0000-000000000000"@,
        "--accessToken"@,
        "0"@,
        "--userType"@,
        "offline"@,
        "--version"@,
        version_id,
        "--gameDir"@,
        game_dir,
        "--assetsDir"@,
        assets_dir,
        "--assetIndex"@,
        asset_index,
    ]
}

/// The arguments of the game process: memory flags, extra flags, the class
/// path, the main class, and the identity arguments.
pub open spec fn launch_arguments(
    version: VersionView,
    version_id: Seq<char>,
    classpath: Seq<char>,
    runtime: RuntimeConfigView,
) -> Seq<Seq<char>> {
    memory_flags(runtime.min_memory, runtime.max_memory) + extra_flags(
        runtime.global_java_args,
        runtime.instance_java_args,
    ) + seq!["-cp"@, classpath, version.main_class] + identity_arguments(
        version_id,
        runtime.game_dir,
        runtime.assets_dir,
        version.asset_index.id,
    )
}

fn memory_flag(prefix: &str, megabytes: u32) -> (r: String)
    ensures
        r@ == prefix@ + decimal(megabytes as nat) + "M"@,
{
    let mut r = String::from_str(prefix);
    let number = decimal_string(megabytes as u64);
    r.append(number.as_str());
    r.append("M");
    r
}

fn push_memory_flags(args: &mut Vec<String>, min: u32, max: u32)
    ensures
        final(args).deep_view() == old(args).deep_view() + memory_flags(min, max),
{
    let ghost before = args.deep_view();
    push_string(args, memory_flag("-Xms", min));
    push_string(args, memory_flag("-Xmx", max));
    assert(args.deep_view() =~= before + memory_flags(min, max));
}

fn push_extra_flags(args: &mut Vec<String>, global: &str, own: &Option<String>)
    ensures
        final(args).deep_view() == old(args).deep_view() + extra_flags(global@, own.deep_view()),
{
    let ghost before = args.deep_view();
    push_all(args, split_whitespace(global));
    let ghost middle = args.deep_view();
    assert(middle == before + words(global@));
    match own {
        Some(flags) => {
            push_all(args, split_whitespace(flags.as_str()));
            assert(args.deep_view() =~= before + (words(global@) + words(flags@)));
        },
        None => {
            assert(args.deep_view() =~= before + (words(global@) + Seq::<Seq<char>>::empty()));
        },
    }
}

fn push_entry(args: &mut Vec<String>, classpath: &str, main_class: &str)
    ensures
        final(args).deep_view() == old(args).deep_view() + seq!["-cp"@, classpath@, main_class@],
{
    let ghost before = args.deep_view();
    push_text(args, "-cp");
    push_text(args, classpath);
    push_text(args, main_class);
    assert(args.deep_view() =~= before + seq!["-cp"@, classpath@, main_class@]);
}

fn push_pair(args: &mut Vec<String>, name: &str, value: &str)
    ensures
        final(args).deep_view() == old(args).deep_view().push(name@).push(value@),
{
    push_text(args, name);
    push_text(args, value);
}

fn push_identity(
    args: &mut Vec<String>,
    version_id: &str,
    game_dir: &str,
    assets_dir: &str,
    asset_index: &str,
)
    ensures
        final(args).deep_view() == old(args).deep_view() + identity_arguments(
            version_id@,
            game_dir@,
            assets_dir@,
            asset_index@,
        ),
{
    let ghost before = args.deep_view();
    push_pair(args, "--username", "Player");
    push_pair(args, "--uuid", "00000000-0000-0000-0000-000000000000");
    push_pair(args, "--accessToken", "0");
    push_pair(args, "--userType", "offline");
    let ghost half = args.deep_view();
    assert(half =~= before + seq![
        "--username"@,
        "Player"@,
        "--uuid"@,
        "00000000-0000-0000-0000-000000000000"@,
        "--accessToken"@,
        "0"@,
        "--userType"@,
        "offline"@,
    ]);
    push_pair(args, "--version", version_id);
    push_pair(args, "--gameDir", game_dir);
    push_pair(args, "--assetsDir", assets_dir);
    push_pair(args, "--assetIndex", asset_index);
    assert(args.deep_view() =~= half + seq![
        "--version"@,
        version_id@,
        "--gameDir"@,
        game_dir@,
        "--assetsDir"@,
        assets_dir@,
        "--assetIndex"@,
        asset_index@,
    ]);
    assert(args.deep_view() =~= before + identity_arguments(
        version_id@,
        game_dir@,
        assets_dir@,
        asset_index@,
    ));
}

/// The arguments of the game process for `version`, known as `version_id`,
/// with the class path `classpath`.
pub fn build_launch_args(
    version: &VersionJson,
    version_id: &str,
    classpath: &str,
    runtime: &RuntimeConfig,
) -> (args: Vec<String>)
    ensures
        args.deep_view() == launch_arguments(
            version.deep_view(),
            version_id@,
            classpath@,
            runtime.deep_view(),
        ),
{
    let mut args: Vec<String> = Vec::new();
    assert(args.deep_view() =~= Seq::<Seq<char>>::empty());
    push_memory_flags(&mut args, runtime.min_memory, runtime.max_memory);
    let ghost first = args.deep_view();
    assert(first =~= memory_flags(runtime.min_memory, runtime.max_memory));
    push_extra_flags(&mut args, runtime.global_java_args.as_str(), &runtime.instance_java_args);
    let ghost second = args.deep_view();
    push_entry(&mut args, classpath, version.mainClass.as_str());
    let ghost third = args.deep_view();
    push_identity(
        &mut args,
        version_id,
        runtime.game_dir.as_str(),
        runtime.assets_dir.as_str(),
        version.assetIndex.id.as_str(),
    );
    args
}

/// The runtime that is started: the instance's override, else the global
/// setting, else the runtime found when the instance was installed, else
/// `java`.
pub open spec fn java_command(instance: InstanceView, settings: SettingsView) -> Seq<char> {
    match instance.java_path_override {
        Some(p) => p,
        None => match settings.global_java_path {
            Some(p) => p,
            None => match instance.java_path {
                Some(p) => p,
                None => "java"@,
            },
        },
    }
}

/// What the game process of an instance is started with: the instance's
/// memory sizes and flags where it has its own, and its directories.
pub open spec fn runtime_of(
    instance: InstanceView,
    settings: SettingsView,
    root: Seq<char>,
    sep: Seq<char>,
) -> RuntimeConfigView {
    RuntimeConfigView {
        min_memory: match instance.min_memory {
            Some(m) => m,
            None => settings.min_memory,
        },
        max_memory: match instance.max_memory {
            Some(m) => m,
            None => settings.max_memory,
        },
        global_java_args: settings.global_java_args,
        instance_java_args: instance.java_args,
        game_dir: game_dir(root, sep, instance.id),
        assets_dir: assets_dir(root, sep),
    }
}

/// The runtime that is started for `instance`.
pub fn select_java(instance: &Instance, settings: &Settings) -> (r: String)
    ensures
        r@ == java_command(instance.deep_view(), settings.deep_view()),
{
    match &instance.java_path_override {
        Some(p) => p.clone(),
        None => match &settings.global_java_path {
            Some(p) => p.clone(),
            None => match &instance.java_path {
                Some(p) => p.clone(),
                None => String::from_str("java"),
            },
        },
    }
}

/// What the game process of `instance` is started with.
pub fn runtime_config(instance: &Instance, settings: &Settings, layout: &Layout) -> (r:
    RuntimeConfig)
    ensures
        r.deep_view() == runtime_of(
            instance.deep_view(),
            settings.deep_view(),
            layout.root@,
            layout.separator@,
        ),
{
    RuntimeConfig {
        min_memory: match instance.min_memory {
            Some(m) => m,
            None => settings.min_memory,
        },
        max_memory: match instance.max_memory {
            Some(m) => m,
            None => settings.max_memory,
        },
        global_java_args: settings.global_java_args.clone(),
        instance_java_args: match &instance.java_args {
            Some(a) => Some(a.clone()),
            None => None,
        },
        game_dir: layout.game_dir(instance.id.as_str()),
        assets_dir: layout.assets_dir(),
    }
}

/// A process to start: the program and its arguments.
#[derive(Debug, Clone)]
pub struct LaunchCommand {
    pub program: String,
    pub args: Vec<String>,
}

/// The command that starts `instance` on `version`, which is installed as
/// `version_id`.
pub fn launch_command(
    instance: &Instance,
    settings: &Settings,
    layout: &Layout,
    platform: &Platform,
    version_id: &str,
    version: &VersionJson,
) -> (command: LaunchCommand)
    ensures
        command.program@ == java_command(instance.deep_view(), settings.deep_view()),
        command.args.deep_view() == launch_arguments(
            version.deep_view(),
            version_id@,
            join(
                classpath_of(
                    version.deep_view(),
                    version_id@,
                    platform.os@,
                    layout.root@,
                    layout.separator@,
                ),
                platform.list_separator@,
            ),
            runtime_of(
                instance.deep_view(),
                settings.deep_view(),
                layout.root@,
                layout.separator@,
            ),
        ),
{
    let classpath = build_classpath(layout, platform, version_id, version);
    let runtime = runtime_config(instance, settings, layout);
    let args = build_launch_args(version, version_id, classpath.as_str(), &runtime);
    LaunchCommand { program: select_java(instance, settings), args }
}

/// Every launch ends with the asset index of the version, announced by
/// `--assetIndex`, and carries the class path right after `-cp` and right
/// before the main class.
pub proof fn lemma_launch_arguments_shape(
    version: VersionView,
    version_id: Seq<char>,
    classpath: Seq<char>,
    runtime: RuntimeConfigView,
)
    ensures
        ({
            let args = launch_arguments(version, version_id, classpath, runtime);
            let n = args.len() as int;
            &&& n >= 21
            &&& args[n - 1] == version.asset_index.id
            &&& args[n - 2] == "--assetIndex"@
            &&& args[n - 17] == version.main_class
            &&& args[n - 18] == classpath
            &&& args[n - 19] == "-cp"@
            &&& args.subrange(n - 16, n) == identity_arguments(
                version_id,
                runtime.game_dir,
                runtime.assets_dir,
                version.asset_index.id,
            )
        }),
{
    let args = launch_arguments(version, version_id, classpath, runtime);
    let n = args.len() as int;
    let tail = identity_arguments(
        version_id,
        runtime.game_dir,
        runtime.assets_dir,
        version.asset_index.id,
    );
    assert(tail.len() == 16);
    assert(args.subrange(n - 16, n) =~= tail);
}

} // verus!
