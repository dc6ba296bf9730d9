//! Launching an instance, as a state machine.
//!
//! Before the process is started, the description of the version and its
//! client jar must be on disk. Where one is missing it is recovered once:
//! by installing the loader where the instance records one, else by
//! installing the plain version; then it is looked for again. The record
//! that says `Running` is only handed out once the process runs.
//!
//! ```text
//! Descriptor --present--> Load --> Jar --present--> Spawn --> Record --> Finished
//!     | absent                      | absent
//!     v                             v
//! DescriptorRecovery           JarRecovery
//!     v                             v
//! DescriptorRecheck            JarRecheck
//! ```

use vstd::prelude::*;
use vstd::string::StringExecFns;
use crate::instance::{Instance, InstanceState, InstanceView};
use crate::launch::{
    classpath_of, java_command, launch_arguments, launch_command, runtime_of, LaunchCommand,
};
use crate::layout::{client_jar_path, version_json_path, Layout, Platform, PlatformView};
use crate::settings::{Settings, SettingsView};
use crate::text::join;
use crate::version::{VersionJson, VersionView};

verus! {

/// What a launch is waiting for.
#[derive(Debug, Clone, Copy, PartialEq, Eq, Structural)]
pub enum LaunchPhase {
    /// Whether the version is described on disk.
    Descriptor,
    /// The recovery of the description.
    DescriptorRecovery,
    /// Whether the version is described on disk after the recovery.
    DescriptorRecheck,
    /// The description, read and decoded.
    Load,
    /// Whether the client jar is on disk.
    Jar,
    /// The recovery of the client jar.
    JarRecovery,
    /// Whether the client jar is on disk after the recovery.
    JarRecheck,
    /// The process.
    Spawn,
    /// The record that says `Running`, written.
    Record,
    /// Nothing: the launch has ended.
    Finished,
}

/// A launch in progress.
#[derive(Debug)]
pub struct LaunchPlan {
    pub instance: Instance,
    pub settings: Settings,
    pub layout: Layout,
    pub platform: Platform,
    /// The time of the launch, in seconds since the epoch.
    pub now: u64,
    pub phase: LaunchPhase,
    /// The description of the version, once it is loaded.
    pub version: Option<VersionJson>,
}

/// What a `LaunchPlan` holds, as plain values.
pub struct LaunchPlanView {
    pub instance: InstanceView,
    pub settings: SettingsView,
    pub root: Seq<char>,
    pub separator: Seq<char>,
    pub platform: PlatformView,
    pub now: u64,
    pub phase: LaunchPhase,
    pub version: Option<VersionView>,
}

impl DeepView for LaunchPlan {
    type V = LaunchPlanView;

    open spec fn deep_view(&self) -> LaunchPlanView {
        LaunchPlanView {
            instance: self.instance.deep_view(),
            settings: self.settings.deep_view(),
            root: self.layout.root@,
            separator: self.layout.separator@,
            platform: self.platform.deep_view(),
            now: self.now,
            phase: self.phase,
            version: self.version.deep_view(),
        }
    }
}

/// What the driver reports.
#[derive(Debug)]
pub enum LaunchEvent {
    /// Whether the file that was asked about is there.
    Exists(bool),
    /// The recovery went well.
    Recovered,
    /// The recovery failed.
    RecoveryFailed(String),
    /// The description of the version.
    Loaded(VersionJson),
    /// The description could not be read.
    ReadFailed(String),
    /// The description could not be decoded.
    ParseFailed(String),
    /// The process runs.
    Spawned,
    /// The process could not be started.
    SpawnFailed(String),
    /// The record is written and the new state announced.
    Recorded,
    /// The record could not be written.
    PersistFailed(String),
}

/// What a `LaunchEvent` holds, as plain values.
pub enum LaunchEventView {
    Exists(bool),
    Recovered,
    RecoveryFailed(Seq<char>),
    Loaded(VersionView),
    ReadFailed(Seq<char>),
    ParseFailed(Seq<char>),
    Spawned,
    SpawnFailed(Seq<char>),
    Recorded,
    PersistFailed(Seq<char>),
}

impl DeepView for LaunchEvent {
    type V = LaunchEventView;

    open spec fn deep_view(&self) -> LaunchEventView {
        match self {
            LaunchEvent::Exists(b) => LaunchEventView::Exists(*b),
            LaunchEvent::Recovered => LaunchEventView::Recovered,
            LaunchEvent::RecoveryFailed(m) => LaunchEventView::RecoveryFailed(m@),
            LaunchEvent::Loaded(v) => LaunchEventView::Loaded(v.deep_view()),
            LaunchEvent::ReadFailed(m) => LaunchEventView::ReadFailed(m@),
            LaunchEvent::ParseFailed(m) => LaunchEventView::ParseFailed(m@),
            LaunchEvent::Spawned => LaunchEventView::Spawned,
            LaunchEvent::SpawnFailed(m) => LaunchEventView::SpawnFailed(m@),
            LaunchEvent::Recorded => LaunchEventView::Recorded,
            LaunchEvent::PersistFailed(m) => LaunchEventView::PersistFailed(m@),
        }
    }
}

/// What the driver is to do next.
#[derive(Debug)]
pub enum LaunchAction {
    /// Look whether the file `path` is there and report `Exists`.
    Probe { path: String },
    /// Install the loader and report `Recovered` or `RecoveryFailed`.
    InstallLoader { loader: String, base_version: String, loader_version: String },
    /// Make sure that the version `id` is installed and report `Recovered`
    /// or `RecoveryFailed`.
    EnsureVersion { id: String },
    /// Fetch the client jar from `url` to `dest` unless it is there, and
    /// report `Recovered` or `RecoveryFailed`.
    FetchClientJar { url: String, dest: String },
    /// Read and decode the description at `path` and report `Loaded`,
    /// `ReadFailed` or `ParseFailed`.
    Load { path: String },
    /// Start `command` with its output captured and report `Spawned` or
    /// `SpawnFailed`. Nothing is written and nothing announced.
    Start { command: LaunchCommand },
    /// Write `record` and announce the new state, and report `Recorded` or
    /// `PersistFailed`.
    Record { record: Instance },
    /// The process runs and is recorded. With `supervise` it is to be
    /// registered, its output pumped and its liveness checked; without, the
    /// launcher is to exit.
    Done { supervise: bool },
    /// The launch failed before a process ran. Where there is a `record`,
    /// it is to be written.
    Fail { message: String, record: Option<Instance> },
    /// The launch failed after the process was started: the process is to
    /// be ended, and nothing is registered, pumped or checked.
    Abort { message: String },
}

/// What a `LaunchAction` holds, as plain values.
pub enum LaunchActionView {
    Probe { path: Seq<char> },
    InstallLoader { loader: Seq<char>, base_version: Seq<char>, loader_version: Seq<char> },
    EnsureVersion { id: Seq<char> },
    FetchClientJar { url: Seq<char>, dest: Seq<char> },
    Load { path: Seq<char> },
    Start { program: Seq<char>, args: Seq<Seq<char>> },
    Record { record: InstanceView },
    Done { supervise: bool },
    Fail { message: Seq<char>, record: Option<InstanceView> },
    Abort { message: Seq<char> },
}

impl DeepView for LaunchAction {
    type V = LaunchActionView;

    open spec fn deep_view(&self) -> LaunchActionView {
        match self {
            LaunchAction::Probe { path } => LaunchActionView::Probe { path: path@ },
            LaunchAction::InstallLoader {
                loader,
                base_version,
                loader_version,
            } => LaunchActionView::InstallLoader {
                loader: loader@,
                base_version: base_version@,
                loader_version: loader_version@,
            },
            LaunchAction::EnsureVersion { id } => LaunchActionView::EnsureVersion { id: id@ },
            LaunchAction::FetchClientJar { url, dest } => LaunchActionView::FetchClientJar {
                url: url@,
                dest: dest@,
            },
            LaunchAction::Load { path } => LaunchActionView::Load { path: path@ },
            LaunchAction::Start { command } => LaunchActionView::Start {
                program: command.program@,
                args: command.args.deep_view(),
            },
            LaunchAction::Record { record } => LaunchActionView::Record {
                record: record.deep_view(),
            },
            LaunchAction::Done { supervise } => LaunchActionView::Done { supervise: *supervise },
            LaunchAction::Fail { message, record } => LaunchActionView::Fail {
                message: message@,
                record: record.deep_view(),
            },
            LaunchAction::Abort { message } => LaunchActionView::Abort { message: message@ },
        }
    }
}

impl LaunchPlanView {
    /// The id of the version that is launched.
    pub open spec fn version_id(self) -> Seq<char> {
        self.instance.launch_version_id()
    }

    /// Where the description of that version stands.
    pub open spec fn descriptor_path(self) -> Seq<char> {
        version_json_path(self.root, self.separator, self.version_id())
    }

    /// Where the client jar of that version stands.
    pub open spec fn jar_path(self) -> Seq<char> {
        client_jar_path(self.root, self.separator, self.version_id())
    }

    /// Whether the instance records a loader and its version.
    pub open spec fn has_loader(self) -> bool {
        self.instance.loader is Some && self.instance.loader_version is Some
    }

    /// The launch goes on in `phase` with this action.
    pub open spec fn moved(self, phase: LaunchPhase, action: LaunchActionView) -> (
        LaunchPlanView,
        LaunchActionView,
    ) {
        (LaunchPlanView { phase, ..self }, action)
    }

    /// The launch failed, and nothing is to be written.
    pub open spec fn failed(self, message: Seq<char>) -> (LaunchPlanView, LaunchActionView) {
        self.moved(LaunchPhase::Finished, LaunchActionView::Fail { message, record: None })
    }

    /// The action that installs the recorded loader.
    pub open spec fn loader_recovery(self) -> LaunchActionView {
        LaunchActionView::InstallLoader {
            loader: self.instance.loader->0,
            base_version: self.instance.base_version(),
            loader_version: self.instance.loader_version->0,
        }
    }

    /// How a missing description is recovered.
    pub open spec fn descriptor_recovery(self) -> LaunchActionView {
        if self.has_loader() {
            self.loader_recovery()
        } else {
            LaunchActionView::EnsureVersion { id: self.instance.version }
        }
    }

    /// What is said when the recovery of the description failed.
    pub open spec fn descriptor_recovery_failure(self, cause: Seq<char>) -> Seq<char> {
        if self.has_loader() {
            "Derived version "@ + self.version_id() + " missing and install_loader failed: "@
                + cause
        } else {
            "Version JSON missing at "@ + self.descriptor_path()
                + " and failed to install vanilla "@ + self.instance.version + ": "@ + cause
        }
    }

    /// How a missing client jar is recovered.
    pub open spec fn jar_recovery(self, version: VersionView) -> LaunchActionView {
        if self.has_loader() {
            self.loader_recovery()
        } else {
            LaunchActionView::FetchClientJar {
                url: version.client.url,
                dest: client_jar_path(self.root, self.separator, self.instance.version),
            }
        }
    }

    /// What is said when the recovery of the client jar failed.
    pub open spec fn jar_recovery_failure(self, cause: Seq<char>) -> Seq<char> {
        if self.has_loader() {
            "Client JAR missing at "@ + self.jar_path() + " and failed to install loader "@
                + self.instance.loader->0 + " "@ + self.instance.loader_version->0 + ": "@ + cause
        } else {
            "Client JAR missing at "@ + self.jar_path()
                + " and failed to install vanilla client for "@ + self.instance.version + ": "@
                + cause
        }
    }

    /// The process is to be started, with the command of the instance on
    /// the loaded version.
    pub open spec fn starting(self) -> (LaunchPlanView, LaunchActionView) {
        match self.version {
            Some(version) => self.moved(
                LaunchPhase::Spawn,
                LaunchActionView::Start {
                    program: java_command(self.instance, self.settings),
                    args: launch_arguments(
                        version,
                        self.version_id(),
                        join(
                            classpath_of(
                                version,
                                self.version_id(),
                                self.platform.os,
                                self.root,
                                self.separator,
                            ),
                            self.platform.list_separator,
                        ),
                        runtime_of(self.instance, self.settings, self.root, self.separator),
                    ),
                },
            ),
            None => self.failed("unexpected event during launch"@),
        }
    }

    /// What the launch does on an event.
    pub open spec fn step(self, event: LaunchEventView) -> (LaunchPlanView, LaunchActionView) {
        match (self.phase, event) {
            (LaunchPhase::Descriptor, LaunchEventView::Exists(present)) => if present {
                self.moved(
                    LaunchPhase::Load,
                    LaunchActionView::Load { path: self.descriptor_path() },
                )
            } else {
                self.moved(LaunchPhase::DescriptorRecovery, self.descriptor_recovery())
            },
            (LaunchPhase::DescriptorRecovery, LaunchEventView::Recovered) => self.moved(
                LaunchPhase::DescriptorRecheck,
                LaunchActionView::Probe { path: self.descriptor_path() },
            ),
            (LaunchPhase::DescriptorRecovery, LaunchEventView::RecoveryFailed(m)) => self.failed(
                self.descriptor_recovery_failure(m),
            ),
            (LaunchPhase::DescriptorRecheck, LaunchEventView::Exists(present)) => if present {
                self.moved(
                    LaunchPhase::Load,
                    LaunchActionView::Load { path: self.descriptor_path() },
                )
            } else {
                self.failed("Version JSON not found at path: "@ + self.descriptor_path())
            },
            (LaunchPhase::Load, LaunchEventView::Loaded(version)) => (
                LaunchPlanView { phase: LaunchPhase::Jar, version: Some(version), ..self },
                LaunchActionView::Probe { path: self.jar_path() },
            ),
            (LaunchPhase::Load, LaunchEventView::ReadFailed(m)) => self.failed(
                "Failed to read version JSON at "@ + self.descriptor_path() + ": "@ + m,
            ),
            (LaunchPhase::Load, LaunchEventView::ParseFailed(m)) => self.failed(
                "Failed to parse version JSON at "@ + self.descriptor_path() + ": "@ + m,
            ),
            (LaunchPhase::Jar, LaunchEventView::Exists(present)) => if present {
                self.starting()
            } else {
                match self.version {
                    Some(version) => self.moved(
                        LaunchPhase::JarRecovery,
                        self.jar_recovery(version),
                    ),
                    None => self.failed("unexpected event during launch"@),
                }
            },
            (LaunchPhase::JarRecovery, LaunchEventView::Recovered) => self.moved(
                LaunchPhase::JarRecheck,
                LaunchActionView::Probe { path: self.jar_path() },
            ),
            (LaunchPhase::JarRecovery, LaunchEventView::RecoveryFailed(m)) => self.failed(
                self.jar_recovery_failure(m),
            ),
            (LaunchPhase::JarRecheck, LaunchEventView::Exists(present)) => if present {
                self.starting()
            } else {
                self.failed("Client JAR not found at path: "@ + self.jar_path())
            },
            (LaunchPhase::Spawn, LaunchEventView::Spawned) => self.moved(
                LaunchPhase::Record,
                LaunchActionView::Record { record: self.instance.started(self.now) },
            ),
            (LaunchPhase::Record, LaunchEventView::Recorded) => self.moved(
                LaunchPhase::Finished,
                LaunchActionView::Done { supervise: !self.settings.close_on_launch },
            ),
            (LaunchPhase::Record, LaunchEventView::PersistFailed(m)) => self.moved(
                LaunchPhase::Finished,
                LaunchActionView::Abort { message: m },
            ),
            (LaunchPhase::Spawn, LaunchEventView::SpawnFailed(m)) => self.moved(
                LaunchPhase::Finished,
                LaunchActionView::Fail {
                    message: m,
                    record: Some(self.instance.in_state(InstanceState::Error)),
                },
            ),
            _ => self.failed("unexpected event during launch"@),
        }
    }
}

impl LaunchPlan {
    /// Begins the launch of `instance` at the time `now`: whether its
    /// version is described on disk is looked at first.
    pub fn start(
        instance: Instance,
        settings: Settings,
        layout: Layout,
        platform: Platform,
        now: u64,
    ) -> (r: (LaunchPlan, LaunchAction))
        ensures
            r.0.deep_view() == (LaunchPlanView {
                instance: instance.deep_view(),
                settings: settings.deep_view(),
                root: layout.root@,
                separator: layout.separator@,
                platform: platform.deep_view(),
                now,
                phase: LaunchPhase::Descriptor,
                version: None,
            }),
            r.1.deep_view() == (LaunchActionView::Probe {
                path: r.0.deep_view().descriptor_path(),
            }),
    {
        let id = instance.launch_version_id();
        let path = layout.version_json_path(id.as_str());
        (
            LaunchPlan {
                instance,
                settings,
                layout,
                platform,
                now,
                phase: LaunchPhase::Descriptor,
                version: None,
            },
            LaunchAction::Probe { path },
        )
    }

    fn descriptor_path(&self) -> (p: String)
        ensures
            p@ == self.deep_view().descriptor_path(),
    {
        let id = self.instance.launch_version_id();
        self.layout.version_json_path(id.as_str())
    }

    fn jar_path(&self) -> (p: String)
        ensures
            p@ == self.deep_view().jar_path(),
    {
        let id = self.instance.launch_version_id();
        self.layout.client_jar_path(id.as_str())
    }

    fn fail(&mut self, message: String) -> (action: LaunchAction)
        ensures
            (final(self).deep_view(), action.deep_view()) == old(self).deep_view().failed(
                message@,
            ),
    {
        self.phase = LaunchPhase::Finished;
        LaunchAction::Fail { message, record: None }
    }

    fn unexpected(&mut self) -> (action: LaunchAction)
        ensures
            (final(self).deep_view(), action.deep_view()) == old(self).deep_view().failed(
                "unexpected event during launch"@,
            ),
    {
        self.fail(String::from_str("unexpected event during launch"))
    }

    fn loader_recovery(&self) -> (action: Option<LaunchAction>)
        ensures
            match action {
                Some(a) => self.deep_view().has_loader() && a.deep_view()
                    == self.deep_view().loader_recovery(),
                None => !self.deep_view().has_loader(),
            },
    {
        match (&self.instance.loader, &self.instance.loader_version) {
            (Some(loader), Some(loader_version)) => Some(
                LaunchAction::InstallLoader {
                    loader: loader.clone(),
                    base_version: String::from_str(self.instance.base_version()),
                    loader_version: loader_version.clone(),
                },
            ),
            _ => None,
        }
    }

    fn descriptor_recovery_failure(&self, cause: &str) -> (m: String)
        ensures
            m@ == self.deep_view().descriptor_recovery_failure(cause@),
    {
        if self.instance.loader.is_some() && self.instance.loader_version.is_some() {
            let mut m = String::from_str("Derived version ");
            m.append(self.instance.launch_version_id().as_str());
            m.append(" missing and install_loader failed: ");
            m.append(cause);
            m
        } else {
            let mut m = String::from_str("Version JSON missing at ");
            m.append(self.descriptor_path().as_str());
            m.append(" and failed to install vanilla ");
            m.append(self.instance.version.as_str());
            m.append(": ");
            m.append(cause);
            m
        }
    }

    fn jar_recovery_failure(&self, cause: &str) -> (m: String)
        ensures
            m@ == self.deep_view().jar_recovery_failure(cause@),
    {
        let mut m = String::from_str("Client JAR missing at ");
        m.append(self.jar_path().as_str());
        match (&self.instance.loader, &self.instance.loader_version) {
            (Some(loader), Some(loader_version)) => {
                m.append(" and failed to install loader ");
                m.append(loader.as_str());
                m.append(" ");
                m.append(loader_version.as_str());
            },
            _ => {
                m.append(" and failed to install vanilla client for ");
                m.append(self.instance.version.as_str());
            },
        }
        m.append(": ");
        m.append(cause);
        m
    }

    fn describe(prefix: &str, path: &str, cause: &str) -> (m: String)
        ensures
            m@ == prefix@ + path@ + ": "@ + cause@,
    {
        let mut m = String::from_str(prefix);
        m.append(path);
        m.append(": ");
        m.append(cause);
        m
    }

    fn not_found(prefix: &str, path: &str) -> (m: String)
        ensures
            m@ == prefix@ + path@,
    {
        let mut m = String::from_str(prefix);
        m.append(path);
        m
    }

    fn begin(&mut self) -> (action: LaunchAction)
        ensures
            (final(self).deep_view(), action.deep_view()) == old(self).deep_view().starting(),
    {
        let command = match &self.version {
            Some(version) => {
                let id = self.instance.launch_version_id();
                Some(
                    launch_command(
                        &self.instance,
                        &self.settings,
                        &self.layout,
                        &self.platform,
                        id.as_str(),
                        version,
                    ),
                )
            },
            None => None,
        };
        match command {
            Some(command) => {
                self.phase = LaunchPhase::Spawn;
                LaunchAction::Start { command }
            },
            None => self.unexpected(),
        }
    }

    fn recover_jar(&mut self) -> (action: LaunchAction)
        requires
            old(self).phase == LaunchPhase::Jar,
        ensures
            (final(self).deep_view(), action.deep_view()) == old(self).deep_view().step(
                LaunchEventView::Exists(false),
            ),
    {
        let recovery = match &self.version {
            Some(version) => match self.loader_recovery() {
                Some(action) => Some(action),
                None => Some(
                    LaunchAction::FetchClientJar {
                        url: version.downloads.client.url.clone(),
                        dest: self.layout.client_jar_path(self.instance.version.as_str()),
                    },
                ),
            },
            None => None,
        };
        match recovery {
            Some(action) => {
                self.phase = LaunchPhase::JarRecovery;
                action
            },
            None => self.unexpected(),
        }
    }

    /// Takes up what the driver reports and hands out the next action.
    pub fn step(&mut self, event: LaunchEvent) -> (action: LaunchAction)
        ensures
            (final(self).deep_view(), action.deep_view()) == old(self).deep_view().step(
                event.deep_view(),
            ),
    {
        match self.phase {
            LaunchPhase::Descriptor => match event {
                LaunchEvent::Exists(present) => if present {
                    let path = self.descriptor_path();
                    self.phase = LaunchPhase::Load;
                    LaunchAction::Load { path }
                } else {
                    let action = match self.loader_recovery() {
                        Some(action) => action,
                        None => LaunchAction::EnsureVersion { id: self.instance.version.clone() },
                    };
                    self.phase = LaunchPhase::DescriptorRecovery;
                    action
                },
                _ => self.unexpected(),
            },
            LaunchPhase::DescriptorRecovery => match event {
                LaunchEvent::Recovered => {
                    let path = self.descriptor_path();
                    self.phase = LaunchPhase::DescriptorRecheck;
                    LaunchAction::Probe { path }
                },
                LaunchEvent::RecoveryFailed(m) => {
                    let message = self.descriptor_recovery_failure(m.as_str());
                    self.fail(message)
                },
                _ => self.unexpected(),
            },
            LaunchPhase::DescriptorRecheck => match event {
                LaunchEvent::Exists(present) => {
                    let path = self.descriptor_path();
                    if present {
                        self.phase = LaunchPhase::Load;
                        LaunchAction::Load { path }
                    } else {
                        self.fail(
                            LaunchPlan::not_found("Version JSON not found at path: ", path.as_str()),
                        )
                    }
                },
                _ => self.unexpected(),
            },
            LaunchPhase::Load => match event {
                LaunchEvent::Loaded(version) => {
                    let path = self.jar_path();
                    self.phase = LaunchPhase::Jar;
                    self.version = Some(version);
                    LaunchAction::Probe { path }
                },
                LaunchEvent::ReadFailed(m) => {
                    let path = self.descriptor_path();
                    self.fail(
                        LaunchPlan::describe(
                            "Failed to read version JSON at ",
                            path.as_str(),
                            m.as_str(),
                        ),
                    )
                },
                LaunchEvent::ParseFailed(m) => {
                    let path = self.descriptor_path();
                    self.fail(
                        LaunchPlan::describe(
                            "Failed to parse version JSON at ",
                            path.as_str(),
                            m.as_str(),
                        ),
                    )
                },
                _ => self.unexpected(),
            },
            LaunchPhase::Jar => match event {
                LaunchEvent::Exists(present) => if present {
                    self.begin()
                } else {
                    self.recover_jar()
                },
                _ => self.unexpected(),
            },
            LaunchPhase::JarRecovery => match event {
                LaunchEvent::Recovered => {
                    let path = self.jar_path();
                    self.phase = LaunchPhase::JarRecheck;
                    LaunchAction::Probe { path }
                },
                LaunchEvent::RecoveryFailed(m) => {
                    let message = self.jar_recovery_failure(m.as_str());
                    self.fail(message)
                },
                _ => self.unexpected(),
            },
            LaunchPhase::JarRecheck => match event {
                LaunchEvent::Exists(present) => if present {
                    self.begin()
                } else {
                    let path = self.jar_path();
                    self.fail(LaunchPlan::not_found("Client JAR not found at path: ", path.as_str()))
                },
                _ => self.unexpected(),
            },
            LaunchPhase::Spawn => match event {
                LaunchEvent::Spawned => {
                    let mut record = self.instance.clone();
                    record.mark_started(self.now);
                    self.phase = LaunchPhase::Record;
                    LaunchAction::Record { record }
                },
                LaunchEvent::SpawnFailed(m) => {
                    let mut record = self.instance.clone();
                    record.set_state(InstanceState::Error);
                    self.phase = LaunchPhase::Finished;
                    LaunchAction::Fail { message: m, record: Some(record) }
                },
                _ => self.unexpected(),
            },
            LaunchPhase::Record => match event {
                LaunchEvent::Recorded => {
                    self.phase = LaunchPhase::Finished;
                    LaunchAction::Done { supervise: !self.settings.close_on_launch }
                },
                LaunchEvent::PersistFailed(m) => {
                    self.phase = LaunchPhase::Finished;
                    LaunchAction::Abort { message: m }
                },
                _ => self.unexpected(),
            },
            LaunchPhase::Finished => self.unexpected(),
        }
    }
}

/// A process is only started once the description of its version is loaded
/// and its client jar was seen on disk.
pub proof fn lemma_start_needs_files(plan: LaunchPlanView, event: LaunchEventView)
    requires
        plan.step(event).1 is Start,
    ensures
        plan.version is Some,
        plan.phase == LaunchPhase::Jar || plan.phase == LaunchPhase::JarRecheck,
        event == LaunchEventView::Exists(true),
{
}

/// The record that says `Running` is only handed out on the report that
/// the process runs, and no other action carries a record that says so.
pub proof fn lemma_running_follows_spawn(plan: LaunchPlanView, event: LaunchEventView)
    ensures
        plan.step(event).1 matches LaunchActionView::Record { record } ==> plan.phase
            == LaunchPhase::Spawn && event == LaunchEventView::Spawned && record
            == plan.instance.started(plan.now) && record.state == InstanceState::Running,
        plan.step(event).1 matches LaunchActionView::Fail { record: Some(record), .. }
            ==> record.state == InstanceState::Error,
{
}

/// A process that could not be started never reaches `Running`: the launch
/// ends at once with the failure, the record that goes with it says
/// `Error`, and whatever is reported afterwards leads to no record, no
/// start and no good end.
pub proof fn lemma_spawn_failure_is_an_error(
    plan: LaunchPlanView,
    message: Seq<char>,
    later: LaunchEventView,
)
    requires
        plan.phase == LaunchPhase::Spawn,
    ensures
        plan.step(LaunchEventView::SpawnFailed(message)).1 == (LaunchActionView::Fail {
            message,
            record: Some(plan.instance.in_state(InstanceState::Error)),
        }),
        plan.step(LaunchEventView::SpawnFailed(message)).0.phase == LaunchPhase::Finished,
        plan.step(LaunchEventView::SpawnFailed(message)).0.step(later).1 == (
        LaunchActionView::Fail { message: "unexpected event during launch"@, record: None }),
{
}

/// A launch only ends well after the process was started and recorded as
/// running.
pub proof fn lemma_done_means_spawned(plan: LaunchPlanView, event: LaunchEventView)
    requires
        plan.step(event).1 is Done,
    ensures
        plan.phase == LaunchPhase::Record,
        event == LaunchEventView::Recorded,
{
}

/// The record is only waited for after the process was started: nothing
/// but the report that it runs leads there.
pub proof fn lemma_record_follows_spawn(plan: LaunchPlanView, event: LaunchEventView)
    requires
        plan.step(event).0.phase == LaunchPhase::Record,
    ensures
        plan.phase == LaunchPhase::Spawn,
        event == LaunchEventView::Spawned,
{
}

/// A process whose record cannot be written is ended: the launch does not
/// end well, and nothing is supervised.
pub proof fn lemma_unrecorded_process_is_ended(plan: LaunchPlanView, message: Seq<char>)
    requires
        plan.phase == LaunchPhase::Record,
    ensures
        plan.step(LaunchEventView::PersistFailed(message)) == plan.moved(
            LaunchPhase::Finished,
            LaunchActionView::Abort { message },
        ),
{
}

/// Each missing file is recovered at most once: if it is still missing
/// after the recovery, the launch fails.
pub proof fn lemma_single_recovery(plan: LaunchPlanView)
    requires
        plan.phase == LaunchPhase::DescriptorRecheck || plan.phase == LaunchPhase::JarRecheck,
    ensures
        plan.step(LaunchEventView::Exists(false)).1 is Fail,
        plan.step(LaunchEventView::Exists(false)).0.phase == LaunchPhase::Finished,
{
}

} // verus!
