//! Putting a downloaded loader version into an instance, as a state
//! machine.
//!
//! The files of the version are fetched into the instance and the loader is
//! recorded. If the files bring an installer, it is run, the installation is
//! checked, and the derived version is installed where the check went well.
//! Without an installer the installation is only checked.
//!
//! ```text
//! Version -> Files -> Record -> Scan --installer--> Instance -> Installer -> Verify -> Derive
//!                                  | none                                        |
//!                                  +--> Verify -> Finished                       +--> Finished
//! ```

use vstd::prelude::*;
use vstd::string::StringExecFns;
use crate::choice::{first_some, lemma_first_some_at, lemma_first_some_none};
use crate::instance::Instance;
use crate::loader::{
    checked_loader, downloaded_loader_type, is_installer_name, normalized_loader,
    verified_loader_type, LoaderInstalled,
};
use crate::modrinth::{ModrinthFile, ModrinthFileView, ModrinthVersion};
use crate::text::{contains, has_substring, lowercase, to_lowercase};

verus! {

/// What the installation is waiting for.
#[derive(Debug, Clone, Copy, PartialEq, Eq, Structural)]
pub enum DownloadPhase {
    /// The version, as the registry describes it.
    Version,
    /// The files of the version.
    Files,
    /// The record of the instance, updated.
    Record,
    /// The names of the files that are there.
    Scan,
    /// The record of the instance.
    Instance,
    /// The installer, run to its end.
    Installer,
    /// Whether the loader shows in the installation, after the installer.
    Verify,
    /// Whether the loader shows in the installation, without installer.
    Check,
    /// The derived version, installed.
    Derive,
    /// Nothing: it has ended.
    Finished,
}

/// An installation in progress.
#[derive(Debug)]
pub struct LoaderDownload {
    pub instance_id: String,
    pub project_id: String,
    pub version_id: String,
    pub phase: DownloadPhase,
    /// The loaders that the version names.
    pub loaders: Vec<String>,
    /// The number of the version, as the loader counts.
    pub version_number: String,
    /// The installer among the files, once one is found.
    pub installer: String,
    /// The base version of the instance, once its record is read.
    pub base_version: String,
}

/// What a `LoaderDownload` holds, as plain values.
pub struct LoaderDownloadView {
    pub instance_id: Seq<char>,
    pub project_id: Seq<char>,
    pub version_id: Seq<char>,
    pub phase: DownloadPhase,
    pub loaders: Seq<Seq<char>>,
    pub version_number: Seq<char>,
    pub installer: Seq<char>,
    pub base_version: Seq<char>,
}

impl DeepView for LoaderDownload {
    type V = LoaderDownloadView;

    open spec fn deep_view(&self) -> LoaderDownloadView {
        LoaderDownloadView {
            instance_id: self.instance_id@,
            project_id: self.project_id@,
            version_id: self.version_id@,
            phase: self.phase,
            loaders: self.loaders.deep_view(),
            version_number: self.version_number@,
            installer: self.installer@,
            base_version: self.base_version@,
        }
    }
}

/// What the driver reports.
#[derive(Debug)]
pub enum DownloadEvent {
    /// The version.
    Version(ModrinthVersion),
    /// The version could not be had.
    VersionFailed(String),
    /// The files are fetched.
    FilesFetched,
    /// A file could not be fetched.
    FileFailed(String),
    /// The record was updated, or could not be: it does not matter which.
    Recorded,
    /// The names of the files in the loader's directory.
    Scanned(Vec<String>),
    /// The directory could not be read.
    ScanFailed(String),
    /// The record of the instance.
    InstanceRead(Instance),
    /// The record of the instance could not be read.
    InstanceUnreadable(String),
    /// The installer has ended, or could not be started.
    InstallerRan,
    /// Whether the loader shows in the installation.
    Verified(bool),
    /// The derived version is installed, or could not be.
    Derived,
}

/// What a `DownloadEvent` holds, as plain values: of a version its
/// loaders, its number and its files, of an instance its recorded version.
pub enum DownloadEventView {
    Version { loaders: Seq<Seq<char>>, version_number: Seq<char>, files: Seq<ModrinthFileView> },
    VersionFailed(Seq<char>),
    FilesFetched,
    FileFailed(Seq<char>),
    Recorded,
    Scanned(Seq<Seq<char>>),
    ScanFailed(Seq<char>),
    InstanceRead { version: Seq<char> },
    InstanceUnreadable(Seq<char>),
    InstallerRan,
    Verified(bool),
    Derived,
}

impl DeepView for DownloadEvent {
    type V = DownloadEventView;

    open spec fn deep_view(&self) -> DownloadEventView {
        match self {
            DownloadEvent::Version(v) => DownloadEventView::Version {
                loaders: v.loaders.deep_view(),
                version_number: v.version_number@,
                files: v.files.deep_view(),
            },
            DownloadEvent::VersionFailed(m) => DownloadEventView::VersionFailed(m@),
            DownloadEvent::FilesFetched => DownloadEventView::FilesFetched,
            DownloadEvent::FileFailed(m) => DownloadEventView::FileFailed(m@),
            DownloadEvent::Recorded => DownloadEventView::Recorded,
            DownloadEvent::Scanned(names) => DownloadEventView::Scanned(names.deep_view()),
            DownloadEvent::ScanFailed(m) => DownloadEventView::ScanFailed(m@),
            DownloadEvent::InstanceRead(i) => DownloadEventView::InstanceRead {
                version: i.version@,
            },
            DownloadEvent::InstanceUnreadable(m) => DownloadEventView::InstanceUnreadable(m@),
            DownloadEvent::InstallerRan => DownloadEventView::InstallerRan,
            DownloadEvent::Verified(b) => DownloadEventView::Verified(*b),
            DownloadEvent::Derived => DownloadEventView::Derived,
        }
    }
}

/// How an installation is checked.
#[derive(Debug)]
pub enum Check {
    /// By the descriptions under which the Fabric loader `loader_version`
    /// may be installed for the base version `base_version`.
    Fabric { base_version: String, loader_version: String },
    /// By the names of version directories and library files that show the
    /// loader of `project`.
    Names { project: String },
}

/// What a `Check` holds, as plain values.
pub enum CheckView {
    Fabric { base_version: Seq<char>, loader_version: Seq<char> },
    Names { project: Seq<char> },
}

impl DeepView for Check {
    type V = CheckView;

    open spec fn deep_view(&self) -> CheckView {
        match self {
            Check::Fabric { base_version, loader_version } => CheckView::Fabric {
                base_version: base_version@,
                loader_version: loader_version@,
            },
            Check::Names { project } => CheckView::Names { project: project@ },
        }
    }
}

/// What the driver is to do next.
#[derive(Debug)]
pub enum DownloadAction {
    /// Ask the registry for the version and report `Version` or
    /// `VersionFailed`.
    FetchVersion { version_id: String },
    /// Fetch these files into the loader's directory in the instance, in
    /// order, and report `FilesFetched` or `FileFailed`.
    FetchFiles { files: Vec<ModrinthFile> },
    /// Record the loader and its version in the instance's record, if the
    /// record can be read and written, and report `Recorded`.
    RecordLoader { loader_type: String, loader_version: String },
    /// Tell the names of the files in the loader's directory and report
    /// `Scanned` or `ScanFailed`.
    ListFiles,
    /// Read the record of the instance and report `InstanceRead` or
    /// `InstanceUnreadable`.
    ReadInstance,
    /// Answer the caller, then run the installer `installer` for the base
    /// version and the loader version, without questions, and report
    /// `InstallerRan` when it has ended. What follows happens behind the
    /// caller's back.
    RunInstaller { installer: String, base_version: String, loader_version: String },
    /// Check the installation as `check` says and report `Verified`.
    Verify { check: Check },
    /// Announce `report`, then install the derived version of the loader
    /// and report `Derived`.
    Derive { report: LoaderInstalled, loader_type: String, base_version: String, version: String },
    /// Announce `report`; that is all.
    Done { report: Option<LoaderInstalled> },
    /// The installation failed.
    Fail(String),
}

/// What a `LoaderInstalled` holds, as plain values.
pub struct LoaderInstalledView {
    pub instance_id: Seq<char>,
    pub project_id: Seq<char>,
    pub version_id: Seq<char>,
    pub success: bool,
}

impl DeepView for LoaderInstalled {
    type V = LoaderInstalledView;

    open spec fn deep_view(&self) -> LoaderInstalledView {
        LoaderInstalledView {
            instance_id: self.instance_id@,
            project_id: self.project_id@,
            version_id: self.version_id@,
            success: self.success,
        }
    }
}

/// What a `DownloadAction` holds, as plain values.
pub enum DownloadActionView {
    FetchVersion { version_id: Seq<char> },
    FetchFiles { files: Seq<ModrinthFileView> },
    RecordLoader { loader_type: Seq<char>, loader_version: Seq<char> },
    ListFiles,
    ReadInstance,
    RunInstaller { installer: Seq<char>, base_version: Seq<char>, loader_version: Seq<char> },
    Verify { check: CheckView },
    Derive {
        report: LoaderInstalledView,
        loader_type: Seq<char>,
        base_version: Seq<char>,
        version: Seq<char>,
    },
    Done { report: Option<LoaderInstalledView> },
    Fail(Seq<char>),
}

impl DeepView for DownloadAction {
    type V = DownloadActionView;

    open spec fn deep_view(&self) -> DownloadActionView {
        match self {
            DownloadAction::FetchVersion { version_id } => DownloadActionView::FetchVersion {
                version_id: version_id@,
            },
            DownloadAction::FetchFiles { files } => DownloadActionView::FetchFiles {
                files: files.deep_view(),
            },
            DownloadAction::RecordLoader {
                loader_type,
                loader_version,
            } => DownloadActionView::RecordLoader {
                loader_type: loader_type@,
                loader_version: loader_version@,
            },
            DownloadAction::ListFiles => DownloadActionView::ListFiles,
            DownloadAction::ReadInstance => DownloadActionView::ReadInstance,
            DownloadAction::RunInstaller {
                installer,
                base_version,
                loader_version,
            } => DownloadActionView::RunInstaller {
                installer: installer@,
                base_version: base_version@,
                loader_version: loader_version@,
            },
            DownloadAction::Verify { check } => DownloadActionView::Verify {
                check: check.deep_view(),
            },
            DownloadAction::Derive {
                report,
                loader_type,
                base_version,
                version,
            } => DownloadActionView::Derive {
                report: report.deep_view(),
                loader_type: loader_type@,
                base_version: base_version@,
                version: version@,
            },
            DownloadAction::Done { report } => DownloadActionView::Done {
                report: report.deep_view(),
            },
            DownloadAction::Fail(m) => DownloadActionView::Fail(m@),
        }
    }
}

/// For each name, itself if it marks an installer.
pub open spec fn installer_marks(names: Seq<Seq<char>>) -> Seq<Option<Seq<char>>> {
    Seq::new(
        names.len(),
        |i: int|
            if has_substring(lowercase(names[i]), "installer"@) {
                Some(names[i])
            } else {
                None
            },
    )
}

impl LoaderDownloadView {
    /// It goes on in `phase` with this action.
    pub open spec fn moved(self, phase: DownloadPhase, action: DownloadActionView) -> (
        LoaderDownloadView,
        DownloadActionView,
    ) {
        (LoaderDownloadView { phase, ..self }, action)
    }

    /// It ended with this message.
    pub open spec fn failed(self, message: Seq<char>) -> (LoaderDownloadView, DownloadActionView) {
        self.moved(DownloadPhase::Finished, DownloadActionView::Fail(message))
    }

    /// The loader that is recorded for the instance.
    pub open spec fn recorded_loader(self) -> Seq<char> {
        if self.loaders.len() > 0 {
            normalized_loader(self.loaders[0])
        } else {
            self.project_id
        }
    }

    /// The loader whose installation is checked after the installer.
    pub open spec fn checked_loader(self) -> Seq<char> {
        if self.loaders.len() > 0 {
            checked_loader(lowercase(self.loaders[0]), self.loaders[0])
        } else {
            self.project_id
        }
    }

    /// How the installation is checked after the installer: as a Fabric
    /// installation where the loader's name holds `fabric` in any case,
    /// else by names.
    pub open spec fn check_after_installer(self) -> CheckView {
        if has_substring(lowercase(self.checked_loader()), "fabric"@) {
            CheckView::Fabric {
                base_version: self.base_version,
                loader_version: self.version_number,
            }
        } else {
            CheckView::Names { project: self.checked_loader() }
        }
    }

    /// What is announced about the installation.
    pub open spec fn report(self, version_id: Seq<char>, success: bool) -> LoaderInstalledView {
        LoaderInstalledView {
            instance_id: self.instance_id,
            project_id: self.project_id,
            version_id,
            success,
        }
    }

    /// What the installation does on an event.
    pub open spec fn step(self, event: DownloadEventView) -> (
        LoaderDownloadView,
        DownloadActionView,
    ) {
        match (self.phase, event) {
            (
                DownloadPhase::Version,
                DownloadEventView::Version { loaders, version_number, files },
            ) => (
                LoaderDownloadView {
                    phase: DownloadPhase::Files,
                    loaders,
                    version_number,
                    ..self
                },
                DownloadActionView::FetchFiles { files },
            ),
            (DownloadPhase::Version, DownloadEventView::VersionFailed(m)) => self.failed(m),
            (DownloadPhase::Files, DownloadEventView::FilesFetched) => self.moved(
                DownloadPhase::Record,
                DownloadActionView::RecordLoader {
                    loader_type: self.recorded_loader(),
                    loader_version: self.version_number,
                },
            ),
            (DownloadPhase::Files, DownloadEventView::FileFailed(m)) => self.failed(m),
            (DownloadPhase::Record, DownloadEventView::Recorded) => self.moved(
                DownloadPhase::Scan,
                DownloadActionView::ListFiles,
            ),
            (DownloadPhase::Scan, DownloadEventView::Scanned(names)) => match first_some(
                installer_marks(names),
            ) {
                Some(installer) => (
                    LoaderDownloadView { phase: DownloadPhase::Instance, installer, ..self },
                    DownloadActionView::ReadInstance,
                ),
                None => self.moved(
                    DownloadPhase::Check,
                    DownloadActionView::Verify {
                        check: CheckView::Names { project: self.recorded_loader() },
                    },
                ),
            },
            (DownloadPhase::Scan, DownloadEventView::ScanFailed(m)) => self.failed(m),
            (DownloadPhase::Instance, DownloadEventView::InstanceRead { version }) => (
                LoaderDownloadView {
                    phase: DownloadPhase::Installer,
                    base_version: version,
                    ..self
                },
                DownloadActionView::RunInstaller {
                    installer: self.installer,
                    base_version: version,
                    loader_version: self.version_number,
                },
            ),
            (DownloadPhase::Instance, DownloadEventView::InstanceUnreadable(m)) => self.failed(m),
            (DownloadPhase::Installer, DownloadEventView::InstallerRan) => self.moved(
                DownloadPhase::Verify,
                DownloadActionView::Verify { check: self.check_after_installer() },
            ),
            (DownloadPhase::Verify, DownloadEventView::Verified(success)) => if success {
                self.moved(
                    DownloadPhase::Derive,
                    DownloadActionView::Derive {
                        report: self.report(self.version_number, true),
                        loader_type: self.checked_loader(),
                        base_version: self.base_version,
                        version: self.version_number,
                    },
                )
            } else {
                self.moved(
                    DownloadPhase::Finished,
                    DownloadActionView::Done {
                        report: Some(self.report(self.version_number, false)),
                    },
                )
            },
            (DownloadPhase::Check, DownloadEventView::Verified(success)) => self.moved(
                DownloadPhase::Finished,
                DownloadActionView::Done { report: Some(self.report(self.version_id, success)) },
            ),
            (DownloadPhase::Derive, DownloadEventView::Derived) => self.moved(
                DownloadPhase::Finished,
                DownloadActionView::Done { report: None },
            ),
            _ => self.failed("unexpected event during loader download"@),
        }
    }
}

/// The first of the names that marks an installer.
#[verifier::loop_isolation(false)]
pub fn find_installer(names: &Vec<String>) -> (r: Option<String>)
    ensures
        r.deep_view() == first_some(installer_marks(names.deep_view())),
{
    let ghost all = names.deep_view();
    let mut i: usize = 0;
    while i < names.len()
        invariant
            i <= names.len(),
            forall|k: int| 0 <= k < i ==> installer_marks(all)[k] is None,
        decreases names.len() - i,
    {
        assert(all[i as int] == names@[i as int]@);
        if is_installer_name(names[i].as_str()) {
            proof {
                lemma_first_some_at(installer_marks(all), i as int);
            }
            return Some(names[i].clone());
        }
        i += 1;
    }
    proof {
        lemma_first_some_none(installer_marks(all));
    }
    None
}

impl LoaderDownload {
    /// Begins to put the version `version_id` of the loader project
    /// `project_id` into the instance `instance_id`: the version is asked
    /// for first.
    pub fn start(instance_id: String, project_id: String, version_id: String) -> (r: (
        LoaderDownload,
        DownloadAction,
    ))
        ensures
            r.0.deep_view() == (LoaderDownloadView {
                instance_id: instance_id@,
                project_id: project_id@,
                version_id: version_id@,
                phase: DownloadPhase::Version,
                loaders: Seq::empty(),
                version_number: Seq::empty(),
                installer: Seq::empty(),
                base_version: Seq::empty(),
            }),
            r.1.deep_view() == (DownloadActionView::FetchVersion { version_id: version_id@ }),
    {
        let asked = version_id.clone();
        let machine = LoaderDownload {
            instance_id,
            project_id,
            version_id,
            phase: DownloadPhase::Version,
            loaders: Vec::new(),
            version_number: String::new(),
            installer: String::new(),
            base_version: String::new(),
        };
        assert(machine.loaders.deep_view() =~= Seq::empty());
        (machine, DownloadAction::FetchVersion { version_id: asked })
    }

    fn fail(&mut self, message: String) -> (action: DownloadAction)
        ensures
            (final(self).deep_view(), action.deep_view()) == old(self).deep_view().failed(
                message@,
            ),
    {
        self.phase = DownloadPhase::Finished;
        DownloadAction::Fail(message)
    }

    fn unexpected(&mut self) -> (action: DownloadAction)
        ensures
            (final(self).deep_view(), action.deep_view()) == old(self).deep_view().failed(
                "unexpected event during loader download"@,
            ),
    {
        self.fail(String::from_str("unexpected event during loader download"))
    }

    fn recorded_loader(&self) -> (r: String)
        ensures
            r@ == self.deep_view().recorded_loader(),
    {
        proof {
            if self.loaders@.len() > 0 {
                assert(self.loaders.deep_view()[0] == self.loaders@[0]@);
            }
        }
        downloaded_loader_type(&self.loaders, self.project_id.as_str())
    }

    fn checked_loader(&self) -> (r: String)
        ensures
            r@ == self.deep_view().checked_loader(),
    {
        proof {
            if self.loaders@.len() > 0 {
                assert(self.loaders.deep_view()[0] == self.loaders@[0]@);
            }
        }
        verified_loader_type(&self.loaders, self.project_id.as_str())
    }

    fn report(&self, version_id: &str, success: bool) -> (r: LoaderInstalled)
        ensures
            r.deep_view() == self.deep_view().report(version_id@, success),
    {
        LoaderInstalled {
            instance_id: self.instance_id.clone(),
            project_id: self.project_id.clone(),
            version_id: String::from_str(version_id),
            success,
        }
    }

    fn check_after_installer(&self) -> (check: Check)
        ensures
            check.deep_view() == self.deep_view().check_after_installer(),
    {
        let name = self.checked_loader();
        let lower = to_lowercase(name.as_str());
        if contains(lower.as_str(), "fabric") {
            Check::Fabric {
                base_version: self.base_version.clone(),
                loader_version: self.version_number.clone(),
            }
        } else {
            Check::Names { project: name }
        }
    }

    /// Takes up what the driver reports and hands out the next action.
    pub fn step(&mut self, event: DownloadEvent) -> (action: DownloadAction)
        ensures
            (final(self).deep_view(), action.deep_view()) == old(self).deep_view().step(
                event.deep_view(),
            ),
    {
        match self.phase {
            DownloadPhase::Version => match event {
                DownloadEvent::Version(version) => {
                    self.phase = DownloadPhase::Files;
                    self.loaders = version.loaders;
                    self.version_number = version.version_number;
                    DownloadAction::FetchFiles { files: version.files }
                },
                DownloadEvent::VersionFailed(m) => self.fail(m),
                _ => self.unexpected(),
            },
            DownloadPhase::Files => match event {
                DownloadEvent::FilesFetched => {
                    let loader_type = self.recorded_loader();
                    self.phase = DownloadPhase::Record;
                    DownloadAction::RecordLoader {
                        loader_type,
                        loader_version: self.version_number.clone(),
                    }
                },
                DownloadEvent::FileFailed(m) => self.fail(m),
                _ => self.unexpected(),
            },
            DownloadPhase::Record => match event {
                DownloadEvent::Recorded => {
                    self.phase = DownloadPhase::Scan;
                    DownloadAction::ListFiles
                },
                _ => self.unexpected(),
            },
            DownloadPhase::Scan => match event {
                DownloadEvent::Scanned(names) => match find_installer(&names) {
                    Some(installer) => {
                        self.phase = DownloadPhase::Instance;
                        self.installer = installer;
                        DownloadAction::ReadInstance
                    },
                    None => {
                        let project = self.recorded_loader();
                        self.phase = DownloadPhase::Check;
                        DownloadAction::Verify { check: Check::Names { project } }
                    },
                },
                DownloadEvent::ScanFailed(m) => self.fail(m),
                _ => self.unexpected(),
            },
            DownloadPhase::Instance => match event {
                DownloadEvent::InstanceRead(instance) => {
                    self.phase = DownloadPhase::Installer;
                    self.base_version = instance.version.clone();
                    DownloadAction::RunInstaller {
                        installer: self.installer.clone(),
                        base_version: instance.version,
                        loader_version: self.version_number.clone(),
                    }
                },
                DownloadEvent::InstanceUnreadable(m) => self.fail(m),
                _ => self.unexpected(),
            },
            DownloadPhase::Installer => match event {
                DownloadEvent::InstallerRan => {
                    let check = self.check_after_installer();
                    self.phase = DownloadPhase::Verify;
                    DownloadAction::Verify { check }
                },
                _ => self.unexpected(),
            },
            DownloadPhase::Verify => match event {
                DownloadEvent::Verified(success) => {
                    let report = self.report(self.version_number.as_str(), success);
                    if success {
                        let loader_type = self.checked_loader();
                        self.phase = DownloadPhase::Derive;
                        DownloadAction::Derive {
                            report,
                            loader_type,
                            base_version: self.base_version.clone(),
                            version: self.version_number.clone(),
                        }
                    } else {
                        self.phase = DownloadPhase::Finished;
                        DownloadAction::Done { report: Some(report) }
                    }
                },
                _ => self.unexpected(),
            },
            DownloadPhase::Check => match event {
                DownloadEvent::Verified(success) => {
                    let report = self.report(self.version_id.as_str(), success);
                    self.phase = DownloadPhase::Finished;
                    DownloadAction::Done { report: Some(report) }
                },
                _ => self.unexpected(),
            },
            DownloadPhase::Derive => match event {
                DownloadEvent::Derived => {
                    self.phase = DownloadPhase::Finished;
                    DownloadAction::Done { report: None }
                },
                _ => self.unexpected(),
            },
            DownloadPhase::Finished => self.unexpected(),
        }
    }
}

/// The derived version is only installed after the installation was
/// checked and found well, and the announcement that goes with it says so.
pub proof fn lemma_derive_follows_success(state: LoaderDownloadView, event: DownloadEventView)
    requires
        state.step(event).1 is Derive,
    ensures
        state.phase == DownloadPhase::Verify,
        event == DownloadEventView::Verified(true),
        state.step(event).1->Derive_report.success,
        state.step(event).1->Derive_version == state.version_number,
{
}

/// Without an installer nothing is run: the installation is checked by
/// names, and what is announced is what the check found.
pub proof fn lemma_without_installer_only_checked(
    state: LoaderDownloadView,
    names: Seq<Seq<char>>,
    success: bool,
)
    requires
        state.phase == DownloadPhase::Scan,
        first_some(installer_marks(names)) is None,
    ensures
        state.step(DownloadEventView::Scanned(names)).1 == (DownloadActionView::Verify {
            check: CheckView::Names { project: state.recorded_loader() },
        }),
        state.step(DownloadEventView::Scanned(names)).0.step(
            DownloadEventView::Verified(success),
        ).1 == (DownloadActionView::Done { report: Some(state.report(state.version_id, success)) }),
{
}

} // verus!
