//! Installing a loader for a pack, as a state machine: a version is chosen
//! from what the loader offers, installed, and confirmed on disk; where it
//! cannot be confirmed, the other offered versions are tried in turn.
//!
//! ```text
//! Stable --failed--> Any
//!    |                |
//!    +-------+--------+
//!            v
//!         Install --> Confirm --confirmed--> Finished
//!                        | not confirmed
//!                        v
//!                    AltInstall <--> AltConfirm --confirmed--> Finished
//!                        | nothing left
//!                        v
//!                     Finished (with the first installation)
//! ```

use vstd::prelude::*;
use vstd::string::StringExecFns;
use crate::loader::{alternative_at, choose_target_version, next_alternative, target_version};

verus! {

/// What the installation is waiting for.
#[derive(Debug, Clone, Copy, PartialEq, Eq, Structural)]
pub enum RobustPhase {
    /// The stable versions that the loader offers.
    Stable,
    /// All versions that the loader offers.
    Any,
    /// The installation of the chosen version.
    Install,
    /// Whether that installation shows on disk.
    Confirm,
    /// The installation of another version.
    AltInstall,
    /// Whether that installation shows on disk.
    AltConfirm,
    /// Nothing: it has ended.
    Finished,
}

/// An installation in progress.
#[derive(Debug)]
pub struct RobustInstall {
    pub loader_type: String,
    pub base_version: String,
    /// The version that the pack asks for, if it asks for one.
    pub requested: Option<String>,
    pub phase: RobustPhase,
    /// The versions that the loader offers.
    pub versions: Vec<String>,
    /// The version that was chosen.
    pub target: String,
    /// The derived version and the loader version of the first
    /// installation.
    pub first_id: String,
    pub first_version: String,
    /// Those of the installation that is being confirmed.
    pub latest_id: String,
    pub latest_version: String,
    /// Where the next version to try is looked for.
    pub next: usize,
}

/// What a `RobustInstall` holds, as plain values.
pub struct RobustInstallView {
    pub loader_type: Seq<char>,
    pub base_version: Seq<char>,
    pub requested: Option<Seq<char>>,
    pub phase: RobustPhase,
    pub versions: Seq<Seq<char>>,
    pub target: Seq<char>,
    pub first_id: Seq<char>,
    pub first_version: Seq<char>,
    pub latest_id: Seq<char>,
    pub latest_version: Seq<char>,
    pub next: usize,
}

impl DeepView for RobustInstall {
    type V = RobustInstallView;

    open spec fn deep_view(&self) -> RobustInstallView {
        RobustInstallView {
            loader_type: self.loader_type@,
            base_version: self.base_version@,
            requested: self.requested.deep_view(),
            phase: self.phase,
            versions: self.versions.deep_view(),
            target: self.target@,
            first_id: self.first_id@,
            first_version: self.first_version@,
            latest_id: self.latest_id@,
            latest_version: self.latest_version@,
            next: self.next,
        }
    }
}

/// What the driver reports.
#[derive(Debug)]
pub enum RobustEvent {
    /// The versions that the loader offers.
    Versions(Vec<String>),
    /// The versions could not be had.
    VersionsFailed(String),
    /// The loader is installed as the derived version `derived_id`, in the
    /// version `version`.
    Installed { derived_id: String, version: String },
    /// The loader could not be installed.
    InstallFailed(String),
    /// Whether the installation shows on disk.
    Confirmed(bool),
}

/// What a `RobustEvent` holds, as plain values.
pub enum RobustEventView {
    Versions(Seq<Seq<char>>),
    VersionsFailed(Seq<char>),
    Installed { derived_id: Seq<char>, version: Seq<char> },
    InstallFailed(Seq<char>),
    Confirmed(bool),
}

impl DeepView for RobustEvent {
    type V = RobustEventView;

    open spec fn deep_view(&self) -> RobustEventView {
        match self {
            RobustEvent::Versions(v) => RobustEventView::Versions(v.deep_view()),
            RobustEvent::VersionsFailed(m) => RobustEventView::VersionsFailed(m@),
            RobustEvent::Installed { derived_id, version } => RobustEventView::Installed {
                derived_id: derived_id@,
                version: version@,
            },
            RobustEvent::InstallFailed(m) => RobustEventView::InstallFailed(m@),
            RobustEvent::Confirmed(b) => RobustEventView::Confirmed(*b),
        }
    }
}

/// What the driver is to do next.
#[derive(Debug)]
pub enum RobustAction {
    /// Ask which versions the loader offers, the stable ones only or all,
    /// and report `Versions` or `VersionsFailed`.
    ListVersions { include_beta: bool },
    /// Install the loader in `version` and report `Installed` or
    /// `InstallFailed`.
    Install { version: String },
    /// Look whether the installation of `version` shows on disk and report
    /// `Confirmed`.
    Confirm { version: String },
    /// The loader is installed as the derived version `derived_id`, in the
    /// version `version`.
    Done { derived_id: String, version: String },
    /// The installation failed.
    Fail(String),
}

/// What a `RobustAction` holds, as plain values.
pub enum RobustActionView {
    ListVersions { include_beta: bool },
    Install { version: Seq<char> },
    Confirm { version: Seq<char> },
    Done { derived_id: Seq<char>, version: Seq<char> },
    Fail(Seq<char>),
}

impl DeepView for RobustAction {
    type V = RobustActionView;

    open spec fn deep_view(&self) -> RobustActionView {
        match self {
            RobustAction::ListVersions { include_beta } => RobustActionView::ListVersions {
                include_beta: *include_beta,
            },
            RobustAction::Install { version } => RobustActionView::Install { version: version@ },
            RobustAction::Confirm { version } => RobustActionView::Confirm { version: version@ },
            RobustAction::Done { derived_id, version } => RobustActionView::Done {
                derived_id: derived_id@,
                version: version@,
            },
            RobustAction::Fail(m) => RobustActionView::Fail(m@),
        }
    }
}

impl RobustInstallView {
    /// It goes on in `phase` with this action.
    pub open spec fn moved(self, phase: RobustPhase, action: RobustActionView) -> (
        RobustInstallView,
        RobustActionView,
    ) {
        (RobustInstallView { phase, ..self }, action)
    }

    /// It ended with this message.
    pub open spec fn failed(self, message: Seq<char>) -> (RobustInstallView, RobustActionView) {
        self.moved(RobustPhase::Finished, RobustActionView::Fail(message))
    }

    /// What is said when the offered versions cannot be had.
    pub open spec fn no_list(self, cause: Seq<char>) -> Seq<char> {
        "Failed to get "@ + self.loader_type + " versions for MC "@ + self.base_version + ": "@
            + cause
    }

    /// What is said when nothing is offered.
    pub open spec fn nothing_offered(self) -> Seq<char> {
        "No "@ + self.loader_type + " versions available for Minecraft "@ + self.base_version
    }

    /// What is said when the chosen version cannot be installed.
    pub open spec fn not_installed(self, cause: Seq<char>) -> Seq<char> {
        "Failed to install "@ + self.loader_type + " "@ + self.target + ": "@ + cause
    }

    /// The offered versions came in: one is chosen and installed.
    pub open spec fn after_versions(self, versions: Seq<Seq<char>>) -> (
        RobustInstallView,
        RobustActionView,
    ) {
        match target_version(versions, self.requested) {
            Some(target) => (
                RobustInstallView { phase: RobustPhase::Install, versions, target, ..self },
                RobustActionView::Install { version: target },
            ),
            None => (
                RobustInstallView { phase: RobustPhase::Finished, versions, ..self },
                RobustActionView::Fail(self.nothing_offered()),
            ),
        }
    }

    /// Another offered version is tried; where none is left, the first
    /// installation is taken as it is.
    pub open spec fn try_next(self) -> (RobustInstallView, RobustActionView) {
        match alternative_at(self.versions, self.first_version, self.next as int) {
            Some(at) => (
                RobustInstallView {
                    phase: RobustPhase::AltInstall,
                    next: (at + 1) as usize,
                    ..self
                },
                RobustActionView::Install { version: self.versions[at] },
            ),
            None => self.moved(
                RobustPhase::Finished,
                RobustActionView::Done { derived_id: self.first_id, version: self.first_version },
            ),
        }
    }

    /// What the installation does on an event.
    pub open spec fn step(self, event: RobustEventView) -> (RobustInstallView, RobustActionView) {
        match (self.phase, event) {
            (RobustPhase::Stable, RobustEventView::Versions(versions)) => self.after_versions(
                versions,
            ),
            (RobustPhase::Stable, RobustEventView::VersionsFailed(_)) => self.moved(
                RobustPhase::Any,
                RobustActionView::ListVersions { include_beta: true },
            ),
            (RobustPhase::Any, RobustEventView::Versions(versions)) => self.after_versions(
                versions,
            ),
            (RobustPhase::Any, RobustEventView::VersionsFailed(m)) => self.failed(self.no_list(m)),
            (RobustPhase::Install, RobustEventView::Installed { derived_id, version }) => (
                RobustInstallView {
                    phase: RobustPhase::Confirm,
                    first_id: derived_id,
                    first_version: version,
                    latest_id: derived_id,
                    latest_version: version,
                    next: 0,
                    ..self
                },
                RobustActionView::Confirm { version },
            ),
            (RobustPhase::Install, RobustEventView::InstallFailed(m)) => self.failed(
                self.not_installed(m),
            ),
            (RobustPhase::Confirm, RobustEventView::Confirmed(shown)) => if shown {
                self.moved(
                    RobustPhase::Finished,
                    RobustActionView::Done {
                        derived_id: self.first_id,
                        version: self.first_version,
                    },
                )
            } else {
                self.try_next()
            },
            (RobustPhase::AltInstall, RobustEventView::Installed { derived_id, version }) => (
                RobustInstallView {
                    phase: RobustPhase::AltConfirm,
                    latest_id: derived_id,
                    latest_version: version,
                    ..self
                },
                RobustActionView::Confirm { version },
            ),
            (RobustPhase::AltInstall, RobustEventView::InstallFailed(_)) => self.try_next(),
            (RobustPhase::AltConfirm, RobustEventView::Confirmed(shown)) => if shown {
                self.moved(
                    RobustPhase::Finished,
                    RobustActionView::Done {
                        derived_id: self.latest_id,
                        version: self.latest_version,
                    },
                )
            } else {
                self.try_next()
            },
            _ => self.failed("unexpected event during loader installation"@),
        }
    }
}

impl RobustInstall {
    /// Begins the installation of `loader_type` for the base version
    /// `base_version`, in the version `requested` if one is asked for: the
    /// stable versions that the loader offers are asked for first.
    pub fn start(loader_type: String, base_version: String, requested: Option<String>) -> (r: (
        RobustInstall,
        RobustAction,
    ))
        ensures
            r.0.deep_view() == (RobustInstallView {
                loader_type: loader_type@,
                base_version: base_version@,
                requested: requested.deep_view(),
                phase: RobustPhase::Stable,
                versions: Seq::empty(),
                target: Seq::empty(),
                first_id: Seq::empty(),
                first_version: Seq::empty(),
                latest_id: Seq::empty(),
                latest_version: Seq::empty(),
                next: 0,
            }),
            r.1.deep_view() == (RobustActionView::ListVersions { include_beta: false }),
    {
        let machine = RobustInstall {
            loader_type,
            base_version,
            requested,
            phase: RobustPhase::Stable,
            versions: Vec::new(),
            target: String::new(),
            first_id: String::new(),
            first_version: String::new(),
            latest_id: String::new(),
            latest_version: String::new(),
            next: 0,
        };
        assert(machine.versions.deep_view() =~= Seq::empty());
        (machine, RobustAction::ListVersions { include_beta: false })
    }

    fn fail(&mut self, message: String) -> (action: RobustAction)
        ensures
            (final(self).deep_view(), action.deep_view()) == old(self).deep_view().failed(
                message@,
            ),
    {
        self.phase = RobustPhase::Finished;
        RobustAction::Fail(message)
    }

    fn on_versions(&mut self, versions: Vec<String>) -> (action: RobustAction)
        ensures
            (final(self).deep_view(), action.deep_view()) == old(self).deep_view().after_versions(
                versions.deep_view(),
            ),
    {
        let requested = match &self.requested {
            Some(r) => Some(r.as_str()),
            None => None,
        };
        let target = choose_target_version(&versions, requested);
        match target {
            Some(target) => {
                self.phase = RobustPhase::Install;
                self.versions = versions;
                self.target = target.clone();
                RobustAction::Install { version: target }
            },
            None => {
                let mut m = String::from_str("No ");
                m.append(self.loader_type.as_str());
                m.append(" versions available for Minecraft ");
                m.append(self.base_version.as_str());
                self.phase = RobustPhase::Finished;
                self.versions = versions;
                RobustAction::Fail(m)
            },
        }
    }

    fn try_next(&mut self) -> (action: RobustAction)
        ensures
            (final(self).deep_view(), action.deep_view()) == old(self).deep_view().try_next(),
    {
        let offered: usize = self.versions.len();
        match next_alternative(&self.versions, self.first_version.as_str(), self.next) {
            Some(at) => {
                assert(at < offered);
                assert(self.versions.deep_view()[at as int] == self.versions@[at as int]@);
                let version = self.versions[at].clone();
                self.phase = RobustPhase::AltInstall;
                self.next = at + 1;
                RobustAction::Install { version }
            },
            None => {
                self.phase = RobustPhase::Finished;
                RobustAction::Done {
                    derived_id: self.first_id.clone(),
                    version: self.first_version.clone(),
                }
            },
        }
    }

    /// Takes up what the driver reports and hands out the next action.
    pub fn step(&mut self, event: RobustEvent) -> (action: RobustAction)
        ensures
            (final(self).deep_view(), action.deep_view()) == old(self).deep_view().step(
                event.deep_view(),
            ),
    {
        match self.phase {
            RobustPhase::Stable => match event {
                RobustEvent::Versions(versions) => self.on_versions(versions),
                RobustEvent::VersionsFailed(_) => {
                    self.phase = RobustPhase::Any;
                    RobustAction::ListVersions { include_beta: true }
                },
                _ => self.fail(String::from_str("unexpected event during loader installation")),
            },
            RobustPhase::Any => match event {
                RobustEvent::Versions(versions) => self.on_versions(versions),
                RobustEvent::VersionsFailed(m) => {
                    let mut message = String::from_str("Failed to get ");
                    message.append(self.loader_type.as_str());
                    message.append(" versions for MC ");
                    message.append(self.base_version.as_str());
                    message.append(": ");
                    message.append(m.as_str());
                    self.fail(message)
                },
                _ => self.fail(String::from_str("unexpected event during loader installation")),
            },
            RobustPhase::Install => match event {
                RobustEvent::Installed { derived_id, version } => {
                    self.phase = RobustPhase::Confirm;
                    self.first_id = derived_id.clone();
                    self.first_version = version.clone();
                    self.latest_id = derived_id;
                    self.latest_version = version.clone();
                    self.next = 0;
                    RobustAction::Confirm { version }
                },
                RobustEvent::InstallFailed(m) => {
                    let mut message = String::from_str("Failed to install ");
                    message.append(self.loader_type.as_str());
                    message.append(" ");
                    message.append(self.target.as_str());
                    message.append(": ");
                    message.append(m.as_str());
                    self.fail(message)
                },
                _ => self.fail(String::from_str("unexpected event during loader installation")),
            },
            RobustPhase::Confirm => match event {
                RobustEvent::Confirmed(shown) => if shown {
                    self.phase = RobustPhase::Finished;
                    RobustAction::Done {
                        derived_id: self.first_id.clone(),
                        version: self.first_version.clone(),
                    }
                } else {
                    self.try_next()
                },
                _ => self.fail(String::from_str("unexpected event during loader installation")),
            },
            RobustPhase::AltInstall => match event {
                RobustEvent::Installed { derived_id, version } => {
                    self.phase = RobustPhase::AltConfirm;
                    self.latest_id = derived_id;
                    self.latest_version = version.clone();
                    RobustAction::Confirm { version }
                },
                RobustEvent::InstallFailed(_) => self.try_next(),
                _ => self.fail(String::from_str("unexpected event during loader installation")),
            },
            RobustPhase::AltConfirm => match event {
                RobustEvent::Confirmed(shown) => if shown {
                    self.phase = RobustPhase::Finished;
                    RobustAction::Done {
                        derived_id: self.latest_id.clone(),
                        version: self.latest_version.clone(),
                    }
                } else {
                    self.try_next()
                },
                _ => self.fail(String::from_str("unexpected event during loader installation")),
            },
            RobustPhase::Finished => self.fail(
                String::from_str("unexpected event during loader installation"),
            ),
        }
    }
}

/// Once a version is installed, the installation ends well: if no
/// installation can be confirmed, the first one is taken as it is.
pub proof fn lemma_installed_loader_is_kept(state: RobustInstallView, event: RobustEventView)
    requires
        state.phase == RobustPhase::Confirm || state.phase == RobustPhase::AltInstall
            || state.phase == RobustPhase::AltConfirm,
        event is Confirmed || event is Installed || event is InstallFailed,
        state.phase == RobustPhase::AltInstall <==> !(event is Confirmed),
    ensures
        !(state.step(event).1 is Fail),
        state.step(event).1 is Done ==> (state.step(event).1 == (RobustActionView::Done {
            derived_id: state.first_id,
            version: state.first_version,
        }) || state.step(event).1 == (RobustActionView::Done {
            derived_id: state.latest_id,
            version: state.latest_version,
        })),
{
}

/// The version that was installed first is not installed again, and every
/// other version is tried only behind those tried before.
pub proof fn lemma_alternatives_advance(state: RobustInstallView)
    requires
        state.next <= state.versions.len() <= usize::MAX,
    ensures
        state.try_next().1 matches RobustActionView::Install { version } ==> version
            != state.first_version && state.try_next().0.next > state.next
            && state.try_next().0.next <= state.versions.len(),
{
    crate::choice::lemma_first_some_is_candidate(
        crate::loader::alternative_marks(state.versions, state.first_version, state.next as int),
    );
}

} // verus!
