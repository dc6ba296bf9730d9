//! Installing a loader on top of a base version, as a state machine.
//!
//! The machine decides; its driver fetches, probes and writes. The driver
//! starts the machine with [`LoaderInstall::start`], performs the action it
//! is handed, and reports what came of it to [`LoaderInstall::step`], until
//! the action is `Done` or `Fail`.
//!
//! ```text
//! Profile --fetched--> Existence --absent--> Decode --decoded--> Install --> Finished
//!    |                     |                    |
//!    | version missing     | present            | not decodable
//!    v                     v                    v
//! Catalog --> Retry     Finished              Base --> Install
//! ```

use vstd::prelude::*;
use crate::instance::{derived_id, derived_version_id};
use crate::json::{json_reading, parse_json, Json, JsonView};
use crate::loader::{
    catalog_url, catalog_url_of, fallback_version, is_missing_version_error, profile_url,
    profile_url_of, resolve_from_catalog, says_version_missing,
};
use crate::profile::{
    base_check, check_profile_base, derived_descriptor, describe_unreadable, merge_profile, merged,
    persisted, unreadable_response, LoaderError, LoaderErrorView,
};
use crate::version::{VersionJson, VersionView};

verus! {

/// What is to be installed: a loader, the base version it goes on, and the
/// version of the loader that is asked for.
#[derive(Debug, Clone)]
pub struct LoaderRequest {
    pub loader_type: String,
    pub base_version: String,
    pub requested: String,
}

/// What a `LoaderRequest` holds, as plain values.
pub struct LoaderRequestView {
    pub loader_type: Seq<char>,
    pub base_version: Seq<char>,
    pub requested: Seq<char>,
}

impl DeepView for LoaderRequest {
    type V = LoaderRequestView;

    open spec fn deep_view(&self) -> LoaderRequestView {
        LoaderRequestView {
            loader_type: self.loader_type@,
            base_version: self.base_version@,
            requested: self.requested@,
        }
    }
}

/// What the installation is waiting for.
#[derive(Debug, Clone, Copy, PartialEq, Eq, Structural)]
pub enum LoaderPhase {
    /// The profile of the requested version.
    Profile,
    /// The catalog, after the loader said it has no such version.
    Catalog,
    /// The profile of the version chosen from the catalog.
    Retry,
    /// Whether the derived version is described on disk already.
    Existence,
    /// The profile decoded as a version description.
    Decode,
    /// The description of the installed base version.
    Base,
    /// The derived version written and materialized.
    Install,
    /// Nothing: the installation has ended.
    Finished,
}

/// An installation in progress.
#[derive(Debug)]
pub struct LoaderInstall {
    pub request: LoaderRequest,
    /// The version of the loader that is being installed: the requested
    /// one, or the one chosen from the catalog in its place.
    pub effective: String,
    pub phase: LoaderPhase,
    /// The message of the first fetch that failed.
    pub first_error: Option<String>,
    /// The profile, once it is read and checked.
    pub profile: Option<Json>,
}

/// What a `LoaderInstall` holds, as plain values.
pub struct LoaderInstallView {
    pub request: LoaderRequestView,
    pub effective: Seq<char>,
    pub phase: LoaderPhase,
    pub first_error: Option<Seq<char>>,
    pub profile: Option<JsonView>,
}

impl DeepView for LoaderInstall {
    type V = LoaderInstallView;

    open spec fn deep_view(&self) -> LoaderInstallView {
        LoaderInstallView {
            request: self.request.deep_view(),
            effective: self.effective@,
            phase: self.phase,
            first_error: self.first_error.deep_view(),
            profile: self.profile.deep_view(),
        }
    }
}

/// What the driver reports.
#[derive(Debug)]
pub enum LoaderEvent {
    /// The fetch gave this body.
    Fetched(String),
    /// The fetch failed with this message.
    FetchFailed(String),
    /// Whether the description of the derived version is on disk.
    Probed(bool),
    /// The profile has the shape of a version description: this one.
    Decoded(VersionJson),
    /// The profile does not have the shape of a version description.
    NotDecodable,
    /// The base version is installed; this is its description.
    BaseReady(VersionJson),
    /// The base version could not be installed.
    BaseFailed(String),
    /// The derived version is written and materialized.
    Installed,
    /// Writing or materializing the derived version failed.
    InstallFailed(String),
}

/// What a `LoaderEvent` holds, as plain values.
pub enum LoaderEventView {
    Fetched(Seq<char>),
    FetchFailed(Seq<char>),
    Probed(bool),
    Decoded(VersionView),
    NotDecodable,
    BaseReady(VersionView),
    BaseFailed(Seq<char>),
    Installed,
    InstallFailed(Seq<char>),
}

impl DeepView for LoaderEvent {
    type V = LoaderEventView;

    open spec fn deep_view(&self) -> LoaderEventView {
        match self {
            LoaderEvent::Fetched(body) => LoaderEventView::Fetched(body@),
            LoaderEvent::FetchFailed(m) => LoaderEventView::FetchFailed(m@),
            LoaderEvent::Probed(present) => LoaderEventView::Probed(*present),
            LoaderEvent::Decoded(v) => LoaderEventView::Decoded(v.deep_view()),
            LoaderEvent::NotDecodable => LoaderEventView::NotDecodable,
            LoaderEvent::BaseReady(v) => LoaderEventView::BaseReady(v.deep_view()),
            LoaderEvent::BaseFailed(m) => LoaderEventView::BaseFailed(m@),
            LoaderEvent::Installed => LoaderEventView::Installed,
            LoaderEvent::InstallFailed(m) => LoaderEventView::InstallFailed(m@),
        }
    }
}

/// What the driver is to do next.
#[derive(Debug)]
pub enum LoaderAction {
    /// Fetch the text at `url` and report `Fetched` or `FetchFailed`.
    Fetch { url: String },
    /// Make the directory of the version `id`, look whether its description
    /// is there, and report `Probed`.
    Probe { id: String },
    /// Decode the profile that was fetched last as a version description
    /// and report `Decoded` or `NotDecodable`.
    Decode,
    /// Make sure that the base version is installed and report `BaseReady`
    /// or `BaseFailed`.
    EnsureBase { version: String },
    /// Write `descriptor` as the description of the version `id`, then
    /// materialize that version, and report `Installed` or `InstallFailed`.
    Install { id: String, descriptor: VersionJson },
    /// The loader is installed as the version `derived_id`, in the version
    /// `effective`.
    Done { derived_id: String, effective: String },
    /// The installation failed.
    Fail(LoaderError),
}

/// What a `LoaderAction` holds, as plain values.
pub enum LoaderActionView {
    Fetch { url: Seq<char> },
    Probe { id: Seq<char> },
    Decode,
    EnsureBase { version: Seq<char> },
    Install { id: Seq<char>, descriptor: VersionView },
    Done { derived_id: Seq<char>, effective: Seq<char> },
    Fail(LoaderErrorView),
}

impl DeepView for LoaderAction {
    type V = LoaderActionView;

    open spec fn deep_view(&self) -> LoaderActionView {
        match self {
            LoaderAction::Fetch { url } => LoaderActionView::Fetch { url: url@ },
            LoaderAction::Probe { id } => LoaderActionView::Probe { id: id@ },
            LoaderAction::Decode => LoaderActionView::Decode,
            LoaderAction::EnsureBase { version } => LoaderActionView::EnsureBase {
                version: version@,
            },
            LoaderAction::Install { id, descriptor } => LoaderActionView::Install {
                id: id@,
                descriptor: descriptor.deep_view(),
            },
            LoaderAction::Done { derived_id, effective } => LoaderActionView::Done {
                derived_id: derived_id@,
                effective: effective@,
            },
            LoaderAction::Fail(e) => LoaderActionView::Fail(e.deep_view()),
        }
    }
}

impl LoaderInstallView {
    /// The id of the derived version.
    pub open spec fn target_id(self) -> Seq<char> {
        derived_id(self.request.loader_type, self.effective, self.request.base_version)
    }

    /// The message of the first failed fetch.
    pub open spec fn remembered_error(self) -> Seq<char> {
        match self.first_error {
            Some(m) => m,
            None => Seq::empty(),
        }
    }

    /// The installation ended with the error `e`.
    pub open spec fn failed(self, e: LoaderErrorView) -> (LoaderInstallView, LoaderActionView) {
        (LoaderInstallView { phase: LoaderPhase::Finished, ..self }, LoaderActionView::Fail(e))
    }

    /// The installation ended well.
    pub open spec fn done(self) -> (LoaderInstallView, LoaderActionView) {
        (
            LoaderInstallView { phase: LoaderPhase::Finished, ..self },
            LoaderActionView::Done { derived_id: self.target_id(), effective: self.effective },
        )
    }

    /// The derived version is to be written and materialized.
    pub open spec fn installing(self, version: VersionView) -> (
        LoaderInstallView,
        LoaderActionView,
    ) {
        (
            LoaderInstallView { phase: LoaderPhase::Install, ..self },
            LoaderActionView::Install {
                id: self.target_id(),
                descriptor: persisted(version, self.target_id(), self.request.base_version),
            },
        )
    }

    /// A profile came in: it must be JSON and target the base version;
    /// then the derived version is probed.
    pub open spec fn after_profile(self, body: Seq<char>) -> (LoaderInstallView, LoaderActionView) {
        self.after_profile_read(body, json_reading(body))
    }

    /// A profile came in as `body` and was read as `reading`.
    pub open spec fn after_profile_read(
        self,
        body: Seq<char>,
        reading: Result<JsonView, Seq<char>>,
    ) -> (LoaderInstallView, LoaderActionView) {
        match reading {
            Err(m) => self.failed(LoaderErrorView::Schema(unreadable_response(m, body))),
            Ok(profile) => match base_check(profile, self.request.base_version) {
                Err(e) => self.failed(e),
                Ok(_) => (
                    LoaderInstallView {
                        phase: LoaderPhase::Existence,
                        profile: Some(profile),
                        ..self
                    },
                    LoaderActionView::Probe { id: self.target_id() },
                ),
            },
        }
    }

    /// The first fetch of the profile failed: the catalog is consulted
    /// where the message says that the version is missing and the loader
    /// has a catalog; every other failure ends the installation.
    pub open spec fn after_profile_failure(self, message: Seq<char>) -> (
        LoaderInstallView,
        LoaderActionView,
    ) {
        if says_version_missing(message) {
            match catalog_url_of(self.request.loader_type, self.request.base_version) {
                Some(url) => (
                    LoaderInstallView {
                        phase: LoaderPhase::Catalog,
                        first_error: Some(message),
                        ..self
                    },
                    LoaderActionView::Fetch { url },
                ),
                None => self.failed(LoaderErrorView::Network(message)),
            }
        } else {
            self.failed(LoaderErrorView::Network(message))
        }
    }

    /// The catalog came in: a version is chosen from it and its profile
    /// fetched; where nothing can be chosen the first failure stands.
    pub open spec fn after_catalog(self, body: Seq<char>) -> (LoaderInstallView, LoaderActionView) {
        self.after_catalog_read(json_reading(body))
    }

    /// The catalog came in and was read as `reading`.
    pub open spec fn after_catalog_read(self, reading: Result<JsonView, Seq<char>>) -> (
        LoaderInstallView,
        LoaderActionView,
    ) {
        let choice = match reading {
            Ok(list) => fallback_version(list, self.request.requested),
            Err(_) => None,
        };
        match choice {
            Some(version) => (
                LoaderInstallView { phase: LoaderPhase::Retry, effective: version, ..self },
                LoaderActionView::Fetch {
                    url: profile_url_of(
                        self.request.loader_type,
                        self.request.base_version,
                        version,
                    ),
                },
            ),
            None => self.failed(LoaderErrorView::Network(self.remembered_error())),
        }
    }

    /// The base version is installed: the profile is laid over it.
    pub open spec fn after_base(self, base: VersionView) -> (LoaderInstallView, LoaderActionView) {
        match self.profile {
            Some(profile) => self.installing(merged(base, profile, self.request.base_version)),
            None => self.failed(LoaderErrorView::Unexpected),
        }
    }

    /// What the installation does on an event: its next state and the
    /// action it hands out.
    pub open spec fn step(self, event: LoaderEventView) -> (LoaderInstallView, LoaderActionView) {
        match (self.phase, event) {
            (LoaderPhase::Profile, LoaderEventView::Fetched(body)) => self.after_profile(body),
            (LoaderPhase::Profile, LoaderEventView::FetchFailed(m)) => self.after_profile_failure(
                m,
            ),
            (LoaderPhase::Catalog, LoaderEventView::Fetched(body)) => self.after_catalog(body),
            (LoaderPhase::Catalog, LoaderEventView::FetchFailed(_)) => self.failed(
                LoaderErrorView::Network(self.remembered_error()),
            ),
            (LoaderPhase::Retry, LoaderEventView::Fetched(body)) => self.after_profile(body),
            (LoaderPhase::Retry, LoaderEventView::FetchFailed(_)) => self.failed(
                LoaderErrorView::Network(self.remembered_error()),
            ),
            (LoaderPhase::Existence, LoaderEventView::Probed(present)) => if present {
                self.done()
            } else {
                (LoaderInstallView { phase: LoaderPhase::Decode, ..self }, LoaderActionView::Decode)
            },
            (LoaderPhase::Decode, LoaderEventView::Decoded(version)) => self.installing(version),
            (LoaderPhase::Decode, LoaderEventView::NotDecodable) => (
                LoaderInstallView { phase: LoaderPhase::Base, ..self },
                LoaderActionView::EnsureBase { version: self.request.base_version },
            ),
            (LoaderPhase::Base, LoaderEventView::BaseReady(base)) => self.after_base(base),
            (LoaderPhase::Base, LoaderEventView::BaseFailed(m)) => self.failed(
                LoaderErrorView::Install(m),
            ),
            (LoaderPhase::Install, LoaderEventView::Installed) => self.done(),
            (LoaderPhase::Install, LoaderEventView::InstallFailed(m)) => self.failed(
                LoaderErrorView::Install(m),
            ),
            _ => self.failed(LoaderErrorView::Unexpected),
        }
    }
}

/// How an installation begins: waiting for the profile of the requested
/// version, which is to be fetched.
pub open spec fn started(request: LoaderRequestView) -> (LoaderInstallView, LoaderActionView) {
    (
        LoaderInstallView {
            request,
            effective: request.requested,
            phase: LoaderPhase::Profile,
            first_error: None,
            profile: None,
        },
        LoaderActionView::Fetch {
            url: profile_url_of(request.loader_type, request.base_version, request.requested),
        },
    )
}

impl LoaderInstall {
    /// Begins the installation that `request` asks for.
    pub fn start(request: LoaderRequest) -> (r: (LoaderInstall, LoaderAction))
        ensures
            (r.0.deep_view(), r.1.deep_view()) == started(request.deep_view()),
    {
        let url = profile_url(
            request.loader_type.as_str(),
            request.base_version.as_str(),
            request.requested.as_str(),
        );
        let effective = request.requested.clone();
        (
            LoaderInstall {
                request,
                effective,
                phase: LoaderPhase::Profile,
                first_error: None,
                profile: None,
            },
            LoaderAction::Fetch { url },
        )
    }

    /// The id of the derived version.
    pub fn target_id(&self) -> (id: String)
        ensures
            id@ == self.deep_view().target_id(),
    {
        derived_version_id(
            self.request.loader_type.as_str(),
            self.effective.as_str(),
            self.request.base_version.as_str(),
        )
    }

    fn fail(&mut self, e: LoaderError) -> (action: LoaderAction)
        ensures
            (final(self).deep_view(), action.deep_view()) == old(self).deep_view().failed(
                e.deep_view(),
            ),
    {
        self.phase = LoaderPhase::Finished;
        LoaderAction::Fail(e)
    }

    fn fail_with_first_error(&mut self) -> (action: LoaderAction)
        ensures
            (final(self).deep_view(), action.deep_view()) == old(self).deep_view().failed(
                LoaderErrorView::Network(old(self).deep_view().remembered_error()),
            ),
    {
        let message = match &self.first_error {
            Some(m) => m.clone(),
            None => String::new(),
        };
        self.fail(LoaderError::Network(message))
    }

    fn finish(&mut self) -> (action: LoaderAction)
        ensures
            (final(self).deep_view(), action.deep_view()) == old(self).deep_view().done(),
    {
        let derived_id = self.target_id();
        self.phase = LoaderPhase::Finished;
        LoaderAction::Done { derived_id, effective: self.effective.clone() }
    }

    fn install(&mut self, version: VersionJson) -> (action: LoaderAction)
        ensures
            (final(self).deep_view(), action.deep_view()) == old(self).deep_view().installing(
                version.deep_view(),
            ),
    {
        let id = self.target_id();
        let descriptor = derived_descriptor(
            version,
            id.as_str(),
            self.request.base_version.as_str(),
        );
        self.phase = LoaderPhase::Install;
        LoaderAction::Install { id, descriptor }
    }

    fn on_profile(&mut self, body: String) -> (action: LoaderAction)
        ensures
            (final(self).deep_view(), action.deep_view()) == old(self).deep_view().after_profile(
                body@,
            ),
    {
        let reading = parse_json(body.as_str());
        self.take_profile(body.as_str(), reading)
    }

    /// Takes up a profile that came in as `body` and was read as
    /// `reading`: the document, or the reader's message.
    pub fn take_profile(&mut self, body: &str, reading: Result<Json, String>) -> (action:
        LoaderAction)
        ensures
            (final(self).deep_view(), action.deep_view()) == old(
                self,
            ).deep_view().after_profile_read(
                body@,
                match reading {
                    Ok(j) => Ok(j.deep_view()),
                    Err(m) => Err(m@),
                },
            ),
    {
        match reading {
            Err(m) => {
                let message = describe_unreadable(m.as_str(), body);
                self.fail(LoaderError::Schema(message))
            },
            Ok(profile) => match check_profile_base(&profile, self.request.base_version.as_str()) {
                Err(e) => self.fail(e),
                Ok(_) => {
                    let id = self.target_id();
                    self.phase = LoaderPhase::Existence;
                    self.profile = Some(profile);
                    LoaderAction::Probe { id }
                },
            },
        }
    }

    fn on_profile_failure(&mut self, message: String) -> (action: LoaderAction)
        ensures
            (final(self).deep_view(), action.deep_view()) == old(
                self,
            ).deep_view().after_profile_failure(message@),
    {
        if is_missing_version_error(message.as_str()) {
            match catalog_url(
                self.request.loader_type.as_str(),
                self.request.base_version.as_str(),
            ) {
                Some(url) => {
                    self.phase = LoaderPhase::Catalog;
                    self.first_error = Some(message);
                    LoaderAction::Fetch { url }
                },
                None => self.fail(LoaderError::Network(message)),
            }
        } else {
            self.fail(LoaderError::Network(message))
        }
    }

    fn on_catalog(&mut self, body: String) -> (action: LoaderAction)
        ensures
            (final(self).deep_view(), action.deep_view()) == old(self).deep_view().after_catalog(
                body@,
            ),
    {
        let reading = parse_json(body.as_str());
        self.take_catalog(reading)
    }

    /// Takes up a catalog that was read as `reading`: the document, or the
    /// reader's message.
    pub fn take_catalog(&mut self, reading: Result<Json, String>) -> (action: LoaderAction)
        ensures
            (final(self).deep_view(), action.deep_view()) == old(
                self,
            ).deep_view().after_catalog_read(
                match reading {
                    Ok(j) => Ok(j.deep_view()),
                    Err(m) => Err(m@),
                },
            ),
    {
        let choice = match reading {
            Ok(list) => resolve_from_catalog(&list, self.request.requested.as_str()),
            Err(_) => None,
        };
        match choice {
            Some(version) => {
                let url = profile_url(
                    self.request.loader_type.as_str(),
                    self.request.base_version.as_str(),
                    version.as_str(),
                );
                self.phase = LoaderPhase::Retry;
                self.effective = version;
                LoaderAction::Fetch { url }
            },
            None => self.fail_with_first_error(),
        }
    }

    fn on_base(&mut self, base: VersionJson) -> (action: LoaderAction)
        ensures
            (final(self).deep_view(), action.deep_view()) == old(self).deep_view().after_base(
                base.deep_view(),
            ),
    {
        let merged = match &self.profile {
            Some(profile) => Some(merge_profile(base, profile, self.request.base_version.as_str())),
            None => None,
        };
        match merged {
            Some(version) => self.install(version),
            None => self.fail(LoaderError::Unexpected),
        }
    }

    /// Takes up what the driver reports and hands out the next action.
    pub fn step(&mut self, event: LoaderEvent) -> (action: LoaderAction)
        ensures
            (final(self).deep_view(), action.deep_view()) == old(self).deep_view().step(
                event.deep_view(),
            ),
    {
        match self.phase {
            LoaderPhase::Profile => match event {
                LoaderEvent::Fetched(body) => self.on_profile(body),
                LoaderEvent::FetchFailed(m) => self.on_profile_failure(m),
                _ => self.fail(LoaderError::Unexpected),
            },
            LoaderPhase::Catalog => match event {
                LoaderEvent::Fetched(body) => self.on_catalog(body),
                LoaderEvent::FetchFailed(_) => self.fail_with_first_error(),
                _ => self.fail(LoaderError::Unexpected),
            },
            LoaderPhase::Retry => match event {
                LoaderEvent::Fetched(body) => self.on_profile(body),
                LoaderEvent::FetchFailed(_) => self.fail_with_first_error(),
                _ => self.fail(LoaderError::Unexpected),
            },
            LoaderPhase::Existence => match event {
                LoaderEvent::Probed(present) => if present {
                    self.finish()
                } else {
                    self.phase = LoaderPhase::Decode;
                    LoaderAction::Decode
                },
                _ => self.fail(LoaderError::Unexpected),
            },
            LoaderPhase::Decode => match event {
                LoaderEvent::Decoded(version) => self.install(version),
                LoaderEvent::NotDecodable => {
                    self.phase = LoaderPhase::Base;
                    LoaderAction::EnsureBase { version: self.request.base_version.clone() }
                },
                _ => self.fail(LoaderError::Unexpected),
            },
            LoaderPhase::Base => match event {
                LoaderEvent::BaseReady(base) => self.on_base(base),
                LoaderEvent::BaseFailed(m) => self.fail(LoaderError::Install(m)),
                _ => self.fail(LoaderError::Unexpected),
            },
            LoaderPhase::Install => match event {
                LoaderEvent::Installed => self.finish(),
                LoaderEvent::InstallFailed(m) => self.fail(LoaderError::Install(m)),
                _ => self.fail(LoaderError::Unexpected),
            },
            LoaderPhase::Finished => self.fail(LoaderError::Unexpected),
        }
    }
}

/// Whatever the way on which the effective version was found, a finished
/// installation names the derived version by the loader, that version and
/// the base version, and hands that version back.
pub proof fn lemma_done_names_derived_version(state: LoaderInstallView, event: LoaderEventView)
    ensures
        state.step(event).1 matches LoaderActionView::Done { derived_id: id, effective } ==> id
            == derived_id(state.request.loader_type, state.effective, state.request.base_version)
            && effective == state.effective && state.step(event).0.effective == state.effective,
{
}

/// An installation that is not diverted to the catalog installs the version
/// that was asked for: the effective version only changes when the catalog
/// comes in.
pub proof fn lemma_effective_changes_only_on_catalog(
    state: LoaderInstallView,
    event: LoaderEventView,
)
    requires
        !(state.phase == LoaderPhase::Catalog && event is Fetched),
    ensures
        state.step(event).0.effective == state.effective,
        state.step(event).0.request == state.request,
{
}

/// Where the derived version is described on disk already, the
/// installation ends at once and asks for nothing more.
pub proof fn lemma_present_version_ends_installation(state: LoaderInstallView)
    requires
        state.phase == LoaderPhase::Existence,
    ensures
        state.step(LoaderEventView::Probed(true)) == state.done(),
        state.step(LoaderEventView::Probed(true)).0.phase == LoaderPhase::Finished,
{
}

/// A profile that targets another base version is never installed.
pub proof fn lemma_wrong_base_is_refused(state: LoaderInstallView, body: Seq<char>)
    requires
        state.phase == LoaderPhase::Profile || state.phase == LoaderPhase::Retry,
        json_reading(body) matches Ok(profile) && profile.text_at("inheritsFrom"@) matches Some(
            found,
        ) && found != state.request.base_version,
    ensures
        state.step(LoaderEventView::Fetched(body)).1 is Fail,
        state.step(LoaderEventView::Fetched(body)).1->Fail_0 is BaseMismatch,
{
}

/// The catalog is consulted at most once: a fetch that fails after the
/// catalog was consulted ends the installation with the first failure.
pub proof fn lemma_single_retry(state: LoaderInstallView, message: Seq<char>)
    requires
        state.phase == LoaderPhase::Retry || state.phase == LoaderPhase::Catalog,
    ensures
        state.step(LoaderEventView::FetchFailed(message)).1 == LoaderActionView::Fail(
            LoaderErrorView::Network(state.remembered_error()),
        ),
{
}

/// A finished installation stays finished.
pub proof fn lemma_finished_is_final(state: LoaderInstallView, event: LoaderEventView)
    requires
        state.phase == LoaderPhase::Finished,
    ensures
        state.step(event).0.phase == LoaderPhase::Finished,
        state.step(event).1 is Fail,
{
}

} // verus!
