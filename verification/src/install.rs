//! Making sure that a version is installed, as a state machine, and the
//! files that materialize a version.
//!
//! The machine decides; its driver looks at the disk, fetches and writes.
//! A version that is described on disk is taken from there, without any
//! request. Any other version is looked up in the catalog, its description
//! is fetched and stored as it came, and the version is materialized: the
//! client jar first, then the libraries, then the assets.
//!
//! ```text
//! Local --absent--> Manifest --> Descriptor --> Store --> Materialize --> Finished
//!   |
//!   | found
//!   v
//! Finished
//! ```

use vstd::prelude::*;
use vstd::string::StringExecFns;
use crate::assets::{InstallError, InstallErrorView};
use crate::launch::{required_artifacts, select_artifacts};
use crate::layout::{asset_index_path, client_jar_path, library_path, Layout};
use crate::minecraft::{address_of, find_version, VersionManifest};
use crate::text::same_text;
use crate::version::{ArtifactView, VersionJson, VersionView};

verus! {

/// A file to have on disk: where it comes from and where it goes. A file
/// that is there already is not fetched again.
#[derive(Debug, Clone)]
pub struct FileTask {
    pub url: String,
    pub dest: String,
}

/// What a `FileTask` holds, as plain values.
pub struct FileTaskView {
    pub url: Seq<char>,
    pub dest: Seq<char>,
}

impl DeepView for FileTask {
    type V = FileTaskView;

    open spec fn deep_view(&self) -> FileTaskView {
        FileTaskView { url: self.url@, dest: self.dest@ }
    }
}

/// The files of the libraries: one for each artifact, below the libraries
/// directory.
pub open spec fn library_tasks(artifacts: Seq<ArtifactView>, root: Seq<char>, sep: Seq<char>) -> Seq<
    FileTaskView,
> {
    Seq::new(
        artifacts.len(),
        |i: int|
            FileTaskView { url: artifacts[i].url, dest: library_path(root, sep, artifacts[i].path) },
    )
}

/// The files that materialize the version `id` on the platform `os`, in the
/// order in which they are fetched: the client jar, then the artifacts that
/// its libraries contribute on that platform.
pub open spec fn file_tasks(
    version: VersionView,
    id: Seq<char>,
    os: Seq<char>,
    root: Seq<char>,
    sep: Seq<char>,
) -> Seq<FileTaskView> {
    seq![FileTaskView { url: version.client.url, dest: client_jar_path(root, sep, id) }]
        + library_tasks(required_artifacts(version.libraries, os), root, sep)
}

/// The files that materialize the version `id` on the platform `os`.
pub fn materialization_tasks(layout: &Layout, os: &str, id: &str, version: &VersionJson) -> (tasks:
    Vec<FileTask>)
    ensures
        tasks.deep_view() == file_tasks(
            version.deep_view(),
            id@,
            os@,
            layout.root@,
            layout.separator@,
        ),
{
    let mut tasks: Vec<FileTask> = Vec::new();
    tasks.push(
        FileTask { url: version.downloads.client.url.clone(), dest: layout.client_jar_path(id) },
    );
    let ghost head = tasks.deep_view();
    assert(head =~= seq![
        FileTaskView {
            url: version.deep_view().client.url,
            dest: client_jar_path(layout.root@, layout.separator@, id@),
        },
    ]);
    let artifacts = select_artifacts(version, os);
    let ghost all = artifacts.deep_view();
    let mut i: usize = 0;
    while i < artifacts.len()
        invariant
            i <= artifacts.len(),
            all == artifacts.deep_view(),
            tasks.deep_view() == head + library_tasks(all, layout.root@, layout.separator@).take(
                i as int,
            ),
        decreases artifacts.len() - i,
    {
        let task = FileTask {
            url: artifacts[i].url.clone(),
            dest: layout.library_path(artifacts[i].path.as_str()),
        };
        let ghost before = tasks.deep_view();
        tasks.push(task);
        assert(tasks.deep_view() =~= before.push(task.deep_view()));
        assert(tasks.deep_view() =~= head + library_tasks(
            all,
            layout.root@,
            layout.separator@,
        ).take(i + 1));
        i += 1;
    }
    assert(library_tasks(all, layout.root@, layout.separator@).take(i as int) =~= library_tasks(
        all,
        layout.root@,
        layout.separator@,
    ));
    tasks
}

/// Whether the file of the task at `i` is on disk, as far as `present`
/// tells.
pub open spec fn is_present(present: Seq<bool>, i: int) -> bool {
    0 <= i < present.len() && present[i]
}

/// Whether the task at `i` has to be carried out: its file is not on disk,
/// and no earlier task has the same destination.
pub open spec fn is_pending(tasks: Seq<FileTaskView>, present: Seq<bool>, i: int) -> bool {
    !is_present(present, i) && forall|j: int| 0 <= j < i ==> tasks[j].dest != tasks[i].dest
}

/// The tasks among the first `n` that have to be carried out, in order.
pub open spec fn pending_among(tasks: Seq<FileTaskView>, present: Seq<bool>, n: int) -> Seq<
    FileTaskView,
>
    decreases n,
{
    if n <= 0 {
        Seq::empty()
    } else if is_pending(tasks, present, n - 1) {
        pending_among(tasks, present, n - 1).push(tasks[n - 1])
    } else {
        pending_among(tasks, present, n - 1)
    }
}

/// The tasks that have to be carried out, in order, given which files are
/// on disk.
pub fn pending_tasks(tasks: &Vec<FileTask>, present: &Vec<bool>) -> (out: Vec<FileTask>)
    ensures
        out.deep_view() == pending_among(tasks.deep_view(), present@, tasks@.len() as int),
{
    let mut out: Vec<FileTask> = Vec::new();
    let ghost all = tasks.deep_view();
    let mut i: usize = 0;
    assert(out.deep_view() =~= pending_among(all, present@, 0));
    while i < tasks.len()
        invariant
            i <= tasks.len(),
            all == tasks.deep_view(),
            out.deep_view() == pending_among(all, present@, i as int),
        decreases tasks.len() - i,
    {
        let here = i < present.len() && present[i];
        let mut fresh = !here;
        let mut j: usize = 0;
        while fresh && j < i
            invariant
                j <= i < tasks.len(),
                all == tasks.deep_view(),
                fresh ==> forall|k: int| 0 <= k < j ==> all[k].dest != all[i as int].dest,
                !fresh ==> !is_pending(all, present@, i as int),
                fresh ==> !is_present(present@, i as int),
            decreases
                    i - j + if fresh {
                        1int
                    } else {
                        0int
                    },
        {
            assert(all[j as int] == tasks@[j as int].deep_view());
            assert(all[i as int] == tasks@[i as int].deep_view());
            if same_text(tasks[j].dest.as_str(), tasks[i].dest.as_str()) {
                fresh = false;
            } else {
                j += 1;
            }
        }
        if fresh {
            let task = FileTask { url: tasks[i].url.clone(), dest: tasks[i].dest.clone() };
            let ghost before = out.deep_view();
            out.push(task);
            assert(task.deep_view() == all[i as int]);
            assert(out.deep_view() =~= before.push(all[i as int]));
        }
        i += 1;
    }
    out
}

/// What making sure of a version is waiting for.
#[derive(Debug, Clone, Copy, PartialEq, Eq, Structural)]
pub enum ResolvePhase {
    /// The description on disk, or word that there is none.
    Local,
    /// The catalog.
    Manifest,
    /// The description, fetched.
    Descriptor,
    /// The description, stored and decoded.
    Store,
    /// The version's files.
    Materialize,
    /// Nothing: it has ended.
    Finished,
}

/// Making sure of one version.
#[derive(Debug)]
pub struct VersionResolve {
    pub id: String,
    pub phase: ResolvePhase,
}

/// What a `VersionResolve` holds, as plain values.
pub struct VersionResolveView {
    pub id: Seq<char>,
    pub phase: ResolvePhase,
}

impl DeepView for VersionResolve {
    type V = VersionResolveView;

    open spec fn deep_view(&self) -> VersionResolveView {
        VersionResolveView { id: self.id@, phase: self.phase }
    }
}

/// What the driver reports.
#[derive(Debug)]
pub enum ResolveEvent {
    /// The version is described on disk: this is its description.
    LocalFound(VersionJson),
    /// The description on disk could not be read or decoded.
    LocalUnreadable(String),
    /// The version is not described on disk.
    LocalAbsent,
    /// The catalog.
    ManifestFetched(VersionManifest),
    /// What was fetched: the description as text.
    Fetched(String),
    /// A fetch failed.
    FetchFailed(String),
    /// The description is stored; this is what it says.
    Stored(VersionJson),
    /// The description could not be stored or decoded.
    StoreFailed(String),
    /// The version's files are there; its description is handed back.
    Materialized(VersionJson),
    /// A file of the version could not be had.
    MaterializeFailed(InstallError),
}

/// What a `ResolveEvent` holds, as plain values.
pub enum ResolveEventView {
    LocalFound(VersionView),
    LocalUnreadable(Seq<char>),
    LocalAbsent,
    ManifestFetched(VersionManifest),
    Fetched(Seq<char>),
    FetchFailed(Seq<char>),
    Stored(VersionView),
    StoreFailed(Seq<char>),
    Materialized(VersionView),
    MaterializeFailed(InstallErrorView),
}

impl DeepView for ResolveEvent {
    type V = ResolveEventView;

    open spec fn deep_view(&self) -> ResolveEventView {
        match self {
            ResolveEvent::LocalFound(v) => ResolveEventView::LocalFound(v.deep_view()),
            ResolveEvent::LocalUnreadable(m) => ResolveEventView::LocalUnreadable(m@),
            ResolveEvent::LocalAbsent => ResolveEventView::LocalAbsent,
            ResolveEvent::ManifestFetched(m) => ResolveEventView::ManifestFetched(*m),
            ResolveEvent::Fetched(t) => ResolveEventView::Fetched(t@),
            ResolveEvent::FetchFailed(m) => ResolveEventView::FetchFailed(m@),
            ResolveEvent::Stored(v) => ResolveEventView::Stored(v.deep_view()),
            ResolveEvent::StoreFailed(m) => ResolveEventView::StoreFailed(m@),
            ResolveEvent::Materialized(v) => ResolveEventView::Materialized(v.deep_view()),
            ResolveEvent::MaterializeFailed(e) => ResolveEventView::MaterializeFailed(
                e.deep_view(),
            ),
        }
    }
}

/// What the driver is to do next.
#[derive(Debug)]
pub enum ResolveAction {
    /// Read and decode the description of the version `id` from disk, and
    /// report `LocalFound`, `LocalUnreadable` or `LocalAbsent`.
    LoadLocal { id: String },
    /// Fetch the catalog and report `ManifestFetched` or `FetchFailed`.
    FetchManifest,
    /// Fetch the text at `url` and report `Fetched` or `FetchFailed`.
    Fetch { url: String },
    /// Store `text` as it is as the description of the version `id`, decode
    /// it, and report `Stored` or `StoreFailed`.
    Store { id: String, text: String },
    /// Fetch the files of the version `id` that are missing, and its
    /// assets, and report `Materialized` or `MaterializeFailed`.
    Materialize { id: String, version: VersionJson },
    /// The version is installed; this is its description.
    Done { version: VersionJson },
    /// The version could not be installed.
    Fail(InstallError),
}

/// What a `ResolveAction` holds, as plain values.
pub enum ResolveActionView {
    LoadLocal { id: Seq<char> },
    FetchManifest,
    Fetch { url: Seq<char> },
    Store { id: Seq<char>, text: Seq<char> },
    Materialize { id: Seq<char>, version: VersionView },
    Done { version: VersionView },
    Fail(InstallErrorView),
}

impl DeepView for ResolveAction {
    type V = ResolveActionView;

    open spec fn deep_view(&self) -> ResolveActionView {
        match self {
            ResolveAction::LoadLocal { id } => ResolveActionView::LoadLocal { id: id@ },
            ResolveAction::FetchManifest => ResolveActionView::FetchManifest,
            ResolveAction::Fetch { url } => ResolveActionView::Fetch { url: url@ },
            ResolveAction::Store { id, text } => ResolveActionView::Store { id: id@, text: text@ },
            ResolveAction::Materialize { id, version } => ResolveActionView::Materialize {
                id: id@,
                version: version.deep_view(),
            },
            ResolveAction::Done { version } => ResolveActionView::Done {
                version: version.deep_view(),
            },
            ResolveAction::Fail(e) => ResolveActionView::Fail(e.deep_view()),
        }
    }
}

/// What is said of a version that the catalog does not list.
pub open spec fn not_in_manifest(id: Seq<char>) -> Seq<char> {
    "Minecraft version "@ + id + " not found in manifest"@
}

impl VersionResolveView {
    /// It goes on in `phase` with this action.
    pub open spec fn moved(self, phase: ResolvePhase, action: ResolveActionView) -> (
        VersionResolveView,
        ResolveActionView,
    ) {
        (VersionResolveView { phase, ..self }, action)
    }

    /// It ended with the error `e`.
    pub open spec fn failed(self, e: InstallErrorView) -> (VersionResolveView, ResolveActionView) {
        self.moved(ResolvePhase::Finished, ResolveActionView::Fail(e))
    }

    /// What making sure of a version does on an event.
    pub open spec fn step(self, event: ResolveEventView) -> (VersionResolveView, ResolveActionView) {
        match (self.phase, event) {
            (ResolvePhase::Local, ResolveEventView::LocalFound(version)) => self.moved(
                ResolvePhase::Finished,
                ResolveActionView::Done { version },
            ),
            (ResolvePhase::Local, ResolveEventView::LocalUnreadable(m)) => self.failed(
                InstallErrorView::Schema(m),
            ),
            (ResolvePhase::Local, ResolveEventView::LocalAbsent) => self.moved(
                ResolvePhase::Manifest,
                ResolveActionView::FetchManifest,
            ),
            (ResolvePhase::Manifest, ResolveEventView::ManifestFetched(manifest)) => match address_of(
                manifest,
                self.id,
            ) {
                Some(url) => self.moved(ResolvePhase::Descriptor, ResolveActionView::Fetch { url }),
                None => self.failed(InstallErrorView::Network(not_in_manifest(self.id))),
            },
            (ResolvePhase::Manifest, ResolveEventView::FetchFailed(m)) => self.failed(
                InstallErrorView::Network(m),
            ),
            (ResolvePhase::Descriptor, ResolveEventView::Fetched(text)) => self.moved(
                ResolvePhase::Store,
                ResolveActionView::Store { id: self.id, text },
            ),
            (ResolvePhase::Descriptor, ResolveEventView::FetchFailed(m)) => self.failed(
                InstallErrorView::Network(m),
            ),
            (ResolvePhase::Store, ResolveEventView::Stored(version)) => self.moved(
                ResolvePhase::Materialize,
                ResolveActionView::Materialize { id: self.id, version },
            ),
            (ResolvePhase::Store, ResolveEventView::StoreFailed(m)) => self.failed(
                InstallErrorView::Schema(m),
            ),
            (ResolvePhase::Materialize, ResolveEventView::Materialized(version)) => self.moved(
                ResolvePhase::Finished,
                ResolveActionView::Done { version },
            ),
            (ResolvePhase::Materialize, ResolveEventView::MaterializeFailed(e)) => self.failed(e),
            _ => self.failed(InstallErrorView::Schema("unexpected event during installation"@)),
        }
    }
}

impl VersionResolve {
    /// Begins to make sure of the version `id`: the disk is looked at first.
    pub fn start(id: String) -> (r: (VersionResolve, ResolveAction))
        ensures
            r.0.deep_view() == (VersionResolveView { id: id@, phase: ResolvePhase::Local }),
            r.1.deep_view() == (ResolveActionView::LoadLocal { id: id@ }),
    {
        let copy = id.clone();
        (VersionResolve { id, phase: ResolvePhase::Local }, ResolveAction::LoadLocal { id: copy })
    }

    /// Begins to install the version `id` anew, whatever is on disk: the
    /// catalog is asked for first, the description is fetched and stored
    /// again, and the version's files are gone through.
    pub fn refresh(id: String) -> (r: (VersionResolve, ResolveAction))
        ensures
            r.0.deep_view() == (VersionResolveView { id: id@, phase: ResolvePhase::Manifest }),
            r.1.deep_view() == ResolveActionView::FetchManifest,
    {
        (VersionResolve { id, phase: ResolvePhase::Manifest }, ResolveAction::FetchManifest)
    }

    fn fail(&mut self, e: InstallError) -> (action: ResolveAction)
        ensures
            (final(self).deep_view(), action.deep_view()) == old(self).deep_view().failed(
                e.deep_view(),
            ),
    {
        self.phase = ResolvePhase::Finished;
        ResolveAction::Fail(e)
    }

    fn unexpected(&mut self) -> (action: ResolveAction)
        ensures
            (final(self).deep_view(), action.deep_view()) == old(self).deep_view().failed(
                InstallErrorView::Schema("unexpected event during installation"@),
            ),
    {
        self.fail(InstallError::Schema(String::from_str("unexpected event during installation")))
    }

    fn on_manifest(&mut self, manifest: VersionManifest) -> (action: ResolveAction)
        requires
            old(self).phase == ResolvePhase::Manifest,
        ensures
            (final(self).deep_view(), action.deep_view()) == old(self).deep_view().step(
                ResolveEventView::ManifestFetched(manifest),
            ),
    {
        match find_version(&manifest, self.id.as_str()) {
            Some(entry) => {
                let url = entry.url.clone();
                self.phase = ResolvePhase::Descriptor;
                ResolveAction::Fetch { url }
            },
            None => {
                let mut m = String::from_str("Minecraft version ");
                m.append(self.id.as_str());
                m.append(" not found in manifest");
                self.fail(InstallError::Network(m))
            },
        }
    }

    /// Takes up what the driver reports and hands out the next action.
    pub fn step(&mut self, event: ResolveEvent) -> (action: ResolveAction)
        ensures
            (final(self).deep_view(), action.deep_view()) == old(self).deep_view().step(
                event.deep_view(),
            ),
    {
        match self.phase {
            ResolvePhase::Local => match event {
                ResolveEvent::LocalFound(version) => {
                    self.phase = ResolvePhase::Finished;
                    ResolveAction::Done { version }
                },
                ResolveEvent::LocalUnreadable(m) => self.fail(InstallError::Schema(m)),
                ResolveEvent::LocalAbsent => {
                    self.phase = ResolvePhase::Manifest;
                    ResolveAction::FetchManifest
                },
                _ => self.unexpected(),
            },
            ResolvePhase::Manifest => match event {
                ResolveEvent::ManifestFetched(manifest) => self.on_manifest(manifest),
                ResolveEvent::FetchFailed(m) => self.fail(InstallError::Network(m)),
                _ => self.unexpected(),
            },
            ResolvePhase::Descriptor => match event {
                ResolveEvent::Fetched(text) => {
                    self.phase = ResolvePhase::Store;
                    ResolveAction::Store { id: self.id.clone(), text }
                },
                ResolveEvent::FetchFailed(m) => self.fail(InstallError::Network(m)),
                _ => self.unexpected(),
            },
            ResolvePhase::Store => match event {
                ResolveEvent::Stored(version) => {
                    self.phase = ResolvePhase::Materialize;
                    ResolveAction::Materialize { id: self.id.clone(), version }
                },
                ResolveEvent::StoreFailed(m) => self.fail(InstallError::Schema(m)),
                _ => self.unexpected(),
            },
            ResolvePhase::Materialize => match event {
                ResolveEvent::Materialized(version) => {
                    self.phase = ResolvePhase::Finished;
                    ResolveAction::Done { version }
                },
                ResolveEvent::MaterializeFailed(e) => self.fail(e),
                _ => self.unexpected(),
            },
            ResolvePhase::Finished => self.unexpected(),
        }
    }
}

/// Whether an action asks the driver for a request over the network.
pub open spec fn asks_for_network(action: ResolveActionView) -> bool {
    action is FetchManifest || action is Fetch || action is Materialize
}

/// A version that is described on disk is installed without any request:
/// making sure of it takes two actions, to look at the disk and to hand the
/// description back, and neither asks for the network.
pub proof fn lemma_installed_version_needs_no_network(id: Seq<char>, version: VersionView)
    ensures
        ({
            let begun = VersionResolveView { id, phase: ResolvePhase::Local };
            let first = ResolveActionView::LoadLocal { id };
            let (ended, second) = begun.step(ResolveEventView::LocalFound(version));
            &&& !asks_for_network(first)
            &&& second == ResolveActionView::Done { version }
            &&& !asks_for_network(second)
            &&& ended.phase == ResolvePhase::Finished
        }),
{
}

/// A version is only handed back as installed from disk, or after its
/// files were materialized.
pub proof fn lemma_done_means_on_disk(state: VersionResolveView, event: ResolveEventView)
    requires
        state.step(event).1 is Done,
    ensures
        (state.phase == ResolvePhase::Local && event is LocalFound) || (state.phase
            == ResolvePhase::Materialize && event is Materialized),
{
}

/// A version is only materialized after its description was stored under
/// its id: the files are asked for on the report that the description is
/// stored, and that report is asked for with the description as it came.
pub proof fn lemma_materialize_follows_store(state: VersionResolveView, event: ResolveEventView)
    ensures
        state.step(event).1 is Materialize ==> state.phase == ResolvePhase::Store && event
            is Stored && state.step(event).1->Materialize_id == state.id,
        state.step(event).0.phase == ResolvePhase::Store ==> state.phase
            == ResolvePhase::Descriptor && event is Fetched && state.step(event).1 == (
        ResolveActionView::Store { id: state.id, text: event->Fetched_0 }),
{
}

/// The machine never changes the version that it makes sure of, and once
/// it has ended it stays ended.
pub proof fn lemma_resolve_keeps_its_version(state: VersionResolveView, event: ResolveEventView)
    ensures
        state.step(event).0.id == state.id,
        state.phase == ResolvePhase::Finished ==> state.step(event).0.phase
            == ResolvePhase::Finished && state.step(event).1 is Fail,
{
}

/// A version that is installed anew is never handed back from what was on
/// disk before: its files are gone through first.
pub proof fn lemma_refreshed_version_is_materialized(state: VersionResolveView, event: ResolveEventView)
    requires
        state.phase != ResolvePhase::Local,
        state.step(event).1 is Done,
    ensures
        state.phase == ResolvePhase::Materialize,
        event is Materialized,
        state.step(event).0.phase != ResolvePhase::Local,
{
}

/// No step leads back to looking at the disk.
pub proof fn lemma_never_back_to_local(state: VersionResolveView, event: ResolveEventView)
    ensures
        state.step(event).0.phase != ResolvePhase::Local,
{
}

/// The client jar is the first file that is fetched for a version.
pub proof fn lemma_client_jar_comes_first(
    version: VersionView,
    id: Seq<char>,
    os: Seq<char>,
    root: Seq<char>,
    sep: Seq<char>,
)
    ensures
        file_tasks(version, id, os, root, sep).len() >= 1,
        file_tasks(version, id, os, root, sep)[0] == (FileTaskView {
            url: version.client.url,
            dest: client_jar_path(root, sep, id),
        }),
{
}

/// Where the index of a version's assets is fetched from and where it is
/// kept. It is fetched anew every time.
pub fn asset_index_task(layout: &Layout, version: &VersionJson) -> (task: FileTask)
    ensures
        task.deep_view() == (FileTaskView {
            url: version.assetIndex.url@,
            dest: asset_index_path(layout.root@, layout.separator@, version.assetIndex.id@),
        }),
{
    FileTask {
        url: version.assetIndex.url.clone(),
        dest: layout.asset_index_path(version.assetIndex.id.as_str()),
    }
}

} // verus!
