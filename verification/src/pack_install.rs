//! Creating an instance from a pack, as a state machine.
//!
//! The record of the new instance is written first. Then the pack's archive
//! is fetched and its index read, where the version brings one; the base
//! version is installed; the loader that the pack asks for is installed and
//! recorded; the pack is unpacked, or, where the version brings no archive,
//! its files are fetched as mods; and the instance is recorded as `Ready`.
//!
//! ```text
//! Version -> Created -> Pack -> Base -> Loader -> LoaderRecorded -> Unpack | Mods -> Final
//! ```

use vstd::prelude::*;
use vstd::string::StringExecFns;
use crate::choice::{first_some, lemma_first_some_at, lemma_first_some_none};
use crate::instance::{fresh_instance, Instance, InstanceState, InstanceView};
use crate::loader::{LoaderInfo, LoaderInfoView};
use crate::modrinth::{
    is_mrpack_name, is_supported_pack_loader, names_pack, pack_base_version, pack_loader,
    pack_loader_of, ModpackIndex, ModrinthFile, ModrinthFileView, ModrinthVersion,
};
use crate::text::clone_optional;

verus! {

/// What the creation is waiting for.
#[derive(Debug, Clone, Copy, PartialEq, Eq, Structural)]
pub enum PackPhase {
    /// The version of the pack, as the registry describes it.
    Version,
    /// The record of the new instance, written.
    Created,
    /// The pack's archive, fetched and its index read.
    Pack,
    /// The base version, installed.
    Base,
    /// The loader, installed.
    Loader,
    /// The record with the loader, written.
    LoaderRecorded,
    /// The pack, unpacked.
    Unpack,
    /// The files of the version, fetched as mods.
    Mods,
    /// The record that says `Ready`, written.
    Final,
    /// Nothing: it has ended.
    Finished,
}

/// A creation in progress.
#[derive(Debug)]
pub struct PackInstall {
    pub name: String,
    pub instance_id: String,
    /// The time of the creation, in seconds since the epoch.
    pub now: u64,
    pub version_id: String,
    pub phase: PackPhase,
    /// The files of the version.
    pub files: Vec<ModrinthFile>,
    /// The name of the pack's archive among them, if there is one.
    pub pack: Option<String>,
    /// The base version that the pack is for.
    pub base_version: String,
    /// The loader that the pack asks for.
    pub loader: Option<LoaderInfo>,
    /// The record of the instance, once there is one.
    pub record: Option<Instance>,
}

/// What a `PackInstall` holds, as plain values.
pub struct PackInstallView {
    pub name: Seq<char>,
    pub instance_id: Seq<char>,
    pub now: u64,
    pub version_id: Seq<char>,
    pub phase: PackPhase,
    pub files: Seq<ModrinthFileView>,
    pub pack: Option<Seq<char>>,
    pub base_version: Seq<char>,
    pub loader: Option<LoaderInfoView>,
    pub record: Option<InstanceView>,
}

impl DeepView for PackInstall {
    type V = PackInstallView;

    open spec fn deep_view(&self) -> PackInstallView {
        PackInstallView {
            name: self.name@,
            instance_id: self.instance_id@,
            now: self.now,
            version_id: self.version_id@,
            phase: self.phase,
            files: self.files.deep_view(),
            pack: self.pack.deep_view(),
            base_version: self.base_version@,
            loader: self.loader.deep_view(),
            record: self.record.deep_view(),
        }
    }
}

/// What the driver reports.
#[derive(Debug)]
pub enum PackEvent {
    /// The version of the pack.
    Version(ModrinthVersion),
    /// The version could not be had.
    VersionFailed(String),
    /// The record is written.
    Written,
    /// The record could not be written.
    WriteFailed(String),
    /// The archive is fetched; this is its index.
    PackRead(ModpackIndex),
    /// The archive could not be fetched.
    PackFetchFailed(String),
    /// The index of the archive could not be read.
    PackUnreadable(String),
    /// The base version is installed.
    BaseReady,
    /// The base version could not be installed.
    BaseFailed(String),
    /// The loader is installed, in this version.
    LoaderInstalled(String),
    /// The loader could not be installed.
    LoaderFailed(String),
    /// The pack is unpacked.
    Unpacked,
    /// The pack could not be unpacked.
    UnpackFailed(String),
    /// The files are fetched.
    ModsFetched,
    /// The file `filename` could not be fetched.
    ModFailed { filename: String, cause: String },
}

/// What a `PackEvent` holds, as plain values: of a version its game
/// versions, loaders and files, of an index the base version that it names
/// and its dependencies.
pub enum PackEventView {
    Version { game_versions: Seq<Seq<char>>, loaders: Seq<Seq<char>>, files: Seq<ModrinthFileView> },
    VersionFailed(Seq<char>),
    Written,
    WriteFailed(Seq<char>),
    PackRead { version_id: Option<Seq<char>>, dependencies: Seq<(Seq<char>, Seq<char>)> },
    PackFetchFailed(Seq<char>),
    PackUnreadable(Seq<char>),
    BaseReady,
    BaseFailed(Seq<char>),
    LoaderInstalled(Seq<char>),
    LoaderFailed(Seq<char>),
    Unpacked,
    UnpackFailed(Seq<char>),
    ModsFetched,
    ModFailed { filename: Seq<char>, cause: Seq<char> },
}

impl DeepView for PackEvent {
    type V = PackEventView;

    open spec fn deep_view(&self) -> PackEventView {
        match self {
            PackEvent::Version(v) => PackEventView::Version {
                game_versions: v.game_versions.deep_view(),
                loaders: v.loaders.deep_view(),
                files: v.files.deep_view(),
            },
            PackEvent::VersionFailed(m) => PackEventView::VersionFailed(m@),
            PackEvent::Written => PackEventView::Written,
            PackEvent::WriteFailed(m) => PackEventView::WriteFailed(m@),
            PackEvent::PackRead(index) => PackEventView::PackRead {
                version_id: index.version_id.deep_view(),
                dependencies: index.dependencies.deep_view(),
            },
            PackEvent::PackFetchFailed(m) => PackEventView::PackFetchFailed(m@),
            PackEvent::PackUnreadable(m) => PackEventView::PackUnreadable(m@),
            PackEvent::BaseReady => PackEventView::BaseReady,
            PackEvent::BaseFailed(m) => PackEventView::BaseFailed(m@),
            PackEvent::LoaderInstalled(v) => PackEventView::LoaderInstalled(v@),
            PackEvent::LoaderFailed(m) => PackEventView::LoaderFailed(m@),
            PackEvent::Unpacked => PackEventView::Unpacked,
            PackEvent::UnpackFailed(m) => PackEventView::UnpackFailed(m@),
            PackEvent::ModsFetched => PackEventView::ModsFetched,
            PackEvent::ModFailed { filename, cause } => PackEventView::ModFailed {
                filename: filename@,
                cause: cause@,
            },
        }
    }
}

/// What the driver is to do next.
#[derive(Debug)]
pub enum PackAction {
    /// Ask the registry for the version and report `Version` or
    /// `VersionFailed`.
    FetchVersion { version_id: String },
    /// Make the instance's directory if need be, write `record`, and
    /// report `Written` or `WriteFailed`.
    WriteRecord { record: Instance },
    /// Fetch the archive from `url` into the instance's directory under
    /// `filename`, read its index, and report `PackRead`, `PackFetchFailed`
    /// or `PackUnreadable`.
    FetchPack { url: String, filename: String },
    /// Make sure that the base version is installed and report `BaseReady`
    /// or `BaseFailed`.
    EnsureBase { version: String },
    /// Install the loader for the base version, in the version `requested`
    /// if there is one, and report `LoaderInstalled` or `LoaderFailed`.
    InstallLoader { loader_type: String, base_version: String, requested: Option<String> },
    /// Unpack the archive `filename` into the instance, delete it, and
    /// report `Unpacked` or `UnpackFailed`.
    Unpack { filename: String },
    /// Fetch these files into the instance's mods directory, in order, and
    /// report `ModsFetched`, or `ModFailed` for the first that fails.
    FetchMods { files: Vec<ModrinthFile> },
    /// The instance is there.
    Done { instance_id: String },
    /// The creation failed. Where there is a `record`, it is to be written;
    /// with `discard_pack`, the archive is to be deleted.
    Fail { message: String, record: Option<Instance>, discard_pack: bool },
}

/// What a `PackAction` holds, as plain values.
pub enum PackActionView {
    FetchVersion { version_id: Seq<char> },
    WriteRecord { record: InstanceView },
    FetchPack { url: Seq<char>, filename: Seq<char> },
    EnsureBase { version: Seq<char> },
    InstallLoader { loader_type: Seq<char>, base_version: Seq<char>, requested: Option<Seq<char>> },
    Unpack { filename: Seq<char> },
    FetchMods { files: Seq<ModrinthFileView> },
    Done { instance_id: Seq<char> },
    Fail { message: Seq<char>, record: Option<InstanceView>, discard_pack: bool },
}

impl DeepView for PackAction {
    type V = PackActionView;

    open spec fn deep_view(&self) -> PackActionView {
        match self {
            PackAction::FetchVersion { version_id } => PackActionView::FetchVersion {
                version_id: version_id@,
            },
            PackAction::WriteRecord { record } => PackActionView::WriteRecord {
                record: record.deep_view(),
            },
            PackAction::FetchPack { url, filename } => PackActionView::FetchPack {
                url: url@,
                filename: filename@,
            },
            PackAction::EnsureBase { version } => PackActionView::EnsureBase { version: version@ },
            PackAction::InstallLoader {
                loader_type,
                base_version,
                requested,
            } => PackActionView::InstallLoader {
                loader_type: loader_type@,
                base_version: base_version@,
                requested: requested.deep_view(),
            },
            PackAction::Unpack { filename } => PackActionView::Unpack { filename: filename@ },
            PackAction::FetchMods { files } => PackActionView::FetchMods {
                files: files.deep_view(),
            },
            PackAction::Done { instance_id } => PackActionView::Done { instance_id: instance_id@ },
            PackAction::Fail { message, record, discard_pack } => PackActionView::Fail {
                message: message@,
                record: record.deep_view(),
                discard_pack: *discard_pack,
            },
        }
    }
}

/// For each file, its position if its name marks it as a pack.
pub open spec fn pack_marks(files: Seq<ModrinthFileView>) -> Seq<Option<int>> {
    Seq::new(
        files.len(),
        |i: int|
            if names_pack(files[i].filename) {
                Some(i)
            } else {
                None
            },
    )
}

/// The files that are fetched as mods where the version brings no archive:
/// all whose names do not mark them as packs, in their order.
pub open spec fn plain_files(files: Seq<ModrinthFileView>) -> Seq<ModrinthFileView>
    decreases files.len(),
{
    if files.len() == 0 {
        Seq::empty()
    } else if names_pack(files.last().filename) {
        plain_files(files.drop_last())
    } else {
        plain_files(files.drop_last()).push(files.last())
    }
}

impl PackInstallView {
    /// It goes on in `phase` with this action.
    pub open spec fn moved(self, phase: PackPhase, action: PackActionView) -> (
        PackInstallView,
        PackActionView,
    ) {
        (PackInstallView { phase, ..self }, action)
    }

    /// It ended with this message; nothing is to be written or deleted.
    pub open spec fn failed(self, message: Seq<char>) -> (PackInstallView, PackActionView) {
        self.moved(
            PackPhase::Finished,
            PackActionView::Fail { message, record: None, discard_pack: false },
        )
    }

    /// The base version is to be installed.
    pub open spec fn ensure_base(self) -> (PackInstallView, PackActionView) {
        self.moved(PackPhase::Base, PackActionView::EnsureBase { version: self.base_version })
    }

    /// The contents are to be brought in: the pack unpacked, or the files
    /// of the version fetched as mods.
    pub open spec fn bring_contents(self) -> (PackInstallView, PackActionView) {
        match self.pack {
            Some(filename) => self.moved(PackPhase::Unpack, PackActionView::Unpack { filename }),
            None => self.moved(
                PackPhase::Mods,
                PackActionView::FetchMods { files: plain_files(self.files) },
            ),
        }
    }

    /// The instance is to be recorded as `Ready`.
    pub open spec fn finish(self) -> (PackInstallView, PackActionView) {
        match self.record {
            Some(record) => (
                PackInstallView {
                    phase: PackPhase::Final,
                    record: Some(record.in_state(InstanceState::Ready)),
                    ..self
                },
                PackActionView::WriteRecord { record: record.in_state(InstanceState::Ready) },
            ),
            None => self.failed("unexpected event during pack installation"@),
        }
    }

    /// The version came in: it must name a game version; then the record
    /// of the new instance is written.
    pub open spec fn after_version(
        self,
        game_versions: Seq<Seq<char>>,
        loaders: Seq<Seq<char>>,
        files: Seq<ModrinthFileView>,
    ) -> (PackInstallView, PackActionView) {
        if game_versions.len() == 0 {
            self.failed("No game version specified"@)
        } else {
            let record = fresh_instance(self.instance_id, self.name, game_versions[0], self.now);
            (
                PackInstallView {
                    phase: PackPhase::Created,
                    files,
                    base_version: game_versions[0],
                    loader: pack_loader_of(None, loaders),
                    record: Some(record),
                    ..self
                },
                PackActionView::WriteRecord { record },
            )
        }
    }

    /// The record is written: the archive is fetched where the version
    /// brings one, else the base version is installed right away.
    pub open spec fn after_created(self) -> (PackInstallView, PackActionView) {
        match first_some(pack_marks(self.files)) {
            Some(at) => (
                PackInstallView {
                    phase: PackPhase::Pack,
                    pack: Some(self.files[at].filename),
                    ..self
                },
                PackActionView::FetchPack {
                    url: self.files[at].url,
                    filename: self.files[at].filename,
                },
            ),
            None => self.ensure_base(),
        }
    }

    /// The index of the archive came in: it says which base version and
    /// which loader the pack is for.
    pub open spec fn after_index(
        self,
        version_id: Option<Seq<char>>,
        dependencies: Seq<(Seq<char>, Seq<char>)>,
    ) -> (PackInstallView, PackActionView) {
        let base_version = match version_id {
            Some(v) => v,
            None => self.base_version,
        };
        (
            PackInstallView {
                phase: PackPhase::Base,
                base_version,
                loader: pack_loader_of(Some(dependencies), Seq::empty()),
                ..self
            },
            PackActionView::EnsureBase { version: base_version },
        )
    }

    /// The base version is installed: the loader follows, if the pack asks
    /// for one that can be installed.
    pub open spec fn after_base(self) -> (PackInstallView, PackActionView) {
        match self.loader {
            None => self.bring_contents(),
            Some(loader) => if loader.loader_type == "forge"@ {
                self.moved(
                    PackPhase::Finished,
                    PackActionView::Fail {
                        message: "Forge modpacks are not supported yet"@,
                        record: match self.record {
                            Some(record) => Some(record.in_state(InstanceState::Error)),
                            None => None,
                        },
                        discard_pack: false,
                    },
                )
            } else {
                self.moved(
                    PackPhase::Loader,
                    PackActionView::InstallLoader {
                        loader_type: loader.loader_type,
                        base_version: self.base_version,
                        requested: loader.version,
                    },
                )
            },
        }
    }

    /// The record after the loader was installed in `version`: it names
    /// the loader and its version, and the base version of the pack.
    pub open spec fn with_loader(self, record: InstanceView, version: Seq<char>) -> InstanceView {
        InstanceView {
            loader: match self.loader {
                Some(loader) => Some(loader.loader_type),
                None => record.loader,
            },
            loader_version: Some(version),
            version: self.base_version,
            mc_version: Some(self.base_version),
            ..record
        }
    }

    /// The loader is installed: it is recorded.
    pub open spec fn after_loader(self, version: Seq<char>) -> (PackInstallView, PackActionView) {
        match self.record {
            Some(record) => (
                PackInstallView {
                    phase: PackPhase::LoaderRecorded,
                    record: Some(self.with_loader(record, version)),
                    ..self
                },
                PackActionView::WriteRecord { record: self.with_loader(record, version) },
            ),
            None => self.failed("unexpected event during pack installation"@),
        }
    }

    /// What the creation does on an event.
    pub open spec fn step(self, event: PackEventView) -> (PackInstallView, PackActionView) {
        match (self.phase, event) {
            (PackPhase::Version, PackEventView::Version { game_versions, loaders, files }) =>
                self.after_version(game_versions, loaders, files),
            (PackPhase::Version, PackEventView::VersionFailed(m)) => self.failed(m),
            (PackPhase::Created, PackEventView::Written) => self.after_created(),
            (PackPhase::Created, PackEventView::WriteFailed(m)) => self.failed(m),
            (PackPhase::Pack, PackEventView::PackRead { version_id, dependencies }) =>
                self.after_index(version_id, dependencies),
            (PackPhase::Pack, PackEventView::PackFetchFailed(m)) => self.failed(
                "Failed to download modpack: "@ + m,
            ),
            (PackPhase::Pack, PackEventView::PackUnreadable(m)) => self.moved(
                PackPhase::Finished,
                PackActionView::Fail {
                    message: "Failed to parse modpack: "@ + m,
                    record: None,
                    discard_pack: true,
                },
            ),
            (PackPhase::Base, PackEventView::BaseReady) => self.after_base(),
            (PackPhase::Base, PackEventView::BaseFailed(m)) => self.failed(m),
            (PackPhase::Loader, PackEventView::LoaderInstalled(version)) => self.after_loader(
                version,
            ),
            (PackPhase::Loader, PackEventView::LoaderFailed(m)) => self.failed(m),
            (PackPhase::LoaderRecorded, PackEventView::Written) => self.bring_contents(),
            (PackPhase::LoaderRecorded, PackEventView::WriteFailed(m)) => self.failed(m),
            (PackPhase::Unpack, PackEventView::Unpacked) => self.finish(),
            (PackPhase::Unpack, PackEventView::UnpackFailed(m)) => self.failed(
                "Failed to extract modpack: "@ + m,
            ),
            (PackPhase::Mods, PackEventView::ModsFetched) => self.finish(),
            (PackPhase::Mods, PackEventView::ModFailed { filename, cause }) => self.failed(
                "Failed to download "@ + filename + ": "@ + cause,
            ),
            (PackPhase::Final, PackEventView::Written) => self.moved(
                PackPhase::Finished,
                PackActionView::Done { instance_id: self.instance_id },
            ),
            (PackPhase::Final, PackEventView::WriteFailed(m)) => self.failed(m),
            _ => self.failed("unexpected event during pack installation"@),
        }
    }
}

/// A copy of a file's record.
pub fn clone_file(file: &ModrinthFile) -> (r: ModrinthFile)
    ensures
        r.deep_view() == file.deep_view(),
{
    ModrinthFile {
        url: file.url.clone(),
        filename: file.filename.clone(),
        primary: file.primary,
        size: file.size,
    }
}

/// The position of the first file whose name marks it as a pack.
#[verifier::loop_isolation(false)]
pub fn find_pack(files: &Vec<ModrinthFile>) -> (r: Option<usize>)
    ensures
        match r {
            Some(at) => first_some(pack_marks(files.deep_view())) == Some(at as int) && at
                < files@.len(),
            None => first_some(pack_marks(files.deep_view())) is None,
        },
{
    let ghost all = files.deep_view();
    let mut i: usize = 0;
    while i < files.len()
        invariant
            i <= files.len(),
            forall|k: int| 0 <= k < i ==> pack_marks(all)[k] is None,
        decreases files.len() - i,
    {
        assert(all[i as int] == files@[i as int].deep_view());
        if is_mrpack_name(files[i].filename.as_str()) {
            proof {
                lemma_first_some_at(pack_marks(all), i as int);
            }
            return Some(i);
        }
        i += 1;
    }
    proof {
        lemma_first_some_none(pack_marks(all));
    }
    None
}

/// The files that are fetched as mods where the version brings no archive.
pub fn mods_of(files: &Vec<ModrinthFile>) -> (out: Vec<ModrinthFile>)
    ensures
        out.deep_view() == plain_files(files.deep_view()),
{
    let ghost all = files.deep_view();
    let mut out: Vec<ModrinthFile> = Vec::new();
    let mut i: usize = 0;
    assert(out.deep_view() =~= plain_files(all.take(0)));
    while i < files.len()
        invariant
            i <= files.len(),
            all == files.deep_view(),
            out.deep_view() == plain_files(all.take(i as int)),
        decreases files.len() - i,
    {
        assert(all.take(i + 1).drop_last() =~= all.take(i as int));
        assert(all.take(i + 1).last() == files@[i as int].deep_view());
        if !is_mrpack_name(files[i].filename.as_str()) {
            let copy = clone_file(&files[i]);
            let ghost before = out.deep_view();
            out.push(copy);
            assert(out.deep_view() =~= before.push(copy.deep_view()));
        }
        i += 1;
    }
    assert(all.take(i as int) =~= all);
    out
}

impl PackInstall {
    /// Begins the creation of an instance with the name `name` and the id
    /// `instance_id` from the version `version_id` of a pack, at the time
    /// `now`: the version is asked for first.
    pub fn start(name: String, instance_id: String, version_id: String, now: u64) -> (r: (
        PackInstall,
        PackAction,
    ))
        ensures
            r.0.deep_view() == (PackInstallView {
                name: name@,
                instance_id: instance_id@,
                now,
                version_id: version_id@,
                phase: PackPhase::Version,
                files: Seq::empty(),
                pack: None,
                base_version: Seq::empty(),
                loader: None,
                record: None,
            }),
            r.1.deep_view() == (PackActionView::FetchVersion { version_id: version_id@ }),
    {
        let asked = version_id.clone();
        let machine = PackInstall {
            name,
            instance_id,
            now,
            version_id,
            phase: PackPhase::Version,
            files: Vec::new(),
            pack: None,
            base_version: String::new(),
            loader: None,
            record: None,
        };
        assert(machine.files.deep_view() =~= Seq::empty());
        (machine, PackAction::FetchVersion { version_id: asked })
    }

    fn fail(&mut self, message: String) -> (action: PackAction)
        ensures
            (final(self).deep_view(), action.deep_view()) == old(self).deep_view().failed(
                message@,
            ),
    {
        self.phase = PackPhase::Finished;
        PackAction::Fail { message, record: None, discard_pack: false }
    }

    fn unexpected(&mut self) -> (action: PackAction)
        ensures
            (final(self).deep_view(), action.deep_view()) == old(self).deep_view().failed(
                "unexpected event during pack installation"@,
            ),
    {
        self.fail(String::from_str("unexpected event during pack installation"))
    }

    fn fail_because(&mut self, prefix: &str, cause: &str) -> (action: PackAction)
        ensures
            (final(self).deep_view(), action.deep_view()) == old(self).deep_view().failed(
                prefix@ + cause@,
            ),
    {
        let mut message = String::from_str(prefix);
        message.append(cause);
        self.fail(message)
    }

    fn ensure_base(&mut self) -> (action: PackAction)
        ensures
            (final(self).deep_view(), action.deep_view()) == old(self).deep_view().ensure_base(),
    {
        self.phase = PackPhase::Base;
        PackAction::EnsureBase { version: self.base_version.clone() }
    }

    fn bring_contents(&mut self) -> (action: PackAction)
        ensures
            (final(self).deep_view(), action.deep_view()) == old(
                self,
            ).deep_view().bring_contents(),
    {
        match clone_optional(&self.pack) {
            Some(filename) => {
                self.phase = PackPhase::Unpack;
                PackAction::Unpack { filename }
            },
            None => {
                let files = mods_of(&self.files);
                self.phase = PackPhase::Mods;
                PackAction::FetchMods { files }
            },
        }
    }

    fn finish(&mut self) -> (action: PackAction)
        ensures
            (final(self).deep_view(), action.deep_view()) == old(self).deep_view().finish(),
    {
        let ready = match &self.record {
            Some(record) => {
                let mut ready = record.clone();
                ready.set_state(InstanceState::Ready);
                Some(ready)
            },
            None => None,
        };
        match ready {
            Some(ready) => {
                let record = ready.clone();
                self.phase = PackPhase::Final;
                self.record = Some(ready);
                PackAction::WriteRecord { record }
            },
            None => self.unexpected(),
        }
    }

    fn on_version(&mut self, version: ModrinthVersion) -> (action: PackAction)
        ensures
            (final(self).deep_view(), action.deep_view()) == old(self).deep_view().after_version(
                version.game_versions.deep_view(),
                version.loaders.deep_view(),
                version.files.deep_view(),
            ),
    {
        if version.game_versions.len() == 0 {
            return self.fail(String::from_str("No game version specified"));
        }
        assert(version.game_versions.deep_view()[0] == version.game_versions@[0]@);
        let game_version = version.game_versions[0].clone();
        let record = Instance::new(
            self.instance_id.clone(),
            self.name.clone(),
            game_version.clone(),
            self.now,
        );
        let copy = record.clone();
        self.loader = pack_loader(None, &version.loaders);
        self.phase = PackPhase::Created;
        self.files = version.files;
        self.base_version = game_version;
        self.record = Some(record);
        PackAction::WriteRecord { record: copy }
    }

    fn on_created(&mut self) -> (action: PackAction)
        ensures
            (final(self).deep_view(), action.deep_view()) == old(self).deep_view().after_created(),
    {
        match find_pack(&self.files) {
            Some(at) => {
                assert(self.files.deep_view()[at as int] == self.files@[at as int].deep_view());
                let url = self.files[at].url.clone();
                let filename = self.files[at].filename.clone();
                self.phase = PackPhase::Pack;
                self.pack = Some(filename.clone());
                PackAction::FetchPack { url, filename }
            },
            None => self.ensure_base(),
        }
    }

    fn on_index(&mut self, index: ModpackIndex) -> (action: PackAction)
        ensures
            (final(self).deep_view(), action.deep_view()) == old(self).deep_view().after_index(
                index.version_id.deep_view(),
                index.dependencies.deep_view(),
            ),
    {
        let base_version = pack_base_version(Some(&index), self.base_version.as_str());
        let none: Vec<String> = Vec::new();
        assert(none.deep_view() =~= Seq::empty());
        self.loader = pack_loader(Some(&index), &none);
        self.phase = PackPhase::Base;
        self.base_version = base_version.clone();
        PackAction::EnsureBase { version: base_version }
    }

    fn on_base(&mut self) -> (action: PackAction)
        ensures
            (final(self).deep_view(), action.deep_view()) == old(self).deep_view().after_base(),
    {
        let wanted = match &self.loader {
            Some(loader) => Some(
                (
                    loader.loader_type.clone(),
                    clone_optional(&loader.version),
                    is_supported_pack_loader(loader.loader_type.as_str()),
                ),
            ),
            None => None,
        };
        match wanted {
            None => self.bring_contents(),
            Some((loader_type, requested, supported)) => if supported {
                self.phase = PackPhase::Loader;
                PackAction::InstallLoader {
                    loader_type,
                    base_version: self.base_version.clone(),
                    requested,
                }
            } else {
                let record = match &self.record {
                    Some(record) => {
                        let mut failed = record.clone();
                        failed.set_state(InstanceState::Error);
                        Some(failed)
                    },
                    None => None,
                };
                self.phase = PackPhase::Finished;
                PackAction::Fail {
                    message: String::from_str("Forge modpacks are not supported yet"),
                    record,
                    discard_pack: false,
                }
            },
        }
    }

    fn on_loader(&mut self, version: String) -> (action: PackAction)
        ensures
            (final(self).deep_view(), action.deep_view()) == old(self).deep_view().after_loader(
                version@,
            ),
    {
        let updated = match &self.record {
            Some(record) => {
                let mut updated = record.clone();
                if let Some(loader) = &self.loader {
                    updated.loader = Some(loader.loader_type.clone());
                }
                updated.loader_version = Some(version);
                updated.version = self.base_version.clone();
                updated.mc_version = Some(self.base_version.clone());
                Some(updated)
            },
            None => None,
        };
        match updated {
            Some(updated) => {
                let record = updated.clone();
                self.phase = PackPhase::LoaderRecorded;
                self.record = Some(updated);
                PackAction::WriteRecord { record }
            },
            None => self.unexpected(),
        }
    }

    /// Takes up what the driver reports and hands out the next action.
    pub fn step(&mut self, event: PackEvent) -> (action: PackAction)
        ensures
            (final(self).deep_view(), action.deep_view()) == old(self).deep_view().step(
                event.deep_view(),
            ),
    {
        match self.phase {
            PackPhase::Version => match event {
                PackEvent::Version(version) => self.on_version(version),
                PackEvent::VersionFailed(m) => self.fail(m),
                _ => self.unexpected(),
            },
            PackPhase::Created => match event {
                PackEvent::Written => self.on_created(),
                PackEvent::WriteFailed(m) => self.fail(m),
                _ => self.unexpected(),
            },
            PackPhase::Pack => match event {
                PackEvent::PackRead(index) => self.on_index(index),
                PackEvent::PackFetchFailed(m) => self.fail_because(
                    "Failed to download modpack: ",
                    m.as_str(),
                ),
                PackEvent::PackUnreadable(m) => {
                    let mut message = String::from_str("Failed to parse modpack: ");
                    message.append(m.as_str());
                    self.phase = PackPhase::Finished;
                    PackAction::Fail { message, record: None, discard_pack: true }
                },
                _ => self.unexpected(),
            },
            PackPhase::Base => match event {
                PackEvent::BaseReady => self.on_base(),
                PackEvent::BaseFailed(m) => self.fail(m),
                _ => self.unexpected(),
            },
            PackPhase::Loader => match event {
                PackEvent::LoaderInstalled(version) => self.on_loader(version),
                PackEvent::LoaderFailed(m) => self.fail(m),
                _ => self.unexpected(),
            },
            PackPhase::LoaderRecorded => match event {
                PackEvent::Written => self.bring_contents(),
                PackEvent::WriteFailed(m) => self.fail(m),
                _ => self.unexpected(),
            },
            PackPhase::Unpack => match event {
                PackEvent::Unpacked => self.finish(),
                PackEvent::UnpackFailed(m) => self.fail_because(
                    "Failed to extract modpack: ",
                    m.as_str(),
                ),
                _ => self.unexpected(),
            },
            PackPhase::Mods => match event {
                PackEvent::ModsFetched => self.finish(),
                PackEvent::ModFailed { filename, cause } => {
                    let mut message = String::from_str("Failed to download ");
                    message.append(filename.as_str());
                    message.append(": ");
                    message.append(cause.as_str());
                    self.fail(message)
                },
                _ => self.unexpected(),
            },
            PackPhase::Final => match event {
                PackEvent::Written => {
                    self.phase = PackPhase::Finished;
                    PackAction::Done { instance_id: self.instance_id.clone() }
                },
                PackEvent::WriteFailed(m) => self.fail(m),
                _ => self.unexpected(),
            },
            PackPhase::Finished => self.unexpected(),
        }
    }
}

/// The creation only ends well after the record that says `Ready` was
/// written.
pub proof fn lemma_done_means_recorded_ready(state: PackInstallView, event: PackEventView)
    requires
        state.step(event).1 is Done,
    ensures
        state.phase == PackPhase::Final,
        event is Written,
        state.step(event).1->Done_instance_id == state.instance_id,
{
}

/// A pack for a loader that cannot be installed never gets its contents:
/// the instance is left in `Error`.
pub proof fn lemma_unsupported_loader_fails(state: PackInstallView)
    requires
        state.phase == PackPhase::Base,
        state.loader matches Some(loader) && loader.loader_type == "forge"@,
        state.record is Some,
    ensures
        state.step(PackEventView::BaseReady).1 == (PackActionView::Fail {
            message: "Forge modpacks are not supported yet"@,
            record: Some(state.record->0.in_state(InstanceState::Error)),
            discard_pack: false,
        }),
{
}

/// The record that is written last says `Ready`.
pub proof fn lemma_last_record_is_ready(state: PackInstallView, event: PackEventView)
    requires
        state.step(event).0.phase == PackPhase::Final,
    ensures
        state.step(event).1 matches PackActionView::WriteRecord { record } && record.state
            == InstanceState::Ready,
{
}

} // verus!
