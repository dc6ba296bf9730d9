//! The record of an instance and the states it goes through.

use vstd::prelude::*;
use vstd::string::StringExecFns;
use crate::text::clone_optional;

verus! {

/// Where an instance stands in its life.
#[derive(Debug, Clone, Copy, PartialEq, Eq, Structural)]
pub enum InstanceState {
    NotInstalled,
    Installing,
    Ready,
    Running,
    Error,
}

/// One instance: a version to play, with an optional loader on top and
/// overrides of the global settings. Times are seconds since the epoch.
#[derive(Debug)]
pub struct Instance {
    pub id: String,
    pub name: String,
    pub version: String,
    pub mc_version: Option<String>,
    pub state: InstanceState,
    pub created_at: u64,
    pub last_played: Option<u64>,
    pub java_path: Option<String>,
    pub java_path_override: Option<String>,
    pub max_memory: Option<u32>,
    pub min_memory: Option<u32>,
    pub java_args: Option<String>,
    pub java_warning_ignored: bool,
    pub loader: Option<String>,
    pub loader_version: Option<String>,
}

/// What a `Instance` holds, as plain values.
pub struct InstanceView {
    pub id: Seq<char>,
    pub name: Seq<char>,
    pub version: Seq<char>,
    pub mc_version: Option<Seq<char>>,
    pub state: InstanceState,
    pub created_at: u64,
    pub last_played: Option<u64>,
    pub java_path: Option<Seq<char>>,
    pub java_path_override: Option<Seq<char>>,
    pub max_memory: Option<u32>,
    pub min_memory: Option<u32>,
    pub java_args: Option<Seq<char>>,
    pub java_warning_ignored: bool,
    pub loader: Option<Seq<char>>,
    pub loader_version: Option<Seq<char>>,
}

impl DeepView for Instance {
    type V = InstanceView;

    open spec fn deep_view(&self) -> InstanceView {
        InstanceView {
            id: self.id@,
            name: self.name@,
            version: self.version@,
            mc_version: self.mc_version.deep_view(),
            state: self.state,
            created_at: self.created_at,
            last_played: self.last_played,
            java_path: self.java_path.deep_view(),
            java_path_override: self.java_path_override.deep_view(),
            max_memory: self.max_memory,
            min_memory: self.min_memory,
            java_args: self.java_args.deep_view(),
            java_warning_ignored: self.java_warning_ignored,
            loader: self.loader.deep_view(),
            loader_version: self.loader_version.deep_view(),
        }
    }
}

/// The id of the version that a loader on top of a base version makes:
/// the loader's name, `-loader-`, the loader's version, `-`, the base
/// version.
pub open spec fn derived_id(loader: Seq<char>, loader_version: Seq<char>, base: Seq<char>) -> Seq<
    char,
> {
    loader + "-loader-"@ + loader_version + "-"@ + base
}

impl InstanceView {
    /// The base version that the instance plays.
    pub open spec fn base_version(self) -> Seq<char> {
        match self.mc_version {
            Some(v) => v,
            None => self.version,
        }
    }

    /// The id of the version that is launched: the derived version where a
    /// loader and its version are recorded, else the version itself.
    pub open spec fn launch_version_id(self) -> Seq<char> {
        match (self.loader, self.loader_version) {
            (Some(loader), Some(loader_version)) => derived_id(
                loader,
                loader_version,
                self.base_version(),
            ),
            _ => self.version,
        }
    }

    /// The id of the version whose files belong to this instance. The base
    /// is always the recorded version here.
    pub open spec fn owned_version_id(self) -> Seq<char> {
        match (self.loader, self.loader_version) {
            (Some(loader), Some(loader_version)) => derived_id(
                loader,
                loader_version,
                self.version,
            ),
            _ => self.version,
        }
    }

    /// The record after the process was started at `now`.
    pub open spec fn started(self, now: u64) -> InstanceView {
        InstanceView { state: InstanceState::Running, last_played: Some(now), ..self }
    }

    /// The record in another state.
    pub open spec fn in_state(self, state: InstanceState) -> InstanceView {
        InstanceView { state, ..self }
    }

    /// The record after an installation that went well, with the runtime
    /// that was found for it.
    pub open spec fn installed(self, java_path: Option<Seq<char>>) -> InstanceView {
        InstanceView {
            state: InstanceState::Ready,
            java_path: match java_path {
                Some(p) => Some(p),
                None => self.java_path,
            },
            ..self
        }
    }

    /// The record with a loader on top.
    pub open spec fn with_loader(self, loader: Seq<char>, loader_version: Seq<char>) -> InstanceView {
        InstanceView { loader: Some(loader), loader_version: Some(loader_version), ..self }
    }

    /// The record as the launcher takes it up again: no process and no
    /// installation outlives the launcher.
    pub open spec fn recovered(self) -> InstanceView {
        if self.state == InstanceState::Running || self.state == InstanceState::Installing {
            self.in_state(InstanceState::Ready)
        } else {
            self
        }
    }
}

/// The id of the version that `loader` in `loader_version` makes on top of
/// the base version `base`.
pub fn derived_version_id(loader: &str, loader_version: &str, base: &str) -> (id: String)
    ensures
        id@ == derived_id(loader@, loader_version@, base@),
{
    let mut id = String::from_str(loader);
    id.append("-loader-");
    id.append(loader_version);
    id.append("-");
    id.append(base);
    id
}

/// The record of a new instance, which is being installed.
pub open spec fn fresh_instance(
    id: Seq<char>,
    name: Seq<char>,
    version: Seq<char>,
    now: u64,
) -> InstanceView {
    InstanceView {
        id,
        name,
        version,
        mc_version: Some(version),
        state: InstanceState::Installing,
        created_at: now,
        last_played: None,
        java_path: None,
        java_path_override: None,
        max_memory: None,
        min_memory: None,
        java_args: None,
        java_warning_ignored: false,
        loader: None,
        loader_version: None,
    }
}

impl Clone for Instance {
    /// A copy that says the same.
    fn clone(&self) -> (r: Instance)
        ensures
            r.deep_view() == self.deep_view(),
    {
        Instance {
            id: self.id.clone(),
            name: self.name.clone(),
            version: self.version.clone(),
            mc_version: clone_optional(&self.mc_version),
            state: self.state,
            created_at: self.created_at,
            last_played: self.last_played,
            java_path: clone_optional(&self.java_path),
            java_path_override: clone_optional(&self.java_path_override),
            max_memory: self.max_memory,
            min_memory: self.min_memory,
            java_args: clone_optional(&self.java_args),
            java_warning_ignored: self.java_warning_ignored,
            loader: clone_optional(&self.loader),
            loader_version: clone_optional(&self.loader_version),
        }
    }
}

impl Instance {
    /// The record of a new instance of `version`, created at `now` and
    /// being installed.
    pub fn new(id: String, name: String, version: String, now: u64) -> (r: Instance)
        ensures
            r.deep_view() == fresh_instance(id@, name@, version@, now),
    {
        let mc_version = version.clone();
        Instance {
            id,
            name,
            version,
            mc_version: Some(mc_version),
            state: InstanceState::Installing,
            created_at: now,
            last_played: None,
            java_path: None,
            java_path_override: None,
            max_memory: None,
            min_memory: None,
            java_args: None,
            java_warning_ignored: false,
            loader: None,
            loader_version: None,
        }
    }

    /// The base version that the instance plays.
    pub fn base_version(&self) -> (r: &str)
        ensures
            r@ == self.deep_view().base_version(),
    {
        match &self.mc_version {
            Some(v) => v.as_str(),
            None => self.version.as_str(),
        }
    }

    /// The id of the version that is launched.
    pub fn launch_version_id(&self) -> (r: String)
        ensures
            r@ == self.deep_view().launch_version_id(),
    {
        match (&self.loader, &self.loader_version) {
            (Some(loader), Some(loader_version)) => derived_version_id(
                loader.as_str(),
                loader_version.as_str(),
                self.base_version(),
            ),
            _ => self.version.clone(),
        }
    }

    /// The id of the version whose files belong to this instance.
    pub fn owned_version_id(&self) -> (r: String)
        ensures
            r@ == self.deep_view().owned_version_id(),
    {
        match (&self.loader, &self.loader_version) {
            (Some(loader), Some(loader_version)) => derived_version_id(
                loader.as_str(),
                loader_version.as_str(),
                self.version.as_str(),
            ),
            _ => self.version.clone(),
        }
    }

    /// Records that the process was started at `now`.
    pub fn mark_started(&mut self, now: u64)
        ensures
            final(self).deep_view() == old(self).deep_view().started(now),
    {
        self.state = InstanceState::Running;
        self.last_played = Some(now);
    }

    /// Puts the record into `state`.
    pub fn set_state(&mut self, state: InstanceState)
        ensures
            final(self).deep_view() == old(self).deep_view().in_state(state),
    {
        self.state = state;
    }

    /// Records an installation that went well, with the runtime found for it.
    pub fn mark_installed(&mut self, java_path: Option<String>)
        ensures
            final(self).deep_view() == old(self).deep_view().installed(java_path.deep_view()),
    {
        self.state = InstanceState::Ready;
        if let Some(p) = java_path {
            self.java_path = Some(p);
        }
    }

    /// Records the loader that was put on top.
    pub fn set_loader(&mut self, loader: String, loader_version: String)
        ensures
            final(self).deep_view() == old(self).deep_view().with_loader(loader@, loader_version@),
    {
        self.loader = Some(loader);
        self.loader_version = Some(loader_version);
    }

    /// Brings the record back to `Ready` where it says `Running` or
    /// `Installing`, and tells whether it changed.
    pub fn recover(&mut self) -> (changed: bool)
        ensures
            final(self).deep_view() == old(self).deep_view().recovered(),
            changed == (old(self).state == InstanceState::Running || old(self).state
                == InstanceState::Installing),
    {
        if self.state == InstanceState::Running || self.state == InstanceState::Installing {
            self.state = InstanceState::Ready;
            true
        } else {
            false
        }
    }
}

} // verus!
