//! Where the files of an installation stand, below one root directory.
//!
//! ```text
//! versions/<id>/<id>.json      the description of a version
//! versions/<id>/<id>.jar       its client jar
//! libraries/<path>             a library artifact
//! assets/indexes/<id>.json     an asset index
//! assets/objects/<hh>/<hash>   an asset object, sharded by its hash
//! instances/<id>/instance.json the record of an instance
//! instances/<id>/.minecraft    its game directory
//! ```

use vstd::prelude::*;
use vstd::string::StringExecFns;
use crate::text::{prefix_of, take_chars};

verus! {

/// The operating system's key in version descriptions, and the separators
/// it uses in a path and in a list of paths.
#[derive(Debug, Clone)]
pub struct Platform {
    pub os: String,
    pub dir_separator: String,
    pub list_separator: String,
}

/// What a `Platform` holds, as plain values.
pub struct PlatformView {
    pub os: Seq<char>,
    pub dir_separator: Seq<char>,
    pub list_separator: Seq<char>,
}

impl DeepView for Platform {
    type V = PlatformView;

    open spec fn deep_view(&self) -> PlatformView {
        PlatformView {
            os: self.os@,
            dir_separator: self.dir_separator@,
            list_separator: self.list_separator@,
        }
    }
}

impl Platform {
    /// Windows: key `windows`, `\` in a path, `;` in a list.
    pub fn windows() -> (p: Platform)
        ensures
            p.deep_view() == (PlatformView {
                os: "windows"@,
                dir_separator: "\\"@,
                list_separator: ";"@,
            }),
    {
        Platform {
            os: String::from_str("windows"),
            dir_separator: String::from_str("\\"),
            list_separator: String::from_str(";"),
        }
    }

    /// macOS: key `osx`, `/` in a path, `:` in a list.
    pub fn osx() -> (p: Platform)
        ensures
            p.deep_view() == (PlatformView {
                os: "osx"@,
                dir_separator: "/"@,
                list_separator: ":"@,
            }),
    {
        Platform {
            os: String::from_str("osx"),
            dir_separator: String::from_str("/"),
            list_separator: String::from_str(":"),
        }
    }

    /// Linux: key `linux`, `/` in a path, `:` in a list.
    pub fn linux() -> (p: Platform)
        ensures
            p.deep_view() == (PlatformView {
                os: "linux"@,
                dir_separator: "/"@,
                list_separator: ":"@,
            }),
    {
        Platform {
            os: String::from_str("linux"),
            dir_separator: String::from_str("/"),
            list_separator: String::from_str(":"),
        }
    }
}

/// `dir` and `name` with the separator between them.
pub open spec fn child(dir: Seq<char>, sep: Seq<char>, name: Seq<char>) -> Seq<char> {
    dir + sep + name
}

/// The directory of the version `id`.
pub open spec fn version_dir(root: Seq<char>, sep: Seq<char>, id: Seq<char>) -> Seq<char> {
    child(child(root, sep, "versions"@), sep, id)
}

/// The description of the version `id`.
pub open spec fn version_json_path(root: Seq<char>, sep: Seq<char>, id: Seq<char>) -> Seq<char> {
    child(version_dir(root, sep, id), sep, id + ".json"@)
}

/// The client jar of the version `id`.
pub open spec fn client_jar_path(root: Seq<char>, sep: Seq<char>, id: Seq<char>) -> Seq<char> {
    child(version_dir(root, sep, id), sep, id + ".jar"@)
}

/// The library artifact with the relative path `path`.
pub open spec fn library_path(root: Seq<char>, sep: Seq<char>, path: Seq<char>) -> Seq<char> {
    child(child(root, sep, "libraries"@), sep, path)
}

/// The assets directory.
pub open spec fn assets_dir(root: Seq<char>, sep: Seq<char>) -> Seq<char> {
    child(root, sep, "assets"@)
}

/// The asset index `id`.
pub open spec fn asset_index_path(root: Seq<char>, sep: Seq<char>, id: Seq<char>) -> Seq<char> {
    child(child(assets_dir(root, sep), sep, "indexes"@), sep, id + ".json"@)
}

/// The shard of an asset object: the first two characters of its hash.
pub open spec fn shard_of(hash: Seq<char>) -> Seq<char> {
    prefix_of(hash, 2)
}

/// The asset object with the hash `hash`: below the directory named by its
/// shard, under the whole hash as its name.
pub open spec fn asset_object_path(root: Seq<char>, sep: Seq<char>, hash: Seq<char>) -> Seq<char> {
    child(child(child(assets_dir(root, sep), sep, "objects"@), sep, shard_of(hash)), sep, hash)
}

/// The directory of the instance `id`.
pub open spec fn instance_dir(root: Seq<char>, sep: Seq<char>, id: Seq<char>) -> Seq<char> {
    child(child(root, sep, "instances"@), sep, id)
}

/// The record of the instance `id`.
pub open spec fn instance_meta_path(root: Seq<char>, sep: Seq<char>, id: Seq<char>) -> Seq<char> {
    child(instance_dir(root, sep, id), sep, "instance.json"@)
}

/// The game directory of the instance `id`.
pub open spec fn game_dir(root: Seq<char>, sep: Seq<char>, id: Seq<char>) -> Seq<char> {
    child(instance_dir(root, sep, id), sep, ".minecraft"@)
}

/// An installation: its root directory and the separator of its paths.
#[derive(Debug, Clone)]
pub struct Layout {
    pub root: String,
    pub separator: String,
}

impl Layout {
    /// `dir`, the separator and `name`.
    pub fn join(&self, dir: &str, name: &str) -> (r: String)
        ensures
            r@ == child(dir@, self.separator@, name@),
    {
        let mut r = String::from_str(dir);
        r.append(self.separator.as_str());
        r.append(name);
        r
    }

    fn file_in(&self, dir: &str, stem: &str, extension: &str) -> (r: String)
        ensures
            r@ == child(dir@, self.separator@, stem@ + extension@),
    {
        let mut r = self.join(dir, stem);
        r.append(extension);
        assert(r@ =~= child(dir@, self.separator@, stem@ + extension@));
        r
    }

    /// The directory of the version `id`.
    pub fn version_dir(&self, id: &str) -> (r: String)
        ensures
            r@ == version_dir(self.root@, self.separator@, id@),
    {
        let versions = self.join(self.root.as_str(), "versions");
        self.join(versions.as_str(), id)
    }

    /// The description of the version `id`.
    pub fn version_json_path(&self, id: &str) -> (r: String)
        ensures
            r@ == version_json_path(self.root@, self.separator@, id@),
    {
        let dir = self.version_dir(id);
        self.file_in(dir.as_str(), id, ".json")
    }

    /// The client jar of the version `id`.
    pub fn client_jar_path(&self, id: &str) -> (r: String)
        ensures
            r@ == client_jar_path(self.root@, self.separator@, id@),
    {
        let dir = self.version_dir(id);
        self.file_in(dir.as_str(), id, ".jar")
    }

    /// The library artifact with the relative path `path`.
    pub fn library_path(&self, path: &str) -> (r: String)
        ensures
            r@ == library_path(self.root@, self.separator@, path@),
    {
        let libraries = self.join(self.root.as_str(), "libraries");
        self.join(libraries.as_str(), path)
    }

    /// The assets directory.
    pub fn assets_dir(&self) -> (r: String)
        ensures
            r@ == assets_dir(self.root@, self.separator@),
    {
        self.join(self.root.as_str(), "assets")
    }

    /// The asset index `id`.
    pub fn asset_index_path(&self, id: &str) -> (r: String)
        ensures
            r@ == asset_index_path(self.root@, self.separator@, id@),
    {
        let assets = self.assets_dir();
        let indexes = self.join(assets.as_str(), "indexes");
        self.file_in(indexes.as_str(), id, ".json")
    }

    /// The asset object with the hash `hash`.
    pub fn asset_object_path(&self, hash: &str) -> (r: String)
        ensures
            r@ == asset_object_path(self.root@, self.separator@, hash@),
    {
        let assets = self.assets_dir();
        let objects = self.join(assets.as_str(), "objects");
        let shard = take_chars(hash, 2);
        let dir = self.join(objects.as_str(), shard.as_str());
        self.join(dir.as_str(), hash)
    }

    /// The directory of the instance `id`.
    pub fn instance_dir(&self, id: &str) -> (r: String)
        ensures
            r@ == instance_dir(self.root@, self.separator@, id@),
    {
        let instances = self.join(self.root.as_str(), "instances");
        self.join(instances.as_str(), id)
    }

    /// The record of the instance `id`.
    pub fn instance_meta_path(&self, id: &str) -> (r: String)
        ensures
            r@ == instance_meta_path(self.root@, self.separator@, id@),
    {
        let dir = self.instance_dir(id);
        self.join(dir.as_str(), "instance.json")
    }

    /// The game directory of the instance `id`.
    pub fn game_dir(&self, id: &str) -> (r: String)
        ensures
            r@ == game_dir(self.root@, self.separator@, id@),
    {
        let dir = self.instance_dir(id);
        self.join(dir.as_str(), ".minecraft")
    }
}

} // verus!
