//! The catalog of the versions that can be installed.

#![allow(non_snake_case)]

use vstd::prelude::*;
use crate::choice::{first_some, lemma_first_some_at, lemma_first_some_none};
use crate::text::same_text;

verus! {

/// The newest versions of each kind.
#[derive(Debug, Clone)]
pub struct Latest {
    pub release: String,
    pub snapshot: String,
}

/// One version in the catalog, with the address of its description.
#[derive(Debug, Clone)]
pub struct McVersion {
    pub id: String,
    pub _type: String,
    pub releaseTime: String,
    pub url: String,
}

/// One version in the catalog, in short.
#[derive(Debug, Clone)]
pub struct ManifestVersion {
    pub id: String,
    pub version_type: String,
    pub url: String,
}

/// The catalog of versions.
#[derive(Debug, Clone)]
pub struct VersionManifest {
    pub latest: Latest,
    pub versions: Vec<McVersion>,
}

/// For each entry of the catalog, the address of its description if the
/// entry is the version `id`.
pub open spec fn addresses_of(versions: Seq<McVersion>, id: Seq<char>) -> Seq<Option<Seq<char>>> {
    Seq::new(
        versions.len(),
        |i: int|
            if versions[i].id@ == id {
                Some(versions[i].url@)
            } else {
                None
            },
    )
}

/// The address of the description of the version `id`: that of the first
/// entry of the catalog with that id.
pub open spec fn address_of(manifest: VersionManifest, id: Seq<char>) -> Option<Seq<char>> {
    first_some(addresses_of(manifest.versions@, id))
}

/// The entry of the version `id` in the catalog: the first with that id.
#[verifier::loop_isolation(false)]
pub fn find_version<'a>(manifest: &'a VersionManifest, id: &str) -> (r: Option<&'a McVersion>)
    ensures
        match r {
            Some(entry) => address_of(*manifest, id@) == Some(entry.url@) && exists|at: int|
                0 <= at < manifest.versions@.len() && *entry == manifest.versions@[at]
                    && manifest.versions@[at].id@ == id@ && forall|k: int|
                    0 <= k < at ==> manifest.versions@[k].id@ != id@,
            None => address_of(*manifest, id@) is None && forall|k: int|
                0 <= k < manifest.versions@.len() ==> manifest.versions@[k].id@ != id@,
        },
{
    let mut i: usize = 0;
    while i < manifest.versions.len()
        invariant
            i <= manifest.versions.len(),
            forall|k: int| 0 <= k < i ==> addresses_of(manifest.versions@, id@)[k] is None,
            forall|k: int| 0 <= k < i ==> manifest.versions@[k].id@ != id@,
        decreases manifest.versions.len() - i,
    {
        if same_text(manifest.versions[i].id.as_str(), id) {
            proof {
                lemma_first_some_at(addresses_of(manifest.versions@, id@), i as int);
            }
            return Some(&manifest.versions[i]);
        }
        i += 1;
    }
    proof {
        lemma_first_some_none(addresses_of(manifest.versions@, id@));
    }
    None
}

} // verus!
