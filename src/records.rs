//! Records of the repository index and of update advisories.
use vstd::prelude::*;
use crate::checksum::Checksum;

verus! {

/// A distribution a repository targets, with its optional CPE identifier.
#[derive(Debug)]
pub struct DistroTag {
    pub cpeid: Option<String>,
    pub name: String,
}

impl DistroTag {
    /// A tag with the given name and identifier.
    pub fn new(name: String, cpeid: Option<String>) -> (r: Self)
        ensures
            r.name == name,
            r.cpeid == cpeid,
    {
        DistroTag { name, cpeid }
    }
}

/// The entry of one metadata file in the repository index.
#[derive(Debug)]
pub struct RepoMdRecord {
    /// Record type
    pub mdtype: String,
    /// Relative location of the file in a repository
    pub location_href: String,
    /// Mtime of the file
    pub timestamp: u64,
    /// Size of the file as stored
    pub size: Option<u64>,
    /// Checksum of the file as stored
    pub checksum: Checksum,
    /// Size of the decompressed content
    pub open_size: Option<u64>,
    /// Checksum of the decompressed content
    pub open_checksum: Option<Checksum>,
    /// Size of the chunked-format header
    pub header_size: Option<u64>,
    /// Checksum of the chunked-format header
    pub header_checksum: Option<Checksum>,
    /// Database version (used only for sqlite databases like primary.sqlite etc.)
    pub database_version: Option<u32>,
}

/// A published update advisory.
#[derive(Debug)]
pub struct UpdateRecord {
    pub from: String,
    pub update_type: String,
    pub status: String,
    pub version: String,
    pub id: String,
    pub title: String,
    pub issued_date: Option<String>,
    pub updated_date: Option<String>,
    pub rights: String,
    pub release: String,
    pub pushcount: Option<String>,
    pub severity: String,
    pub summary: String,
    pub description: String,
    pub solution: String,
    pub reboot_suggested: bool,
    pub references: Vec<UpdateReference>,
    pub pkglist: Vec<UpdateCollection>,
}

/// A named set of packages an advisory applies to.
#[derive(Debug)]
pub struct UpdateCollection {
    pub name: String,
    pub shortname: String,
    pub packages: Vec<UpdateCollectionPackage>,
}

/// An external reference of an advisory (a bug, a CVE).
#[derive(Debug)]
pub struct UpdateReference {
    pub href: String,
    pub id: String,
    pub title: String,
    pub reftype: String,
}

/// A package entry of an advisory's collection.
#[derive(Debug)]
pub struct UpdateCollectionPackage {
    pub epoch: u32,
    pub filename: String,
    pub name: String,
    pub reboot_suggested: bool,
    pub restart_suggested: bool,
    pub relogin_suggested: bool,
    pub release: String,
    pub src: String,
    pub checksum: Checksum,
    pub version: String,
}

/// The module stream a collection is scoped to.
#[derive(Debug)]
pub struct UpdateCollectionModule {
    pub name: String,
    pub stream: String,
    pub version: u64,
    pub context: String,
    pub arch: String,
}

} // verus!
