//! The package record and the small value records attached to it.
use vstd::prelude::*;
use crate::checksum::Checksum;
use crate::evr::EVR;
use crate::kinds::FileType;

verus! {

/// One changelog entry; lists of them keep the order of the source document.
#[derive(Debug)]
pub struct Changelog {
    pub author: String,
    pub date: u64,
    pub description: String,
}

/// File and build timestamps of a package.
#[derive(Debug, PartialEq, Eq, Structural)]
pub struct Time {
    pub file: u64,
    pub build: u64,
}

/// Package, installed and archive sizes of a package.
#[derive(Debug, PartialEq, Eq, Structural)]
pub struct Size {
    pub package: u64,
    pub installed: u64,
    pub archive: u64,
}

/// Byte range of the package header within the package file.
#[derive(Debug, PartialEq, Eq, Structural)]
pub struct HeaderRange {
    pub start: u64,
    pub end: u64,
}

/// A dependency edge (provides, requires, conflicts, ...); the relation is
/// given by the list it is kept in.
#[derive(Debug)]
pub struct Requirement {
    pub name: String,
    pub flags: Option<String>,
    pub epoch: Option<String>,
    pub version: Option<String>,
    pub release: Option<String>,
    pub preinstall: Option<bool>,
}

/// One entry of a package's file list.
#[derive(Debug)]
pub struct PackageFile {
    pub filetype: FileType,
    pub path: String,
}

/// One entry of a repository: identity, content description, dependencies,
/// changelog and file list.
#[derive(Debug)]
pub struct Package {
    pub name: String,
    pub arch: String,
    pub evr: EVR,
    pub checksum: Checksum,
    pub location_href: String,
    pub summary: String,
    pub description: String,
    pub packager: String,
    pub url: String,
    pub time: Time,
    pub size: Size,
    pub rpm_license: String,
    pub rpm_vendor: String,
    pub rpm_group: String,
    pub rpm_buildhost: String,
    pub rpm_sourcerpm: String,
    pub rpm_header_range: HeaderRange,
    pub rpm_requires: Vec<Requirement>,
    pub rpm_provides: Vec<Requirement>,
    pub rpm_conflicts: Vec<Requirement>,
    pub rpm_obsoletes: Vec<Requirement>,
    pub rpm_suggests: Vec<Requirement>,
    pub rpm_enhances: Vec<Requirement>,
    pub rpm_recommends: Vec<Requirement>,
    pub rpm_supplements: Vec<Requirement>,
    pub rpm_changelogs: Vec<Changelog>,
    pub rpm_files: Vec<PackageFile>,
}

/// The identity of a package revision, borrowed from the package.
pub struct Nevra<'a> {
    pub name: &'a str,
    pub arch: &'a str,
    pub evr: &'a EVR,
}

impl<'a> Nevra<'a> {
    /// Name, epoch, version, release and arch, as one value.
    pub open spec fn view(&self) -> (Seq<char>, (Seq<char>, Seq<char>, Seq<char>), Seq<char>) {
        (self.name@, self.evr@, self.arch@)
    }
}

impl Package {
    /// The identity of this package: two packages with the same one are the
    /// same revision, whatever else they hold.
    pub open spec fn spec_nevra(&self) -> (Seq<char>, (Seq<char>, Seq<char>, Seq<char>), Seq<char>) {
        (self.name@, self.evr@, self.arch@)
    }

    /// Every field but the identity, checksum and location holds its empty value.
    pub open spec fn rest_is_empty(&self) -> bool {
        &&& self.summary@.len() == 0
        &&& self.description@.len() == 0
        &&& self.packager@.len() == 0
        &&& self.url@.len() == 0
        &&& self.details_are_empty()
    }

    /// Times, sizes, the rpm-specific fields and every list hold their empty value.
    pub open spec fn details_are_empty(&self) -> bool {
        &&& self.time == Time { file: 0, build: 0 }
        &&& self.size == Size { package: 0, installed: 0, archive: 0 }
        &&& self.rpm_license@.len() == 0
        &&& self.rpm_vendor@.len() == 0
        &&& self.rpm_group@.len() == 0
        &&& self.rpm_buildhost@.len() == 0
        &&& self.rpm_sourcerpm@.len() == 0
        &&& self.rpm_header_range == HeaderRange { start: 0, end: 0 }
        &&& self.lists_are_empty()
    }

    /// The dependency lists, the changelog and the file list are empty.
    pub open spec fn lists_are_empty(&self) -> bool {
        &&& self.rpm_requires@.len() == 0
        &&& self.rpm_provides@.len() == 0
        &&& self.rpm_conflicts@.len() == 0
        &&& self.rpm_obsoletes@.len() == 0
        &&& self.rpm_suggests@.len() == 0
        &&& self.rpm_enhances@.len() == 0
        &&& self.rpm_recommends@.len() == 0
        &&& self.rpm_supplements@.len() == 0
        &&& self.rpm_changelogs@.len() == 0
        &&& self.rpm_files@.len() == 0
    }

    /// A package with the given identity, checksum and location, and every
    /// other field empty.
    pub fn new(name: &str, version: &EVR, arch: &str, checksum: &Checksum, location_href: &str) -> (r: Package)
        ensures
            r.name@ == name@,
            r.arch@ == arch@,
            r.evr@ == version@,
            r.checksum == *checksum,
            r.location_href@ == location_href@,
            r.rest_is_empty(),
    {
        Package {
            name: name.to_owned(),
            arch: arch.to_owned(),
            evr: version.clone(),
            checksum: checksum.clone(),
            location_href: location_href.to_owned(),
            summary: String::new(),
            description: String::new(),
            packager: String::new(),
            url: String::new(),
            time: Time { file: 0, build: 0 },
            size: Size { package: 0, installed: 0, archive: 0 },
            rpm_license: String::new(),
            rpm_vendor: String::new(),
            rpm_group: String::new(),
            rpm_buildhost: String::new(),
            rpm_sourcerpm: String::new(),
            rpm_header_range: HeaderRange { start: 0, end: 0 },
            rpm_requires: Vec::new(),
            rpm_provides: Vec::new(),
            rpm_conflicts: Vec::new(),
            rpm_obsoletes: Vec::new(),
            rpm_suggests: Vec::new(),
            rpm_enhances: Vec::new(),
            rpm_recommends: Vec::new(),
            rpm_supplements: Vec::new(),
            rpm_changelogs: Vec::new(),
            rpm_files: Vec::new(),
        }
    }

    /// The identity of this package, borrowed.
    pub fn nevra<'a>(&'a self) -> (r: Nevra<'a>)
        ensures
            r.view() == self.spec_nevra(),
    {
        Nevra { name: self.name.as_str(), arch: self.arch.as_str(), evr: &self.evr }
    }
}

} // verus!
