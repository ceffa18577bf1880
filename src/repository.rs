//! The aggregate that format codecs read into and write from.
use vstd::prelude::*;
use crate::evr::EVR;
use crate::package::{Changelog, Package, PackageFile};
use crate::records::{RepoMdRecord, UpdateRecord};
use crate::text::str_eq;

verus! {

/// Packages in load order, index records keyed by metadata type, and update
/// advisories.
pub struct Repository {
    pub packages: Vec<Package>,
    pub records: Vec<RepoMdRecord>,
    pub updates: Vec<UpdateRecord>,
}

/// `a` and `b` agree on every field but the file list and the changelog.
pub open spec fn same_but_lists(a: Package, b: Package) -> bool {
    &&& a.name == b.name
    &&& a.arch == b.arch
    &&& a.evr == b.evr
    &&& a.checksum == b.checksum
    &&& a.location_href == b.location_href
    &&& a.summary == b.summary
    &&& a.description == b.description
    &&& a.packager == b.packager
    &&& a.url == b.url
    &&& a.time == b.time
    &&& a.size == b.size
    &&& a.rpm_license == b.rpm_license
    &&& a.rpm_vendor == b.rpm_vendor
    &&& a.rpm_group == b.rpm_group
    &&& a.rpm_buildhost == b.rpm_buildhost
    &&& a.rpm_sourcerpm == b.rpm_sourcerpm
    &&& a.rpm_header_range == b.rpm_header_range
    &&& a.rpm_requires == b.rpm_requires
    &&& a.rpm_provides == b.rpm_provides
    &&& a.rpm_conflicts == b.rpm_conflicts
    &&& a.rpm_obsoletes == b.rpm_obsoletes
    &&& a.rpm_suggests == b.rpm_suggests
    &&& a.rpm_enhances == b.rpm_enhances
    &&& a.rpm_recommends == b.rpm_recommends
    &&& a.rpm_supplements == b.rpm_supplements
}

/// `i` is the position of the first package of `ps` whose identity is `key`.
pub open spec fn is_first_match(
    ps: Seq<Package>,
    key: (Seq<char>, (Seq<char>, Seq<char>, Seq<char>), Seq<char>),
    i: int,
) -> bool {
    &&& 0 <= i < ps.len()
    &&& ps[i].spec_nevra() == key
    &&& forall|j: int| 0 <= j < i ==> (#[trigger] ps[j]).spec_nevra() != key
}

/// No package of `ps` has identity `key`.
pub open spec fn no_match(ps: Seq<Package>, key: (Seq<char>, (Seq<char>, Seq<char>, Seq<char>), Seq<char>)) -> bool {
    forall|j: int| 0 <= j < ps.len() ==> (#[trigger] ps[j]).spec_nevra() != key
}

/// `ps` and `qs` are equal but at position `i`.
pub open spec fn equal_but_at(ps: Seq<Package>, qs: Seq<Package>, i: int) -> bool {
    &&& ps.len() == qs.len()
    &&& forall|j: int| 0 <= j < ps.len() && j != i ==> ps[j] == qs[j]
}

/// The mdtypes of a list of index records.
pub open spec fn mdtypes(rs: Seq<RepoMdRecord>) -> Seq<Seq<char>> {
    rs.map_values(|r: RepoMdRecord| r.mdtype@)
}

impl Repository {
    /// Index records are keyed by metadata type: no two share one.
    pub open spec fn wf(&self) -> bool {
        forall|i: int, j: int|
            0 <= i < j < self.records@.len() ==> (#[trigger] self.records@[i]).mdtype@ != (
            #[trigger] self.records@[j]).mdtype@
    }

    /// An empty repository.
    pub fn new() -> (r: Repository)
        ensures
            r.wf(),
            r.packages@.len() == 0,
            r.records@.len() == 0,
            r.updates@.len() == 0,
    {
        Repository { packages: Vec::new(), records: Vec::new(), updates: Vec::new() }
    }

    /// The position of the index record of the given type, if any.
    pub fn find_record(&self, mdtype: &str) -> (r: Option<usize>)
        ensures
            r matches Some(i) ==> i < self.records@.len() && self.records@[i as int].mdtype@ == mdtype@,
            r is None ==> !mdtypes(self.records@).contains(mdtype@),
    {
        let mut i: usize = 0;
        while i < self.records.len()
            invariant
                i <= self.records@.len(),
                forall|j: int| 0 <= j < i ==> (#[trigger] self.records@[j]).mdtype@ != mdtype@,
            decreases self.records@.len() - i,
        {
            if str_eq(self.records[i].mdtype.as_str(), mdtype) {
                return Some(i);
            }
            i = i + 1;
        }
        proof {
            if mdtypes(self.records@).contains(mdtype@) {
                let k = choose|k: int| 0 <= k < mdtypes(self.records@).len() && mdtypes(self.records@)[k] == mdtype@;
                assert(self.records@[k].mdtype@ == mdtype@);
            }
        }
        None
    }

    /// Stores an index record: it takes the place of the record of the same
    /// type, or is appended where there is none.
    pub fn set_record(&mut self, record: RepoMdRecord)
        requires
            old(self).wf(),
        ensures
            final(self).wf(),
            final(self).packages == old(self).packages,
            final(self).updates == old(self).updates,
            mdtypes(old(self).records@).contains(record.mdtype@) ==> exists|i: int|
                0 <= i < old(self).records@.len() && old(self).records@[i].mdtype@ == record.mdtype@
                    && final(self).records@ == old(self).records@.update(i, record),
            !mdtypes(old(self).records@).contains(record.mdtype@) ==> final(self).records@ == old(
                self,
            ).records@.push(record),
    {
        let ghost rec = record;
        match self.find_record(record.mdtype.as_str()) {
            Some(i) => {
                self.records.set(i, record);
                proof {
                    assert(mdtypes(old(self).records@).contains(rec.mdtype@)) by {
                        assert(mdtypes(old(self).records@)[i as int] == rec.mdtype@);
                    }
                }
            },
            None => {
                self.records.push(record);
                proof {
                    let n = old(self).records@.len() as int;
                    assert forall|j: int| 0 <= j < n implies (#[trigger] self.records@[j]).mdtype@ != rec.mdtype@ by {
                        assert(mdtypes(old(self).records@)[j] == old(self).records@[j].mdtype@);
                    }
                }
            },
        }
    }

    /// Appends a package; load order is kept.
    pub fn add_package(&mut self, package: Package)
        ensures
            final(self).packages@ == old(self).packages@.push(package),
            final(self).records == old(self).records,
            final(self).updates == old(self).updates,
    {
        self.packages.push(package);
    }

    /// Appends an update advisory; load order is kept.
    pub fn add_update(&mut self, update: UpdateRecord)
        ensures
            final(self).updates@ == old(self).updates@.push(update),
            final(self).records == old(self).records,
            final(self).packages == old(self).packages,
    {
        self.updates.push(update);
    }

    /// The position of the first package with the given identity, if any.
    pub fn find_package(&self, name: &str, evr: &EVR, arch: &str) -> (r: Option<usize>)
        ensures
            r matches Some(i) ==> is_first_match(self.packages@, (name@, evr@, arch@), i as int),
            r is None ==> no_match(self.packages@, (name@, evr@, arch@)),
    {
        let ghost key = (name@, evr@, arch@);
        let mut i: usize = 0;
        while i < self.packages.len()
            invariant
                key == (name@, evr@, arch@),
                i <= self.packages@.len(),
                forall|j: int| 0 <= j < i ==> (#[trigger] self.packages@[j]).spec_nevra() != key,
            decreases self.packages@.len() - i,
        {
            let p = &self.packages[i];
            if str_eq(p.name.as_str(), name) && str_eq(p.arch.as_str(), arch) && str_eq(
                p.evr.epoch.as_str(),
                evr.epoch.as_str(),
            ) && str_eq(p.evr.version.as_str(), evr.version.as_str()) && str_eq(
                p.evr.release.as_str(),
                evr.release.as_str(),
            ) {
                return Some(i);
            }
            i = i + 1;
        }
        None
    }

    /// Merges a file list into the first package with the given identity,
    /// after the files it already has, and returns its position. No package
    /// is added: where none has that identity, nothing changes and `None`
    /// is returned.
    pub fn merge_files(&mut self, name: &str, evr: &EVR, arch: &str, files: Vec<PackageFile>) -> (r: Option<usize>)
        ensures
            final(self).records == old(self).records,
            final(self).updates == old(self).updates,
            r matches Some(i) ==> {
                &&& is_first_match(old(self).packages@, (name@, evr@, arch@), i as int)
                &&& equal_but_at(old(self).packages@, final(self).packages@, i as int)
                &&& same_but_lists(final(self).packages@[i as int], old(self).packages@[i as int])
                &&& final(self).packages@[i as int].rpm_changelogs == old(self).packages@[i as int].rpm_changelogs
                &&& final(self).packages@[i as int].rpm_files@ == old(self).packages@[i as int].rpm_files@ + files@
            },
            r is None ==> no_match(old(self).packages@, (name@, evr@, arch@)) && final(self).packages
                == old(self).packages,
    {
        match self.find_package(name, evr, arch) {
            None => None,
            Some(i) => {
                let mut files = files;
                let mut p = self.packages.remove(i);
                p.rpm_files.append(&mut files);
                self.packages.insert(i, p);
                proof {
                    assert forall|j: int| 0 <= j < old(self).packages@.len() && j != i implies old(
                        self,
                    ).packages@[j] == self.packages@[j] by {}
                }
                Some(i)
            },
        }
    }

    /// Merges changelog entries into the first package with the given
    /// identity, after the entries it already has, and returns its position.
    /// No package is added: where none has that identity, nothing changes
    /// and `None` is returned.
    pub fn merge_changelogs(
        &mut self,
        name: &str,
        evr: &EVR,
        arch: &str,
        changelogs: Vec<Changelog>,
    ) -> (r: Option<usize>)
        ensures
            final(self).records == old(self).records,
            final(self).updates == old(self).updates,
            r matches Some(i) ==> {
                &&& is_first_match(old(self).packages@, (name@, evr@, arch@), i as int)
                &&& equal_but_at(old(self).packages@, final(self).packages@, i as int)
                &&& same_but_lists(final(self).packages@[i as int], old(self).packages@[i as int])
                &&& final(self).packages@[i as int].rpm_files == old(self).packages@[i as int].rpm_files
                &&& final(self).packages@[i as int].rpm_changelogs@ == old(self).packages@[i as int].rpm_changelogs@
                    + changelogs@
            },
            r is None ==> no_match(old(self).packages@, (name@, evr@, arch@)) && final(self).packages
                == old(self).packages,
    {
        match self.find_package(name, evr, arch) {
            None => None,
            Some(i) => {
                let mut changelogs = changelogs;
                let mut p = self.packages.remove(i);
                p.rpm_changelogs.append(&mut changelogs);
                self.packages.insert(i, p);
                proof {
                    assert forall|j: int| 0 <= j < old(self).packages@.len() && j != i implies old(
                        self,
                    ).packages@[j] == self.packages@[j] by {}
                }
                Some(i)
            },
        }
    }
}

} // verus!
