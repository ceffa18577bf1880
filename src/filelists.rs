//! Reading filelists.xml: each record's files are merged into the package
//! already loaded from primary.xml under the same identity.
use vstd::prelude::*;
use crate::error::MetadataError;
use crate::evr::EVR;
use crate::checksum::Checksum;
use crate::kinds::{file_type_of, file_type_token, lemma_file_type_token_round_trip, FileType, XML_NS_FILELISTS};
use crate::package::{Package, PackageFile};
use crate::text::{decimal_of, decimal_text};
use crate::xml::{
    attr_or_default, attr_or_empty, attr_value, attrs_model, events_model, find_attr, opt_view, text_element_model, EventModel,
    XmlEvent,
};
use crate::repository::{equal_but_at, is_first_match, no_match, same_but_lists, Repository};
use crate::text::str_eq;

verus! {

/// The kind a `type` attribute of a file element gives: a plain file where
/// the attribute is absent.
pub open spec fn file_kind_of(type_attr: Option<Seq<char>>) -> Option<FileType> {
    match type_attr {
        None => Some(FileType::File),
        Some(t) => file_type_of(t),
    }
}

/// Reads the records of filelists.xml one event at a time. A record whose
/// identity matches no loaded package is skipped and leaves the repository
/// unchanged: a file list never creates a package.
pub struct FilelistsLoader {
    /// Inside a `package` element.
    pub in_package: bool,
    /// The `name` attribute of the record.
    pub name: Option<String>,
    /// The `arch` attribute of the record.
    pub arch: Option<String>,
    /// The record's version, from its `version` element.
    pub evr: EVR,
    /// The files read so far, in document order.
    pub files: Vec<PackageFile>,
    /// The kind of the `file` element now open, if one is.
    pub file_kind: Option<FileType>,
    /// The text read so far inside the `file` element now open.
    pub text: String,
}

fn file_kind(attrs: &Vec<(String, String)>) -> (r: Result<FileType, MetadataError>)
    ensures
        file_kind_of(attr_value(attrs@, "type"@)) matches Some(k) ==> r == Ok::<FileType, MetadataError>(k),
        file_kind_of(attr_value(attrs@, "type"@)) is None ==> (r matches Err(MetadataError::UnsupportedFileTypeError(t))
            && Some(t@) == attr_value(attrs@, "type"@)),
{
    proof {
        lemma_file_type_token_round_trip(FileType::File);
        lemma_file_type_token_round_trip(FileType::Dir);
        lemma_file_type_token_round_trip(FileType::GhostFile);
    }
    match find_attr(attrs, "type") {
        None => Ok(FileType::File),
        Some(t) => {
            if str_eq(t.as_str(), "file") {
                Ok(FileType::File)
            } else if str_eq(t.as_str(), "dir") {
                Ok(FileType::Dir)
            } else if str_eq(t.as_str(), "ghost") {
                Ok(FileType::GhostFile)
            } else {
                Err(MetadataError::UnsupportedFileTypeError(t))
            }
        },
    }
}

impl FilelistsLoader {
    /// A loader outside of any record.
    pub fn new() -> (r: FilelistsLoader)
        ensures
            !r.in_package,
            r.file_kind is None,
    {
        FilelistsLoader {
            in_package: false,
            name: None,
            arch: None,
            evr: EVR { epoch: String::new(), version: String::new(), release: String::new() },
            files: Vec::new(),
            file_kind: None,
            text: String::new(),
        }
    }

    /// Takes in one event. A `package` element opens a record with its
    /// `name` and `arch` attributes; inside it, `version` gives the version
    /// and each `file` element one entry. When the record closes, its files
    /// are merged into the first loaded package of the same identity; no
    /// package is ever added.
    pub fn feed(&mut self, repo: &mut Repository, event: XmlEvent) -> (r: Result<(), MetadataError>)
        ensures
            final(repo).records == old(repo).records,
            final(repo).updates == old(repo).updates,
            final(repo).packages@.len() == old(repo).packages@.len(),
            !(event matches XmlEvent::End(n) && n@ == "package"@) ==> final(repo).packages == old(repo).packages,
            event matches XmlEvent::Start(n, attrs) ==> (n@ == "package"@ ==> {
                &&& r is Ok
                &&& final(self).in_package
                &&& opt_view(final(self).name) == attr_value(attrs@, "name"@)
                &&& opt_view(final(self).arch) == attr_value(attrs@, "arch"@)
                &&& final(self).files@.len() == 0
                &&& final(self).file_kind is None
            }),
            event matches XmlEvent::Start(n, attrs) ==> (n@ == "version"@ && old(self).in_package ==> r is Ok
                && final(self).evr@ == (
                attr_or_empty(attrs@, "epoch"@),
                attr_or_empty(attrs@, "ver"@),
                attr_or_empty(attrs@, "rel"@),
            ) && final(self).files == old(self).files),
            event matches XmlEvent::Start(n, attrs) ==> (n@ == "file"@ && old(self).in_package ==> {
                &&& file_kind_of(attr_value(attrs@, "type"@)) matches Some(k) ==> r is Ok && final(self).file_kind
                    == Some(k) && final(self).text@.len() == 0
                &&& file_kind_of(attr_value(attrs@, "type"@)) is None ==> (r matches Err(
                    MetadataError::UnsupportedFileTypeError(t),
                ) && Some(t@) == attr_value(attrs@, "type"@))
                &&& final(self).files == old(self).files
            }),
            event matches XmlEvent::Text(x) ==> {
                &&& r is Ok
                &&& final(self).files == old(self).files
                &&& final(self).file_kind == old(self).file_kind
                &&& old(self).file_kind is Some ==> final(self).text@ == old(self).text@ + x@
            },
            event matches XmlEvent::End(n) ==> (n@ == "file"@ && old(self).file_kind is Some ==> {
                &&& r is Ok
                &&& final(self).file_kind is None
                &&& final(self).files@.len() == old(self).files@.len() + 1
                &&& final(self).files@.drop_last() == old(self).files@
                &&& final(self).files@.last().filetype == old(self).file_kind.unwrap()
                &&& final(self).files@.last().path == old(self).text
            }),
            event matches XmlEvent::End(n) ==> (n@ == "package"@ ==> {
                let key = (old(self).name.unwrap()@, old(self).evr@, old(self).arch.unwrap()@);
                let (ps0, ps1) = (old(repo).packages@, final(repo).packages@);
                &&& !final(self).in_package
                &&& !old(self).in_package ==> r is Ok && ps1 == ps0
                &&& old(self).in_package && old(self).name is None ==> (r matches Err(
                    MetadataError::MissingAttributeError(a),
                ) && a@ == "name"@)
                &&& old(self).in_package && old(self).name is Some && old(self).arch is None ==> (r matches Err(
                    MetadataError::MissingAttributeError(a),
                ) && a@ == "arch"@)
                &&& r is Err ==> ps1 == ps0
                &&& old(self).in_package && old(self).name is Some && old(self).arch is Some ==> {
                    &&& r is Ok
                    &&& no_match(ps0, key) ==> ps1 == ps0
                    &&& forall|i: int|
                        is_first_match(ps0, key, i) ==> {
                            &&& equal_but_at(ps0, ps1, i)
                            &&& same_but_lists(ps1[i], ps0[i])
                            &&& ps1[i].rpm_changelogs == ps0[i].rpm_changelogs
                            &&& ps1[i].rpm_files@ == ps0[i].rpm_files@ + old(self).files@
                        }
                }
            }),
            event is Eof ==> {
                &&& old(self).in_package ==> r == Err::<(), MetadataError>(MetadataError::TruncatedRecordError)
                &&& !old(self).in_package ==> r is Ok
            },
    {
        proof {
            reveal_strlit("package");
            reveal_strlit("version");
            reveal_strlit("file");
            assert("package"@.len() == 7 && "version"@.len() == 7 && "file"@.len() == 4);
            assert("package"@[0] != "version"@[0]);
        }
        match event {
            XmlEvent::Start(n, attrs) => {
                if str_eq(n.as_str(), "package") {
                    self.in_package = true;
                    self.name = find_attr(&attrs, "name");
                    self.arch = find_attr(&attrs, "arch");
                    self.evr = EVR { epoch: String::new(), version: String::new(), release: String::new() };
                    self.files = Vec::new();
                    self.file_kind = None;
                    self.text = String::new();
                    Ok(())
                } else if !self.in_package {
                    Ok(())
                } else if str_eq(n.as_str(), "version") {
                    self.evr = EVR {
                        epoch: attr_or_default(&attrs, "epoch"),
                        version: attr_or_default(&attrs, "ver"),
                        release: attr_or_default(&attrs, "rel"),
                    };
                    Ok(())
                } else if str_eq(n.as_str(), "file") {
                    match file_kind(&attrs) {
                        Ok(k) => {
                            self.file_kind = Some(k);
                            self.text = String::new();
                            Ok(())
                        },
                        Err(e) => Err(e),
                    }
                } else {
                    Ok(())
                }
            },
            XmlEvent::Text(x) => {
                if self.file_kind.is_some() {
                    self.text.append(x.as_str());
                }
                Ok(())
            },
            XmlEvent::End(n) => {
                if str_eq(n.as_str(), "package") {
                    if !self.in_package {
                        return Ok(());
                    }
                    self.in_package = false;
                    self.file_kind = None;
                    let name = match self.name.take() {
                        Some(v) => v,
                        None => return Err(MetadataError::MissingAttributeError("name")),
                    };
                    let arch = match self.arch.take() {
                        Some(v) => v,
                        None => return Err(MetadataError::MissingAttributeError("arch")),
                    };
                    let mut files: Vec<PackageFile> = Vec::new();
                    std::mem::swap(&mut files, &mut self.files);
                    let _ = repo.merge_files(name.as_str(), &self.evr, arch.as_str(), files);
                    Ok(())
                } else if str_eq(n.as_str(), "file") {
                    match self.file_kind.take() {
                        Some(k) => {
                            let mut path = String::new();
                            std::mem::swap(&mut path, &mut self.text);
                            self.files.push(PackageFile { filetype: k, path });
                            Ok(())
                        },
                        None => Ok(()),
                    }
                } else {
                    Ok(())
                }
            },
            XmlEvent::Eof => {
                if self.in_package {
                    Err(MetadataError::TruncatedRecordError)
                } else {
                    Ok(())
                }
            },
        }
    }
}

/// The opening of a package record: its identity as attributes, then its
/// version.
pub open spec fn record_head_model(p: Package) -> Seq<EventModel> {
    seq![
        EventModel::Start("package"@, seq![("pkgid"@, p.checksum.spec_digest()), ("name"@, p.name@), ("arch"@, p.arch@)]),
        EventModel::Start("version"@, seq![("epoch"@, p.evr.epoch@), ("ver"@, p.evr.version@), ("rel"@, p.evr.release@)]),
        EventModel::End("version"@),
    ]
}

/// Appends the opening of a package record: identity, then version.
pub fn write_record_head(out: &mut Vec<XmlEvent>, p: &Package)
    ensures
        events_model(final(out)@) == events_model(old(out)@) + record_head_model(*p),
{
    let ghost m0 = events_model(out@);
    let digest: String = match &p.checksum {
        Checksum::Sha1(d) => d.clone(),
        Checksum::Sha256(d) => d.clone(),
        Checksum::Sha384(d) => d.clone(),
        Checksum::Sha512(d) => d.clone(),
        Checksum::Unknown => String::new(),
    };
    let mut a: Vec<(String, String)> = Vec::new();
    a.push(("pkgid".to_owned(), digest));
    a.push(("name".to_owned(), p.name.clone()));
    a.push(("arch".to_owned(), p.arch.clone()));
    assert(attrs_model(a@) =~= seq![("pkgid"@, p.checksum.spec_digest()), ("name"@, p.name@), ("arch"@, p.arch@)]);
    out.push(XmlEvent::Start("package".to_owned(), a));
    let mut v: Vec<(String, String)> = Vec::new();
    v.push(("epoch".to_owned(), p.evr.epoch.clone()));
    v.push(("ver".to_owned(), p.evr.version.clone()));
    v.push(("rel".to_owned(), p.evr.release.clone()));
    assert(attrs_model(v@) =~= seq![("epoch"@, p.evr.epoch@), ("ver"@, p.evr.version@), ("rel"@, p.evr.release@)]);
    out.push(XmlEvent::Start("version".to_owned(), v));
    out.push(XmlEvent::End("version".to_owned()));
    assert(events_model(out@) =~= m0 + record_head_model(*p));
}

/// The events of one file entry; the `type` attribute is left out for a
/// plain file.
pub open spec fn file_model(f: PackageFile) -> Seq<EventModel> {
    text_element_model(
        "file"@,
        if f.filetype == FileType::File {
            Seq::empty()
        } else {
            seq![("type"@, file_type_token(f.filetype))]
        },
        f.path@,
    )
}

/// The events of a list of file entries, in order.
pub open spec fn files_model(fs: Seq<PackageFile>) -> Seq<EventModel>
    decreases fs.len(),
{
    if fs.len() == 0 {
        Seq::empty()
    } else {
        files_model(fs.drop_last()) + file_model(fs.last())
    }
}

/// The events of one record of filelists.xml.
pub open spec fn filelist_model(p: Package) -> Seq<EventModel> {
    record_head_model(p) + files_model(p.rpm_files@) + seq![EventModel::End("package"@)]
}

/// The events of a list of records of filelists.xml, in order.
pub open spec fn filelists_model(ps: Seq<Package>) -> Seq<EventModel>
    decreases ps.len(),
{
    if ps.len() == 0 {
        Seq::empty()
    } else {
        filelists_model(ps.drop_last()) + filelist_model(ps.last())
    }
}

/// Appends the events of one record of filelists.xml.
pub fn write_filelist(out: &mut Vec<XmlEvent>, p: &Package)
    ensures
        events_model(final(out)@) == events_model(old(out)@) + filelist_model(*p),
{
    let ghost m0 = events_model(out@);
    write_record_head(out, p);
    let ghost head = events_model(out@);
    assert(p.rpm_files@.take(0) =~= Seq::<PackageFile>::empty());
    assert(head + files_model(p.rpm_files@.take(0)) =~= head);
    let mut i: usize = 0;
    while i < p.rpm_files.len()
        invariant
            i <= p.rpm_files@.len(),
            events_model(out@) == head + files_model(p.rpm_files@.take(i as int)),
        decreases p.rpm_files@.len() - i,
    {
        let f = &p.rpm_files[i];
        let mut a: Vec<(String, String)> = Vec::new();
        if f.filetype != FileType::File {
            a.push(("type".to_owned(), f.filetype.to_values().to_owned()));
        }
        assert(attrs_model(a@) =~= (if f.filetype == FileType::File {
            Seq::empty()
        } else {
            seq![("type"@, file_type_token(f.filetype))]
        }));
        let ghost before = events_model(out@);
        out.push(XmlEvent::Start("file".to_owned(), a));
        out.push(XmlEvent::Text(f.path.clone()));
        out.push(XmlEvent::End("file".to_owned()));
        assert(events_model(out@) =~= before + file_model(*f));
        assert(p.rpm_files@.take(i + 1).drop_last() =~= p.rpm_files@.take(i as int));
        assert(head + files_model(p.rpm_files@.take(i + 1)) =~= head + files_model(p.rpm_files@.take(i as int))
            + file_model(p.rpm_files@[i as int]));
        i = i + 1;
    }
    assert(p.rpm_files@.take(i as int) =~= p.rpm_files@);
    let ghost before = events_model(out@);
    out.push(XmlEvent::End("package".to_owned()));
    assert(events_model(out@) =~= before + seq![EventModel::End("package"@)]);
    assert(events_model(out@) =~= m0 + filelist_model(*p));
}

/// The events of filelists.xml for `packages`, in stored order: the
/// `filelists` root with its namespace and the package count.
pub fn write_filelists(packages: &Vec<Package>) -> (r: Vec<XmlEvent>)
    ensures
        events_model(r@) == seq![
            EventModel::Start(
                "filelists"@,
                seq![("xmlns"@, XML_NS_FILELISTS@), ("packages"@, decimal_of(packages@.len()))],
            ),
        ] + filelists_model(packages@) + seq![EventModel::End("filelists"@)],
{
    let mut out: Vec<XmlEvent> = Vec::new();
    let mut a: Vec<(String, String)> = Vec::new();
    a.push(("xmlns".to_owned(), XML_NS_FILELISTS.to_owned()));
    a.push(("packages".to_owned(), decimal_text(packages.len() as u64)));
    let ghost head = seq![
        EventModel::Start("filelists"@, seq![("xmlns"@, XML_NS_FILELISTS@), ("packages"@, decimal_of(packages@.len()))]),
    ];
    assert(attrs_model(a@) =~= seq![("xmlns"@, XML_NS_FILELISTS@), ("packages"@, decimal_of(packages@.len()))]);
    out.push(XmlEvent::Start("filelists".to_owned(), a));
    assert(events_model(out@) =~= head);
    assert(packages@.take(0) =~= Seq::<Package>::empty());
    assert(head + filelists_model(packages@.take(0)) =~= head);
    let mut i: usize = 0;
    while i < packages.len()
        invariant
            i <= packages@.len(),
            events_model(out@) == head + filelists_model(packages@.take(i as int)),
        decreases packages@.len() - i,
    {
        write_filelist(&mut out, &packages[i]);
        assert(packages@.take(i + 1).drop_last() =~= packages@.take(i as int));
        assert(head + filelists_model(packages@.take(i + 1)) =~= head + filelists_model(packages@.take(i as int))
            + filelist_model(packages@[i as int]));
        i = i + 1;
    }
    let ghost before = events_model(out@);
    out.push(XmlEvent::End("filelists".to_owned()));
    assert(packages@.take(i as int) =~= packages@);
    assert(events_model(out@) =~= before + seq![EventModel::End("filelists"@)]);
    out
}

} // verus!
