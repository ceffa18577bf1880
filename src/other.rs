//! Reading other.xml: each record's changelog entries are merged, in
//! document order, into the package already loaded under the same identity.
use vstd::prelude::*;
use crate::error::MetadataError;
use crate::evr::EVR;
use crate::filelists::{record_head_model, write_record_head};
use crate::kinds::XML_NS_OTHER;
use crate::package::{Changelog, Package};
use crate::xml::{
    attr_or_default, attr_or_empty, attr_value, attrs_model, events_model, find_attr, number_attr, number_attr_or_zero,
    opt_view, text_element_model, EventModel, XmlEvent,
};
use crate::repository::{equal_but_at, is_first_match, no_match, same_but_lists, Repository};
use crate::text::{decimal_of, decimal_text, str_eq};

verus! {

/// Reads the records of other.xml one event at a time. A record whose
/// identity matches no loaded package is skipped and leaves the repository
/// unchanged: a changelog never creates a package.
pub struct OtherLoader {
    /// Inside a `package` element.
    pub in_package: bool,
    /// The `name` attribute of the record.
    pub name: Option<String>,
    /// The `arch` attribute of the record.
    pub arch: Option<String>,
    /// The record's version, from its `version` element.
    pub evr: EVR,
    /// The entries read so far, in document order.
    pub changelogs: Vec<Changelog>,
    /// Author and date of the `changelog` element now open, if one is.
    pub entry: Option<(String, u64)>,
    /// The text read so far inside the `changelog` element now open.
    pub text: String,
}

impl OtherLoader {
    /// A loader outside of any record.
    pub fn new() -> (r: OtherLoader)
        ensures
            !r.in_package,
            r.entry is None,
    {
        OtherLoader {
            in_package: false,
            name: None,
            arch: None,
            evr: EVR { epoch: String::new(), version: String::new(), release: String::new() },
            changelogs: Vec::new(),
            entry: None,
            text: String::new(),
        }
    }

    /// Takes in one event. A `package` element opens a record with its
    /// `name` and `arch` attributes; inside it, `version` gives the version
    /// and each `changelog` element one entry, its text the description.
    /// When the record closes, its entries are merged into the first loaded
    /// package of the same identity; no package is ever added.
    pub fn feed(&mut self, repo: &mut Repository, event: XmlEvent) -> (r: Result<(), MetadataError>)
        ensures
            final(repo).records == old(repo).records,
            final(repo).updates == old(repo).updates,
            final(repo).packages@.len() == old(repo).packages@.len(),
            !(event matches XmlEvent::End(n) && n@ == "package"@) ==> final(repo).packages == old(repo).packages,
            event matches XmlEvent::Start(n, attrs) ==> (n@ == "package"@ ==> {
                &&& r is Ok
                &&& final(self).in_package
                &&& opt_view(final(self).name) == attr_value(attrs@, "name"@)
                &&& opt_view(final(self).arch) == attr_value(attrs@, "arch"@)
                &&& final(self).changelogs@.len() == 0
                &&& final(self).entry is None
            }),
            event matches XmlEvent::Start(n, attrs) ==> (n@ == "version"@ && old(self).in_package ==> r is Ok
                && final(self).evr@ == (
                attr_or_empty(attrs@, "epoch"@),
                attr_or_empty(attrs@, "ver"@),
                attr_or_empty(attrs@, "rel"@),
            ) && final(self).changelogs == old(self).changelogs),
            event matches XmlEvent::Start(n, attrs) ==> (n@ == "changelog"@ && old(self).in_package ==> {
                &&& number_attr(attr_value(attrs@, "date"@)) matches Some(d) ==> r is Ok && final(self).entry is Some
                    && final(self).entry.unwrap().0@ == attr_or_empty(attrs@, "author"@) && final(self).entry.unwrap().1
                    == d && final(self).text@.len() == 0
                &&& number_attr(attr_value(attrs@, "date"@)) is None ==> (r matches Err(
                    MetadataError::IntFieldParseError(t),
                ) && Some(t@) == attr_value(attrs@, "date"@))
                &&& final(self).changelogs == old(self).changelogs
            }),
            event matches XmlEvent::Text(x) ==> {
                &&& r is Ok
                &&& final(self).changelogs == old(self).changelogs
                &&& final(self).entry == old(self).entry
                &&& old(self).entry is Some ==> final(self).text@ == old(self).text@ + x@
            },
            event matches XmlEvent::End(n) ==> (n@ == "changelog"@ && old(self).entry is Some ==> {
                &&& r is Ok
                &&& final(self).entry is None
                &&& final(self).changelogs@.len() == old(self).changelogs@.len() + 1
                &&& final(self).changelogs@.drop_last() == old(self).changelogs@
                &&& final(self).changelogs@.last().author == old(self).entry.unwrap().0
                &&& final(self).changelogs@.last().date == old(self).entry.unwrap().1
                &&& final(self).changelogs@.last().description == old(self).text
            }),
            event matches XmlEvent::End(n) ==> (n@ == "package"@ ==> {
                let key = (old(self).name.unwrap()@, old(self).evr@, old(self).arch.unwrap()@);
                let (ps0, ps1) = (old(repo).packages@, final(repo).packages@);
                &&& !final(self).in_package
                &&& !old(self).in_package ==> r is Ok && ps1 == ps0
                &&& old(self).in_package && old(self).name is None ==> (r matches Err(
                    MetadataError::MissingAttributeError(a),
                ) && a@ == "name"@)
                &&& old(self).in_package && old(self).name is Some && old(self).arch is None ==> (r matches Err(
                    MetadataError::MissingAttributeError(a),
                ) && a@ == "arch"@)
                &&& r is Err ==> ps1 == ps0
                &&& old(self).in_package && old(self).name is Some && old(self).arch is Some ==> {
                    &&& r is Ok
                    &&& no_match(ps0, key) ==> ps1 == ps0
                    &&& forall|i: int|
                        is_first_match(ps0, key, i) ==> {
                            &&& equal_but_at(ps0, ps1, i)
                            &&& same_but_lists(ps1[i], ps0[i])
                            &&& ps1[i].rpm_files == ps0[i].rpm_files
                            &&& ps1[i].rpm_changelogs@ == ps0[i].rpm_changelogs@ + old(self).changelogs@
                        }
                }
            }),
            event is Eof ==> {
                &&& old(self).in_package ==> r == Err::<(), MetadataError>(MetadataError::TruncatedRecordError)
                &&& !old(self).in_package ==> r is Ok
            },
    {
        proof {
            reveal_strlit("package");
            reveal_strlit("version");
            reveal_strlit("changelog");
            assert("package"@.len() == 7 && "version"@.len() == 7 && "changelog"@.len() == 9);
            assert("package"@[0] != "version"@[0]);
        }
        match event {
            XmlEvent::Start(n, attrs) => {
                if str_eq(n.as_str(), "package") {
                    self.in_package = true;
                    self.name = find_attr(&attrs, "name");
                    self.arch = find_attr(&attrs, "arch");
                    self.evr = EVR { epoch: String::new(), version: String::new(), release: String::new() };
                    self.changelogs = Vec::new();
                    self.entry = None;
                    self.text = String::new();
                    Ok(())
                } else if !self.in_package {
                    Ok(())
                } else if str_eq(n.as_str(), "version") {
                    self.evr = EVR {
                        epoch: attr_or_default(&attrs, "epoch"),
                        version: attr_or_default(&attrs, "ver"),
                        release: attr_or_default(&attrs, "rel"),
                    };
                    Ok(())
                } else if str_eq(n.as_str(), "changelog") {
                    match number_attr_or_zero(&attrs, "date") {
                        Ok(d) => {
                            self.entry = Some((attr_or_default(&attrs, "author"), d));
                            self.text = String::new();
                            Ok(())
                        },
                        Err(e) => Err(e),
                    }
                } else {
                    Ok(())
                }
            },
            XmlEvent::Text(x) => {
                if self.entry.is_some() {
                    self.text.append(x.as_str());
                }
                Ok(())
            },
            XmlEvent::End(n) => {
                if str_eq(n.as_str(), "package") {
                    if !self.in_package {
                        return Ok(());
                    }
                    self.in_package = false;
                    self.entry = None;
                    let name = match self.name.take() {
                        Some(v) => v,
                        None => return Err(MetadataError::MissingAttributeError("name")),
                    };
                    let arch = match self.arch.take() {
                        Some(v) => v,
                        None => return Err(MetadataError::MissingAttributeError("arch")),
                    };
                    let mut changelogs: Vec<Changelog> = Vec::new();
                    std::mem::swap(&mut changelogs, &mut self.changelogs);
                    let _ = repo.merge_changelogs(name.as_str(), &self.evr, arch.as_str(), changelogs);
                    Ok(())
                } else if str_eq(n.as_str(), "changelog") {
                    match self.entry.take() {
                        Some((author, date)) => {
                            let mut description = String::new();
                            std::mem::swap(&mut description, &mut self.text);
                            self.changelogs.push(Changelog { author, date, description });
                            Ok(())
                        },
                        None => Ok(()),
                    }
                } else {
                    Ok(())
                }
            },
            XmlEvent::Eof => {
                if self.in_package {
                    Err(MetadataError::TruncatedRecordError)
                } else {
                    Ok(())
                }
            },
        }
    }
}

/// The events of one changelog entry.
pub open spec fn changelog_model(c: Changelog) -> Seq<EventModel> {
    text_element_model(
        "changelog"@,
        seq![("author"@, c.author@), ("date"@, decimal_of(c.date as nat))],
        c.description@,
    )
}

/// The events of a list of changelog entries, in order.
pub open spec fn changelogs_model(cs: Seq<Changelog>) -> Seq<EventModel>
    decreases cs.len(),
{
    if cs.len() == 0 {
        Seq::empty()
    } else {
        changelogs_model(cs.drop_last()) + changelog_model(cs.last())
    }
}

/// The events of one record of other.xml.
pub open spec fn other_model(p: Package) -> Seq<EventModel> {
    record_head_model(p) + changelogs_model(p.rpm_changelogs@) + seq![EventModel::End("package"@)]
}

/// The events of a list of records of other.xml, in order.
pub open spec fn others_model(ps: Seq<Package>) -> Seq<EventModel>
    decreases ps.len(),
{
    if ps.len() == 0 {
        Seq::empty()
    } else {
        others_model(ps.drop_last()) + other_model(ps.last())
    }
}

/// Appends the events of one record of other.xml; entries keep their order.
pub fn write_other(out: &mut Vec<XmlEvent>, p: &Package)
    ensures
        events_model(final(out)@) == events_model(old(out)@) + other_model(*p),
{
    let ghost m0 = events_model(out@);
    write_record_head(out, p);
    let ghost head = events_model(out@);
    assert(p.rpm_changelogs@.take(0) =~= Seq::<Changelog>::empty());
    assert(head + changelogs_model(p.rpm_changelogs@.take(0)) =~= head);
    let mut i: usize = 0;
    while i < p.rpm_changelogs.len()
        invariant
            i <= p.rpm_changelogs@.len(),
            events_model(out@) == head + changelogs_model(p.rpm_changelogs@.take(i as int)),
        decreases p.rpm_changelogs@.len() - i,
    {
        let c = &p.rpm_changelogs[i];
        let mut a: Vec<(String, String)> = Vec::new();
        a.push(("author".to_owned(), c.author.clone()));
        a.push(("date".to_owned(), decimal_text(c.date)));
        assert(attrs_model(a@) =~= seq![("author"@, c.author@), ("date"@, decimal_of(c.date as nat))]);
        let ghost before = events_model(out@);
        out.push(XmlEvent::Start("changelog".to_owned(), a));
        out.push(XmlEvent::Text(c.description.clone()));
        out.push(XmlEvent::End("changelog".to_owned()));
        assert(events_model(out@) =~= before + changelog_model(*c));
        assert(p.rpm_changelogs@.take(i + 1).drop_last() =~= p.rpm_changelogs@.take(i as int));
        assert(head + changelogs_model(p.rpm_changelogs@.take(i + 1)) =~= head + changelogs_model(
            p.rpm_changelogs@.take(i as int),
        ) + changelog_model(p.rpm_changelogs@[i as int]));
        i = i + 1;
    }
    assert(p.rpm_changelogs@.take(i as int) =~= p.rpm_changelogs@);
    let ghost before = events_model(out@);
    out.push(XmlEvent::End("package".to_owned()));
    assert(events_model(out@) =~= before + seq![EventModel::End("package"@)]);
    assert(events_model(out@) =~= m0 + other_model(*p));
}

/// The events of other.xml for `packages`, in stored order: the
/// `otherdata` root with its namespace and the package count.
pub fn write_others(packages: &Vec<Package>) -> (r: Vec<XmlEvent>)
    ensures
        events_model(r@) == seq![
            EventModel::Start("otherdata"@, seq![("xmlns"@, XML_NS_OTHER@), ("packages"@, decimal_of(packages@.len()))]),
        ] + others_model(packages@) + seq![EventModel::End("otherdata"@)],
{
    let mut out: Vec<XmlEvent> = Vec::new();
    let mut a: Vec<(String, String)> = Vec::new();
    a.push(("xmlns".to_owned(), XML_NS_OTHER.to_owned()));
    a.push(("packages".to_owned(), decimal_text(packages.len() as u64)));
    let ghost head = seq![
        EventModel::Start("otherdata"@, seq![("xmlns"@, XML_NS_OTHER@), ("packages"@, decimal_of(packages@.len()))]),
    ];
    assert(attrs_model(a@) =~= seq![("xmlns"@, XML_NS_OTHER@), ("packages"@, decimal_of(packages@.len()))]);
    out.push(XmlEvent::Start("otherdata".to_owned(), a));
    assert(events_model(out@) =~= head);
    assert(packages@.take(0) =~= Seq::<Package>::empty());
    assert(head + others_model(packages@.take(0)) =~= head);
    let mut i: usize = 0;
    while i < packages.len()
        invariant
            i <= packages@.len(),
            events_model(out@) == head + others_model(packages@.take(i as int)),
        decreases packages@.len() - i,
    {
        write_other(&mut out, &packages[i]);
        assert(packages@.take(i + 1).drop_last() =~= packages@.take(i as int));
        assert(head + others_model(packages@.take(i + 1)) =~= head + others_model(packages@.take(i as int))
            + other_model(packages@[i as int]));
        i = i + 1;
    }
    let ghost before = events_model(out@);
    out.push(XmlEvent::End("otherdata".to_owned()));
    assert(packages@.take(i as int) =~= packages@);
    assert(events_model(out@) =~= before + seq![EventModel::End("otherdata"@)]);
    out
}

} // verus!
