//! Reading updateinfo.xml: each `update` element becomes one advisory,
//! appended in document order.
use vstd::prelude::*;
use crate::checksum::{checksum_type_of, Checksum, ChecksumType};
use crate::error::MetadataError;
use crate::records::{UpdateCollection, UpdateCollectionPackage, UpdateRecord, UpdateReference};
use crate::repository::Repository;
use crate::text::str_eq;
use crate::xml::{
    attr_or_default, attr_or_empty, attr_value, find_attr, number_attr, number_attr_or_zero, opt_view, XmlEvent,
};

verus! {

/// The text-valued element of an advisory being read.
#[derive(Debug, Clone, Copy, PartialEq, Eq, Structural)]
pub enum UpdateField {
    Nothing,
    Id,
    Title,
    Rights,
    Release,
    Pushcount,
    Severity,
    Summary,
    Description,
    Solution,
    Reboot,
}

/// The field an element directly inside an `update` fills, if any.
pub open spec fn update_field_of(element: Seq<char>) -> UpdateField {
    if element == "id"@ {
        UpdateField::Id
    } else if element == "title"@ {
        UpdateField::Title
    } else if element == "rights"@ {
        UpdateField::Rights
    } else if element == "release"@ {
        UpdateField::Release
    } else if element == "pushcount"@ {
        UpdateField::Pushcount
    } else if element == "severity"@ {
        UpdateField::Severity
    } else if element == "summary"@ {
        UpdateField::Summary
    } else if element == "description"@ {
        UpdateField::Description
    } else if element == "solution"@ {
        UpdateField::Solution
    } else if element == "reboot_suggested"@ {
        UpdateField::Reboot
    } else {
        UpdateField::Nothing
    }
}

fn update_field(element: &str) -> (r: UpdateField)
    ensures
        r == update_field_of(element@),
{
    if str_eq(element, "id") {
        UpdateField::Id
    } else if str_eq(element, "title") {
        UpdateField::Title
    } else if str_eq(element, "rights") {
        UpdateField::Rights
    } else if str_eq(element, "release") {
        UpdateField::Release
    } else if str_eq(element, "pushcount") {
        UpdateField::Pushcount
    } else if str_eq(element, "severity") {
        UpdateField::Severity
    } else if str_eq(element, "summary") {
        UpdateField::Summary
    } else if str_eq(element, "description") {
        UpdateField::Description
    } else if str_eq(element, "solution") {
        UpdateField::Solution
    } else if str_eq(element, "reboot_suggested") {
        UpdateField::Reboot
    } else {
        UpdateField::Nothing
    }
}

/// A flag element's text: `True` or `1` sets it.
pub open spec fn flag_of(text: Seq<char>) -> bool {
    text == "True"@ || text == "true"@ || text == "1"@
}

fn flag(text: &str) -> (r: bool)
    ensures
        r == flag_of(text@),
{
    str_eq(text, "True") || str_eq(text, "true") || str_eq(text, "1")
}

/// `u1` agrees with `u0` on everything but the field `f`, the references
/// and the collections.
pub open spec fn update_same_except(u0: UpdateRecord, u1: UpdateRecord, f: UpdateField) -> bool {
    &&& u1.from == u0.from
    &&& u1.update_type == u0.update_type
    &&& u1.status == u0.status
    &&& u1.version == u0.version
    &&& u1.issued_date == u0.issued_date
    &&& u1.updated_date == u0.updated_date
    &&& f != UpdateField::Id ==> u1.id == u0.id
    &&& f != UpdateField::Title ==> u1.title == u0.title
    &&& f != UpdateField::Rights ==> u1.rights == u0.rights
    &&& f != UpdateField::Release ==> u1.release == u0.release
    &&& f != UpdateField::Pushcount ==> u1.pushcount == u0.pushcount
    &&& f != UpdateField::Severity ==> u1.severity == u0.severity
    &&& f != UpdateField::Summary ==> u1.summary == u0.summary
    &&& f != UpdateField::Description ==> u1.description == u0.description
    &&& f != UpdateField::Solution ==> u1.solution == u0.solution
    &&& f != UpdateField::Reboot ==> u1.reboot_suggested == u0.reboot_suggested
}

/// `u1` is `u0` with the text `t` stored in field `f`.
pub open spec fn update_committed(u0: UpdateRecord, f: UpdateField, t: Seq<char>, u1: UpdateRecord) -> bool {
    &&& update_same_except(u0, u1, f)
    &&& u1.references == u0.references
    &&& u1.pkglist == u0.pkglist
    &&& f == UpdateField::Id ==> u1.id@ == t
    &&& f == UpdateField::Title ==> u1.title@ == t
    &&& f == UpdateField::Rights ==> u1.rights@ == t
    &&& f == UpdateField::Release ==> u1.release@ == t
    &&& f == UpdateField::Pushcount ==> opt_view(u1.pushcount) == Some(t)
    &&& f == UpdateField::Severity ==> u1.severity@ == t
    &&& f == UpdateField::Summary ==> u1.summary@ == t
    &&& f == UpdateField::Description ==> u1.description@ == t
    &&& f == UpdateField::Solution ==> u1.solution@ == t
    &&& f == UpdateField::Reboot ==> u1.reboot_suggested == flag_of(t)
}

/// An advisory in which only the attributes of its `update` element are set.
pub open spec fn update_opened(u: UpdateRecord, attrs: Seq<(String, String)>) -> bool {
    &&& u.from@ == attr_or_empty(attrs, "from"@)
    &&& u.update_type@ == attr_or_empty(attrs, "type"@)
    &&& u.status@ == attr_or_empty(attrs, "status"@)
    &&& u.version@ == attr_or_empty(attrs, "version"@)
    &&& u.id@.len() == 0 && u.title@.len() == 0 && u.rights@.len() == 0 && u.release@.len() == 0
    &&& u.severity@.len() == 0 && u.summary@.len() == 0 && u.description@.len() == 0 && u.solution@.len() == 0
    &&& u.issued_date is None && u.updated_date is None && u.pushcount is None
    &&& !u.reboot_suggested
    &&& u.references@.len() == 0 && u.pkglist@.len() == 0
}

/// Reads the advisories of updateinfo.xml one event at a time. Inside a
/// `pkglist`, each `collection` with its `name` and its `package` entries
/// (attributes, `filename` and `sum`) is kept in document order.
pub struct UpdateinfoLoader {
    /// The advisory being read, between its opening and closing element.
    pub record: Option<UpdateRecord>,
    /// The text field of the advisory that the element now open fills.
    pub field: UpdateField,
    /// The text read so far inside the element now open.
    pub text: String,
    /// The collection being read, if one is open.
    pub collection: Option<UpdateCollection>,
    /// The collection entry being read, if one is open.
    pub package: Option<UpdateCollectionPackage>,
    /// The text element of a collection or of its entry now open.
    pub inner: InnerField,
    /// The `type` attribute of the `sum` element now open.
    pub sum_type: Option<String>,
}

/// The text-valued element of a collection or of one of its entries.
#[derive(Debug, Clone, Copy, PartialEq, Eq, Structural)]
pub enum InnerField {
    Nothing,
    CollectionName,
    Filename,
    Sum,
    PackageReboot,
}

impl UpdateinfoLoader {
    /// A loader outside of any advisory.
    pub fn new() -> (r: UpdateinfoLoader)
        ensures
            r.record is None,
            r.field == UpdateField::Nothing,
    {
        UpdateinfoLoader {
            record: None,
            field: UpdateField::Nothing,
            text: String::new(),
            collection: None,
            package: None,
            inner: InnerField::Nothing,
            sum_type: None,
        }
    }

    /// Takes in one event. `update` opens an advisory with its `from`,
    /// `type`, `status` and `version` attributes; inside it, the text of
    /// `id`, `title`, `rights`, `release`, `pushcount`, `severity`,
    /// `summary`, `description`, `solution` and `reboot_suggested` and the
    /// `date` of `issued` and `updated` fill it, each `reference` adds a
    /// reference, and each `collection` of the `pkglist` is added when it
    /// closes, with the entries that closed inside it. A closing `update`
    /// appends the advisory to `repo`.
    pub fn feed(&mut self, repo: &mut Repository, event: XmlEvent) -> (r: Result<(), MetadataError>)
        ensures
            final(repo).records == old(repo).records,
            final(repo).packages == old(repo).packages,
            !(event matches XmlEvent::End(n) && n@ == "update"@ && old(self).record is Some) ==> final(repo).updates
                == old(repo).updates,
            event matches XmlEvent::Start(n, attrs) ==> (n@ == "update"@ ==> r is Ok && final(self).record is Some
                && update_opened(final(self).record.unwrap(), attrs@) && final(self).collection is None),
            event matches XmlEvent::Start(n, attrs) ==> (n@ != "update"@ && old(self).record is None ==> r is Ok
                && *final(self) == *old(self)),
            event matches XmlEvent::Start(n, attrs) ==> (n@ == "reference"@ && old(self).record is Some ==> {
                let (u0, u1) = (old(self).record.unwrap(), final(self).record.unwrap());
                &&& r is Ok
                &&& final(self).record is Some
                &&& update_same_except(u0, u1, UpdateField::Nothing)
                &&& u1.pkglist == u0.pkglist
                &&& u1.references@.len() == u0.references@.len() + 1
                &&& u1.references@.drop_last() == u0.references@
                &&& u1.references@.last().href@ == attr_or_empty(attrs@, "href"@)
                &&& u1.references@.last().id@ == attr_or_empty(attrs@, "id"@)
                &&& u1.references@.last().title@ == attr_or_empty(attrs@, "title"@)
                &&& u1.references@.last().reftype@ == attr_or_empty(attrs@, "type"@)
            }),
            event matches XmlEvent::Start(n, attrs) ==> ((n@ == "issued"@ || n@ == "updated"@) && old(self).record is Some
                ==> {
                let (u0, u1) = (old(self).record.unwrap(), final(self).record.unwrap());
                &&& r is Ok
                &&& final(self).record is Some
                &&& n@ == "issued"@ ==> opt_view(u1.issued_date) == attr_value(attrs@, "date"@)
                &&& n@ == "updated"@ ==> opt_view(u1.updated_date) == attr_value(attrs@, "date"@)
            }),
            event matches XmlEvent::Start(n, attrs) ==> (n@ != "update"@ && n@ != "package"@ && n@ != "reference"@
                && n@ != "issued"@ && n@ != "updated"@ && n@ != "collection"@ && old(self).record is Some ==> r is Ok && final(self).record
                == old(self).record && (old(self).collection is None && old(self).package is None
                ==> final(self).field == update_field_of(n@))),
            event matches XmlEvent::Start(n, attrs) ==> (n@ == "collection"@ && old(self).record is Some ==> r is Ok
                && final(self).record == old(self).record && final(self).field == UpdateField::Nothing
                && (final(self).collection matches Some(c) && c.shortname@ == attr_or_empty(attrs@, "short"@) && c.name@.len() == 0
                && c.packages@.len() == 0)),
            event matches XmlEvent::Start(n, attrs) ==> (n@ == "package"@ && old(self).record is Some
                && old(self).collection is Some ==> {
                &&& number_attr(attr_value(attrs@, "epoch"@)) is None ==> (r matches Err(
                    MetadataError::IntFieldParseError(t),
                ) && Some(t@) == attr_value(attrs@, "epoch"@))
                &&& number_attr(attr_value(attrs@, "epoch"@)) is Some && number_attr(attr_value(attrs@, "epoch"@)).unwrap()
                    > u32::MAX ==> r is Err
                &&& r is Ok ==> (final(self).package matches Some(q) && q.name@ == attr_or_empty(attrs@, "name"@)
                    && q.version@ == attr_or_empty(attrs@, "version"@) && q.release@ == attr_or_empty(
                    attrs@,
                    "release"@,
                ) && q.src@ == attr_or_empty(attrs@, "src"@) && Some(q.epoch as u64) == number_attr(
                    attr_value(attrs@, "epoch"@),
                ))
            }),
            event matches XmlEvent::Text(x) ==> r is Ok && final(self).record == old(self).record
                && final(self).field == old(self).field && final(self).inner == old(self).inner && (old(self).field
                != UpdateField::Nothing || old(self).inner != InnerField::Nothing ==> final(self).text@ == old(
                self,
            ).text@ + x@),
            event matches XmlEvent::End(n) ==> (n@ == "update"@ && old(self).record is Some ==> {
                &&& r is Ok
                &&& final(self).record is None
                &&& final(repo).updates@ == old(repo).updates@.push(old(self).record.unwrap())
            }),
            event matches XmlEvent::End(n) ==> (n@ != "update"@ && old(self).record is Some && old(self).field
                != UpdateField::Nothing ==> r is Ok && final(self).record is Some && final(self).field
                == UpdateField::Nothing && update_committed(
                old(self).record.unwrap(),
                old(self).field,
                old(self).text@,
                final(self).record.unwrap(),
            )),
            event matches XmlEvent::End(n) ==> (n@ == "collection"@ && old(self).record is Some && old(self).field
                == UpdateField::Nothing && old(self).collection is Some ==> {
                let (u0, u1) = (old(self).record.unwrap(), final(self).record.unwrap());
                &&& r is Ok
                &&& final(self).record is Some
                &&& final(self).collection is None
                &&& u1.pkglist@ == u0.pkglist@.push(old(self).collection.unwrap())
                &&& update_same_except(u0, u1, UpdateField::Nothing)
                &&& u1.references == u0.references
            }),
            event is Eof ==> {
                &&& old(self).record is Some ==> r == Err::<(), MetadataError>(MetadataError::TruncatedRecordError)
                &&& old(self).record is None ==> r is Ok
            },
    {
        proof {
            lemma_update_elements();
        }
        match event {
            XmlEvent::Start(n, attrs) => {
                if str_eq(n.as_str(), "update") {
                    self.record = Some(
                        UpdateRecord {
                            from: attr_or_default(&attrs, "from"),
                            update_type: attr_or_default(&attrs, "type"),
                            status: attr_or_default(&attrs, "status"),
                            version: attr_or_default(&attrs, "version"),
                            id: String::new(),
                            title: String::new(),
                            issued_date: None,
                            updated_date: None,
                            rights: String::new(),
                            release: String::new(),
                            pushcount: None,
                            severity: String::new(),
                            summary: String::new(),
                            description: String::new(),
                            solution: String::new(),
                            reboot_suggested: false,
                            references: Vec::new(),
                            pkglist: Vec::new(),
                        },
                    );
                    self.field = UpdateField::Nothing;
                    self.inner = InnerField::Nothing;
                    self.collection = None;
                    self.package = None;
                    return Ok(());
                }
                if self.record.is_none() {
                    return Ok(());
                }
                if str_eq(n.as_str(), "package") {
                    if self.collection.is_none() {
                        return Ok(());
                    }
                    let epoch = number_attr_or_zero(&attrs, "epoch")?;
                    if epoch > u32::MAX as u64 {
                        return Err(MetadataError::IntFieldParseError(attr_or_default(&attrs, "epoch")));
                    }
                    self.package = Some(
                        UpdateCollectionPackage {
                            epoch: epoch as u32,
                            filename: String::new(),
                            name: attr_or_default(&attrs, "name"),
                            reboot_suggested: false,
                            restart_suggested: false,
                            relogin_suggested: false,
                            release: attr_or_default(&attrs, "release"),
                            src: attr_or_default(&attrs, "src"),
                            checksum: Checksum::Unknown,
                            version: attr_or_default(&attrs, "version"),
                        },
                    );
                    self.inner = InnerField::Nothing;
                    return Ok(());
                }
                let mut u = self.record.take().unwrap();
                if str_eq(n.as_str(), "reference") {
                    u.references.push(
                        UpdateReference {
                            href: attr_or_default(&attrs, "href"),
                            id: attr_or_default(&attrs, "id"),
                            title: attr_or_default(&attrs, "title"),
                            reftype: attr_or_default(&attrs, "type"),
                        },
                    );
                    assert(u.references@.drop_last() =~= old(self).record.unwrap().references@);
                } else if str_eq(n.as_str(), "issued") {
                    u.issued_date = find_attr(&attrs, "date");
                } else if str_eq(n.as_str(), "updated") {
                    u.updated_date = find_attr(&attrs, "date");
                } else if str_eq(n.as_str(), "collection") {
                    self.collection = Some(
                        UpdateCollection {
                            name: String::new(),
                            shortname: attr_or_default(&attrs, "short"),
                            packages: Vec::new(),
                        },
                    );
                    self.inner = InnerField::Nothing;
                    self.field = UpdateField::Nothing;
                } else if self.package.is_some() {
                    if str_eq(n.as_str(), "filename") {
                        self.inner = InnerField::Filename;
                    } else if str_eq(n.as_str(), "sum") {
                        self.inner = InnerField::Sum;
                        self.sum_type = find_attr(&attrs, "type");
                    } else if str_eq(n.as_str(), "reboot_suggested") {
                        self.inner = InnerField::PackageReboot;
                    } else {
                        self.inner = InnerField::Nothing;
                    }
                    self.text = String::new();
                } else if self.collection.is_some() {
                    if str_eq(n.as_str(), "name") {
                        self.inner = InnerField::CollectionName;
                    } else {
                        self.inner = InnerField::Nothing;
                    }
                    self.text = String::new();
                } else {
                    self.field = update_field(n.as_str());
                    self.text = String::new();
                }
                self.record = Some(u);
                Ok(())
            },
            XmlEvent::Text(x) => {
                if self.field != UpdateField::Nothing || self.inner != InnerField::Nothing {
                    self.text.append(x.as_str());
                }
                Ok(())
            },
            XmlEvent::End(n) => {
                if self.record.is_none() {
                    return Ok(());
                }
                if str_eq(n.as_str(), "update") {
                    let u = self.record.take().unwrap();
                    self.field = UpdateField::Nothing;
                    self.inner = InnerField::Nothing;
                    self.collection = None;
                    self.package = None;
                    repo.add_update(u);
                    return Ok(());
                }
                if self.field != UpdateField::Nothing {
                    return self.commit_field();
                }
                self.end_inner(n.as_str())
            },
            XmlEvent::Eof => {
                if self.record.is_some() {
                    Err(MetadataError::TruncatedRecordError)
                } else {
                    Ok(())
                }
            },
        }
    }

    /// Stores the text of the advisory field now closing.
    fn commit_field(&mut self) -> (r: Result<(), MetadataError>)
        requires
            old(self).record is Some,
        ensures
            r is Ok,
            final(self).record is Some,
            final(self).field == UpdateField::Nothing,
            final(self).inner == old(self).inner,
            update_committed(old(self).record.unwrap(), old(self).field, old(self).text@, final(self).record.unwrap()),
    {
        let field = self.field;
        self.field = UpdateField::Nothing;
        let mut text = String::new();
        std::mem::swap(&mut text, &mut self.text);
        let mut u = self.record.take().unwrap();
        match field {
            UpdateField::Nothing => {},
            UpdateField::Id => u.id = text,
            UpdateField::Title => u.title = text,
            UpdateField::Rights => u.rights = text,
            UpdateField::Release => u.release = text,
            UpdateField::Pushcount => u.pushcount = Some(text),
            UpdateField::Severity => u.severity = text,
            UpdateField::Summary => u.summary = text,
            UpdateField::Description => u.description = text,
            UpdateField::Solution => u.solution = text,
            UpdateField::Reboot => u.reboot_suggested = flag(text.as_str()),
        }
        self.record = Some(u);
        Ok(())
    }

    /// Closes an element inside a collection or its entry, or a collection.
    fn end_inner(&mut self, n: &str) -> (r: Result<(), MetadataError>)
        requires
            old(self).record is Some,
            old(self).field == UpdateField::Nothing,
        ensures
            final(self).record is Some,
            final(self).field == UpdateField::Nothing,
            n@ == "collection"@ && old(self).collection is Some ==> {
                let (u0, u1) = (old(self).record.unwrap(), final(self).record.unwrap());
                &&& r is Ok
                &&& final(self).collection is None
                &&& u1.pkglist@ == u0.pkglist@.push(old(self).collection.unwrap())
                &&& update_same_except(u0, u1, UpdateField::Nothing)
                &&& u1.references == u0.references
            },
            !(n@ == "collection"@ && old(self).collection is Some) ==> final(self).record == old(self).record,
    {
        let inner = self.inner;
        self.inner = InnerField::Nothing;
        let mut text = String::new();
        std::mem::swap(&mut text, &mut self.text);
        if str_eq(n, "collection") && self.collection.is_some() {
            let c = self.collection.take().unwrap();
            let mut u = self.record.take().unwrap();
            u.pkglist.push(c);
            self.record = Some(u);
            self.package = None;
            return Ok(());
        }
        if str_eq(n, "package") {
            if let Some(q) = self.package.take() {
                if let Some(mut c) = self.collection.take() {
                    c.packages.push(q);
                    self.collection = Some(c);
                }
            }
            return Ok(());
        }
        match inner {
            InnerField::Nothing => Ok(()),
            InnerField::CollectionName => {
                if let Some(mut c) = self.collection.take() {
                    c.name = text;
                    self.collection = Some(c);
                }
                Ok(())
            },
            InnerField::Filename => {
                if let Some(mut q) = self.package.take() {
                    q.filename = text;
                    self.package = Some(q);
                }
                Ok(())
            },
            InnerField::PackageReboot => {
                if let Some(mut q) = self.package.take() {
                    q.reboot_suggested = flag(text.as_str());
                    self.package = Some(q);
                }
                Ok(())
            },
            InnerField::Sum => {
                let ty = self.sum_type.take();
                match ty {
                    None => Err(MetadataError::MissingAttributeError("type")),
                    Some(t) => {
                        let c = Checksum::try_create(t.as_str(), text.as_str())?;
                        if let Some(mut q) = self.package.take() {
                            q.checksum = c;
                            self.package = Some(q);
                        }
                        Ok(())
                    },
                }
            },
        }
    }
}

/// The elements handled on their own are distinct.
proof fn lemma_update_elements()
    ensures
        "update"@ != "package"@ && "update"@ != "reference"@ && "update"@ != "issued"@ && "update"@ != "updated"@,
        "update"@ != "collection"@,
        "package"@ != "reference"@ && "package"@ != "issued"@ && "package"@ != "updated"@,
        "reference"@ != "issued"@ && "reference"@ != "updated"@ && "issued"@ != "updated"@,
        "collection"@ != "reference"@ && "collection"@ != "package"@ && "collection"@ != "issued"@,
        "collection"@ != "updated"@,
{
    reveal_strlit("update");
    reveal_strlit("package");
    reveal_strlit("reference");
    reveal_strlit("issued");
    reveal_strlit("updated");
    reveal_strlit("collection");
    assert("update"@.len() == 6 && "package"@.len() == 7 && "reference"@.len() == 9 && "issued"@.len() == 6);
    assert("updated"@.len() == 7 && "collection"@.len() == 10);
    assert("update"@[0] != "issued"@[0] && "package"@[0] != "updated"@[0]);
}

} // verus!
