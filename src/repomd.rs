//! Reading repomd.xml: each `data` element becomes the index record of one
//! metadata file, stored under its type.
use vstd::prelude::*;
use crate::checksum::{checksum_token, checksum_type_of, Checksum, ChecksumType};
use crate::error::MetadataError;
use crate::xml::{
    attr_or_default, attr_or_empty, attr_value, events_model, find_attr, opt_view, push_empty_element, push_text_element,
    text_element_model, EventModel, XmlEvent,
};
use crate::records::RepoMdRecord;
use crate::repository::{mdtypes, Repository};
use crate::kinds::{XML_NS_REPO, XML_NS_RPM};
use crate::text::{all_digits, decimal_of, decimal_text, decimal_value, parse_u64, str_eq};

verus! {

/// The child element of a `data` record whose text is being read.
#[derive(Debug, Clone, Copy, PartialEq, Eq, Structural)]
pub enum RepomdField {
    Nothing,
    Checksum,
    OpenChecksum,
    HeaderChecksum,
    Timestamp,
    Size,
    OpenSize,
    HeaderSize,
    DatabaseVersion,
}

/// The field a child element of a `data` record fills, if any.
pub open spec fn repomd_field_of(element: Seq<char>) -> RepomdField {
    if element == "checksum"@ {
        RepomdField::Checksum
    } else if element == "open-checksum"@ {
        RepomdField::OpenChecksum
    } else if element == "header-checksum"@ {
        RepomdField::HeaderChecksum
    } else if element == "timestamp"@ {
        RepomdField::Timestamp
    } else if element == "size"@ {
        RepomdField::Size
    } else if element == "open-size"@ {
        RepomdField::OpenSize
    } else if element == "header-size"@ {
        RepomdField::HeaderSize
    } else if element == "database_version"@ {
        RepomdField::DatabaseVersion
    } else {
        RepomdField::Nothing
    }
}

/// The number a text denotes, where it is a decimal number that fits in 64 bits.
pub open spec fn number_of(t: Seq<char>) -> Option<u64> {
    if t.len() > 0 && all_digits(t) && decimal_value(t) <= u64::MAX {
        Some(decimal_value(t) as u64)
    } else {
        None
    }
}

/// An index record whose child elements are still being read. The stored
/// checksum stays `None` until its element is seen.
pub struct RepomdDraft {
    pub mdtype: String,
    pub location_href: String,
    pub timestamp: u64,
    pub size: Option<u64>,
    pub checksum: Option<Checksum>,
    pub open_size: Option<u64>,
    pub open_checksum: Option<Checksum>,
    pub header_size: Option<u64>,
    pub header_checksum: Option<Checksum>,
    pub database_version: Option<u32>,
}

/// `d1` agrees with `d0` on every field but the one `f` names.
pub open spec fn repomd_same_except(d0: RepomdDraft, d1: RepomdDraft, f: RepomdField) -> bool {
    &&& d1.mdtype == d0.mdtype
    &&& d1.location_href == d0.location_href
    &&& f != RepomdField::Timestamp ==> d1.timestamp == d0.timestamp
    &&& f != RepomdField::Size ==> d1.size == d0.size
    &&& f != RepomdField::Checksum ==> d1.checksum == d0.checksum
    &&& f != RepomdField::OpenSize ==> d1.open_size == d0.open_size
    &&& f != RepomdField::OpenChecksum ==> d1.open_checksum == d0.open_checksum
    &&& f != RepomdField::HeaderSize ==> d1.header_size == d0.header_size
    &&& f != RepomdField::HeaderChecksum ==> d1.header_checksum == d0.header_checksum
    &&& f != RepomdField::DatabaseVersion ==> d1.database_version == d0.database_version
}

/// `d1` agrees with `d0` on every field but the location.
pub open spec fn same_but_location(d0: RepomdDraft, d1: RepomdDraft) -> bool {
    &&& d1.mdtype == d0.mdtype
    &&& d1.timestamp == d0.timestamp
    &&& d1.size == d0.size
    &&& d1.checksum == d0.checksum
    &&& d1.open_size == d0.open_size
    &&& d1.open_checksum == d0.open_checksum
    &&& d1.header_size == d0.header_size
    &&& d1.header_checksum == d0.header_checksum
    &&& d1.database_version == d0.database_version
}

/// The checksum-valued field `f` of `d`.
pub open spec fn checksum_field(d: RepomdDraft, f: RepomdField) -> Option<Checksum> {
    match f {
        RepomdField::Checksum => d.checksum,
        RepomdField::OpenChecksum => d.open_checksum,
        _ => d.header_checksum,
    }
}

/// The number-valued field `f` of `d`; the timestamp counts as present.
pub open spec fn number_field(d: RepomdDraft, f: RepomdField) -> Option<int> {
    match f {
        RepomdField::Timestamp => Some(d.timestamp as int),
        RepomdField::Size => match d.size {
            Some(v) => Some(v as int),
            None => None,
        },
        RepomdField::OpenSize => match d.open_size {
            Some(v) => Some(v as int),
            None => None,
        },
        RepomdField::HeaderSize => match d.header_size {
            Some(v) => Some(v as int),
            None => None,
        },
        _ => match d.database_version {
            Some(v) => Some(v as int),
            None => None,
        },
    }
}

/// A field that holds a checksum.
pub open spec fn is_checksum_field(f: RepomdField) -> bool {
    f == RepomdField::Checksum || f == RepomdField::OpenChecksum || f == RepomdField::HeaderChecksum
}

/// The record `r` holds what draft `d` read.
pub open spec fn record_from(r: RepoMdRecord, d: RepomdDraft) -> bool {
    &&& r.mdtype == d.mdtype
    &&& r.location_href == d.location_href
    &&& r.timestamp == d.timestamp
    &&& r.size == d.size
    &&& d.checksum == Some(r.checksum)
    &&& r.open_size == d.open_size
    &&& r.open_checksum == d.open_checksum
    &&& r.header_size == d.header_size
    &&& r.header_checksum == d.header_checksum
    &&& r.database_version == d.database_version
}

/// `data` and `location` fill no text field, and differ.
proof fn lemma_repomd_elements()
    ensures
        repomd_field_of("data"@) == RepomdField::Nothing,
        repomd_field_of("location"@) == RepomdField::Nothing,
        "data"@ != "location"@,
{
    reveal_strlit("data");
    reveal_strlit("location");
    reveal_strlit("checksum");
    reveal_strlit("open-checksum");
    reveal_strlit("header-checksum");
    reveal_strlit("timestamp");
    reveal_strlit("size");
    reveal_strlit("open-size");
    reveal_strlit("header-size");
    reveal_strlit("database_version");
    assert("data"@.len() == 4 && "location"@.len() == 8 && "checksum"@.len() == 8 && "size"@.len() == 4);
    assert("open-checksum"@.len() == 13 && "header-checksum"@.len() == 15 && "timestamp"@.len() == 9);
    assert("open-size"@.len() == 9 && "header-size"@.len() == 11 && "database_version"@.len() == 16);
    assert("data"@[0] != "size"@[0] && "location"@[0] != "checksum"@[0]);
}

fn repomd_field(element: &str) -> (r: RepomdField)
    ensures
        r == repomd_field_of(element@),
{
    if str_eq(element, "checksum") {
        RepomdField::Checksum
    } else if str_eq(element, "open-checksum") {
        RepomdField::OpenChecksum
    } else if str_eq(element, "header-checksum") {
        RepomdField::HeaderChecksum
    } else if str_eq(element, "timestamp") {
        RepomdField::Timestamp
    } else if str_eq(element, "size") {
        RepomdField::Size
    } else if str_eq(element, "open-size") {
        RepomdField::OpenSize
    } else if str_eq(element, "header-size") {
        RepomdField::HeaderSize
    } else if str_eq(element, "database_version") {
        RepomdField::DatabaseVersion
    } else {
        RepomdField::Nothing
    }
}

/// Reads the records of repomd.xml one event at a time.
pub struct RepomdLoader {
    /// The record being read, between its opening and closing `data` element.
    pub draft: Option<RepomdDraft>,
    /// The field that the element now open fills.
    pub field: RepomdField,
    /// The `type` attribute of the checksum element now open.
    pub checksum_type: Option<String>,
    /// The text read so far inside the element now open.
    pub text: String,
}

impl RepomdLoader {
    /// A loader outside of any record.
    pub fn new() -> (r: RepomdLoader)
        ensures
            r.draft is None,
            r.field == RepomdField::Nothing,
    {
        RepomdLoader { draft: None, field: RepomdField::Nothing, checksum_type: None, text: String::new() }
    }

    /// Takes in one event. A `data` element opens a record of the type its
    /// `type` attribute names; inside it, `location` gives the file's place
    /// and the checksum and number elements fill their own fields, so that
    /// `open-checksum` and `open-size` never stand for `checksum` and
    /// `size`. When a record closes it must hold a checksum, and it is
    /// stored in `repo` in place of any record of the same type.
    pub fn feed(&mut self, repo: &mut Repository, event: XmlEvent) -> (r: Result<(), MetadataError>)
        requires
            old(repo).wf(),
        ensures
            final(repo).wf(),
            final(repo).packages == old(repo).packages,
            final(repo).updates == old(repo).updates,
            !(event matches XmlEvent::End(n) && n@ == "data"@) ==> final(repo).records == old(repo).records,
            event matches XmlEvent::Start(n, attrs) ==> (n@ == "data"@ ==> {
                &&& attr_value(attrs@, "type"@) is None ==> (r matches Err(MetadataError::MissingAttributeError(a))
                    && a@ == "type"@) && final(self).draft is None
                &&& attr_value(attrs@, "type"@) is Some ==> r is Ok && final(self).draft is Some && {
                    let d = final(self).draft.unwrap();
                    &&& Some(d.mdtype@) == attr_value(attrs@, "type"@)
                    &&& d.location_href@.len() == 0
                    &&& d.timestamp == 0
                    &&& d.size is None && d.checksum is None
                    &&& d.open_size is None && d.open_checksum is None
                    &&& d.header_size is None && d.header_checksum is None
                    &&& d.database_version is None
                }
                &&& final(self).field == RepomdField::Nothing
            }),
            event matches XmlEvent::Start(n, attrs) ==> (n@ != "data"@ ==> r is Ok),
            event matches XmlEvent::Start(n, attrs) ==> (n@ != "data"@ && old(self).draft is None ==> *final(self)
                == *old(self)),
            event matches XmlEvent::Start(n, attrs) ==> (n@ != "data"@ && old(self).draft is Some ==> {
                &&& final(self).field == repomd_field_of(n@)
                &&& final(self).draft is Some
                &&& repomd_field_of(n@) != RepomdField::Nothing ==> final(self).draft == old(self).draft
                    && final(self).text@.len() == 0
                &&& is_checksum_field(repomd_field_of(n@)) ==> opt_view(final(self).checksum_type) == attr_value(
                    attrs@,
                    "type"@,
                )
                &&& n@ == "location"@ ==> same_but_location(old(self).draft.unwrap(), final(self).draft.unwrap())
                    && final(self).draft.unwrap().location_href@ == attr_or_empty(attrs@, "href"@)
                &&& n@ != "location"@ ==> final(self).draft == old(self).draft
            }),
            event matches XmlEvent::Text(x) ==> {
                &&& r is Ok
                &&& final(self).draft == old(self).draft
                &&& final(self).field == old(self).field
                &&& final(self).checksum_type == old(self).checksum_type
                &&& old(self).field != RepomdField::Nothing ==> final(self).text@ == old(self).text@ + x@
            },
            event matches XmlEvent::End(n) ==> (n@ == "data"@ ==> {
                &&& final(self).draft is None
                &&& old(self).draft is None ==> r is Ok && final(repo).records == old(repo).records
                &&& old(self).draft is Some && old(self).draft.unwrap().checksum is None ==> (r matches Err(
                    MetadataError::MissingFieldError(f),
                ) && f@ == "checksum"@) && final(repo).records == old(repo).records
                &&& old(self).draft is Some && old(self).draft.unwrap().checksum is Some ==> {
                    let d = old(self).draft.unwrap();
                    &&& r is Ok
                    &&& mdtypes(old(repo).records@).contains(d.mdtype@) ==> exists|i: int|
                        0 <= i < old(repo).records@.len() && old(repo).records@[i].mdtype@ == d.mdtype@
                            && final(repo).records@.len() == old(repo).records@.len() && final(repo).records@
                            == old(repo).records@.update(i, final(repo).records@[i]) && record_from(
                            final(repo).records@[i],
                            d,
                        )
                    &&& !mdtypes(old(repo).records@).contains(d.mdtype@) ==> final(repo).records@.len()
                        == old(repo).records@.len() + 1 && final(repo).records@.drop_last() == old(repo).records@
                        && record_from(final(repo).records@.last(), d)
                }
            }),
            event matches XmlEvent::End(n) ==> (n@ != "data"@ ==> {
                &&& old(self).draft is None ==> r is Ok && *final(self) == *old(self)
                &&& old(self).draft is Some ==> final(self).draft is Some && final(self).field == RepomdField::Nothing
                    && repomd_same_except(old(self).draft.unwrap(), final(self).draft.unwrap(), old(self).field)
            }),
            event is Eof ==> {
                &&& old(self).draft is Some ==> r == Err::<(), MetadataError>(MetadataError::TruncatedRecordError)
                &&& old(self).draft is None ==> r is Ok
            },
    {
        proof {
            lemma_repomd_elements();
        }
        match event {
            XmlEvent::Start(n, attrs) => {
                if str_eq(n.as_str(), "data") {
                    self.field = RepomdField::Nothing;
                    self.draft = None;
                    let mdtype = match find_attr(&attrs, "type") {
                        Some(t) => t,
                        None => return Err(MetadataError::MissingAttributeError("type")),
                    };
                    self.draft = Some(
                        RepomdDraft {
                            mdtype,
                            location_href: String::new(),
                            timestamp: 0,
                            size: None,
                            checksum: None,
                            open_size: None,
                            open_checksum: None,
                            header_size: None,
                            header_checksum: None,
                            database_version: None,
                        },
                    );
                    return Ok(());
                }
                let mut d = match self.draft.take() {
                    Some(d) => d,
                    None => return Ok(()),
                };
                let field = repomd_field(n.as_str());
                self.field = field;
                if field != RepomdField::Nothing {
                    self.text = String::new();
                    if field == RepomdField::Checksum || field == RepomdField::OpenChecksum || field
                        == RepomdField::HeaderChecksum {
                        self.checksum_type = find_attr(&attrs, "type");
                    }
                } else if str_eq(n.as_str(), "location") {
                    d.location_href = attr_or_default(&attrs, "href");
                }
                self.draft = Some(d);
                Ok(())
            },
            XmlEvent::Text(x) => {
                if self.field != RepomdField::Nothing {
                    self.text.append(x.as_str());
                }
                Ok(())
            },
            XmlEvent::End(n) => {
                if self.draft.is_none() {
                    return Ok(());
                }
                if str_eq(n.as_str(), "data") {
                    let d = self.draft.take().unwrap();
                    self.field = RepomdField::Nothing;
                    let checksum = match d.checksum {
                        Some(c) => c,
                        None => return Err(MetadataError::MissingFieldError("checksum")),
                    };
                    let record = RepoMdRecord {
                        mdtype: d.mdtype,
                        location_href: d.location_href,
                        timestamp: d.timestamp,
                        size: d.size,
                        checksum,
                        open_size: d.open_size,
                        open_checksum: d.open_checksum,
                        header_size: d.header_size,
                        header_checksum: d.header_checksum,
                        database_version: d.database_version,
                    };
                    let ghost rec = record;
                    repo.set_record(record);
                    proof {
                        let d0 = old(self).draft.unwrap();
                        assert(record_from(rec, d0));
                        if !mdtypes(old(repo).records@).contains(rec.mdtype@) {
                            assert(repo.records@.drop_last() =~= old(repo).records@);
                        } else {
                            let i = choose|i: int|
                                0 <= i < old(repo).records@.len() && old(repo).records@[i].mdtype@ == rec.mdtype@
                                    && repo.records@ == old(repo).records@.update(i, rec);
                            assert(repo.records@[i] == rec);
                        }
                    }
                    Ok(())
                } else {
                    self.commit()
                }
            },
            XmlEvent::Eof => {
                if self.draft.is_some() {
                    Err(MetadataError::TruncatedRecordError)
                } else {
                    Ok(())
                }
            },
        }
    }

    /// Stores the text of the element now closing in its field.
    fn commit(&mut self) -> (r: Result<(), MetadataError>)
        requires
            old(self).draft is Some,
        ensures
            final(self).draft is Some,
            final(self).field == RepomdField::Nothing,
            repomd_same_except(old(self).draft.unwrap(), final(self).draft.unwrap(), old(self).field),
            old(self).field == RepomdField::Nothing ==> r is Ok,
            is_checksum_field(old(self).field) ==> {
                &&& old(self).checksum_type is None ==> (r matches Err(MetadataError::MissingAttributeError(a))
                    && a@ == "type"@)
                &&& old(self).checksum_type is Some && checksum_type_of(old(self).checksum_type.unwrap()@)
                    == ChecksumType::Unknown ==> (r matches Err(MetadataError::UnsupportedChecksumTypeError(u))
                    && u@ == old(self).checksum_type.unwrap()@)
                &&& r is Err ==> final(self).draft == old(self).draft
                &&& old(self).checksum_type is Some && checksum_type_of(old(self).checksum_type.unwrap()@)
                    != ChecksumType::Unknown ==> r is Ok && (checksum_field(
                    final(self).draft.unwrap(),
                    old(self).field,
                ) matches Some(c) && c.spec_kind() == checksum_type_of(old(self).checksum_type.unwrap()@)
                    && c.spec_digest() == old(self).text@)
            },
            !is_checksum_field(old(self).field) && old(self).field != RepomdField::Nothing ==> {
                &&& number_of(old(self).text@) is None || (old(self).field == RepomdField::DatabaseVersion
                    && number_of(old(self).text@).unwrap() > u32::MAX) ==> (r matches Err(
                    MetadataError::IntFieldParseError(t),
                ) && t@ == old(self).text@ && final(self).draft == old(self).draft)
                &&& r is Ok ==> number_of(old(self).text@) is Some && number_field(
                    final(self).draft.unwrap(),
                    old(self).field,
                ) == Some(number_of(old(self).text@).unwrap() as int)
            },
    {
        let field = self.field;
        self.field = RepomdField::Nothing;
        let mut text = String::new();
        std::mem::swap(&mut text, &mut self.text);
        let mut d = self.draft.take().unwrap();
        let r = match field {
            RepomdField::Nothing => Ok(()),
            RepomdField::Checksum | RepomdField::OpenChecksum | RepomdField::HeaderChecksum => {
                match self.checksum_type.take() {
                    None => Err(MetadataError::MissingAttributeError("type")),
                    Some(t) => match Checksum::try_create(t.as_str(), text.as_str()) {
                        Ok(c) => {
                            match field {
                                RepomdField::Checksum => d.checksum = Some(c),
                                RepomdField::OpenChecksum => d.open_checksum = Some(c),
                                _ => d.header_checksum = Some(c),
                            }
                            Ok(())
                        },
                        Err(e) => Err(e),
                    },
                }
            },
            _ => match parse_u64(text.as_str()) {
                None => Err(MetadataError::IntFieldParseError(text)),
                Some(v) => {
                    match field {
                        RepomdField::Timestamp => {
                            d.timestamp = v;
                            Ok(())
                        },
                        RepomdField::Size => {
                            d.size = Some(v);
                            Ok(())
                        },
                        RepomdField::OpenSize => {
                            d.open_size = Some(v);
                            Ok(())
                        },
                        RepomdField::HeaderSize => {
                            d.header_size = Some(v);
                            Ok(())
                        },
                        _ => {
                            if v > u32::MAX as u64 {
                                Err(MetadataError::IntFieldParseError(text))
                            } else {
                                d.database_version = Some(v as u32);
                                Ok(())
                            }
                        },
                    }
                },
            },
        };
        self.draft = Some(d);
        r
    }
}

/// The events of a checksum element named `name`.
pub open spec fn checksum_model(name: Seq<char>, c: Checksum) -> Seq<EventModel> {
    text_element_model(name, seq![("type"@, checksum_token(c.spec_kind()))], c.spec_digest())
}

/// The events of an optional checksum element: none where it is absent.
pub open spec fn opt_checksum_model(name: Seq<char>, c: Option<Checksum>) -> Seq<EventModel> {
    match c {
        Some(c) => checksum_model(name, c),
        None => Seq::empty(),
    }
}

/// The events of a number element.
pub open spec fn number_model(name: Seq<char>, v: nat) -> Seq<EventModel> {
    text_element_model(name, Seq::empty(), decimal_of(v))
}

/// The events of an optional number element: none where it is absent.
pub open spec fn opt_number_model(name: Seq<char>, v: Option<nat>) -> Seq<EventModel> {
    match v {
        Some(v) => number_model(name, v),
        None => Seq::empty(),
    }
}

/// An optional `u64` as an optional natural number.
pub open spec fn opt_nat(v: Option<u64>) -> Option<nat> {
    match v {
        Some(v) => Some(v as nat),
        None => None,
    }
}

/// The checksums of a record that are written are of a known algorithm.
pub open spec fn record_writable(r: RepoMdRecord) -> bool {
    &&& r.checksum.spec_kind() != ChecksumType::Unknown
    &&& r.open_checksum matches Some(c) ==> c.spec_kind() != ChecksumType::Unknown
    &&& r.header_checksum matches Some(c) ==> c.spec_kind() != ChecksumType::Unknown
}

/// The checksum elements of a record: the stored checksum, then those of
/// the decompressed content and of the header where present.
pub open spec fn checksums_model(r: RepoMdRecord) -> Seq<EventModel> {
    checksum_model("checksum"@, r.checksum) + opt_checksum_model("open-checksum"@, r.open_checksum)
        + opt_checksum_model("header-checksum"@, r.header_checksum)
}

/// The number elements of a record: the timestamp, then the stored,
/// decompressed and header sizes and the database version where present.
pub open spec fn numbers_model(r: RepoMdRecord) -> Seq<EventModel> {
    number_model("timestamp"@, r.timestamp as nat) + opt_number_model("size"@, opt_nat(r.size)) + opt_number_model(
        "open-size"@,
        opt_nat(r.open_size),
    ) + opt_number_model("header-size"@, opt_nat(r.header_size)) + opt_number_model(
        "database_version"@,
        match r.database_version {
            Some(v) => Some(v as nat),
            None => None,
        },
    )
}

/// The events of one index record: its checksums, its location, then its
/// numbers.
pub open spec fn record_model(r: RepoMdRecord) -> Seq<EventModel> {
    seq![EventModel::Start("data"@, seq![("type"@, r.mdtype@)])] + checksums_model(r) + seq![
        EventModel::Start("location"@, seq![("href"@, r.location_href@)]),
        EventModel::End("location"@),
    ] + numbers_model(r) + seq![EventModel::End("data"@)]
}

fn one_attr(key: &str, value: &str) -> (r: Vec<(String, String)>)
    ensures
        crate::xml::attrs_model(r@) == seq![(key@, value@)],
{
    let mut r: Vec<(String, String)> = Vec::new();
    r.push((key.to_owned(), value.to_owned()));
    assert(crate::xml::attrs_model(r@) =~= seq![(key@, value@)]);
    r
}

fn push_checksum(out: &mut Vec<XmlEvent>, name: &str, c: &Checksum)
    requires
        c.spec_kind() != ChecksumType::Unknown,
    ensures
        events_model(final(out)@) == events_model(old(out)@) + checksum_model(name@, *c),
{
    match c.to_values() {
        Ok((t, d)) => push_text_element(out, name, one_attr("type", t), d.to_owned()),
        Err(_) => {},
    }
}

fn push_number(out: &mut Vec<XmlEvent>, name: &str, v: u64)
    ensures
        events_model(final(out)@) == events_model(old(out)@) + number_model(name@, v as nat),
{
    let attrs: Vec<(String, String)> = Vec::new();
    assert(crate::xml::attrs_model(attrs@) =~= Seq::empty());
    push_text_element(out, name, attrs, decimal_text(v));
}

fn write_checksums(out: &mut Vec<XmlEvent>, r: &RepoMdRecord)
    requires
        record_writable(*r),
    ensures
        events_model(final(out)@) == events_model(old(out)@) + checksums_model(*r),
{
    let ghost m0 = events_model(out@);
    push_checksum(out, "checksum", &r.checksum);
    let ghost m1 = events_model(out@);
    match &r.open_checksum {
        Some(c) => push_checksum(out, "open-checksum", c),
        None => {},
    }
    assert(events_model(out@) =~= m1 + opt_checksum_model("open-checksum"@, r.open_checksum));
    let ghost m2 = events_model(out@);
    match &r.header_checksum {
        Some(c) => push_checksum(out, "header-checksum", c),
        None => {},
    }
    assert(events_model(out@) =~= m2 + opt_checksum_model("header-checksum"@, r.header_checksum));
    assert(events_model(out@) =~= m0 + checksums_model(*r));
}

fn push_opt_number(out: &mut Vec<XmlEvent>, name: &str, v: Option<u64>)
    ensures
        events_model(final(out)@) == events_model(old(out)@) + opt_number_model(name@, opt_nat(v)),
{
    match v {
        Some(v) => push_number(out, name, v),
        None => assert(events_model(out@) =~= events_model(out@) + Seq::<EventModel>::empty()),
    }
}

fn write_numbers(out: &mut Vec<XmlEvent>, r: &RepoMdRecord)
    ensures
        events_model(final(out)@) == events_model(old(out)@) + numbers_model(*r),
{
    let ghost m0 = events_model(out@);
    push_number(out, "timestamp", r.timestamp);
    push_opt_number(out, "size", r.size);
    push_opt_number(out, "open-size", r.open_size);
    push_opt_number(out, "header-size", r.header_size);
    let dv: Option<u64> = match r.database_version {
        Some(v) => Some(v as u64),
        None => None,
    };
    push_opt_number(out, "database_version", dv);
    assert(events_model(out@) =~= m0 + numbers_model(*r));
}

/// Appends the events of one index record.
pub fn write_record(out: &mut Vec<XmlEvent>, r: &RepoMdRecord)
    requires
        record_writable(*r),
    ensures
        events_model(final(out)@) == events_model(old(out)@) + record_model(*r),
{
    let ghost p0 = seq![EventModel::Start("data"@, seq![("type"@, r.mdtype@)])];
    let ghost p2 = seq![
        EventModel::Start("location"@, seq![("href"@, r.location_href@)]),
        EventModel::End("location"@),
    ];
    let ghost p4 = seq![EventModel::End("data"@)];
    let ghost m0 = events_model(out@);
    out.push(XmlEvent::Start("data".to_owned(), one_attr("type", r.mdtype.as_str())));
    assert(events_model(out@) =~= m0 + p0);
    write_checksums(out, r);
    let ghost m1 = events_model(out@);
    assert(m1 == m0 + p0 + checksums_model(*r));
    push_empty_element(out, "location", one_attr("href", r.location_href.as_str()));
    let ghost m2 = events_model(out@);
    assert(m2 == m1 + p2);
    write_numbers(out, r);
    let ghost m3 = events_model(out@);
    assert(m3 == m2 + numbers_model(*r));
    out.push(XmlEvent::End("data".to_owned()));
    assert(events_model(out@) =~= m3 + p4);
    assert(m0 + record_model(*r) =~= m0 + p0 + checksums_model(*r) + p2 + numbers_model(*r) + p4);
}

/// The events of a list of index records, in order.
pub open spec fn records_model(rs: Seq<RepoMdRecord>) -> Seq<EventModel>
    decreases rs.len(),
{
    if rs.len() == 0 {
        Seq::empty()
    } else {
        records_model(rs.drop_last()) + record_model(rs.last())
    }
}

/// The events of a repository index: the `repomd` element with its default
/// and `rpm` namespaces, holding every record in order.
pub open spec fn repomd_model(rs: Seq<RepoMdRecord>) -> Seq<EventModel> {
    seq![EventModel::Start("repomd"@, seq![("xmlns"@, XML_NS_REPO@), ("xmlns:rpm"@, XML_NS_RPM@)])] + records_model(rs)
        + seq![EventModel::End("repomd"@)]
}

/// The events of the repository index of `repo`, records in stored order.
/// An `Unknown` checksum is never written, so none may be held.
pub fn write_repomd(repo: &Repository) -> (r: Vec<XmlEvent>)
    requires
        forall|i: int| 0 <= i < repo.records@.len() ==> record_writable(#[trigger] repo.records@[i]),
    ensures
        events_model(r@) == repomd_model(repo.records@),
{
    let mut out: Vec<XmlEvent> = Vec::new();
    let mut attrs: Vec<(String, String)> = Vec::new();
    attrs.push(("xmlns".to_owned(), XML_NS_REPO.to_owned()));
    attrs.push(("xmlns:rpm".to_owned(), XML_NS_RPM.to_owned()));
    let ghost head = seq![EventModel::Start("repomd"@, seq![("xmlns"@, XML_NS_REPO@), ("xmlns:rpm"@, XML_NS_RPM@)])];
    assert(crate::xml::attrs_model(attrs@) =~= seq![("xmlns"@, XML_NS_REPO@), ("xmlns:rpm"@, XML_NS_RPM@)]);
    out.push(XmlEvent::Start("repomd".to_owned(), attrs));
    assert(events_model(out@) =~= head);
    assert(repo.records@.take(0) =~= Seq::<RepoMdRecord>::empty());
    assert(head + records_model(repo.records@.take(0)) =~= head);
    let mut i: usize = 0;
    while i < repo.records.len()
        invariant
            i <= repo.records@.len(),
            forall|j: int| 0 <= j < repo.records@.len() ==> record_writable(#[trigger] repo.records@[j]),
            events_model(out@) == head + records_model(repo.records@.take(i as int)),
        decreases repo.records@.len() - i,
    {
        write_record(&mut out, &repo.records[i]);
        assert(repo.records@.take(i + 1).drop_last() =~= repo.records@.take(i as int));
        assert(head + records_model(repo.records@.take(i + 1)) =~= head + records_model(repo.records@.take(i as int))
            + record_model(repo.records@[i as int]));
        i = i + 1;
    }
    let ghost before = events_model(out@);
    out.push(XmlEvent::End("repomd".to_owned()));
    assert(repo.records@.take(i as int) =~= repo.records@);
    assert(events_model(out@) =~= before + seq![EventModel::End("repomd"@)]);
    out
}

} // verus!
