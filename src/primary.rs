//! Assembly of one package record of primary.xml from its child elements,
//! with the checks that run when the record closes.
use vstd::prelude::*;
use crate::checksum::{checksum_type_of, Checksum, ChecksumType};
use crate::error::MetadataError;
use crate::evr::EVR;
use crate::package::{HeaderRange, Package, Requirement, Size, Time};
use crate::repository::Repository;
use crate::text::str_eq;
use crate::xml::{
    attr_or_default, attr_or_empty, attr_value, find_attr, number_attr, number_attr_or_zero, opt_view, XmlEvent,
};

verus! {

/// A package record whose child elements are still being read. The
/// load-bearing fields stay `None` until their element is seen; every other
/// field defaults to empty.
pub struct PrimaryDraft {
    pub name: Option<String>,
    pub arch: Option<String>,
    pub evr: EVR,
    pub checksum: Option<Checksum>,
    pub location_href: String,
    pub summary: String,
    pub description: String,
    pub packager: String,
    pub url: String,
    pub time: Time,
    pub size: Size,
    pub rpm_license: String,
    pub rpm_vendor: String,
    pub rpm_group: String,
    pub rpm_buildhost: String,
    pub rpm_sourcerpm: String,
    pub rpm_header_range: HeaderRange,
    pub rpm_requires: Vec<Requirement>,
    pub rpm_provides: Vec<Requirement>,
    pub rpm_conflicts: Vec<Requirement>,
    pub rpm_obsoletes: Vec<Requirement>,
    pub rpm_suggests: Vec<Requirement>,
    pub rpm_enhances: Vec<Requirement>,
    pub rpm_recommends: Vec<Requirement>,
    pub rpm_supplements: Vec<Requirement>,
}

/// The relation a dependency list of a package record stands for.
#[derive(Debug, Clone, Copy, PartialEq, Eq, Structural)]
pub enum DepKind {
    Requires,
    Provides,
    Conflicts,
    Obsoletes,
    Suggests,
    Enhances,
    Recommends,
    Supplements,
}

/// The relation a list element of a package record stands for, if any.
pub open spec fn dep_kind_of(element: Seq<char>) -> Option<DepKind> {
    if element == "rpm:requires"@ {
        Some(DepKind::Requires)
    } else if element == "rpm:provides"@ {
        Some(DepKind::Provides)
    } else if element == "rpm:conflicts"@ {
        Some(DepKind::Conflicts)
    } else if element == "rpm:obsoletes"@ {
        Some(DepKind::Obsoletes)
    } else if element == "rpm:suggests"@ {
        Some(DepKind::Suggests)
    } else if element == "rpm:enhances"@ {
        Some(DepKind::Enhances)
    } else if element == "rpm:recommends"@ {
        Some(DepKind::Recommends)
    } else if element == "rpm:supplements"@ {
        Some(DepKind::Supplements)
    } else {
        None
    }
}

fn dep_kind(element: &str) -> (r: Option<DepKind>)
    ensures
        r == dep_kind_of(element@),
{
    if str_eq(element, "rpm:requires") {
        Some(DepKind::Requires)
    } else if str_eq(element, "rpm:provides") {
        Some(DepKind::Provides)
    } else if str_eq(element, "rpm:conflicts") {
        Some(DepKind::Conflicts)
    } else if str_eq(element, "rpm:obsoletes") {
        Some(DepKind::Obsoletes)
    } else if str_eq(element, "rpm:suggests") {
        Some(DepKind::Suggests)
    } else if str_eq(element, "rpm:enhances") {
        Some(DepKind::Enhances)
    } else if str_eq(element, "rpm:recommends") {
        Some(DepKind::Recommends)
    } else if str_eq(element, "rpm:supplements") {
        Some(DepKind::Supplements)
    } else {
        None
    }
}

/// The dependency list of `d` for relation `k`.
pub open spec fn deps_of(d: PrimaryDraft, k: DepKind) -> Seq<Requirement> {
    match k {
        DepKind::Requires => d.rpm_requires@,
        DepKind::Provides => d.rpm_provides@,
        DepKind::Conflicts => d.rpm_conflicts@,
        DepKind::Obsoletes => d.rpm_obsoletes@,
        DepKind::Suggests => d.rpm_suggests@,
        DepKind::Enhances => d.rpm_enhances@,
        DepKind::Recommends => d.rpm_recommends@,
        DepKind::Supplements => d.rpm_supplements@,
    }
}

/// `d1` agrees with `d0` on every dependency list but that of `k`, if any.
pub open spec fn deps_same_except(d0: PrimaryDraft, d1: PrimaryDraft, k: Option<DepKind>) -> bool {
    forall|k2: DepKind| Some(k2) != k ==> #[trigger] deps_of(d1, k2) == deps_of(d0, k2)
}

/// The requirement an `rpm:entry` element with attributes `attrs` stands
/// for: its `name`, the optional `flags`, `epoch`, `ver` and `rel`, and
/// `pre`, which marks a pre-install dependency when it is `1`.
pub open spec fn entry_matches(req: Requirement, attrs: Seq<(String, String)>) -> bool {
    &&& Some(req.name@) == attr_value(attrs, "name"@)
    &&& opt_view(req.flags) == attr_value(attrs, "flags"@)
    &&& opt_view(req.epoch) == attr_value(attrs, "epoch"@)
    &&& opt_view(req.version) == attr_value(attrs, "ver"@)
    &&& opt_view(req.release) == attr_value(attrs, "rel"@)
    &&& req.preinstall == match attr_value(attrs, "pre"@) {
        Some(v) => Some(v == "1"@),
        None => None,
    }
}

fn entry_requirement(attrs: &Vec<(String, String)>) -> (r: Result<Requirement, MetadataError>)
    ensures
        attr_value(attrs@, "name"@) is None ==> (r matches Err(MetadataError::MissingAttributeError(a)) && a@
            == "name"@),
        attr_value(attrs@, "name"@) is Some ==> (r matches Ok(req) && entry_matches(req, attrs@)),
{
    let name = match find_attr(attrs, "name") {
        Some(n) => n,
        None => return Err(MetadataError::MissingAttributeError("name")),
    };
    let preinstall = match find_attr(attrs, "pre") {
        Some(v) => Some(str_eq(v.as_str(), "1")),
        None => None,
    };
    Ok(
        Requirement {
            name,
            flags: find_attr(attrs, "flags"),
            epoch: find_attr(attrs, "epoch"),
            version: find_attr(attrs, "ver"),
            release: find_attr(attrs, "rel"),
            preinstall,
        },
    )
}

impl PrimaryDraft {
    /// A draft in which no element has been seen yet.
    pub fn new() -> (r: PrimaryDraft)
        ensures
            is_fresh(r),
    {
        PrimaryDraft {
            name: None,
            arch: None,
            evr: EVR { epoch: String::new(), version: String::new(), release: String::new() },
            checksum: None,
            location_href: String::new(),
            summary: String::new(),
            description: String::new(),
            packager: String::new(),
            url: String::new(),
            time: Time { file: 0, build: 0 },
            size: Size { package: 0, installed: 0, archive: 0 },
            rpm_license: String::new(),
            rpm_vendor: String::new(),
            rpm_group: String::new(),
            rpm_buildhost: String::new(),
            rpm_sourcerpm: String::new(),
            rpm_header_range: HeaderRange { start: 0, end: 0 },
            rpm_requires: Vec::new(),
            rpm_provides: Vec::new(),
            rpm_conflicts: Vec::new(),
            rpm_obsoletes: Vec::new(),
            rpm_suggests: Vec::new(),
            rpm_enhances: Vec::new(),
            rpm_recommends: Vec::new(),
            rpm_supplements: Vec::new(),
        }
    }

    /// Reads a checksum element from its `type` attribute, if present, and
    /// its text. A missing attribute and an unknown algorithm are errors and
    /// leave the draft as it was.
    pub fn set_checksum(&mut self, type_attr: Option<&str>, digest: &str) -> (r: Result<(), MetadataError>)
        ensures
            type_attr is None ==> (r matches Err(MetadataError::MissingAttributeError(a)) && a@ == "type"@),
            type_attr is Some && checksum_type_of(type_attr.unwrap()@) == ChecksumType::Unknown ==> (r matches Err(
                MetadataError::UnsupportedChecksumTypeError(u),
            ) && u@ == type_attr.unwrap()@),
            r is Err ==> *final(self) == *old(self),
            type_attr is Some && checksum_type_of(type_attr.unwrap()@) != ChecksumType::Unknown ==> {
                &&& r is Ok
                &&& final(self).checksum matches Some(c) && c.spec_kind() == checksum_type_of(type_attr.unwrap()@)
                    && c.spec_digest() == digest@
                &&& same_except(*old(self), *final(self), DraftField::Checksum)
            },
    {
        match type_attr {
            None => Err(MetadataError::MissingAttributeError("type")),
            Some(t) => match Checksum::try_create(t, digest) {
                Ok(c) => {
                    self.checksum = Some(c);
                    Ok(())
                },
                Err(e) => Err(e),
            },
        }
    }

    /// Closes the record: `name`, `arch` and `checksum` must have been seen,
    /// and the first of them that is missing is reported. Otherwise the
    /// package holds what the draft read and every other field is empty.
    pub fn finish(self) -> (r: Result<Package, MetadataError>)
        ensures
            self.name is None ==> (r matches Err(MetadataError::MissingFieldError(f)) && f@ == "name"@),
            self.name is Some && self.arch is None ==> (r matches Err(MetadataError::MissingFieldError(f))
                && f@ == "arch"@),
            self.name is Some && self.arch is Some && self.checksum is None ==> (r matches Err(
                MetadataError::MissingFieldError(f),
            ) && f@ == "checksum"@),
            self.name is Some && self.arch is Some && self.checksum is Some ==> (r matches Ok(p) && built_from(
                p,
                self,
            )),
    {
        let name = match self.name {
            Some(n) => n,
            None => return Err(MetadataError::MissingFieldError("name")),
        };
        let arch = match self.arch {
            Some(a) => a,
            None => return Err(MetadataError::MissingFieldError("arch")),
        };
        let checksum = match self.checksum {
            Some(c) => c,
            None => return Err(MetadataError::MissingFieldError("checksum")),
        };
        Ok(
            Package {
                name,
                arch,
                evr: self.evr,
                checksum,
                location_href: self.location_href,
                summary: self.summary,
                description: self.description,
                packager: self.packager,
                url: self.url,
                time: self.time,
                size: self.size,
                rpm_license: self.rpm_license,
                rpm_vendor: self.rpm_vendor,
                rpm_group: self.rpm_group,
                rpm_buildhost: self.rpm_buildhost,
                rpm_sourcerpm: self.rpm_sourcerpm,
                rpm_header_range: self.rpm_header_range,
                rpm_requires: self.rpm_requires,
                rpm_provides: self.rpm_provides,
                rpm_conflicts: self.rpm_conflicts,
                rpm_obsoletes: self.rpm_obsoletes,
                rpm_suggests: self.rpm_suggests,
                rpm_enhances: self.rpm_enhances,
                rpm_recommends: self.rpm_recommends,
                rpm_supplements: self.rpm_supplements,
                rpm_changelogs: Vec::new(),
                rpm_files: Vec::new(),
            },
        )
    }
}

/// The text-valued child element of a package record being read.
#[derive(Debug, Clone, Copy, PartialEq, Eq, Structural)]
pub enum DraftField {
    Nothing,
    Name,
    Arch,
    Checksum,
    Summary,
    Description,
    Packager,
    Url,
    License,
    Vendor,
    Group,
    Buildhost,
    Sourcerpm,
}

/// The text-valued field an element of a package record fills, if any.
pub open spec fn field_of(element: Seq<char>) -> DraftField {
    if element == "name"@ {
        DraftField::Name
    } else if element == "arch"@ {
        DraftField::Arch
    } else if element == "checksum"@ {
        DraftField::Checksum
    } else if element == "summary"@ {
        DraftField::Summary
    } else if element == "description"@ {
        DraftField::Description
    } else if element == "packager"@ {
        DraftField::Packager
    } else if element == "url"@ {
        DraftField::Url
    } else if element == "rpm:license"@ {
        DraftField::License
    } else if element == "rpm:vendor"@ {
        DraftField::Vendor
    } else if element == "rpm:group"@ {
        DraftField::Group
    } else if element == "rpm:buildhost"@ {
        DraftField::Buildhost
    } else if element == "rpm:sourcerpm"@ {
        DraftField::Sourcerpm
    } else {
        DraftField::Nothing
    }
}

/// The elements that carry their data in attributes fill no text field,
/// and are distinct.
proof fn lemma_attribute_elements()
    ensures
        field_of("version"@) == DraftField::Nothing,
        field_of("location"@) == DraftField::Nothing,
        field_of("package"@) == DraftField::Nothing,
        field_of("time"@) == DraftField::Nothing,
        field_of("size"@) == DraftField::Nothing,
        field_of("rpm:header-range"@) == DraftField::Nothing,
        field_of("rpm:entry"@) == DraftField::Nothing,
        dep_kind_of("rpm:entry"@) is None,
        "rpm:entry"@ != "package"@ && "rpm:entry"@ != "version"@ && "rpm:entry"@ != "location"@,
        "rpm:entry"@ != "time"@ && "rpm:entry"@ != "size"@ && "rpm:entry"@ != "rpm:header-range"@,
        "package"@ != "version"@,
        "package"@ != "location"@,
        "location"@ != "version"@,
        "time"@ != "size"@,
        "time"@ != "package"@ && "time"@ != "version"@ && "time"@ != "location"@,
        "size"@ != "package"@ && "size"@ != "version"@ && "size"@ != "location"@,
        "rpm:header-range"@ != "package"@ && "rpm:header-range"@ != "version"@,
        "rpm:header-range"@ != "location"@ && "rpm:header-range"@ != "time"@ && "rpm:header-range"@ != "size"@,
{
    reveal_strlit("package");
    reveal_strlit("version");
    reveal_strlit("location");
    reveal_strlit("time");
    reveal_strlit("size");
    reveal_strlit("rpm:header-range");
    reveal_strlit("name");
    reveal_strlit("arch");
    reveal_strlit("checksum");
    reveal_strlit("summary");
    reveal_strlit("description");
    reveal_strlit("packager");
    reveal_strlit("url");
    reveal_strlit("rpm:license");
    reveal_strlit("rpm:vendor");
    reveal_strlit("rpm:group");
    reveal_strlit("rpm:buildhost");
    reveal_strlit("rpm:sourcerpm");
    assert("name"@.len() == 4 && "arch"@.len() == 4 && "time"@.len() == 4 && "size"@.len() == 4);
    assert("name"@[0] != "time"@[0] && "arch"@[0] != "time"@[0] && "name"@[0] != "size"@[0]);
    assert("arch"@[0] != "size"@[0] && "time"@[0] != "size"@[0]);
    assert("summary"@.len() == 7 && "version"@.len() == 7 && "package"@.len() == 7);
    assert("summary"@[0] != "version"@[0] && "summary"@[0] != "package"@[0] && "version"@[0] != "package"@[0]);
    assert("checksum"@.len() == 8 && "packager"@.len() == 8 && "location"@.len() == 8);
    assert("checksum"@[0] != "location"@[0] && "packager"@[0] != "location"@[0]);
    assert("url"@.len() == 3 && "description"@.len() == 11 && "rpm:license"@.len() == 11);
    assert("rpm:vendor"@.len() == 10 && "rpm:group"@.len() == 9);
    assert("rpm:buildhost"@.len() == 13 && "rpm:sourcerpm"@.len() == 13);
    assert("rpm:header-range"@.len() == 16);
    reveal_strlit("rpm:entry");
    reveal_strlit("rpm:requires");
    reveal_strlit("rpm:provides");
    reveal_strlit("rpm:conflicts");
    reveal_strlit("rpm:obsoletes");
    reveal_strlit("rpm:suggests");
    reveal_strlit("rpm:enhances");
    reveal_strlit("rpm:recommends");
    reveal_strlit("rpm:supplements");
    assert("rpm:entry"@.len() == 9 && "rpm:entry"@[4] != "rpm:group"@[4]);
    assert("rpm:requires"@.len() == 12 && "rpm:provides"@.len() == 12 && "rpm:conflicts"@.len() == 13);
    assert("rpm:obsoletes"@.len() == 13 && "rpm:suggests"@.len() == 12 && "rpm:enhances"@.len() == 12);
    assert("rpm:recommends"@.len() == 14 && "rpm:supplements"@.len() == 15);
}

/// A draft in which no element has been seen yet.
pub open spec fn is_fresh(d: PrimaryDraft) -> bool {
    &&& d.name is None
    &&& d.arch is None
    &&& d.checksum is None
    &&& d.evr@ == (Seq::<char>::empty(), Seq::<char>::empty(), Seq::<char>::empty())
    &&& d.location_href@.len() == 0
    &&& d.summary@.len() == 0
    &&& d.description@.len() == 0
    &&& d.packager@.len() == 0
    &&& d.url@.len() == 0
    &&& d.time == Time { file: 0, build: 0 }
    &&& d.size == Size { package: 0, installed: 0, archive: 0 }
    &&& d.rpm_license@.len() == 0
    &&& d.rpm_vendor@.len() == 0
    &&& d.rpm_group@.len() == 0
    &&& d.rpm_buildhost@.len() == 0
    &&& d.rpm_sourcerpm@.len() == 0
    &&& d.rpm_header_range == HeaderRange { start: 0, end: 0 }
    &&& forall|k: DepKind| #[trigger] deps_of(d, k).len() == 0
}

/// `d1` agrees with `d0` on every field but the text field `f`.
pub open spec fn same_except(d0: PrimaryDraft, d1: PrimaryDraft, f: DraftField) -> bool {
    &&& f != DraftField::Name ==> d1.name == d0.name
    &&& f != DraftField::Arch ==> d1.arch == d0.arch
    &&& f != DraftField::Checksum ==> d1.checksum == d0.checksum
    &&& f != DraftField::Summary ==> d1.summary == d0.summary
    &&& f != DraftField::Description ==> d1.description == d0.description
    &&& f != DraftField::Packager ==> d1.packager == d0.packager
    &&& f != DraftField::Url ==> d1.url == d0.url
    &&& f != DraftField::License ==> d1.rpm_license == d0.rpm_license
    &&& f != DraftField::Vendor ==> d1.rpm_vendor == d0.rpm_vendor
    &&& f != DraftField::Group ==> d1.rpm_group == d0.rpm_group
    &&& f != DraftField::Buildhost ==> d1.rpm_buildhost == d0.rpm_buildhost
    &&& f != DraftField::Sourcerpm ==> d1.rpm_sourcerpm == d0.rpm_sourcerpm
    &&& d1.evr == d0.evr
    &&& d1.location_href == d0.location_href
    &&& numbers_same(d0, d1)
    &&& deps_same_except(d0, d1, None)
}

/// `d1` agrees with `d0` on times, sizes and the header range.
pub open spec fn numbers_same(d0: PrimaryDraft, d1: PrimaryDraft) -> bool {
    &&& d1.time == d0.time
    &&& d1.size == d0.size
    &&& d1.rpm_header_range == d0.rpm_header_range
}

/// `d1` is `d0` with the text `text` stored in field `f`.
pub open spec fn committed(d0: PrimaryDraft, f: DraftField, text: Seq<char>, d1: PrimaryDraft) -> bool {
    &&& same_except(d0, d1, f)
    &&& f == DraftField::Name ==> opt_view(d1.name) == Some(text)
    &&& f == DraftField::Arch ==> opt_view(d1.arch) == Some(text)
    &&& f == DraftField::Summary ==> d1.summary@ == text
    &&& f == DraftField::Description ==> d1.description@ == text
    &&& f == DraftField::Packager ==> d1.packager@ == text
    &&& f == DraftField::Url ==> d1.url@ == text
    &&& f == DraftField::License ==> d1.rpm_license@ == text
    &&& f == DraftField::Vendor ==> d1.rpm_vendor@ == text
    &&& f == DraftField::Group ==> d1.rpm_group@ == text
    &&& f == DraftField::Buildhost ==> d1.rpm_buildhost@ == text
    &&& f == DraftField::Sourcerpm ==> d1.rpm_sourcerpm@ == text
}

/// `d1` agrees with `d0` on every text field.
pub open spec fn text_same(d0: PrimaryDraft, d1: PrimaryDraft) -> bool {
    &&& d1.name == d0.name
    &&& d1.arch == d0.arch
    &&& d1.checksum == d0.checksum
    &&& d1.summary == d0.summary
    &&& d1.description == d0.description
    &&& d1.packager == d0.packager
    &&& d1.url == d0.url
    &&& d1.rpm_license == d0.rpm_license
    &&& d1.rpm_vendor == d0.rpm_vendor
    &&& d1.rpm_group == d0.rpm_group
    &&& d1.rpm_buildhost == d0.rpm_buildhost
    &&& d1.rpm_sourcerpm == d0.rpm_sourcerpm
}

/// The elements whose attributes are numbers.
pub open spec fn is_number_element(n: Seq<char>) -> bool {
    n == "time"@ || n == "size"@ || n == "rpm:header-range"@
}

/// `d1` agrees with `d0` on every text field, the version and the location.
pub open spec fn position_same(d0: PrimaryDraft, d1: PrimaryDraft) -> bool {
    &&& text_same(d0, d1)
    &&& d1.evr == d0.evr
    &&& d1.location_href == d0.location_href
    &&& deps_same_except(d0, d1, None)
}

/// `d1` agrees with `d0` on every field but the dependency lists.
pub open spec fn position_same_but_deps(d0: PrimaryDraft, d1: PrimaryDraft) -> bool {
    &&& text_same(d0, d1)
    &&& numbers_same(d0, d1)
    &&& d1.evr == d0.evr
    &&& d1.location_href == d0.location_href
}

/// The package `p` holds what draft `d` read, and every other field is empty.
pub open spec fn built_from(p: Package, d: PrimaryDraft) -> bool {
    &&& d.name == Some(p.name)
    &&& d.arch == Some(p.arch)
    &&& d.checksum == Some(p.checksum)
    &&& p.evr == d.evr
    &&& p.location_href == d.location_href
    &&& p.summary == d.summary
    &&& p.description == d.description
    &&& p.packager == d.packager
    &&& p.url == d.url
    &&& p.time == d.time
    &&& p.size == d.size
    &&& p.rpm_license == d.rpm_license
    &&& p.rpm_vendor == d.rpm_vendor
    &&& p.rpm_group == d.rpm_group
    &&& p.rpm_buildhost == d.rpm_buildhost
    &&& p.rpm_sourcerpm == d.rpm_sourcerpm
    &&& p.rpm_header_range == d.rpm_header_range
    &&& p.rpm_requires == d.rpm_requires
    &&& p.rpm_provides == d.rpm_provides
    &&& p.rpm_conflicts == d.rpm_conflicts
    &&& p.rpm_obsoletes == d.rpm_obsoletes
    &&& p.rpm_suggests == d.rpm_suggests
    &&& p.rpm_enhances == d.rpm_enhances
    &&& p.rpm_recommends == d.rpm_recommends
    &&& p.rpm_supplements == d.rpm_supplements
    &&& p.rpm_changelogs@.len() == 0
    &&& p.rpm_files@.len() == 0
}

fn element_field(element: &str) -> (r: DraftField)
    ensures
        r == field_of(element@),
{
    if str_eq(element, "name") {
        DraftField::Name
    } else if str_eq(element, "arch") {
        DraftField::Arch
    } else if str_eq(element, "checksum") {
        DraftField::Checksum
    } else if str_eq(element, "summary") {
        DraftField::Summary
    } else if str_eq(element, "description") {
        DraftField::Description
    } else if str_eq(element, "packager") {
        DraftField::Packager
    } else if str_eq(element, "url") {
        DraftField::Url
    } else if str_eq(element, "rpm:license") {
        DraftField::License
    } else if str_eq(element, "rpm:vendor") {
        DraftField::Vendor
    } else if str_eq(element, "rpm:group") {
        DraftField::Group
    } else if str_eq(element, "rpm:buildhost") {
        DraftField::Buildhost
    } else if str_eq(element, "rpm:sourcerpm") {
        DraftField::Sourcerpm
    } else {
        DraftField::Nothing
    }
}

/// Reads the package records of primary.xml one event at a time, so that
/// at most one record is held while a document of any size streams past.
pub struct PrimaryLoader {
    /// The record being read, between its opening and closing element.
    pub draft: Option<PrimaryDraft>,
    /// The text field that the element now open fills.
    pub field: DraftField,
    /// The `type` attribute of the checksum element now open.
    pub checksum_type: Option<String>,
    /// The text read so far inside the element now open.
    pub text: String,
    /// The relation of the dependency list now open, if one is.
    pub dep_kind: Option<DepKind>,
}

impl PrimaryLoader {
    /// A loader outside of any record.
    pub fn new() -> (r: PrimaryLoader)
        ensures
            r.draft is None,
            r.field == DraftField::Nothing,
    {
        PrimaryLoader {
            draft: None,
            field: DraftField::Nothing,
            checksum_type: None,
            text: String::new(),
            dep_kind: None,
        }
    }

    /// Takes in one event. Opening and closing `package` elements delimit a
    /// record; inside one, the text of `name`, `arch`, `checksum`, `summary`,
    /// `description`, `packager`, `url` and of the `rpm:` license, vendor,
    /// group, buildhost and sourcerpm elements, and the attributes of
    /// `version`, `location`, `time`, `size` and `rpm:header-range` fill the
    /// draft; every other element is skipped. A numeric attribute that is
    /// absent counts as 0, and one that is not a number is an error.
    /// When a record closes it is checked and appended to `repo`; a document
    /// that ends inside a record is truncated.
    pub fn feed(&mut self, repo: &mut Repository, event: XmlEvent) -> (r: Result<(), MetadataError>)
        ensures
            final(repo).records == old(repo).records,
            final(repo).updates == old(repo).updates,
            !(event matches XmlEvent::End(n) && n@ == "package"@ && old(self).draft is Some) ==> final(repo).packages
                == old(repo).packages,
            event matches XmlEvent::Start(n, attrs) ==> (!is_number_element(n@) && n@ != "rpm:entry"@ || old(
                self,
            ).draft is None ==> r is Ok),
            event is Start && r is Err ==> *final(self) == *old(self),
            event matches XmlEvent::Start(n, attrs) ==> (n@ == "package"@ ==> final(self).draft is Some && is_fresh(
                final(self).draft.unwrap(),
            ) && final(self).field == DraftField::Nothing),
            event matches XmlEvent::Start(n, attrs) ==> (n@ != "package"@ && old(self).draft is None ==> *final(self)
                == *old(self)),
            event matches XmlEvent::Start(n, attrs) ==> (n@ != "package"@ && old(self).draft is Some && r is Ok ==> {
                &&& final(self).draft is Some
                &&& field_of(n@) == DraftField::Nothing ==> final(self).field == DraftField::Nothing
                &&& field_of(n@) != DraftField::Nothing ==> final(self).draft == old(self).draft && final(self).field
                    == field_of(n@) && final(self).text@.len() == 0
            }),
            event matches XmlEvent::Start(n, attrs) ==> (field_of(n@) == DraftField::Checksum && old(self).draft is Some
                ==> opt_view(final(self).checksum_type) == attr_value(attrs@, "type"@)),
            event matches XmlEvent::Start(n, attrs) ==> (n@ == "version"@ && old(self).draft is Some ==> {
                let (d0, d1) = (old(self).draft.unwrap(), final(self).draft.unwrap());
                &&& text_same(d0, d1)
                &&& numbers_same(d0, d1)
                &&& deps_same_except(d0, d1, None)
                &&& d1.location_href == d0.location_href
                &&& d1.evr@ == (
                    attr_or_empty(attrs@, "epoch"@),
                    attr_or_empty(attrs@, "ver"@),
                    attr_or_empty(attrs@, "rel"@),
                )
            }),
            event matches XmlEvent::Start(n, attrs) ==> (n@ == "location"@ && old(self).draft is Some ==> {
                let (d0, d1) = (old(self).draft.unwrap(), final(self).draft.unwrap());
                &&& text_same(d0, d1)
                &&& numbers_same(d0, d1)
                &&& deps_same_except(d0, d1, None)
                &&& d1.evr == d0.evr
                &&& d1.location_href@ == attr_or_empty(attrs@, "href"@)
            }),
            event matches XmlEvent::Start(n, attrs) ==> (n@ != "package"@ && n@ != "version"@ && n@ != "location"@
                && !is_number_element(n@) && n@ != "rpm:entry"@ && old(self).draft is Some ==> final(self).draft == old(
                self,
            ).draft),
            event matches XmlEvent::Start(n, attrs) ==> (n@ != "package"@ && field_of(n@) == DraftField::Nothing
                && !is_number_element(n@) && n@ != "rpm:entry"@ && dep_kind_of(n@) is Some && old(self).draft is Some ==> final(self).dep_kind == dep_kind_of(n@)),
            event matches XmlEvent::Start(n, attrs) ==> (n@ == "rpm:entry"@ && old(self).draft is Some ==> {
                let (d0, d1) = (old(self).draft.unwrap(), final(self).draft.unwrap());
                &&& old(self).dep_kind is None ==> r is Ok && final(self).draft == old(self).draft
                &&& old(self).dep_kind is Some && attr_value(attrs@, "name"@) is None ==> (r matches Err(
                    MetadataError::MissingAttributeError(a),
                ) && a@ == "name"@)
                &&& old(self).dep_kind is Some && attr_value(attrs@, "name"@) is Some ==> {
                    let k = old(self).dep_kind.unwrap();
                    &&& r is Ok
                    &&& position_same_but_deps(d0, d1)
                    &&& deps_same_except(d0, d1, Some(k))
                    &&& deps_of(d1, k).len() == deps_of(d0, k).len() + 1
                    &&& deps_of(d1, k).drop_last() == deps_of(d0, k)
                    &&& entry_matches(deps_of(d1, k).last(), attrs@)
                }
            }),
            event matches XmlEvent::Start(n, attrs) ==> (n@ == "time"@ && old(self).draft is Some ==> {
                let (d0, d1) = (old(self).draft.unwrap(), final(self).draft.unwrap());
                let (f, b) = (number_attr(attr_value(attrs@, "file"@)), number_attr(attr_value(attrs@, "build"@)));
                &&& f is None ==> (r matches Err(MetadataError::IntFieldParseError(t)) && Some(t@) == attr_value(
                    attrs@,
                    "file"@,
                ))
                &&& f is Some && b is None ==> (r matches Err(MetadataError::IntFieldParseError(t)) && Some(t@)
                    == attr_value(attrs@, "build"@))
                &&& f is Some && b is Some ==> r is Ok && position_same(d0, d1) && d1.size == d0.size
                    && d1.rpm_header_range == d0.rpm_header_range && d1.time == Time {
                    file: f.unwrap(),
                    build: b.unwrap(),
                }
            }),
            event matches XmlEvent::Start(n, attrs) ==> (n@ == "size"@ && old(self).draft is Some ==> {
                let (d0, d1) = (old(self).draft.unwrap(), final(self).draft.unwrap());
                let (p, i, a) = (
                    number_attr(attr_value(attrs@, "package"@)),
                    number_attr(attr_value(attrs@, "installed"@)),
                    number_attr(attr_value(attrs@, "archive"@)),
                );
                &&& p is None ==> (r matches Err(MetadataError::IntFieldParseError(t)) && Some(t@) == attr_value(
                    attrs@,
                    "package"@,
                ))
                &&& p is Some && i is None ==> (r matches Err(MetadataError::IntFieldParseError(t)) && Some(t@)
                    == attr_value(attrs@, "installed"@))
                &&& p is Some && i is Some && a is None ==> (r matches Err(MetadataError::IntFieldParseError(t))
                    && Some(t@) == attr_value(attrs@, "archive"@))
                &&& p is Some && i is Some && a is Some ==> r is Ok && position_same(d0, d1) && d1.time == d0.time
                    && d1.rpm_header_range == d0.rpm_header_range && d1.size == Size {
                    package: p.unwrap(),
                    installed: i.unwrap(),
                    archive: a.unwrap(),
                }
            }),
            event matches XmlEvent::Start(n, attrs) ==> (n@ == "rpm:header-range"@ && old(self).draft is Some ==> {
                let (d0, d1) = (old(self).draft.unwrap(), final(self).draft.unwrap());
                let (b, e) = (number_attr(attr_value(attrs@, "start"@)), number_attr(attr_value(attrs@, "end"@)));
                &&& b is None ==> (r matches Err(MetadataError::IntFieldParseError(t)) && Some(t@) == attr_value(
                    attrs@,
                    "start"@,
                ))
                &&& b is Some && e is None ==> (r matches Err(MetadataError::IntFieldParseError(t)) && Some(t@)
                    == attr_value(attrs@, "end"@))
                &&& b is Some && e is Some ==> r is Ok && position_same(d0, d1) && d1.time == d0.time && d1.size
                    == d0.size && d1.rpm_header_range == HeaderRange { start: b.unwrap(), end: e.unwrap() }
            }),
            event matches XmlEvent::Text(x) ==> {
                &&& r is Ok
                &&& final(self).draft == old(self).draft
                &&& final(self).field == old(self).field
                &&& final(self).checksum_type == old(self).checksum_type
                &&& old(self).field != DraftField::Nothing ==> final(self).text@ == old(self).text@ + x@
            },
            event matches XmlEvent::End(n) && n@ == "package"@ ==> {
                &&& old(self).draft is None ==> r is Ok && *final(self) == *old(self)
                &&& old(self).draft is Some ==> {
                    let d = old(self).draft.unwrap();
                    &&& final(self).draft is None
                    &&& d.name is None ==> (r matches Err(MetadataError::MissingFieldError(f)) && f@ == "name"@)
                    &&& d.name is Some && d.arch is None ==> (r matches Err(MetadataError::MissingFieldError(f))
                        && f@ == "arch"@)
                    &&& d.name is Some && d.arch is Some && d.checksum is None ==> (r matches Err(
                        MetadataError::MissingFieldError(f),
                    ) && f@ == "checksum"@)
                    &&& r is Err ==> final(repo).packages == old(repo).packages
                    &&& d.name is Some && d.arch is Some && d.checksum is Some ==> {
                        &&& r is Ok
                        &&& final(repo).packages@.len() == old(repo).packages@.len() + 1
                        &&& final(repo).packages@.drop_last() == old(repo).packages@
                        &&& built_from(final(repo).packages@.last(), d)
                    }
                }
            },
            event matches XmlEvent::End(n) ==> (n@ != "package"@ && old(self).draft is Some && dep_kind_of(n@) is Some
                ==> final(self).dep_kind is None),
            event matches XmlEvent::End(n) && n@ != "package"@ ==> {
                &&& old(self).draft is None ==> r is Ok && *final(self) == *old(self)
                &&& old(self).draft is Some && old(self).field != DraftField::Checksum ==> r is Ok
                    && final(self).draft is Some && final(self).field == DraftField::Nothing && committed(
                    old(self).draft.unwrap(),
                    old(self).field,
                    old(self).text@,
                    final(self).draft.unwrap(),
                )
                &&& old(self).draft is Some && old(self).field == DraftField::Checksum ==> {
                    &&& old(self).checksum_type is None ==> (r matches Err(MetadataError::MissingAttributeError(a))
                        && a@ == "type"@)
                    &&& old(self).checksum_type is Some && checksum_type_of(old(self).checksum_type.unwrap()@)
                        == ChecksumType::Unknown ==> (r matches Err(MetadataError::UnsupportedChecksumTypeError(u))
                        && u@ == old(self).checksum_type.unwrap()@)
                    &&& old(self).checksum_type is Some && checksum_type_of(old(self).checksum_type.unwrap()@)
                        != ChecksumType::Unknown ==> r is Ok && same_except(
                        old(self).draft.unwrap(),
                        final(self).draft.unwrap(),
                        DraftField::Checksum,
                    ) && (final(self).draft.unwrap().checksum matches Some(c) && c.spec_kind() == checksum_type_of(
                        old(self).checksum_type.unwrap()@,
                    ) && c.spec_digest() == old(self).text@)
                }
            },
            event is Eof ==> {
                &&& old(self).draft is Some ==> r == Err::<(), MetadataError>(MetadataError::TruncatedRecordError)
                &&& old(self).draft is None ==> r is Ok
            },
    {
        proof {
            lemma_attribute_elements();
        }
        match event {
            XmlEvent::Start(n, attrs) => {
                if str_eq(n.as_str(), "package") {
                    self.draft = Some(PrimaryDraft::new());
                    self.field = DraftField::Nothing;
                    self.dep_kind = None;
                    return Ok(());
                }
                if self.draft.is_none() {
                    return Ok(());
                }
                if str_eq(n.as_str(), "time") {
                    let file = number_attr_or_zero(&attrs, "file")?;
                    let build = number_attr_or_zero(&attrs, "build")?;
                    let mut d = self.draft.take().unwrap();
                    d.time = Time { file, build };
                    self.draft = Some(d);
                    self.field = DraftField::Nothing;
                    return Ok(());
                }
                if str_eq(n.as_str(), "size") {
                    let package = number_attr_or_zero(&attrs, "package")?;
                    let installed = number_attr_or_zero(&attrs, "installed")?;
                    let archive = number_attr_or_zero(&attrs, "archive")?;
                    let mut d = self.draft.take().unwrap();
                    d.size = Size { package, installed, archive };
                    self.draft = Some(d);
                    self.field = DraftField::Nothing;
                    return Ok(());
                }
                if str_eq(n.as_str(), "rpm:header-range") {
                    let start = number_attr_or_zero(&attrs, "start")?;
                    let end = number_attr_or_zero(&attrs, "end")?;
                    let mut d = self.draft.take().unwrap();
                    d.rpm_header_range = HeaderRange { start, end };
                    self.draft = Some(d);
                    self.field = DraftField::Nothing;
                    return Ok(());
                }
                if str_eq(n.as_str(), "rpm:entry") {
                    let k = match self.dep_kind {
                        Some(k) => k,
                        None => {
                            self.field = DraftField::Nothing;
                            return Ok(());
                        },
                    };
                    let req = entry_requirement(&attrs)?;
                    self.field = DraftField::Nothing;
                    let mut d = self.draft.take().unwrap();
                    match k {
                        DepKind::Requires => d.rpm_requires.push(req),
                        DepKind::Provides => d.rpm_provides.push(req),
                        DepKind::Conflicts => d.rpm_conflicts.push(req),
                        DepKind::Obsoletes => d.rpm_obsoletes.push(req),
                        DepKind::Suggests => d.rpm_suggests.push(req),
                        DepKind::Enhances => d.rpm_enhances.push(req),
                        DepKind::Recommends => d.rpm_recommends.push(req),
                        DepKind::Supplements => d.rpm_supplements.push(req),
                    }
                    self.draft = Some(d);
                    return Ok(());
                }
                let mut d = self.draft.take().unwrap();
                let field = element_field(n.as_str());
                if field != DraftField::Nothing {
                    self.field = field;
                    self.text = String::new();
                    if field == DraftField::Checksum {
                        self.checksum_type = find_attr(&attrs, "type");
                    }
                } else {
                    self.field = DraftField::Nothing;
                    let kind = dep_kind(n.as_str());
                    if kind.is_some() {
                        self.dep_kind = kind;
                    }
                    if str_eq(n.as_str(), "version") {
                        d.evr = EVR {
                            epoch: attr_or_default(&attrs, "epoch"),
                            version: attr_or_default(&attrs, "ver"),
                            release: attr_or_default(&attrs, "rel"),
                        };
                    } else if str_eq(n.as_str(), "location") {
                        d.location_href = attr_or_default(&attrs, "href");
                    }
                }
                self.draft = Some(d);
                Ok(())
            },
            XmlEvent::Text(x) => {
                if self.field != DraftField::Nothing {
                    self.text.append(x.as_str());
                }
                Ok(())
            },
            XmlEvent::End(n) => {
                if self.draft.is_none() {
                    return Ok(());
                }
                if str_eq(n.as_str(), "package") {
                    let d = self.draft.take().unwrap();
                    self.field = DraftField::Nothing;
                    match d.finish() {
                        Ok(p) => {
                            repo.add_package(p);
                            assert(repo.packages@.drop_last() =~= old(repo).packages@);
                            Ok(())
                        },
                        Err(e) => Err(e),
                    }
                } else {
                    if dep_kind(n.as_str()).is_some() {
                        self.dep_kind = None;
                    }
                    self.commit()
                }
            },
            XmlEvent::Eof => {
                if self.draft.is_some() {
                    Err(MetadataError::TruncatedRecordError)
                } else {
                    Ok(())
                }
            },
        }
    }

    /// Stores the text of the element now closing in the draft.
    fn commit(&mut self) -> (r: Result<(), MetadataError>)
        requires
            old(self).draft is Some,
        ensures
            final(self).draft is Some,
            final(self).field == DraftField::Nothing,
            final(self).dep_kind == old(self).dep_kind,
            old(self).field != DraftField::Checksum ==> r is Ok && committed(
                old(self).draft.unwrap(),
                old(self).field,
                old(self).text@,
                final(self).draft.unwrap(),
            ),
            old(self).field == DraftField::Checksum ==> {
                &&& old(self).checksum_type is None ==> (r matches Err(MetadataError::MissingAttributeError(a))
                    && a@ == "type"@)
                &&& old(self).checksum_type is Some && checksum_type_of(old(self).checksum_type.unwrap()@)
                    == ChecksumType::Unknown ==> (r matches Err(MetadataError::UnsupportedChecksumTypeError(u))
                    && u@ == old(self).checksum_type.unwrap()@)
                &&& r is Ok ==> old(self).checksum_type is Some && same_except(
                    old(self).draft.unwrap(),
                    final(self).draft.unwrap(),
                    DraftField::Checksum,
                ) && (final(self).draft.unwrap().checksum matches Some(c) && c.spec_kind() == checksum_type_of(
                    old(self).checksum_type.unwrap()@,
                ) && c.spec_digest() == old(self).text@)
                &&& old(self).checksum_type is Some && checksum_type_of(old(self).checksum_type.unwrap()@)
                    != ChecksumType::Unknown ==> r is Ok
            },
    {
        let field = self.field;
        self.field = DraftField::Nothing;
        let mut text = String::new();
        std::mem::swap(&mut text, &mut self.text);
        let mut d = self.draft.take().unwrap();
        let r = match field {
            DraftField::Nothing => Ok(()),
            DraftField::Name => {
                d.name = Some(text);
                Ok(())
            },
            DraftField::Arch => {
                d.arch = Some(text);
                Ok(())
            },
            DraftField::Summary => {
                d.summary = text;
                Ok(())
            },
            DraftField::Description => {
                d.description = text;
                Ok(())
            },
            DraftField::Packager => {
                d.packager = text;
                Ok(())
            },
            DraftField::Url => {
                d.url = text;
                Ok(())
            },
            DraftField::License => {
                d.rpm_license = text;
                Ok(())
            },
            DraftField::Vendor => {
                d.rpm_vendor = text;
                Ok(())
            },
            DraftField::Group => {
                d.rpm_group = text;
                Ok(())
            },
            DraftField::Buildhost => {
                d.rpm_buildhost = text;
                Ok(())
            },
            DraftField::Sourcerpm => {
                d.rpm_sourcerpm = text;
                Ok(())
            },
            DraftField::Checksum => {
                let ty = self.checksum_type.take();
                match ty {
                    Some(t) => d.set_checksum(Some(t.as_str()), text.as_str()),
                    None => d.set_checksum(None, text.as_str()),
                }
            },
        };
        self.draft = Some(d);
        r
    }
}

} // verus!
