//! Writing the package records of primary.xml as XML events.
use vstd::prelude::*;
use crate::checksum::{checksum_token, ChecksumType};
use crate::kinds::{XML_NS_COMMON, XML_NS_RPM};
use crate::package::{Package, Requirement};
use crate::text::{decimal_of, decimal_text};
use crate::xml::{attrs_model, events_model, push_empty_element, push_text_element, text_element_model, EventModel, XmlEvent};

verus! {

/// An attribute that is written only where a value is present.
pub open spec fn opt_attr(key: Seq<char>, v: Option<String>) -> Seq<(Seq<char>, Seq<char>)> {
    match v {
        Some(s) => seq![(key, s@)],
        None => Seq::empty(),
    }
}

/// The attributes of a dependency entry.
pub open spec fn entry_attrs(req: Requirement) -> Seq<(Seq<char>, Seq<char>)> {
    seq![("name"@, req.name@)] + opt_attr("flags"@, req.flags) + opt_attr("epoch"@, req.epoch) + opt_attr(
        "ver"@,
        req.version,
    ) + opt_attr("rel"@, req.release) + match req.preinstall {
        Some(true) => seq![("pre"@, "1"@)],
        Some(false) => seq![("pre"@, "0"@)],
        None => Seq::empty(),
    }
}

/// The events of a list of dependency entries, in order.
pub open spec fn entries_model(reqs: Seq<Requirement>) -> Seq<EventModel>
    decreases reqs.len(),
{
    if reqs.len() == 0 {
        Seq::empty()
    } else {
        entries_model(reqs.drop_last()) + seq![
            EventModel::Start("rpm:entry"@, entry_attrs(reqs.last())),
            EventModel::End("rpm:entry"@),
        ]
    }
}

/// The events of a dependency list element; an empty list is not written.
pub open spec fn dep_list_model(name: Seq<char>, reqs: Seq<Requirement>) -> Seq<EventModel> {
    if reqs.len() == 0 {
        Seq::empty()
    } else {
        seq![EventModel::Start(name, Seq::empty())] + entries_model(reqs) + seq![EventModel::End(name)]
    }
}

/// The events of the eight dependency lists of a package.
pub open spec fn deps_model(p: Package) -> Seq<EventModel> {
    dep_list_model("rpm:provides"@, p.rpm_provides@) + dep_list_model("rpm:requires"@, p.rpm_requires@)
        + dep_list_model("rpm:conflicts"@, p.rpm_conflicts@) + dep_list_model("rpm:obsoletes"@, p.rpm_obsoletes@)
        + dep_list_model("rpm:suggests"@, p.rpm_suggests@) + dep_list_model("rpm:enhances"@, p.rpm_enhances@)
        + dep_list_model("rpm:recommends"@, p.rpm_recommends@) + dep_list_model(
        "rpm:supplements"@,
        p.rpm_supplements@,
    )
}

/// The text elements and attribute elements that describe a package,
/// before its `format` element.
pub open spec fn head_model(p: Package) -> Seq<EventModel> {
    text_element_model("name"@, Seq::empty(), p.name@) + text_element_model("arch"@, Seq::empty(), p.arch@) + seq![
        EventModel::Start("version"@, seq![("epoch"@, p.evr.epoch@), ("ver"@, p.evr.version@), ("rel"@, p.evr.release@)]),
        EventModel::End("version"@),
    ] + text_element_model(
        "checksum"@,
        seq![("type"@, checksum_token(p.checksum.spec_kind())), ("pkgid"@, "YES"@)],
        p.checksum.spec_digest(),
    ) + text_element_model("summary"@, Seq::empty(), p.summary@) + text_element_model(
        "description"@,
        Seq::empty(),
        p.description@,
    ) + text_element_model("packager"@, Seq::empty(), p.packager@) + text_element_model("url"@, Seq::empty(), p.url@)
        + seq![
        EventModel::Start(
            "time"@,
            seq![("file"@, decimal_of(p.time.file as nat)), ("build"@, decimal_of(p.time.build as nat))],
        ),
        EventModel::End("time"@),
        EventModel::Start(
            "size"@,
            seq![
                ("package"@, decimal_of(p.size.package as nat)),
                ("installed"@, decimal_of(p.size.installed as nat)),
                ("archive"@, decimal_of(p.size.archive as nat)),
            ],
        ),
        EventModel::End("size"@),
        EventModel::Start("location"@, seq![("href"@, p.location_href@)]),
        EventModel::End("location"@),
    ]
}

/// The `format` element of a package: the rpm-specific text fields, the
/// header range and the dependency lists.
pub open spec fn format_model(p: Package) -> Seq<EventModel> {
    seq![EventModel::Start("format"@, Seq::empty())] + text_element_model("rpm:license"@, Seq::empty(), p.rpm_license@)
        + text_element_model("rpm:vendor"@, Seq::empty(), p.rpm_vendor@) + text_element_model(
        "rpm:group"@,
        Seq::empty(),
        p.rpm_group@,
    ) + text_element_model("rpm:buildhost"@, Seq::empty(), p.rpm_buildhost@) + text_element_model(
        "rpm:sourcerpm"@,
        Seq::empty(),
        p.rpm_sourcerpm@,
    ) + seq![
        EventModel::Start(
            "rpm:header-range"@,
            seq![
                ("start"@, decimal_of(p.rpm_header_range.start as nat)),
                ("end"@, decimal_of(p.rpm_header_range.end as nat)),
            ],
        ),
        EventModel::End("rpm:header-range"@),
    ] + deps_model(p) + seq![EventModel::End("format"@)]
}

/// The events of one package record of primary.xml.
pub open spec fn package_model(p: Package) -> Seq<EventModel> {
    seq![EventModel::Start("package"@, seq![("type"@, "rpm"@)])] + head_model(p) + format_model(p) + seq![
        EventModel::End("package"@),
    ]
}

fn no_attrs() -> (r: Vec<(String, String)>)
    ensures
        attrs_model(r@) == Seq::<(Seq<char>, Seq<char>)>::empty(),
{
    let r: Vec<(String, String)> = Vec::new();
    assert(attrs_model(r@) =~= Seq::empty());
    r
}

fn push_attr(attrs: &mut Vec<(String, String)>, key: &str, value: String)
    ensures
        attrs_model(final(attrs)@) == attrs_model(old(attrs)@) + seq![(key@, value@)],
{
    let ghost v = value;
    attrs.push((key.to_owned(), value));
    assert(attrs_model(attrs@) =~= attrs_model(old(attrs)@) + seq![(key@, v@)]);
}

fn push_opt_attr(attrs: &mut Vec<(String, String)>, key: &str, value: &Option<String>)
    ensures
        attrs_model(final(attrs)@) == attrs_model(old(attrs)@) + opt_attr(key@, *value),
{
    match value {
        Some(v) => push_attr(attrs, key, v.clone()),
        None => assert(attrs_model(attrs@) =~= attrs_model(attrs@) + Seq::<(Seq<char>, Seq<char>)>::empty()),
    }
}

fn entry_attributes(req: &Requirement) -> (r: Vec<(String, String)>)
    ensures
        attrs_model(r@) == entry_attrs(*req),
{
    let mut a = no_attrs();
    push_attr(&mut a, "name", req.name.clone());
    push_opt_attr(&mut a, "flags", &req.flags);
    push_opt_attr(&mut a, "epoch", &req.epoch);
    push_opt_attr(&mut a, "ver", &req.version);
    push_opt_attr(&mut a, "rel", &req.release);
    let ghost before = attrs_model(a@);
    match req.preinstall {
        Some(true) => push_attr(&mut a, "pre", "1".to_owned()),
        Some(false) => push_attr(&mut a, "pre", "0".to_owned()),
        None => {},
    }
    assert(attrs_model(a@) =~= entry_attrs(*req));
    a
}

fn write_dep_list(out: &mut Vec<XmlEvent>, name: &str, reqs: &Vec<Requirement>)
    ensures
        events_model(final(out)@) == events_model(old(out)@) + dep_list_model(name@, reqs@),
{
    if reqs.len() == 0 {
        assert(events_model(out@) =~= events_model(out@) + Seq::<EventModel>::empty());
        return;
    }
    let ghost m0 = events_model(out@);
    out.push(XmlEvent::Start(name.to_owned(), no_attrs()));
    let ghost head = m0 + seq![EventModel::Start(name@, Seq::empty())];
    assert(events_model(out@) =~= head);
    assert(reqs@.take(0) =~= Seq::<Requirement>::empty());
    assert(head + entries_model(reqs@.take(0)) =~= head);
    let mut i: usize = 0;
    while i < reqs.len()
        invariant
            i <= reqs@.len(),
            events_model(out@) == head + entries_model(reqs@.take(i as int)),
        decreases reqs@.len() - i,
    {
        let ghost before = events_model(out@);
        out.push(XmlEvent::Start("rpm:entry".to_owned(), entry_attributes(&reqs[i])));
        out.push(XmlEvent::End("rpm:entry".to_owned()));
        assert(events_model(out@) =~= before + seq![
            EventModel::Start("rpm:entry"@, entry_attrs(reqs@[i as int])),
            EventModel::End("rpm:entry"@),
        ]);
        assert(reqs@.take(i + 1).drop_last() =~= reqs@.take(i as int));
        assert(head + entries_model(reqs@.take(i + 1)) =~= head + entries_model(reqs@.take(i as int)) + seq![
            EventModel::Start("rpm:entry"@, entry_attrs(reqs@[i as int])),
            EventModel::End("rpm:entry"@),
        ]);
        i = i + 1;
    }
    let ghost before = events_model(out@);
    out.push(XmlEvent::End(name.to_owned()));
    assert(reqs@.take(i as int) =~= reqs@);
    assert(events_model(out@) =~= before + seq![EventModel::End(name@)]);
    assert(m0 + dep_list_model(name@, reqs@) =~= head + entries_model(reqs@) + seq![EventModel::End(name@)]);
}

fn write_deps(out: &mut Vec<XmlEvent>, p: &Package)
    ensures
        events_model(final(out)@) == events_model(old(out)@) + deps_model(*p),
{
    let ghost m0 = events_model(out@);
    write_dep_list(out, "rpm:provides", &p.rpm_provides);
    write_dep_list(out, "rpm:requires", &p.rpm_requires);
    write_dep_list(out, "rpm:conflicts", &p.rpm_conflicts);
    write_dep_list(out, "rpm:obsoletes", &p.rpm_obsoletes);
    write_dep_list(out, "rpm:suggests", &p.rpm_suggests);
    write_dep_list(out, "rpm:enhances", &p.rpm_enhances);
    write_dep_list(out, "rpm:recommends", &p.rpm_recommends);
    write_dep_list(out, "rpm:supplements", &p.rpm_supplements);
    assert(events_model(out@) =~= m0 + deps_model(*p));
}

fn write_head(out: &mut Vec<XmlEvent>, p: &Package)
    requires
        p.checksum.spec_kind() != ChecksumType::Unknown,
    ensures
        events_model(final(out)@) == events_model(old(out)@) + head_model(*p),
{
    let ghost m0 = events_model(out@);
    push_text_element(out, "name", no_attrs(), p.name.clone());
    push_text_element(out, "arch", no_attrs(), p.arch.clone());
    let mut v = no_attrs();
    push_attr(&mut v, "epoch", p.evr.epoch.clone());
    push_attr(&mut v, "ver", p.evr.version.clone());
    push_attr(&mut v, "rel", p.evr.release.clone());
    assert(attrs_model(v@) =~= seq![("epoch"@, p.evr.epoch@), ("ver"@, p.evr.version@), ("rel"@, p.evr.release@)]);
    push_empty_element(out, "version", v);
    match p.checksum.to_values() {
        Ok((t, d)) => {
            let mut c = no_attrs();
            push_attr(&mut c, "type", t.to_owned());
            push_attr(&mut c, "pkgid", "YES".to_owned());
            assert(attrs_model(c@) =~= seq![("type"@, checksum_token(p.checksum.spec_kind())), ("pkgid"@, "YES"@)]);
            push_text_element(out, "checksum", c, d.to_owned());
        },
        Err(_) => {},
    }
    push_text_element(out, "summary", no_attrs(), p.summary.clone());
    push_text_element(out, "description", no_attrs(), p.description.clone());
    push_text_element(out, "packager", no_attrs(), p.packager.clone());
    push_text_element(out, "url", no_attrs(), p.url.clone());
    let mut t = no_attrs();
    push_attr(&mut t, "file", decimal_text(p.time.file));
    push_attr(&mut t, "build", decimal_text(p.time.build));
    assert(attrs_model(t@) =~= seq![
        ("file"@, decimal_of(p.time.file as nat)),
        ("build"@, decimal_of(p.time.build as nat)),
    ]);
    push_empty_element(out, "time", t);
    let mut z = no_attrs();
    push_attr(&mut z, "package", decimal_text(p.size.package));
    push_attr(&mut z, "installed", decimal_text(p.size.installed));
    push_attr(&mut z, "archive", decimal_text(p.size.archive));
    assert(attrs_model(z@) =~= seq![
        ("package"@, decimal_of(p.size.package as nat)),
        ("installed"@, decimal_of(p.size.installed as nat)),
        ("archive"@, decimal_of(p.size.archive as nat)),
    ]);
    push_empty_element(out, "size", z);
    let mut l = no_attrs();
    push_attr(&mut l, "href", p.location_href.clone());
    assert(attrs_model(l@) =~= seq![("href"@, p.location_href@)]);
    push_empty_element(out, "location", l);
    assert(events_model(out@) =~= m0 + head_model(*p));
}

fn write_format(out: &mut Vec<XmlEvent>, p: &Package)
    ensures
        events_model(final(out)@) == events_model(old(out)@) + format_model(*p),
{
    let ghost m0 = events_model(out@);
    out.push(XmlEvent::Start("format".to_owned(), no_attrs()));
    assert(events_model(out@) =~= m0 + seq![EventModel::Start("format"@, Seq::empty())]);
    push_text_element(out, "rpm:license", no_attrs(), p.rpm_license.clone());
    push_text_element(out, "rpm:vendor", no_attrs(), p.rpm_vendor.clone());
    push_text_element(out, "rpm:group", no_attrs(), p.rpm_group.clone());
    push_text_element(out, "rpm:buildhost", no_attrs(), p.rpm_buildhost.clone());
    push_text_element(out, "rpm:sourcerpm", no_attrs(), p.rpm_sourcerpm.clone());
    let mut h = no_attrs();
    push_attr(&mut h, "start", decimal_text(p.rpm_header_range.start));
    push_attr(&mut h, "end", decimal_text(p.rpm_header_range.end));
    assert(attrs_model(h@) =~= seq![
        ("start"@, decimal_of(p.rpm_header_range.start as nat)),
        ("end"@, decimal_of(p.rpm_header_range.end as nat)),
    ]);
    push_empty_element(out, "rpm:header-range", h);
    write_deps(out, p);
    let ghost m2 = events_model(out@);
    out.push(XmlEvent::End("format".to_owned()));
    assert(events_model(out@) =~= m2 + seq![EventModel::End("format"@)]);
    assert(events_model(out@) =~= m0 + format_model(*p));
}

/// Appends the events of one package record of primary.xml. An `Unknown`
/// checksum is never written.
pub fn write_package(out: &mut Vec<XmlEvent>, p: &Package)
    requires
        p.checksum.spec_kind() != ChecksumType::Unknown,
    ensures
        events_model(final(out)@) == events_model(old(out)@) + package_model(*p),
{
    let ghost m0 = events_model(out@);
    let mut a = no_attrs();
    push_attr(&mut a, "type", "rpm".to_owned());
    assert(attrs_model(a@) =~= seq![("type"@, "rpm"@)]);
    out.push(XmlEvent::Start("package".to_owned(), a));
    let ghost p0 = seq![EventModel::Start("package"@, seq![("type"@, "rpm"@)])];
    assert(events_model(out@) =~= m0 + p0);
    write_head(out, p);
    write_format(out, p);
    let ghost m2 = events_model(out@);
    out.push(XmlEvent::End("package".to_owned()));
    assert(events_model(out@) =~= m2 + seq![EventModel::End("package"@)]);
    assert(events_model(out@) =~= m0 + package_model(*p));
}

/// The events of a list of package records, in order.
pub open spec fn packages_model(ps: Seq<Package>) -> Seq<EventModel>
    decreases ps.len(),
{
    if ps.len() == 0 {
        Seq::empty()
    } else {
        packages_model(ps.drop_last()) + package_model(ps.last())
    }
}

/// The `metadata` root of primary.xml, with its default and `rpm`
/// namespaces and the package count, around every record in stored order.
pub open spec fn primary_model(ps: Seq<Package>) -> Seq<EventModel> {
    seq![
        EventModel::Start(
            "metadata"@,
            seq![("xmlns"@, XML_NS_COMMON@), ("xmlns:rpm"@, XML_NS_RPM@), ("packages"@, decimal_of(ps.len()))],
        ),
    ] + packages_model(ps) + seq![EventModel::End("metadata"@)]
}

/// The events of primary.xml for `packages`, in stored order. An `Unknown`
/// checksum is never written, so none may be held.
pub fn write_primary(packages: &Vec<Package>) -> (r: Vec<XmlEvent>)
    requires
        forall|i: int|
            0 <= i < packages@.len() ==> (#[trigger] packages@[i]).checksum.spec_kind() != ChecksumType::Unknown,
    ensures
        events_model(r@) == primary_model(packages@),
{
    let mut out: Vec<XmlEvent> = Vec::new();
    let mut attrs = no_attrs();
    push_attr(&mut attrs, "xmlns", XML_NS_COMMON.to_owned());
    push_attr(&mut attrs, "xmlns:rpm", XML_NS_RPM.to_owned());
    push_attr(&mut attrs, "packages", decimal_text(packages.len() as u64));
    let ghost head = seq![
        EventModel::Start(
            "metadata"@,
            seq![("xmlns"@, XML_NS_COMMON@), ("xmlns:rpm"@, XML_NS_RPM@), ("packages"@, decimal_of(packages@.len()))],
        ),
    ];
    assert(attrs_model(attrs@) =~= seq![
        ("xmlns"@, XML_NS_COMMON@),
        ("xmlns:rpm"@, XML_NS_RPM@),
        ("packages"@, decimal_of(packages@.len())),
    ]);
    out.push(XmlEvent::Start("metadata".to_owned(), attrs));
    assert(events_model(out@) =~= head);
    assert(packages@.take(0) =~= Seq::<Package>::empty());
    assert(head + packages_model(packages@.take(0)) =~= head);
    let mut i: usize = 0;
    while i < packages.len()
        invariant
            i <= packages@.len(),
            forall|j: int|
                0 <= j < packages@.len() ==> (#[trigger] packages@[j]).checksum.spec_kind() != ChecksumType::Unknown,
            events_model(out@) == head + packages_model(packages@.take(i as int)),
        decreases packages@.len() - i,
    {
        write_package(&mut out, &packages[i]);
        assert(packages@.take(i + 1).drop_last() =~= packages@.take(i as int));
        assert(head + packages_model(packages@.take(i + 1)) =~= head + packages_model(packages@.take(i as int))
            + package_model(packages@[i as int]));
        i = i + 1;
    }
    let ghost before = events_model(out@);
    out.push(XmlEvent::End("metadata".to_owned()));
    assert(packages@.take(i as int) =~= packages@);
    assert(events_model(out@) =~= before + seq![EventModel::End("metadata"@)]);
    out
}

} // verus!
