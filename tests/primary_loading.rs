use rpmrepo_metadata::checksum::Checksum;
use rpmrepo_metadata::error::MetadataError;
use rpmrepo_metadata::kinds::RequirementType;
use rpmrepo_metadata::primary::{PrimaryDraft, PrimaryLoader};
use rpmrepo_metadata::primary_write::write_primary;
use rpmrepo_metadata::xml::XmlEvent;
use rpmrepo_metadata::repository::Repository;

fn start(name: &str, attrs: &[(&str, &str)]) -> XmlEvent {
    XmlEvent::Start(
        name.to_owned(),
        attrs.iter().map(|(k, v)| (k.to_string(), v.to_string())).collect(),
    )
}

fn text(t: &str) -> XmlEvent {
    XmlEvent::Text(t.to_owned())
}

fn end(name: &str) -> XmlEvent {
    XmlEvent::End(name.to_owned())
}

fn element(name: &str, attrs: &[(&str, &str)], body: &str) -> Vec<XmlEvent> {
    vec![start(name, attrs), text(body), end(name)]
}

fn package_events(with_checksum: Option<&str>) -> Vec<XmlEvent> {
    let mut ev = vec![start("package", &[("type", "rpm")])];
    ev.extend(element("name", &[], "bash"));
    ev.extend(element("arch", &[], "x86_64"));
    ev.push(start("version", &[("epoch", "0"), ("ver", "5.1.8"), ("rel", "2.fc35")]));
    ev.push(end("version"));
    if let Some(t) = with_checksum {
        ev.extend(element("checksum", &[("type", t), ("pkgid", "YES")], "abc123"));
    }
    ev.extend(element("summary", &[], "The GNU Bourne Again shell"));
    ev.push(start("location", &[("href", "Packages/b/bash-5.1.8-2.fc35.x86_64.rpm")]));
    ev.push(end("location"));
    ev.push(start("time", &[("file", "1633000000"), ("build", "1632000000")]));
    ev.push(end("time"));
    ev.push(start("size", &[("package", "1500000"), ("installed", "7000000"), ("archive", "7100000")]));
    ev.push(end("size"));
    ev.push(start("format", &[]));
    ev.extend(element("rpm:license", &[], "GPLv3+"));
    ev.extend(element("rpm:vendor", &[], "Fedora Project"));
    ev.extend(element("rpm:group", &[], "Unspecified"));
    ev.extend(element("rpm:buildhost", &[], "buildvm-x86-01"));
    ev.extend(element("rpm:sourcerpm", &[], "bash-5.1.8-2.fc35.src.rpm"));
    ev.push(start("rpm:header-range", &[("start", "4504"), ("end", "62060")]));
    ev.push(end("rpm:header-range"));
    ev.push(start("rpm:provides", &[]));
    ev.push(start("rpm:entry", &[("name", "/bin/sh")]));
    ev.push(end("rpm:entry"));
    ev.push(start("rpm:entry", &[("name", "bash"), ("flags", "EQ"), ("epoch", "0"), ("ver", "5.1.8"), ("rel", "2.fc35")]));
    ev.push(end("rpm:entry"));
    ev.push(end("rpm:provides"));
    ev.push(start("rpm:requires", &[]));
    ev.push(start("rpm:entry", &[("name", "filesystem"), ("pre", "1")]));
    ev.push(end("rpm:entry"));
    ev.push(start("rpm:entry", &[("name", "libc.so.6()(64bit)")]));
    ev.push(end("rpm:entry"));
    ev.push(end("rpm:requires"));
    ev.push(start("file", &[]));
    ev.push(text("/usr/bin/bash"));
    ev.push(end("file"));
    ev.push(end("format"));
    ev.push(end("package"));
    ev
}

fn load(events: Vec<XmlEvent>, repo: &mut Repository) -> Result<(), MetadataError> {
    let mut loader = PrimaryLoader::new();
    for e in events {
        loader.feed(repo, e)?;
    }
    loader.feed(repo, XmlEvent::Eof)
}

#[test]
fn loads_a_complete_record() {
    let mut repo = Repository::new();
    let mut events = vec![start("metadata", &[("packages", "1")])];
    events.extend(package_events(Some("sha256")));
    events.push(end("metadata"));
    load(events, &mut repo).unwrap();
    assert_eq!(repo.packages.len(), 1);
    let p = &repo.packages[0];
    assert_eq!(p.name, "bash");
    assert_eq!(p.arch, "x86_64");
    assert_eq!(p.evr.epoch, "0");
    assert_eq!(p.evr.version, "5.1.8");
    assert_eq!(p.evr.release, "2.fc35");
    assert_eq!(p.checksum, Checksum::Sha256("abc123".to_owned()));
    assert_eq!(p.summary, "The GNU Bourne Again shell");
    assert_eq!(p.location_href, "Packages/b/bash-5.1.8-2.fc35.x86_64.rpm");
    assert_eq!(p.description, "");
    assert_eq!(p.time.file, 1633000000);
    assert_eq!(p.time.build, 1632000000);
    assert_eq!(p.size.package, 1500000);
    assert_eq!(p.size.installed, 7000000);
    assert_eq!(p.size.archive, 7100000);
    assert_eq!(p.rpm_license, "GPLv3+");
    assert_eq!(p.rpm_vendor, "Fedora Project");
    assert_eq!(p.rpm_group, "Unspecified");
    assert_eq!(p.rpm_buildhost, "buildvm-x86-01");
    assert_eq!(p.rpm_sourcerpm, "bash-5.1.8-2.fc35.src.rpm");
    assert_eq!(p.rpm_header_range.start, 4504);
    assert_eq!(p.rpm_header_range.end, 62060);
    assert_eq!(p.rpm_provides.len(), 2);
    assert_eq!(p.rpm_provides[0].name, "/bin/sh");
    assert_eq!(p.rpm_provides[0].flags, None);
    assert_eq!(p.rpm_provides[1].flags.as_deref(), Some("EQ"));
    assert_eq!(p.rpm_provides[1].epoch.as_deref(), Some("0"));
    assert_eq!(p.rpm_provides[1].version.as_deref(), Some("5.1.8"));
    assert_eq!(p.rpm_provides[1].release.as_deref(), Some("2.fc35"));
    assert_eq!(p.rpm_requires.len(), 2);
    assert_eq!(p.rpm_requires[0].preinstall, Some(true));
    assert_eq!(p.rpm_requires[1].preinstall, None);
    assert!(p.rpm_conflicts.is_empty());
    assert!(p.rpm_files.is_empty());
}

#[test]
fn missing_checksum_element_is_reported() {
    let mut repo = Repository::new();
    match load(package_events(None), &mut repo) {
        Err(MetadataError::MissingFieldError(f)) => assert_eq!(f, "checksum"),
        other => panic!("unexpected {:?}", other),
    }
    assert!(repo.packages.is_empty());
}

#[test]
fn unknown_checksum_type_is_reported() {
    let mut repo = Repository::new();
    match load(package_events(Some("md5")), &mut repo) {
        Err(MetadataError::UnsupportedChecksumTypeError(t)) => assert_eq!(t, "md5"),
        other => panic!("unexpected {:?}", other),
    }
    assert!(repo.packages.is_empty());
}

#[test]
fn checksum_without_type_attribute_is_reported() {
    let mut repo = Repository::new();
    let mut events = vec![start("package", &[])];
    events.extend(element("name", &[], "a"));
    events.extend(element("checksum", &[], "abc"));
    match load(events, &mut repo) {
        Err(MetadataError::MissingAttributeError(a)) => assert_eq!(a, "type"),
        other => panic!("unexpected {:?}", other),
    }
}

#[test]
fn missing_name_and_arch_are_reported_in_that_order() {
    let mut repo = Repository::new();
    let events = vec![start("package", &[]), end("package")];
    match load(events, &mut repo) {
        Err(MetadataError::MissingFieldError(f)) => assert_eq!(f, "name"),
        other => panic!("unexpected {:?}", other),
    }
    let mut events = vec![start("package", &[])];
    events.extend(element("name", &[], "a"));
    events.push(end("package"));
    match load(events, &mut repo) {
        Err(MetadataError::MissingFieldError(f)) => assert_eq!(f, "arch"),
        other => panic!("unexpected {:?}", other),
    }
}

#[test]
fn document_ending_inside_a_record_is_truncated() {
    let mut repo = Repository::new();
    let mut events = package_events(Some("sha1"));
    events.pop();
    match load(events, &mut repo) {
        Err(MetadataError::TruncatedRecordError) => {}
        other => panic!("unexpected {:?}", other),
    }
    assert!(repo.packages.is_empty());
}

#[test]
fn records_are_appended_in_document_order() {
    let mut repo = Repository::new();
    let mut events = package_events(Some("sha"));
    let mut second = vec![start("package", &[])];
    second.extend(element("name", &[], "zsh"));
    second.extend(element("arch", &[], "aarch64"));
    second.extend(element("checksum", &[("type", "sha512")], "ff"));
    second.push(end("package"));
    events.extend(second);
    load(events, &mut repo).unwrap();
    assert_eq!(repo.packages.len(), 2);
    assert_eq!(repo.packages[0].checksum, Checksum::Sha1("abc123".to_owned()));
    assert_eq!(repo.packages[1].name, "zsh");
    assert_eq!(repo.packages[1].evr.version, "");
}

#[test]
fn text_split_over_several_events_is_joined() {
    let mut repo = Repository::new();
    let mut events = vec![start("package", &[])];
    events.push(start("name", &[]));
    events.push(text("ba"));
    events.push(text("sh"));
    events.push(end("name"));
    events.extend(element("arch", &[], "noarch"));
    events.extend(element("checksum", &[("type", "sha384")], "00"));
    events.push(end("package"));
    load(events, &mut repo).unwrap();
    assert_eq!(repo.packages[0].name, "bash");
}

#[test]
fn draft_finish_and_set_checksum() {
    let mut d = PrimaryDraft::new();
    assert!(d.set_checksum(Some("sha256"), "aa").is_ok());
    assert_eq!(d.checksum, Some(Checksum::Sha256("aa".to_owned())));
    assert!(d.set_checksum(Some("crc32"), "bb").is_err());
    assert_eq!(d.checksum, Some(Checksum::Sha256("aa".to_owned())));
    d.name = Some("n".to_owned());
    d.arch = Some("noarch".to_owned());
    let p = d.finish().unwrap();
    assert_eq!(p.name, "n");
    assert!(p.rpm_files.is_empty());
}

#[test]
fn requirement_flag_converts_to_str() {
    let s: &str = RequirementType::LE.into();
    assert_eq!(s, "LE");
}

#[test]
fn absent_numbers_default_to_zero_and_bad_numbers_fail() {
    let mut repo = Repository::new();
    let mut events = vec![start("package", &[])];
    events.extend(element("name", &[], "a"));
    events.extend(element("arch", &[], "noarch"));
    events.extend(element("checksum", &[("type", "sha256")], "00"));
    events.push(start("time", &[("build", "5")]));
    events.push(end("time"));
    events.push(end("package"));
    load(events, &mut repo).unwrap();
    assert_eq!(repo.packages[0].time.file, 0);
    assert_eq!(repo.packages[0].time.build, 5);

    let events = vec![start("package", &[]), start("size", &[("package", "10"), ("installed", "ten")])];
    match load(events, &mut repo) {
        Err(MetadataError::IntFieldParseError(t)) => assert_eq!(t, "ten"),
        other => panic!("unexpected {:?}", other),
    }
    let events = vec![start("package", &[]), start("rpm:header-range", &[("start", "99999999999999999999")])];
    match load(events, &mut repo) {
        Err(MetadataError::IntFieldParseError(t)) => assert_eq!(t, "99999999999999999999"),
        other => panic!("unexpected {:?}", other),
    }
    assert_eq!(repo.packages.len(), 1);
}

#[test]
fn dependency_entry_needs_a_name() {
    let mut repo = Repository::new();
    let events = vec![
        start("package", &[]),
        start("rpm:conflicts", &[]),
        start("rpm:entry", &[("flags", "LT"), ("ver", "2")]),
    ];
    match load(events, &mut repo) {
        Err(MetadataError::MissingAttributeError(a)) => assert_eq!(a, "name"),
        other => panic!("unexpected {:?}", other),
    }
}

#[test]
fn each_dependency_list_is_filled_from_its_element() {
    let mut repo = Repository::new();
    let lists = [
        "rpm:requires",
        "rpm:provides",
        "rpm:conflicts",
        "rpm:obsoletes",
        "rpm:suggests",
        "rpm:enhances",
        "rpm:recommends",
        "rpm:supplements",
    ];
    let mut events = vec![start("package", &[])];
    events.extend(element("name", &[], "a"));
    events.extend(element("arch", &[], "noarch"));
    events.extend(element("checksum", &[("type", "sha256")], "00"));
    for (i, l) in lists.iter().enumerate() {
        events.push(start(l, &[]));
        for j in 0..=i {
            events.push(start("rpm:entry", &[("name", &format!("{}-{}", l, j)), ("pre", "0")]));
            events.push(end("rpm:entry"));
        }
        events.push(end(l));
    }
    events.push(start("rpm:entry", &[("name", "outside")]));
    events.push(end("rpm:entry"));
    events.push(end("package"));
    load(events, &mut repo).unwrap();
    let p = &repo.packages[0];
    assert_eq!(p.rpm_requires.len(), 1);
    assert_eq!(p.rpm_provides.len(), 2);
    assert_eq!(p.rpm_conflicts.len(), 3);
    assert_eq!(p.rpm_obsoletes.len(), 4);
    assert_eq!(p.rpm_suggests.len(), 5);
    assert_eq!(p.rpm_enhances.len(), 6);
    assert_eq!(p.rpm_recommends.len(), 7);
    assert_eq!(p.rpm_supplements.len(), 8);
    assert_eq!(p.rpm_supplements[7].name, "rpm:supplements-7");
    assert_eq!(p.rpm_obsoletes[0].preinstall, Some(false));
}

#[test]
fn write_then_load_gives_the_same_packages() {
    let mut repo = Repository::new();
    let mut events = package_events(Some("sha256"));
    let mut second = vec![start("package", &[])];
    second.extend(element("name", &[], "zsh & co <tools>"));
    second.extend(element("arch", &[], "aarch64"));
    second.extend(element("checksum", &[("type", "sha512")], "ff"));
    second.push(end("package"));
    events.extend(second);
    load(events, &mut repo).unwrap();

    let written = write_primary(&repo.packages);
    match &written[0] {
        XmlEvent::Start(name, attrs) => {
            assert_eq!(name, "metadata");
            assert_eq!(attrs[0].1, "http://linux.duke.edu/metadata/common");
            assert_eq!(attrs[1].1, "http://linux.duke.edu/metadata/rpm");
            assert_eq!(attrs[2], ("packages".to_owned(), "2".to_owned()));
        }
        _ => panic!("document must open with its root"),
    }
    let mut again = Repository::new();
    load(written, &mut again).unwrap();
    assert_eq!(again.packages.len(), 2);
    for (a, b) in repo.packages.iter().zip(again.packages.iter()) {
        assert_eq!(format!("{:?}", a), format!("{:?}", b));
    }
    assert_eq!(again.packages[0].rpm_requires[0].preinstall, Some(true));
    assert_eq!(again.packages[1].name, "zsh & co <tools>");
}
