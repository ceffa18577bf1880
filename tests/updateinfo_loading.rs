use rpmrepo_metadata::checksum::Checksum;
use rpmrepo_metadata::error::MetadataError;
use rpmrepo_metadata::repository::Repository;
use rpmrepo_metadata::updateinfo::UpdateinfoLoader;
use rpmrepo_metadata::xml::XmlEvent;

fn start(name: &str, attrs: &[(&str, &str)]) -> XmlEvent {
    XmlEvent::Start(
        name.to_owned(),
        attrs.iter().map(|(k, v)| (k.to_string(), v.to_string())).collect(),
    )
}

fn end(name: &str) -> XmlEvent {
    XmlEvent::End(name.to_owned())
}

fn element(name: &str, attrs: &[(&str, &str)], body: &str) -> Vec<XmlEvent> {
    vec![start(name, attrs), XmlEvent::Text(body.to_owned()), end(name)]
}

fn advisory(id: &str) -> Vec<XmlEvent> {
    let mut ev = vec![start(
        "update",
        &[("from", "updates@fedoraproject.org"), ("status", "stable"), ("type", "security"), ("version", "2.0")],
    )];
    ev.extend(element("id", &[], id));
    ev.extend(element("title", &[], "bash security update"));
    ev.push(start("issued", &[("date", "2021-10-01 00:00:00")]));
    ev.push(end("issued"));
    ev.extend(element("rights", &[], "Copyright 2021"));
    ev.extend(element("release", &[], "Fedora 35"));
    ev.extend(element("pushcount", &[], "2"));
    ev.extend(element("severity", &[], "Important"));
    ev.extend(element("summary", &[], "fix"));
    ev.extend(element("description", &[], "Fixes CVE-2021-0001."));
    ev.extend(element("solution", &[], "Update."));
    ev.extend(element("reboot_suggested", &[], "True"));
    ev.push(start("references", &[]));
    ev.push(start("reference", &[("href", "https://bugzilla.example/1"), ("id", "1"), ("title", "CVE"), ("type", "bugzilla")]));
    ev.push(end("reference"));
    ev.push(end("references"));
    ev.push(start("pkglist", &[]));
    ev.push(start("collection", &[("short", "F35")]));
    ev.extend(element("name", &[], "Fedora 35"));
    ev.push(start("package", &[("name", "bash"), ("version", "5.1.8"), ("release", "3.fc35"), ("epoch", "0"), ("arch", "x86_64"), ("src", "bash.src.rpm")]));
    ev.extend(element("filename", &[], "bash-5.1.8-3.fc35.x86_64.rpm"));
    ev.extend(element("sum", &[("type", "sha256")], "beef"));
    ev.extend(element("reboot_suggested", &[], "1"));
    ev.push(end("package"));
    ev.push(end("collection"));
    ev.push(end("pkglist"));
    ev.push(end("update"));
    ev
}

fn load(repo: &mut Repository, events: Vec<XmlEvent>) -> Result<(), MetadataError> {
    let mut loader = UpdateinfoLoader::new();
    for e in events {
        loader.feed(repo, e)?;
    }
    loader.feed(repo, XmlEvent::Eof)
}

#[test]
fn advisory_is_read_whole() {
    let mut repo = Repository::new();
    let mut events = vec![start("updates", &[])];
    events.extend(advisory("FEDORA-2021-1"));
    events.extend(advisory("FEDORA-2021-2"));
    events.push(end("updates"));
    load(&mut repo, events).unwrap();
    assert_eq!(repo.updates.len(), 2);
    let u = &repo.updates[0];
    assert_eq!(u.id, "FEDORA-2021-1");
    assert_eq!(u.from, "updates@fedoraproject.org");
    assert_eq!(u.update_type, "security");
    assert_eq!(u.status, "stable");
    assert_eq!(u.version, "2.0");
    assert_eq!(u.title, "bash security update");
    assert_eq!(u.issued_date.as_deref(), Some("2021-10-01 00:00:00"));
    assert_eq!(u.updated_date, None);
    assert_eq!(u.rights, "Copyright 2021");
    assert_eq!(u.release, "Fedora 35");
    assert_eq!(u.pushcount.as_deref(), Some("2"));
    assert_eq!(u.severity, "Important");
    assert_eq!(u.summary, "fix");
    assert_eq!(u.description, "Fixes CVE-2021-0001.");
    assert_eq!(u.solution, "Update.");
    assert!(u.reboot_suggested);
    assert_eq!(u.references.len(), 1);
    assert_eq!(u.references[0].reftype, "bugzilla");
    assert_eq!(u.references[0].href, "https://bugzilla.example/1");
    assert_eq!(u.pkglist.len(), 1);
    let c = &u.pkglist[0];
    assert_eq!(c.shortname, "F35");
    assert_eq!(c.name, "Fedora 35");
    assert_eq!(c.packages.len(), 1);
    let p = &c.packages[0];
    assert_eq!(p.name, "bash");
    assert_eq!(p.version, "5.1.8");
    assert_eq!(p.release, "3.fc35");
    assert_eq!(p.epoch, 0);
    assert_eq!(p.src, "bash.src.rpm");
    assert_eq!(p.filename, "bash-5.1.8-3.fc35.x86_64.rpm");
    assert_eq!(p.checksum, Checksum::Sha256("beef".to_owned()));
    assert!(p.reboot_suggested);
    assert_eq!(repo.updates[1].id, "FEDORA-2021-2");
}

#[test]
fn advisory_errors() {
    let mut repo = Repository::new();
    let mut events = advisory("X");
    events.pop();
    match load(&mut repo, events) {
        Err(MetadataError::TruncatedRecordError) => {}
        other => panic!("unexpected {:?}", other),
    }
    let events = vec![
        start("update", &[]),
        start("collection", &[]),
        start("package", &[("epoch", "4294967296")]),
    ];
    match load(&mut repo, events) {
        Err(MetadataError::IntFieldParseError(t)) => assert_eq!(t, "4294967296"),
        other => panic!("unexpected {:?}", other),
    }
    let events = vec![
        start("update", &[]),
        start("collection", &[]),
        start("package", &[]),
        start("sum", &[("type", "md5")]),
        XmlEvent::Text("x".to_owned()),
        end("sum"),
    ];
    match load(&mut repo, events) {
        Err(MetadataError::UnsupportedChecksumTypeError(t)) => assert_eq!(t, "md5"),
        other => panic!("unexpected {:?}", other),
    }
    assert!(repo.updates.is_empty());
}
