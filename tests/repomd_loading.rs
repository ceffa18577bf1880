use rpmrepo_metadata::checksum::Checksum;
use rpmrepo_metadata::error::MetadataError;
use rpmrepo_metadata::xml::XmlEvent;
use rpmrepo_metadata::records::RepoMdRecord;
use rpmrepo_metadata::repomd::{write_record, write_repomd, RepomdLoader};
use rpmrepo_metadata::repository::Repository;

fn start(name: &str, attrs: &[(&str, &str)]) -> XmlEvent {
    XmlEvent::Start(
        name.to_owned(),
        attrs.iter().map(|(k, v)| (k.to_string(), v.to_string())).collect(),
    )
}

fn end(name: &str) -> XmlEvent {
    XmlEvent::End(name.to_owned())
}

fn element(name: &str, attrs: &[(&str, &str)], body: &str) -> Vec<XmlEvent> {
    vec![start(name, attrs), XmlEvent::Text(body.to_owned()), end(name)]
}

fn data(mdtype: &str, with_checksum: bool) -> Vec<XmlEvent> {
    let mut ev = vec![start("data", &[("type", mdtype)])];
    if with_checksum {
        ev.extend(element("checksum", &[("type", "sha256")], "stored"));
    }
    ev.extend(element("open-checksum", &[("type", "sha256")], "opened"));
    ev.push(start("location", &[("href", "repodata/primary.xml.gz")]));
    ev.push(end("location"));
    ev.extend(element("timestamp", &[], "1614969700"));
    ev.extend(element("size", &[], "1234"));
    ev.extend(element("open-size", &[], "5678"));
    ev.push(end("data"));
    ev
}

fn load(repo: &mut Repository, events: Vec<XmlEvent>) -> Result<(), MetadataError> {
    let mut loader = RepomdLoader::new();
    for e in events {
        loader.feed(repo, e)?;
    }
    loader.feed(repo, XmlEvent::Eof)
}

#[test]
fn open_checksum_and_size_stay_apart_from_stored_ones() {
    let mut repo = Repository::new();
    let mut events = vec![start("repomd", &[])];
    events.extend(element("revision", &[], "1614969700"));
    events.extend(data("primary", true));
    events.push(end("repomd"));
    load(&mut repo, events).unwrap();
    assert_eq!(repo.records.len(), 1);
    let r = &repo.records[0];
    assert_eq!(r.mdtype, "primary");
    assert_eq!(r.location_href, "repodata/primary.xml.gz");
    assert_eq!(r.timestamp, 1614969700);
    assert_eq!(r.checksum, Checksum::Sha256("stored".to_owned()));
    assert_eq!(r.open_checksum, Some(Checksum::Sha256("opened".to_owned())));
    assert_eq!(r.size, Some(1234));
    assert_eq!(r.open_size, Some(5678));
    assert_eq!(r.header_size, None);
    assert_eq!(r.header_checksum, None);
    assert_eq!(r.database_version, None);
}

#[test]
fn repomd_records_are_keyed_by_type() {
    let mut repo = Repository::new();
    let mut events = data("primary", true);
    events.extend(data("filelists", true));
    events.extend(data("primary", true));
    load(&mut repo, events).unwrap();
    assert_eq!(repo.records.len(), 2);
    assert_eq!(repo.records[1].mdtype, "filelists");
}

#[test]
fn repomd_database_version_and_header_fields() {
    let mut repo = Repository::new();
    let mut events = vec![start("data", &[("type", "primary_db")])];
    events.extend(element("checksum", &[("type", "sha1")], "c"));
    events.extend(element("header-checksum", &[("type", "sha512")], "h"));
    events.extend(element("header-size", &[], "99"));
    events.extend(element("database_version", &[], "10"));
    events.push(end("data"));
    load(&mut repo, events).unwrap();
    let r = &repo.records[0];
    assert_eq!(r.header_checksum, Some(Checksum::Sha512("h".to_owned())));
    assert_eq!(r.header_size, Some(99));
    assert_eq!(r.database_version, Some(10));
    assert_eq!(r.open_size, None);
}

#[test]
fn repomd_errors() {
    let mut repo = Repository::new();
    match load(&mut repo, data("primary", false)) {
        Err(MetadataError::MissingFieldError(f)) => assert_eq!(f, "checksum"),
        other => panic!("unexpected {:?}", other),
    }
    match load(&mut repo, vec![start("data", &[])]) {
        Err(MetadataError::MissingAttributeError(a)) => assert_eq!(a, "type"),
        other => panic!("unexpected {:?}", other),
    }
    let mut events = vec![start("data", &[("type", "other")])];
    events.extend(element("size", &[], "12kB"));
    match load(&mut repo, events) {
        Err(MetadataError::IntFieldParseError(t)) => assert_eq!(t, "12kB"),
        other => panic!("unexpected {:?}", other),
    }
    let mut events = vec![start("data", &[("type", "other")])];
    events.extend(element("database_version", &[], "4294967296"));
    match load(&mut repo, events) {
        Err(MetadataError::IntFieldParseError(t)) => assert_eq!(t, "4294967296"),
        other => panic!("unexpected {:?}", other),
    }
    let mut events = vec![start("data", &[("type", "other")])];
    events.extend(element("open-checksum", &[("type", "md5")], "x"));
    match load(&mut repo, events) {
        Err(MetadataError::UnsupportedChecksumTypeError(t)) => assert_eq!(t, "md5"),
        other => panic!("unexpected {:?}", other),
    }
    let mut events = data("other", true);
    events.pop();
    match load(&mut repo, events) {
        Err(MetadataError::TruncatedRecordError) => {}
        other => panic!("unexpected {:?}", other),
    }
    assert!(repo.records.is_empty());
}

fn full_record(mdtype: &str) -> RepoMdRecord {
    RepoMdRecord {
        mdtype: mdtype.to_owned(),
        location_href: format!("repodata/{}.xml.gz", mdtype),
        timestamp: 1614969700,
        size: Some(2051),
        checksum: Checksum::Sha256("ab12".to_owned()),
        open_size: Some(9800),
        open_checksum: Some(Checksum::Sha256("cd34".to_owned())),
        header_size: None,
        header_checksum: None,
        database_version: None,
    }
}

#[test]
fn repomd_round_trip_keeps_open_values_apart() {
    let mut repo = Repository::new();
    repo.set_record(full_record("primary"));
    let mut db = full_record("primary_db");
    db.open_checksum = None;
    db.open_size = None;
    db.header_checksum = Some(Checksum::Sha1("ef".to_owned()));
    db.header_size = Some(0);
    db.database_version = Some(10);
    repo.set_record(db);

    let events = write_repomd(&repo);
    match &events[0] {
        XmlEvent::Start(name, attrs) => {
            assert_eq!(name, "repomd");
            assert_eq!(attrs[0].1, "http://linux.duke.edu/metadata/repo");
            assert_eq!(attrs[1].0, "xmlns:rpm");
        }
        _ => panic!("document must open with its root"),
    }

    let mut loaded = Repository::new();
    load(&mut loaded, events).unwrap();
    assert_eq!(loaded.records.len(), 2);
    let a = &loaded.records[0];
    assert_eq!(a.mdtype, "primary");
    assert_eq!(a.location_href, "repodata/primary.xml.gz");
    assert_eq!(a.timestamp, 1614969700);
    assert_eq!(a.checksum, Checksum::Sha256("ab12".to_owned()));
    assert_eq!(a.size, Some(2051));
    assert_eq!(a.open_checksum, Some(Checksum::Sha256("cd34".to_owned())));
    assert_eq!(a.open_size, Some(9800));
    assert_eq!(a.header_size, None);
    let b = &loaded.records[1];
    assert_eq!(b.open_checksum, None);
    assert_eq!(b.open_size, None);
    assert_eq!(b.header_checksum, Some(Checksum::Sha1("ef".to_owned())));
    assert_eq!(b.header_size, Some(0));
    assert_eq!(b.database_version, Some(10));
}

#[test]
fn numbers_are_written_in_decimal() {
    let mut out = Vec::new();
    let mut r = full_record("other");
    r.timestamp = 0;
    r.size = Some(u64::MAX);
    write_record(&mut out, &r);
    let texts: Vec<String> = out
        .iter()
        .filter_map(|e| match e {
            XmlEvent::Text(t) => Some(t.clone()),
            _ => None,
        })
        .collect();
    assert_eq!(texts, vec!["ab12", "cd34", "0", "18446744073709551615", "9800"]);
}
