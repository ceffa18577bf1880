use rpmrepo_metadata::checksum::Checksum;
use rpmrepo_metadata::error::MetadataError;
use rpmrepo_metadata::evr::EVR;
use rpmrepo_metadata::other::OtherLoader;
use rpmrepo_metadata::package::Package;
use rpmrepo_metadata::xml::XmlEvent;
use rpmrepo_metadata::repository::Repository;
use rpmrepo_metadata::text::parse_u64;

fn start(name: &str, attrs: &[(&str, &str)]) -> XmlEvent {
    XmlEvent::Start(
        name.to_owned(),
        attrs.iter().map(|(k, v)| (k.to_string(), v.to_string())).collect(),
    )
}

fn end(name: &str) -> XmlEvent {
    XmlEvent::End(name.to_owned())
}

fn record(entries: &[(&str, &str, &str)]) -> Vec<XmlEvent> {
    let mut ev = vec![start("package", &[("pkgid", "x"), ("name", "bash"), ("arch", "x86_64")])];
    ev.push(start("version", &[("epoch", "0"), ("ver", "5.1"), ("rel", "1")]));
    ev.push(end("version"));
    for (author, date, text) in entries {
        ev.push(start("changelog", &[("author", author), ("date", date)]));
        ev.push(XmlEvent::Text(text.to_string()));
        ev.push(end("changelog"));
    }
    ev.push(end("package"));
    ev
}

fn repo() -> Repository {
    let mut repo = Repository::new();
    repo.add_package(Package::new("bash", &EVR::new("0", "5.1", "1"), "x86_64", &Checksum::Sha1("1".to_owned()), "b.rpm"));
    repo
}

fn load(repo: &mut Repository, events: Vec<XmlEvent>) -> Result<(), MetadataError> {
    let mut loader = OtherLoader::new();
    for e in events {
        loader.feed(repo, e)?;
    }
    loader.feed(repo, XmlEvent::Eof)
}

#[test]
fn changelogs_merge_in_document_order() {
    let mut r = repo();
    load(&mut r, record(&[("Zed <z@x> - 5.1-1", "1600000000", "- update"), ("Amy <a@x> - 5.0-1", "1500000000", "- initial")]))
        .unwrap();
    assert_eq!(r.packages.len(), 1);
    let logs = &r.packages[0].rpm_changelogs;
    assert_eq!(logs.len(), 2);
    assert_eq!(logs[0].author, "Zed <z@x> - 5.1-1");
    assert_eq!(logs[0].date, 1600000000);
    assert_eq!(logs[0].description, "- update");
    assert_eq!(logs[1].date, 1500000000);
}

#[test]
fn changelog_date_must_be_numeric() {
    let mut r = repo();
    match load(&mut r, record(&[("a", "yesterday", "x")])) {
        Err(MetadataError::IntFieldParseError(t)) => assert_eq!(t, "yesterday"),
        other => panic!("unexpected {:?}", other),
    }
    assert!(r.packages[0].rpm_changelogs.is_empty());
}

#[test]
fn changelog_for_unknown_package_is_skipped() {
    let mut r = repo();
    let mut events = record(&[("a", "1", "x")]);
    events[0] = start("package", &[("name", "bash"), ("arch", "aarch64")]);
    load(&mut r, events).unwrap();
    assert!(r.packages[0].rpm_changelogs.is_empty());
}

#[test]
fn decimal_parsing() {
    assert_eq!(parse_u64("0"), Some(0));
    assert_eq!(parse_u64("007"), Some(7));
    assert_eq!(parse_u64("18446744073709551615"), Some(u64::MAX));
    assert_eq!(parse_u64("18446744073709551616"), None);
    assert_eq!(parse_u64(""), None);
    assert_eq!(parse_u64("12a"), None);
    assert_eq!(parse_u64("-1"), None);
}
