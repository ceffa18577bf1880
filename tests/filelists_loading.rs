use rpmrepo_metadata::checksum::Checksum;
use rpmrepo_metadata::error::MetadataError;
use rpmrepo_metadata::evr::EVR;
use rpmrepo_metadata::filelists::FilelistsLoader;
use rpmrepo_metadata::kinds::FileType;
use rpmrepo_metadata::package::Package;
use rpmrepo_metadata::xml::XmlEvent;
use rpmrepo_metadata::repository::Repository;

fn start(name: &str, attrs: &[(&str, &str)]) -> XmlEvent {
    XmlEvent::Start(
        name.to_owned(),
        attrs.iter().map(|(k, v)| (k.to_string(), v.to_string())).collect(),
    )
}

fn end(name: &str) -> XmlEvent {
    XmlEvent::End(name.to_owned())
}

fn record(name: &str, ver: &str, files: &[(Option<&str>, &str)]) -> Vec<XmlEvent> {
    let mut ev = vec![start("package", &[("pkgid", "x"), ("name", name), ("arch", "x86_64")])];
    ev.push(start("version", &[("epoch", "0"), ("ver", ver), ("rel", "1")]));
    ev.push(end("version"));
    for (kind, path) in files {
        match kind {
            Some(k) => ev.push(start("file", &[("type", k)])),
            None => ev.push(start("file", &[])),
        }
        ev.push(XmlEvent::Text(path.to_string()));
        ev.push(end("file"));
    }
    ev.push(end("package"));
    ev
}

fn primary_repo() -> Repository {
    let mut repo = Repository::new();
    for (name, ver) in [("bash", "5.1"), ("zsh", "5.8")].iter() {
        repo.add_package(Package::new(
            name,
            &EVR::new("0", ver, "1"),
            "x86_64",
            &Checksum::Sha256("00".to_owned()),
            "Packages/x.rpm",
        ));
    }
    repo
}

fn load(repo: &mut Repository, events: Vec<XmlEvent>) -> Result<(), MetadataError> {
    let mut loader = FilelistsLoader::new();
    for e in events {
        loader.feed(repo, e)?;
    }
    loader.feed(repo, XmlEvent::Eof)
}

#[test]
fn filelists_merge_by_nevra_without_duplicates() {
    let mut repo = primary_repo();
    let mut events = vec![start("filelists", &[("packages", "2")])];
    events.extend(record("zsh", "5.8", &[(None, "/bin/zsh"), (Some("dir"), "/usr/share/zsh")]));
    events.extend(record("bash", "5.1", &[(Some("ghost"), "/var/log/bash")]));
    events.push(end("filelists"));
    load(&mut repo, events).unwrap();
    assert_eq!(repo.packages.len(), 2);
    let zsh = &repo.packages[1];
    assert_eq!(zsh.rpm_files.len(), 2);
    assert_eq!(zsh.rpm_files[0].filetype, FileType::File);
    assert_eq!(zsh.rpm_files[0].path, "/bin/zsh");
    assert_eq!(zsh.rpm_files[1].filetype, FileType::Dir);
    let bash = &repo.packages[0];
    assert_eq!(bash.rpm_files.len(), 1);
    assert_eq!(bash.rpm_files[0].filetype, FileType::GhostFile);
    assert_eq!(bash.checksum, Checksum::Sha256("00".to_owned()));
}

#[test]
fn filelists_record_without_package_is_skipped() {
    let mut repo = primary_repo();
    load(&mut repo, record("fish", "3.3", &[(None, "/bin/fish")])).unwrap();
    assert_eq!(repo.packages.len(), 2);
    assert!(repo.packages.iter().all(|p| p.rpm_files.is_empty()));
}

#[test]
fn filelists_unknown_file_type_is_reported() {
    let mut repo = primary_repo();
    match load(&mut repo, record("bash", "5.1", &[(Some("socket"), "/run/x")])) {
        Err(MetadataError::UnsupportedFileTypeError(t)) => assert_eq!(t, "socket"),
        other => panic!("unexpected {:?}", other),
    }
}

#[test]
fn filelists_record_needs_name_and_arch() {
    let mut repo = primary_repo();
    let events = vec![start("package", &[("arch", "x86_64")]), end("package")];
    match load(&mut repo, events) {
        Err(MetadataError::MissingAttributeError(a)) => assert_eq!(a, "name"),
        other => panic!("unexpected {:?}", other),
    }
    let events = vec![start("package", &[("name", "bash")]), end("package")];
    match load(&mut repo, events) {
        Err(MetadataError::MissingAttributeError(a)) => assert_eq!(a, "arch"),
        other => panic!("unexpected {:?}", other),
    }
}

#[test]
fn filelists_truncated_document() {
    let mut repo = primary_repo();
    let mut events = record("bash", "5.1", &[(None, "/bin/bash")]);
    events.pop();
    match load(&mut repo, events) {
        Err(MetadataError::TruncatedRecordError) => {}
        other => panic!("unexpected {:?}", other),
    }
    assert!(repo.packages[0].rpm_files.is_empty());
}
