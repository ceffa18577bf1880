use rpmrepo_metadata::checksum::Checksum;
use rpmrepo_metadata::evr::EVR;
use rpmrepo_metadata::kinds::FileType;
use rpmrepo_metadata::package::{Changelog, Package, PackageFile};
use rpmrepo_metadata::records::{DistroTag, RepoMdRecord, UpdateRecord};
use rpmrepo_metadata::repository::Repository;

fn pkg(name: &str, version: &str) -> Package {
    Package::new(
        name,
        &EVR::new("0", version, "1"),
        "x86_64",
        &Checksum::Sha256(format!("{}-{}", name, version)),
        &format!("Packages/{}-{}.rpm", name, version),
    )
}

fn file(path: &str, filetype: FileType) -> PackageFile {
    PackageFile { filetype, path: path.to_owned() }
}

fn record(mdtype: &str, href: &str) -> RepoMdRecord {
    RepoMdRecord {
        mdtype: mdtype.to_owned(),
        location_href: href.to_owned(),
        timestamp: 0,
        size: Some(10),
        checksum: Checksum::Sha256("c".to_owned()),
        open_size: Some(30),
        open_checksum: Some(Checksum::Sha256("o".to_owned())),
        header_size: None,
        header_checksum: None,
        database_version: None,
    }
}

#[test]
fn new_package_sets_identity_and_leaves_rest_empty() {
    let p = pkg("bash", "5.1");
    assert_eq!(p.name, "bash");
    assert_eq!(p.arch, "x86_64");
    assert_eq!(p.evr.version, "5.1");
    assert_eq!(p.checksum, Checksum::Sha256("bash-5.1".to_owned()));
    assert_eq!(p.location_href, "Packages/bash-5.1.rpm");
    assert_eq!(p.summary, "");
    assert_eq!(p.time.build, 0);
    assert_eq!(p.size.installed, 0);
    assert!(p.rpm_requires.is_empty());
    assert!(p.rpm_files.is_empty());
    assert!(p.rpm_changelogs.is_empty());
    let n = p.nevra();
    assert_eq!(n.name, "bash");
    assert_eq!(n.arch, "x86_64");
    assert_eq!(n.evr.release, "1");
}

#[test]
fn filelists_merge_into_the_matching_package() {
    let mut repo = Repository::new();
    repo.add_package(pkg("bash", "5.1"));
    repo.add_package(pkg("zsh", "5.8"));
    let r = repo.merge_files(
        "zsh",
        &EVR::new("0", "5.8", "1"),
        "x86_64",
        vec![file("/bin/zsh", FileType::File), file("/etc/zsh", FileType::Dir)],
    );
    assert_eq!(r, Some(1));
    assert_eq!(repo.packages.len(), 2);
    assert_eq!(repo.packages[1].rpm_files.len(), 2);
    assert_eq!(repo.packages[1].rpm_files[0].path, "/bin/zsh");
    assert_eq!(repo.packages[1].rpm_files[1].filetype, FileType::Dir);
    assert!(repo.packages[0].rpm_files.is_empty());

    let r = repo.merge_files("zsh", &EVR::new("0", "5.8", "1"), "x86_64", vec![file("/x", FileType::GhostFile)]);
    assert_eq!(r, Some(1));
    assert_eq!(repo.packages[1].rpm_files.len(), 3);
    assert_eq!(repo.packages[1].rpm_files[2].path, "/x");
}

#[test]
fn merge_without_matching_identity_changes_nothing() {
    let mut repo = Repository::new();
    repo.add_package(pkg("bash", "5.1"));
    let r = repo.merge_files("bash", &EVR::new("0", "5.2", "1"), "x86_64", vec![file("/bin/bash", FileType::File)]);
    assert_eq!(r, None);
    let r = repo.merge_files("bash", &EVR::new("0", "5.1", "1"), "noarch", vec![file("/bin/bash", FileType::File)]);
    assert_eq!(r, None);
    assert_eq!(repo.packages.len(), 1);
    assert!(repo.packages[0].rpm_files.is_empty());
}

#[test]
fn changelogs_keep_their_order() {
    let mut repo = Repository::new();
    repo.add_package(pkg("bash", "5.1"));
    let entries = vec![
        Changelog { author: "a".to_owned(), date: 30, description: "third".to_owned() },
        Changelog { author: "b".to_owned(), date: 10, description: "first".to_owned() },
    ];
    let r = repo.merge_changelogs("bash", &EVR::new("0", "5.1", "1"), "x86_64", entries);
    assert_eq!(r, Some(0));
    let logs = &repo.packages[0].rpm_changelogs;
    assert_eq!(logs.len(), 2);
    assert_eq!(logs[0].date, 30);
    assert_eq!(logs[1].description, "first");
}

#[test]
fn find_package_returns_the_first_match() {
    let mut repo = Repository::new();
    repo.add_package(pkg("a", "1"));
    repo.add_package(pkg("b", "1"));
    repo.add_package(pkg("b", "1"));
    assert_eq!(repo.find_package("b", &EVR::new("0", "1", "1"), "x86_64"), Some(1));
    assert_eq!(repo.find_package("b", &EVR::new("", "1", "1"), "x86_64"), None);
    assert_eq!(repo.find_package("c", &EVR::new("0", "1", "1"), "x86_64"), None);
}

#[test]
fn index_records_are_keyed_by_type() {
    let mut repo = Repository::new();
    repo.set_record(record("primary", "repodata/primary.xml.gz"));
    repo.set_record(record("filelists", "repodata/filelists.xml.gz"));
    repo.set_record(record("primary", "repodata/primary2.xml.gz"));
    assert_eq!(repo.records.len(), 2);
    assert_eq!(repo.records[0].location_href, "repodata/primary2.xml.gz");
    assert_eq!(repo.find_record("filelists"), Some(1));
    assert_eq!(repo.find_record("other"), None);
    let r = &repo.records[0];
    assert_eq!(r.size, Some(10));
    assert_eq!(r.open_size, Some(30));
    assert_ne!(r.open_checksum, Some(r.checksum.clone()));
}

#[test]
fn updates_keep_load_order() {
    let mut repo = Repository::new();
    for id in ["FEDORA-1", "FEDORA-2"].iter() {
        repo.add_update(UpdateRecord {
            from: String::new(),
            update_type: "security".to_owned(),
            status: String::new(),
            version: String::new(),
            id: id.to_string(),
            title: String::new(),
            issued_date: None,
            updated_date: None,
            rights: String::new(),
            release: String::new(),
            pushcount: None,
            severity: String::new(),
            summary: String::new(),
            description: String::new(),
            solution: String::new(),
            reboot_suggested: false,
            references: Vec::new(),
            pkglist: Vec::new(),
        });
    }
    assert_eq!(repo.updates.len(), 2);
    assert_eq!(repo.updates[1].id, "FEDORA-2");
}

#[test]
fn distro_tag_holds_its_parts() {
    let t = DistroTag::new("Fedora 36".to_owned(), Some("cpe:/o:fedoraproject:fedora:36".to_owned()));
    assert_eq!(t.name, "Fedora 36");
    assert_eq!(t.cpeid.as_deref(), Some("cpe:/o:fedoraproject:fedora:36"));
}
