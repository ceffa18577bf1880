use rpmrepo_metadata::checksum::Checksum;
use rpmrepo_metadata::error::MetadataError;
use rpmrepo_metadata::evr::EVR;
use rpmrepo_metadata::filelists::{write_filelists, FilelistsLoader};
use rpmrepo_metadata::kinds::FileType;
use rpmrepo_metadata::other::{write_others, OtherLoader};
use rpmrepo_metadata::package::{Changelog, Package, PackageFile, Requirement};
use rpmrepo_metadata::primary::PrimaryLoader;
use rpmrepo_metadata::primary_write::write_primary;
use rpmrepo_metadata::repository::Repository;
use rpmrepo_metadata::xml::XmlEvent;

fn feed_all<F: FnMut(&mut Repository, XmlEvent) -> Result<(), MetadataError>>(
    repo: &mut Repository,
    events: Vec<XmlEvent>,
    mut f: F,
) {
    for e in events {
        f(repo, e).unwrap();
    }
    f(repo, XmlEvent::Eof).unwrap();
}

fn load_all(primary: Vec<XmlEvent>, filelists: Vec<XmlEvent>, other: Vec<XmlEvent>) -> Repository {
    let mut repo = Repository::new();
    let mut p = PrimaryLoader::new();
    feed_all(&mut repo, primary, |r, e| p.feed(r, e));
    let mut f = FilelistsLoader::new();
    feed_all(&mut repo, filelists, |r, e| f.feed(r, e));
    let mut o = OtherLoader::new();
    feed_all(&mut repo, other, |r, e| o.feed(r, e));
    repo
}

fn req(name: &str, flags: Option<&str>, ver: Option<&str>, pre: Option<bool>) -> Requirement {
    Requirement {
        name: name.to_owned(),
        flags: flags.map(|s| s.to_owned()),
        epoch: ver.map(|_| "0".to_owned()),
        version: ver.map(|s| s.to_owned()),
        release: None,
        preinstall: pre,
    }
}

fn sample_repository() -> Repository {
    let mut repo = Repository::new();
    let mut a = Package::new(
        "bash",
        &EVR::new("0", "5.1.8", "2.fc35"),
        "x86_64",
        &Checksum::Sha256("aa11".to_owned()),
        "Packages/b/bash.rpm",
    );
    a.summary = "The GNU Bourne Again shell".to_owned();
    a.description = "Bash is the shell.\nIt runs commands.".to_owned();
    a.packager = "Fedora Project".to_owned();
    a.url = "https://www.gnu.org/software/bash".to_owned();
    a.time.file = 1633000000;
    a.time.build = 1632000000;
    a.size.package = 1;
    a.size.installed = 22;
    a.size.archive = 333;
    a.rpm_license = "GPLv3+".to_owned();
    a.rpm_sourcerpm = "bash-5.1.8-2.fc35.src.rpm".to_owned();
    a.rpm_header_range.start = 4504;
    a.rpm_header_range.end = 62060;
    a.rpm_provides = vec![req("bash", Some("EQ"), Some("5.1.8"), None), req("/bin/sh", None, None, None)];
    a.rpm_requires = vec![req("filesystem", None, None, Some(true)), req("libc", Some("GE"), Some("2.34"), Some(false))];
    a.rpm_recommends = vec![req("bash-completion", None, None, None)];
    a.rpm_files = vec![
        PackageFile { filetype: FileType::File, path: "/usr/bin/bash".to_owned() },
        PackageFile { filetype: FileType::Dir, path: "/etc/skel".to_owned() },
        PackageFile { filetype: FileType::GhostFile, path: "/var/log/x".to_owned() },
    ];
    a.rpm_changelogs = vec![
        Changelog { author: "Z <z@example.com> - 5.1.8-2".to_owned(), date: 1630000000, description: "- rebuilt".to_owned() },
        Changelog { author: "A <a@example.com> - 5.1.8-1".to_owned(), date: 1620000000, description: "- new upstream".to_owned() },
    ];
    repo.add_package(a);
    let b = Package::new("zsh", &EVR::new("1", "5.8", "7"), "aarch64", &Checksum::Sha1("bb".to_owned()), "z.rpm");
    repo.add_package(b);
    repo
}

#[test]
fn repository_round_trips_through_its_three_documents() {
    let repo = sample_repository();
    let loaded = load_all(write_primary(&repo.packages), write_filelists(&repo.packages), write_others(&repo.packages));
    assert_eq!(loaded.packages.len(), repo.packages.len());
    for (a, b) in repo.packages.iter().zip(loaded.packages.iter()) {
        assert_eq!(format!("{:?}", a), format!("{:?}", b));
    }
    let again = load_all(
        write_primary(&loaded.packages),
        write_filelists(&loaded.packages),
        write_others(&loaded.packages),
    );
    for (a, b) in loaded.packages.iter().zip(again.packages.iter()) {
        assert_eq!(format!("{:?}", a), format!("{:?}", b));
    }
}

#[test]
fn filelists_and_other_documents_name_each_package() {
    let repo = sample_repository();
    let f = write_filelists(&repo.packages);
    match &f[1] {
        XmlEvent::Start(name, attrs) => {
            assert_eq!(name, "package");
            assert_eq!(attrs[0], ("pkgid".to_owned(), "aa11".to_owned()));
            assert_eq!(attrs[1], ("name".to_owned(), "bash".to_owned()));
        }
        _ => panic!("record must open with its package element"),
    }
    let o = write_others(&repo.packages);
    match &o[0] {
        XmlEvent::Start(name, attrs) => {
            assert_eq!(name, "otherdata");
            assert_eq!(attrs[1], ("packages".to_owned(), "2".to_owned()));
        }
        _ => panic!("document must open with its root"),
    }
}
