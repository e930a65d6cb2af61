use librpm::db::{find, installed_packages, ConfigRead, Db, DbBuilder, Index, Opening};
use librpm::error::{Error, ErrorKind};
use librpm::iterator::{CursorState, MatchIterator};
use librpm::package::Package;
use librpm::tag::Tag;

fn package(name: &str, version: &str, summary: &str) -> Package {
    Package {
        name: name.to_string(),
        version: version.to_string(),
        license: "GPLv2+".to_string(),
        summary: summary.to_string(),
        description: String::new(),
    }
}

fn read_stage(opening: Opening) -> ConfigRead {
    match opening {
        Opening::ReadConfig(read) => read,
        Opening::CheckPath(_) => panic!("expected the configuration to be read at once"),
    }
}

fn builder_with(path: &[u8]) -> DbBuilder {
    let mut builder = Db::open_with();
    builder.with_config(path.to_vec());
    builder
}

#[test]
fn db_opens() {
    let read = read_stage(Db::open());
    assert!(read.path_ref().is_none());
    read.resolve(0).unwrap();
}

#[test]
fn default_read_failure_is_config_error() {
    let read = read_stage(DbBuilder::new().open());
    match read.resolve(1) {
        Err(Error::ReadConfig { path, status }) => {
            assert_eq!(path, None);
            assert_eq!(status, 1);
        }
        _ => panic!("expected a read failure"),
    }
}

#[test]
fn missing_path_fails_naming_it() {
    let path = b"/nonexistent/rpmrc";
    match builder_with(path).open() {
        Opening::CheckPath(check) => {
            assert_eq!(check.path_ref().as_slice(), path);
            match check.resolve(false) {
                Err(e) => {
                    assert_eq!(e.kind(), ErrorKind::Config);
                    match e {
                        Error::NoSuchFile { path: p } => assert_eq!(p.as_slice(), path),
                        _ => panic!("expected a missing file"),
                    }
                }
                Ok(_) => panic!("a missing file must not be read"),
            }
        }
        Opening::ReadConfig(_) => panic!("an explicit path is checked first"),
    }
}

#[test]
fn nul_in_path_is_config_error() {
    let path = b"/etc/rp\0mrc";
    for exists in [false, true] {
        match builder_with(path).open() {
            Opening::CheckPath(check) => match check.resolve(exists) {
                Err(e) => {
                    assert_eq!(e.kind(), ErrorKind::Config);
                    if exists {
                        match e {
                            Error::InvalidPath { path: p, position } => {
                                assert_eq!(p.as_slice(), path);
                                assert_eq!(position, 7);
                            }
                            _ => panic!("expected an invalid path"),
                        }
                    }
                }
                Ok(_) => panic!("a path with a null byte must not be read"),
            },
            Opening::ReadConfig(_) => panic!("an explicit path is checked first"),
        }
    }
}

#[test]
fn existing_path_is_read_then_opens() {
    let path = b"/usr/lib/rpm/rpmrc";
    match builder_with(path).open() {
        Opening::CheckPath(check) => {
            let read = check.resolve(true).ok().unwrap();
            assert_eq!(read.path_ref().unwrap().as_slice(), path);
            assert!(read.resolve(0).is_ok());
        }
        Opening::ReadConfig(_) => panic!("an explicit path is checked first"),
    }
}

#[test]
fn read_failure_names_path() {
    let path = b"/usr/lib/rpm/rpmrc";
    match builder_with(path).open() {
        Opening::CheckPath(check) => {
            let read = check.resolve(true).ok().unwrap();
            match read.resolve(-1) {
                Err(Error::ReadConfig { path: Some(p), status }) => {
                    assert_eq!(p.as_slice(), path);
                    assert_eq!(status, -1);
                }
                _ => panic!("expected a read failure"),
            }
        }
        Opening::ReadConfig(_) => panic!("an explicit path is checked first"),
    }
}

#[test]
fn index_tags_are_distinct() {
    let all = [Index::Name, Index::Version, Index::License, Index::Summary, Index::Description];
    let numbers: Vec<i32> = all.iter().map(|i| i.tag().number()).collect();
    assert_eq!(numbers, vec![1000, 1001, 1014, 1004, 1005]);
    for a in 0..all.len() {
        for b in 0..all.len() {
            if a != b {
                assert_ne!(all[a].tag(), all[b].tag());
                assert_ne!(numbers[a], numbers[b]);
            }
        }
    }
    assert_eq!(Tag::from(Index::Summary), Tag::Summary);
}

#[test]
fn installed_packages_drain_then_end() {
    let mut iter = installed_packages();
    assert_eq!(iter.tag(), Tag::Name);
    assert!(iter.key().is_none());
    let records = vec![package("bash", "5.1", "shell"), package("rpm", "4.14.0", "rpm")];
    let mut seen = Vec::new();
    let mut source = records.into_iter();
    while iter.wants_record() {
        match iter.next(source.next()) {
            Some(p) => seen.push(p.name),
            None => break,
        }
    }
    assert_eq!(seen, vec!["bash".to_string(), "rpm".to_string()]);
    assert!(!iter.wants_record());
    assert!(iter.next(Some(package("late", "1", "late"))).is_none());
}

#[test]
fn partial_consumption_releases_once() {
    let mut iter = Index::Name.find("rpm-devel");
    let first = iter.next(Some(package("rpm-devel", "4.14.0", "RPM development files")));
    assert_eq!(first.unwrap().name, "rpm-devel");
    assert!(iter.wants_record());
    assert!(iter.release());
    assert!(!iter.release());
    assert!(!iter.wants_record());
    assert!(iter.next(Some(package("other", "1", "other"))).is_none());
}

#[test]
fn exhaustion_is_idempotent() {
    let mut cursor = MatchIterator::new(Tag::Version, Some("1.0"));
    assert_eq!(cursor.state(), CursorState::Created);
    assert_eq!(cursor.advance::<u32>(None), None);
    for record in [None, Some(7u32), Some(8), None] {
        assert_eq!(cursor.state(), CursorState::Exhausted);
        assert!(!cursor.wants_record());
        assert_eq!(cursor.advance(record), None);
    }
    assert_eq!(cursor.state(), CursorState::Exhausted);
    assert!(cursor.release());
    assert_eq!(cursor.state(), CursorState::Released);
}

#[test]
fn find_rpm_devel_yields_one_package() {
    let mut matches = Index::Name.find("rpm-devel");
    assert_eq!(matches.tag(), Tag::Name);
    assert_eq!(matches.key(), Some("rpm-devel"));
    assert!(matches.wants_record());
    let found = matches.next(Some(package("rpm-devel", "4.14.0", "RPM development files"))).unwrap();
    assert_eq!(found.name, "rpm-devel");
    assert_eq!(found.version, "4.14.0");
    assert_eq!(found.summary, "RPM development files");
    assert!(matches.wants_record());
    assert!(matches.next(None).is_none());
    assert!(!matches.wants_record());
}

#[test]
fn find_nonexistent_package_is_empty() {
    let mut matches = find(Index::Name, "nonexistent-package-xyz");
    assert_eq!(matches.key(), Some("nonexistent-package-xyz"));
    assert!(matches.next(None).is_none());
    assert!(!matches.wants_record());
    assert!(matches.release());
}

#[test]
fn free_find_matches_index_find() {
    let a = find(Index::License, "MIT");
    let b = Index::License.find("MIT");
    assert_eq!(a.tag(), Tag::License);
    assert_eq!(a.tag(), b.tag());
    assert_eq!(a.key(), b.key());
    assert_eq!(Index::Description.find("x").tag().number(), 1005);
}
