use std::io;

use mini_crater::checkout::{describes, find_cargo_toml, is_cargo_toml, FileEntry};
use mini_crater::error::CraterError;

fn file(name: &str, text: Option<&str>) -> FileEntry {
    FileEntry { file_name: Some(name.to_owned()), text: text.map(str::to_owned).ok_or_else(denied) }
}

fn denied() -> io::Error {
    io::Error::new(io::ErrorKind::PermissionDenied, "not for you")
}

fn package(name: &str) -> String {
    format!("[package]\nname = \"{name}\"\nversion = \"0.1.0\"\n")
}

#[test]
fn manifests_are_known_by_their_name() {
    assert!(is_cargo_toml("Cargo.toml"));
    assert!(is_cargo_toml("cargo.toml"));
    assert!(is_cargo_toml("CARGO.TOML"));
    assert!(!is_cargo_toml("Cargo.tomlx"));
    assert!(!is_cargo_toml("Cargo.tom"));
    assert!(!is_cargo_toml("Cargo-toml"));
    assert!(!is_cargo_toml("Cargo.tom\u{29}"));
    assert!(!is_cargo_toml("Car\u{121}o.toml"));
    assert!(!is_cargo_toml(""));
}

#[test]
fn a_manifest_describes_its_package() {
    assert!(describes(&package("a"), "a").unwrap());
    assert!(!describes(&package("a"), "b").unwrap());
    assert!(!describes("[workspace]\nmembers = []\n", "a").unwrap());
    assert!(matches!(describes("[package", "a").err(), Some(CraterError::TomlRead(_))));
}

#[test]
fn the_first_manifest_of_a_package_is_found() {
    let files = || vec![
        FileEntry { file_name: None, text: Err(denied()) },
        file("README.md", None),
        file("Cargo.toml", Some("[workspace]\nmembers = [\"b\", \"a\"]\n")),
        file("cargo.TOML", Some(&package("b"))),
        file("Cargo.toml", Some(&package("a"))),
        file("Cargo.toml", Some(&package("a"))),
        file("Cargo.toml", None),
    ];
    assert_eq!(find_cargo_toml(files(), "a", "/root").unwrap(), 4);
    assert_eq!(find_cargo_toml(files(), "b", "/root").unwrap(), 3);
    match find_cargo_toml(files(), "c", "/root").err().unwrap() {
        CraterError::Io(e) => {
            assert_eq!(e.kind(), io::ErrorKind::PermissionDenied);
            assert_eq!(e.to_string(), "not for you");
        }
        e => panic!("not the reason: {e:?}"),
    }
    assert_eq!(CraterError::Io(denied()).message(), None);
}

#[test]
fn a_search_goes_on_file_by_file() {
    let files = || {
        vec![
            file("Cargo.toml", Some(&package("a"))),
            file("notes", None),
            file("Cargo.toml", Some(&package("b"))),
        ]
    };
    for name in ["a", "b"] {
        let whole = find_cargo_toml(files(), name, "/root").unwrap();
        let hit = files().into_iter().position(|f| match find_cargo_toml(vec![f], name, "/root") {
            Ok(i) => {
                assert_eq!(i, 0);
                true
            }
            Err(e) => {
                assert!(matches!(e, CraterError::NoCargoToml { .. }));
                false
            }
        });
        assert_eq!(hit, Some(whole));
    }
}

#[test]
fn a_broken_manifest_on_the_way_ends_the_search() {
    let files = || vec![
        file("Cargo.toml", Some(&package("a"))),
        file("Cargo.toml", Some("broken")),
        file("Cargo.toml", Some(&package("b"))),
    ];
    assert_eq!(find_cargo_toml(files(), "a", "/root").unwrap(), 0);
    assert!(matches!(
        find_cargo_toml(files(), "b", "/root").err(),
        Some(CraterError::TomlRead(_))
    ));
}

#[test]
fn a_package_that_is_not_there_is_not_found() {
    let files = vec![file("Cargo.toml", Some(&package("a")))];
    let e = find_cargo_toml(files, "b", "/root").err().unwrap();
    assert_eq!(
        e.message().as_deref(),
        Some("Could not find a suitable Cargo toml for b in /root")
    );
    assert!(matches!(e, CraterError::NoCargoToml { .. }));
}
