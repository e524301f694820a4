use cargo_util_schemas::manifest::{InheritableDependency, TomlDependency, TomlManifest};
use mini_crater::error::CraterError;
use mini_crater::manifest::{DetailedDependency, Manifest, Tables};
use mini_crater::options::PatchArg;

const NEW: &str = r#"
[package]
name = "experiment-a"
version = "0.1.0"
edition = "2021"

[dependencies]
stale = "1"

[patch.crates-io]
stale = { path = "/stale" }
"#;

fn manifest() -> Manifest {
    Manifest { content: toml::from_str(NEW).unwrap() }
}

fn patch(text: &str) -> PatchArg {
    PatchArg::from_str(text).unwrap()
}

fn written(text: &str) -> TomlManifest {
    toml::from_str(text).unwrap()
}

fn dependency_names(manifest: &TomlManifest) -> Vec<String> {
    manifest.dependencies.iter().flatten().map(|(name, _)| name.to_string()).collect()
}

fn detailed<'a>(
    manifest: &'a TomlManifest,
    name: &str,
) -> &'a cargo_util_schemas::manifest::TomlDetailedDependency {
    let dependencies = manifest.dependencies.as_ref().unwrap();
    let (_, dep) = dependencies.iter().find(|(n, _)| n.as_ref() as &str == name).unwrap();
    match dep {
        InheritableDependency::Value(TomlDependency::Detailed(dep)) => dep,
        _ => panic!("not detailed"),
    }
}

fn patched_path(manifest: &TomlManifest, name: &str) -> Option<String> {
    let table = manifest.patch.as_ref()?.get("crates-io")?;
    let (_, dep) = table.iter().find(|(n, _)| n.as_ref() as &str == name)?;
    match dep {
        TomlDependency::Detailed(dep) => dep.path.clone(),
        TomlDependency::Simple(_) => None,
    }
}

#[test]
fn nothing_is_left_of_an_earlier_run() {
    let text = manifest().rewrite(&Tables::reset()).unwrap();
    let m = written(&text);
    assert!(m.dependencies.is_none());
    assert!(m.patch.is_none());
    assert_eq!(m.package.unwrap().name.to_string(), "experiment-a");
    assert!(!text.contains("stale"));
}

#[test]
fn a_released_crate_is_pinned() {
    let dep = DetailedDependency::released("1.2.3");
    let text = manifest().rewrite(&Tables::setup("a", &dep)).unwrap();
    let m = written(&text);
    assert_eq!(dependency_names(&m), ["a"]);
    assert_eq!(detailed(&m, "a").version.as_deref(), Some("=1.2.3"));
    assert_eq!(detailed(&m, "a").path, None);
    assert!(m.patch.is_none());
}

#[test]
fn a_checked_out_crate_is_found_by_its_path() {
    let dep = DetailedDependency::checked_out("/checkouts/a/inner".to_owned());
    let text = manifest().rewrite(&Tables::setup("a", &dep)).unwrap();
    let m = written(&text);
    assert_eq!(detailed(&m, "a").path.as_deref(), Some("/checkouts/a/inner"));
    assert_eq!(detailed(&m, "a").version, None);
}

#[test]
fn patches_are_added() {
    let dep = DetailedDependency::released("1.2.3");
    let patches = vec![
        patch(r#"snafu = { path = "/snafu" }"#),
        patch(r#"snafu-derive = { path = "/snafu/snafu-derive" }"#),
    ];
    let text = manifest().rewrite(&Tables::patched("a", &dep, &patches)).unwrap();
    let m = written(&text);
    assert_eq!(dependency_names(&m), ["a"]);
    assert_eq!(detailed(&m, "a").version.as_deref(), Some("=1.2.3"));
    assert_eq!(patched_path(&m, "snafu").as_deref(), Some("/snafu"));
    assert_eq!(patched_path(&m, "snafu-derive").as_deref(), Some("/snafu/snafu-derive"));
    assert_eq!(patched_path(&m, "stale"), None);
    assert_eq!(m.patch.unwrap().len(), 1);
}

#[test]
fn no_patches_still_make_a_table() {
    let dep = DetailedDependency::released("1.2.3");
    let patches = vec![];
    let mut m = manifest();
    m.rewrite(&Tables::patched("a", &dep, &patches)).unwrap();
    let table = m.content.patch.unwrap();
    assert_eq!(table.len(), 1);
    assert!(table["crates-io"].is_empty());
}

#[test]
fn features_move_to_a_dependency() {
    let dep = DetailedDependency::released("1.2.3");
    let patches = vec![patch(r#"snafu = { path = "/snafu", features = ["x", "y"] }"#)];
    let text = manifest().rewrite(&Tables::patched("a", &dep, &patches)).unwrap();
    let m = written(&text);
    assert_eq!(dependency_names(&m), ["a", "snafu"]);
    let dep = detailed(&m, "snafu");
    assert_eq!(dep.version.as_deref(), Some("*"));
    assert_eq!(dep.default_features, Some(false));
    assert_eq!(dep.features, Some(vec!["x".to_owned(), "y".to_owned()]));
    assert_eq!(patched_path(&m, "snafu").as_deref(), Some("/snafu"));
    assert!(!text[text.find("[patch").unwrap()..].contains("features"));
}

#[test]
fn features_of_the_crate_under_test_are_asked_of_it() {
    let dep = DetailedDependency::checked_out("/a".to_owned());
    let patches = vec![patch(r#"a = { path = "/b", features = ["x"] }"#)];
    let text = manifest().rewrite(&Tables::patched("a", &dep, &patches)).unwrap();
    let m = written(&text);
    assert_eq!(dependency_names(&m), ["a"]);
    assert_eq!(detailed(&m, "a").path.as_deref(), Some("/a"));
    assert_eq!(detailed(&m, "a").version.as_deref(), Some("*"));
    assert_eq!(detailed(&m, "a").features, Some(vec!["x".to_owned()]));
}

#[test]
fn the_last_patch_of_a_name_stands() {
    let dep = DetailedDependency::released("1.2.3");
    let patches = vec![
        patch(r#"snafu = { path = "/first", features = ["x"] }"#),
        patch(r#"other = { path = "/other" }"#),
        patch(r#"snafu = { path = "/second", features = ["y"] }"#),
    ];
    let tables = Tables::patched("a", &dep, &patches);
    assert_eq!(tables.dependencies.as_ref().unwrap().len(), 2);
    assert_eq!(tables.patch.as_ref().unwrap().len(), 2);
    let m = written(&manifest().rewrite(&tables).unwrap());
    assert_eq!(patched_path(&m, "snafu").as_deref(), Some("/second"));
    assert_eq!(patched_path(&m, "other").as_deref(), Some("/other"));
    assert_eq!(detailed(&m, "snafu").features, Some(vec!["y".to_owned()]));
}

#[test]
fn a_name_that_no_package_has_is_refused() {
    let dep = DetailedDependency::released("1.2.3");
    let e = manifest().rewrite(&Tables::setup("a b", &dep)).err().unwrap();
    assert!(matches!(e, CraterError::PackageName(_)));
    let mut bad = patch(r#"snafu = { path = "/snafu" }"#);
    bad.name = String::new();
    let patches = vec![bad];
    let e = manifest().rewrite(&Tables::patched("a", &dep, &patches)).err().unwrap();
    assert!(matches!(e, CraterError::PackageName(_)));
}
