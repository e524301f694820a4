use cargo_util_schemas::manifest::TomlDependency;
use mini_crater::error::CraterError;
use mini_crater::options::{single_patch, CommandLineOpts, Opts, PatchArg};
use mini_crater::requirement::TargetVersion;

fn version(major: u64, minor: u64, patch: u64) -> TargetVersion {
    TargetVersion { major, minor, patch, pre: semver::Prerelease::EMPTY }
}

#[test]
fn a_path_patch_is_read() {
    let patch = PatchArg::from_str(r#"snafu = { path = "/Users/shep/Projects/snafu" }"#).unwrap();
    assert_eq!(patch.name, "snafu");
    assert_eq!(patch.default_features, None);
    assert_eq!(patch.features, None);
    match patch.dep {
        TomlDependency::Detailed(dep) => {
            assert_eq!(dep.path.as_deref(), Some("/Users/shep/Projects/snafu"));
            assert_eq!(dep.version, None);
        }
        TomlDependency::Simple(_) => panic!("not a version"),
    }
}

#[test]
fn a_version_patch_is_read() {
    let patch = PatchArg::from_str(r#"snafu = "0.8""#).unwrap();
    assert_eq!(patch.name, "snafu");
    assert_eq!(patch.features, None);
    match patch.dep {
        TomlDependency::Simple(version) => assert_eq!(version, "0.8"),
        TomlDependency::Detailed(_) => panic!("not detailed"),
    }
}

#[test]
fn features_stand_beside_the_patch() {
    let patch = PatchArg::from_str(
        r#"snafu = { git = "https://example.com/", features = ["a", "b"], default-features = false }"#,
    )
    .unwrap();
    assert_eq!(patch.default_features, Some(false));
    assert_eq!(patch.features, Some(vec!["a".to_owned(), "b".to_owned()]));
    match patch.dep {
        TomlDependency::Detailed(dep) => {
            assert_eq!(dep.git.as_deref(), Some("https://example.com/"));
            assert_eq!(dep.features, None);
            assert_eq!(dep.default_features, None);
        }
        TomlDependency::Simple(_) => panic!("not a version"),
    }
}

#[test]
fn an_empty_patch_is_refused() {
    let e = PatchArg::from_str("").err().unwrap();
    assert!(matches!(e, CraterError::NoPatch));
    assert_eq!(e.message().as_deref(), Some("No patch provided"));
}

#[test]
fn two_patches_in_one_are_refused() {
    let e = PatchArg::from_str("a = \"1\"\nb = \"2\"").err().unwrap();
    assert!(matches!(e, CraterError::TooManyPatches));
    assert_eq!(e.message().as_deref(), Some("Too many patches found"));
}

#[test]
fn a_patch_that_is_no_toml_is_refused() {
    let e = PatchArg::from_str("a = = 1").err().unwrap();
    assert!(matches!(e, CraterError::TomlRead(_)));
    assert_eq!(e.message(), None);
    assert!(matches!(PatchArg::from_str("a = 1").err(), Some(CraterError::TomlRead(_))));
    assert!(matches!(PatchArg::from_str(r#""a b" = "1""#).err(), Some(CraterError::TomlRead(_))));
}

#[test]
fn a_list_of_patches_has_to_hold_one() {
    let patch = |name: &str| PatchArg {
        name: name.to_owned(),
        default_features: None,
        features: None,
        dep: TomlDependency::Simple("1".to_owned()),
    };
    assert!(matches!(single_patch(vec![]).err(), Some(CraterError::NoPatch)));
    assert_eq!(single_patch(vec![patch("a")]).unwrap().name, "a");
    assert!(matches!(
        single_patch(vec![patch("a"), patch("b"), patch("c")]).err(),
        Some(CraterError::TooManyPatches)
    ));
}

#[test]
fn the_command_line_is_carried_over() {
    let cmd = CommandLineOpts {
        crate_name: "snafu".to_owned(),
        version: version(0, 8, 9),
        patch: vec![PatchArg::from_str(r#"snafu = { path = "/snafu" }"#).unwrap()],
        working_dir: "/work",
        use_git: true,
        pre_command: None,
        post_command: Some("/tmp/adjust-code.sh".to_owned()),
        select: Some("^a".to_owned()),
    };
    let opts = Opts::enhance(cmd).unwrap();
    assert_eq!(opts.api_base.url.as_str(), "https://crates.io/api/v1/");
    assert_eq!(opts.crate_name, "snafu");
    assert_eq!((opts.version.major, opts.version.minor, opts.version.patch), (0, 8, 9));
    assert_eq!(opts.patch.len(), 1);
    assert_eq!(opts.working_dir, "/work");
    assert!(opts.use_git);
    assert_eq!(opts.pre_command, None);
    assert_eq!(opts.post_command.as_deref(), Some("/tmp/adjust-code.sh"));
    assert_eq!(opts.select.as_deref(), Some("^a"));
}
