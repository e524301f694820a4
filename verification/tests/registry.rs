use mini_crater::address::Address;
use mini_crater::options::Opts;
use mini_crater::order::order_crates;
use mini_crater::registry::{
    ask_admissions, compute_name_and_download_counts, exact_requirements,
    try_compute_name_and_download_counts, try_name_marked, Crate, Dependency, Meta, NameAndDownloadCount, ReverseDependencies, Version,
};
use mini_crater::requirement::{Comparator, Op, TargetVersion, VersionReq};

fn requirement(text: &str) -> VersionReq {
    let req = semver::VersionReq::parse(text).unwrap();
    let op = |op: semver::Op| match op {
        semver::Op::Exact => Op::Exact,
        semver::Op::Greater => Op::Greater,
        semver::Op::GreaterEq => Op::GreaterEq,
        semver::Op::Less => Op::Less,
        semver::Op::LessEq => Op::LessEq,
        semver::Op::Tilde => Op::Tilde,
        semver::Op::Caret => Op::Caret,
        semver::Op::Wildcard => Op::Wildcard,
        _ => unreachable!(),
    };
    VersionReq {
        comparators: req
            .comparators
            .into_iter()
            .map(|c| Comparator {
                op: op(c.op),
                major: c.major,
                minor: c.minor,
                patch: c.patch,
                pre: c.pre,
            })
            .collect(),
    }
}

fn version(text: &str) -> TargetVersion {
    let v = semver::Version::parse(text).unwrap();
    TargetVersion { major: v.major, minor: v.minor, patch: v.patch, pre: v.pre }
}

fn opts(target: &str) -> Opts<()> {
    Opts {
        api_base: Address { url: url::Url::parse("https://crates.io/api/v1/").unwrap() },
        crate_name: "snafu".to_owned(),
        version: version(target),
        patch: vec![],
        working_dir: (),
        use_git: false,
        pre_command: None,
        post_command: None,
        select: None,
    }
}

fn dependency(version_id: u64, req: &str, downloads: u64) -> Dependency {
    Dependency { id: 7, version_id, req: requirement(req), downloads, other: vec![] }
}

fn release(id: u64, name: &str) -> Version {
    Version { id, name: name.to_owned(), num: "1.0.0".to_owned(), downloads: 0, other: vec![] }
}

fn answer(dependencies: Vec<Dependency>, versions: Vec<Version>) -> ReverseDependencies {
    ReverseDependencies { dependencies, versions, meta: Meta { total: 0, other: vec![] } }
}

fn pairs(counts: &[NameAndDownloadCount]) -> Vec<(&str, u64)> {
    counts.iter().map(|c| (c.name.as_str(), c.downloads)).collect()
}

#[test]
fn requirements_are_met_as_semver_has_it() {
    for (req, target, met) in [
        ("^0.6.10", "0.6.10", true),
        ("^0.6.10", "0.6.9", false),
        ("^0.6.10", "0.7.0", false),
        ("~1.2.3", "1.2.9", true),
        ("~1.2.3", "1.3.0", false),
        (">1.2.3", "1.2.3", false),
        (">1.2.3", "1.2.4", true),
        (">=1.2.3", "1.2.3", true),
        ("<1.2.3", "1.2.3", false),
        ("<1.2.3", "1.2.2", true),
        ("<=1.2.3", "1.2.3", true),
        ("1.*", "1.9.0", true),
        ("1.*", "2.0.0", false),
        ("*", "3.0.0", true),
        (">=1.0.0, <2.0.0", "1.5.0", true),
        (">=1.0.0, <2.0.0", "2.0.0", false),
        ("^1.0.0-alpha.2", "1.0.0-alpha.3", true),
        ("^1.0.0-alpha.2", "1.0.0-alpha.1", false),
        ("^1.0.0", "1.0.0-alpha.1", false),
    ] {
        assert_eq!(requirement(req).admits(&version(target)), met, "{req} {target}");
    }
}

#[test]
fn exact_requirements_are_loosened() {
    let mut req = requirement("=1.2.3, <2.0.0");
    req.loosen();
    assert_eq!(req.comparators[0].op, Op::Caret);
    assert_eq!((req.comparators[0].major, req.comparators[0].minor), (1, Some(2)));
    assert_eq!(req.comparators[0].patch, Some(3));
    assert_eq!(req.comparators[1].op, Op::Less);
    req.loosen();
    assert_eq!(req.comparators[0].op, Op::Caret);
    assert_eq!(req.comparators[1].op, Op::Less);
    assert!(requirement("=1.2.3").admits(&version("1.9.0")));
    assert!(!requirement("=1.2.3").admits(&version("1.2.2")));
    assert!(!requirement("=1.2.3").admits(&version("2.0.0")));
}

#[test]
fn dependents_are_named_in_order() {
    let reverse_dependencies = answer(
        vec![
            dependency(12, "^0.8", 5),
            dependency(11, "^0.7", 6),
            dependency(13, "=0.8.1", 7),
        ],
        vec![release(11, "old"), release(12, "new"), release(13, "pinned"), release(14, "other")],
    );
    let counts = compute_name_and_download_counts(&opts("0.8.9"), reverse_dependencies);
    assert_eq!(pairs(&counts), [("new", 5), ("pinned", 7)]);
}

#[test]
fn the_last_of_two_versions_of_a_number_counts() {
    let reverse_dependencies =
        answer(vec![dependency(1, "*", 0)], vec![release(1, "first"), release(1, "second")]);
    let counts = try_compute_name_and_download_counts(&opts("1.0.0"), reverse_dependencies);
    assert_eq!(pairs(&counts.unwrap()), [("second", 0)]);
}

#[test]
fn a_missing_version_is_told() {
    let missing = answer(vec![dependency(1, "*", 0)], vec![release(2, "a")]);
    assert!(try_compute_name_and_download_counts(&opts("1.0.0"), missing).is_none());
    let missing_but_old = answer(vec![dependency(1, "^0.1", 0)], vec![release(2, "a")]);
    let counts = try_compute_name_and_download_counts(&opts("1.0.0"), missing_but_old);
    assert!(counts.unwrap().is_empty());
    let twice =
        answer(vec![dependency(1, "*", 0), dependency(1, "*", 1)], vec![release(1, "a")]);
    assert!(try_compute_name_and_download_counts(&opts("1.0.0"), twice).is_none());
}

#[test]
fn marks_decide_who_is_named() {
    let mut dependencies = vec![dependency(1, "=1.0.0", 10), dependency(2, "^2", 20)];
    let flags = ask_admissions(&mut dependencies, &version("1.5.0"));
    assert_eq!(flags, [true, false]);
    assert_eq!(dependencies[0].req.comparators[0].op, Op::Caret);
    let versions = vec![release(1, "a"), release(2, "b")];
    let named = |flags: &[bool]| {
        let counts = try_name_marked(&dependencies, &flags.to_vec(), &versions).unwrap();
        counts.into_iter().map(|c| (c.name, c.downloads)).collect::<Vec<_>>()
    };
    assert_eq!(named(&[false, false]), []);
    assert_eq!(named(&[false, true]), [("b".to_owned(), 20)]);
    assert_eq!(named(&[true, true]), [("a".to_owned(), 10), ("b".to_owned(), 20)]);
}

#[test]
fn exact_requirements_are_reported() {
    let report = |dependencies, versions| exact_requirements(&answer(dependencies, versions));
    let versions = || vec![release(1, "a"), release(2, "b"), release(3, "c")];
    assert_eq!(
        report(
            vec![
                dependency(3, "=1.0.0", 0),
                dependency(2, "^1", 0),
                dependency(1, "=1.0.0, <2, =1.0.1", 0),
            ],
            versions(),
        ),
        Some(vec!["c".to_owned(), "a".to_owned(), "a".to_owned()])
    );
    assert_eq!(report(vec![dependency(4, "^1", 0)], versions()), Some(vec![]));
    assert_eq!(report(vec![dependency(4, "=1.0.0", 0)], versions()), None);
}

fn downloaded(name: &str, downloads: u64) -> Crate {
    Crate {
        name: name.to_owned(),
        max_version: "1.0.0".to_owned(),
        downloads,
        repository: None,
        other: vec![],
    }
}

#[test]
fn popular_crates_come_first() {
    let crates = order_crates(vec![
        downloaded("a", 3),
        downloaded("b", 9),
        downloaded("c", 3),
        downloaded("d", 0),
        downloaded("e", 9),
    ]);
    let names: Vec<&str> = crates.iter().map(|c| c.name.as_str()).collect();
    assert_eq!(names, ["e", "b", "c", "a", "d"]);
}

#[test]
fn order_is_that_of_a_stable_sort_turned_round() {
    for n in 0..40u64 {
        let list = || {
            (0..n).map(|i| downloaded(&format!("c{i}"), (i * 7919) % 11)).collect::<Vec<_>>()
        };
        let mut expected = list();
        expected.sort_by_key(|c| c.downloads);
        expected.reverse();
        let ordered = order_crates(list());
        let names = |crates: &[Crate]| crates.iter().map(|c| c.name.clone()).collect::<Vec<_>>();
        assert_eq!(names(&ordered), names(&expected));
    }
}
