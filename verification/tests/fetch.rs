use mini_crater::address::{Address, Ends};
use mini_crater::error::CraterError;
use mini_crater::fetch::{
    crate_info_requests, try_crate_info_requests, CrateInfo, ReverseDependenciesFetch,
};
use mini_crater::options::Opts;
use mini_crater::registry::{
    Crate, Dependency, Meta, NameAndDownloadCount, ReverseDependencies, Version,
};
use mini_crater::requirement::{TargetVersion, VersionReq};

fn opts(api_base: &str, crate_name: &str) -> Opts<()> {
    Opts {
        api_base: Address { url: url::Url::parse(api_base).unwrap() },
        crate_name: crate_name.to_owned(),
        version: TargetVersion { major: 1, minor: 0, patch: 0, pre: semver::Prerelease::EMPTY },
        patch: vec![],
        working_dir: (),
        use_git: false,
        pre_command: None,
        post_command: None,
        select: None,
    }
}

fn counts(n: usize) -> Vec<NameAndDownloadCount> {
    (0..n).map(|i| NameAndDownloadCount { name: format!("crate{i}"), downloads: 0 }).collect()
}

fn page(ids: &[u64], total: u64) -> ReverseDependencies {
    ReverseDependencies {
        dependencies: ids
            .iter()
            .map(|&id| Dependency {
                id,
                version_id: id + 1000,
                req: VersionReq { comparators: vec![] },
                downloads: 0,
                other: vec![],
            })
            .collect(),
        versions: ids
            .iter()
            .map(|&id| Version {
                id: id + 1000,
                name: format!("crate{id}"),
                num: "1.0.0".to_owned(),
                downloads: 0,
                other: vec![],
            })
            .collect(),
        meta: Meta { total, other: vec![] },
    }
}

const BASE: &str = "https://crates.io/api/v1/";

#[test]
fn the_first_page_is_asked_for() {
    let fetch = ReverseDependenciesFetch::new();
    assert_eq!(
        fetch.request(&opts(BASE, "snafu")).unwrap().url.as_str(),
        "https://crates.io/api/v1/crates/snafu/reverse_dependencies?page=1&per_page=100"
    );
}

#[test]
fn page_numbers_are_decimal() {
    let mut fetch = ReverseDependenciesFetch::new();
    fetch.query.page = 1029;
    assert_eq!(
        fetch.request(&opts(BASE, "a")).unwrap().url.as_str(),
        "https://crates.io/api/v1/crates/a/reverse_dependencies?page=1029&per_page=100"
    );
}

#[test]
fn a_name_is_taken_as_part_of_a_url() {
    let fetch = ReverseDependenciesFetch::new();
    assert_eq!(
        fetch.request(&opts(BASE, "a b?c#d")).unwrap().url.as_str(),
        "https://crates.io/api/v1/crates/a%20b?page=1&per_page=100#d/reverse_dependencies"
    );
}

#[test]
fn a_base_that_nothing_can_be_joined_to_is_refused() {
    let fetch = ReverseDependenciesFetch::new();
    let opts = opts("mailto:someone@example.com", "snafu");
    assert!(matches!(fetch.request(&opts).err(), Some(CraterError::Url(_))));
    assert!(matches!(fetch.try_request(&opts), Some(Err(CraterError::Url(_)))));
    let e = crate_info_requests(&opts, &counts(1)).err().unwrap();
    assert_eq!(e.message(), None);
    assert!(matches!(e, CraterError::Url(_)));
    assert!(matches!(
        try_crate_info_requests(&opts, &counts(1)),
        Some(Err(CraterError::Url(_)))
    ));
}

#[test]
fn long_names_are_asked_about() {
    let fetch = ReverseDependenciesFetch::new();
    let name = "a".repeat(0x0100_0000);
    let url = fetch.try_request(&opts(BASE, &name)).unwrap().unwrap().url;
    assert_eq!(url.path(), format!("/api/v1/crates/{name}/reverse_dependencies"));
    assert_eq!(url.query(), Some("page=1&per_page=100"));
    let counts = vec![NameAndDownloadCount { name: name.clone(), downloads: 0 }];
    let requests = try_crate_info_requests(&opts(BASE, "a"), &counts).unwrap().unwrap();
    assert_eq!(requests[0].url.query().unwrap().len(), "ids%5B%5D=".len() + name.len());
}

#[test]
fn a_query_needs_its_place_to_be_counted() {
    let max = u32::MAX as usize;
    let ends = |path: usize, query: usize, whole: usize| Ends { path, query, whole };
    assert!(ends(max, max, max).can_take_query(100));
    assert!(ends(max, max, max).can_take_pair());
    assert!(!ends(max + 1, max + 1, max + 1).can_take_query(0));
    assert!(!ends(max + 1, max + 1, max + 1).can_take_pair());
    assert!(ends(max - 20, max - 5, max + 7).can_take_query(19));
    assert!(!ends(max - 20, max - 5, max + 7).can_take_query(20));
    assert!(!ends(0, max, max + 1).can_take_query(0));
    assert!(!ends(0, 1, 2).can_take_pair());
}

#[test]
fn pages_are_gathered_in_order() {
    let mut fetch = ReverseDependenciesFetch::new();
    assert!(fetch.absorb(page(&[3, 1], 201)));
    assert_eq!(fetch.query.page, 2);
    assert!(fetch.absorb(page(&[2], 201)));
    assert_eq!(fetch.query.page, 3);
    assert!(!fetch.absorb(page(&[5, 4], 201)));
    assert_eq!(fetch.query.page, 3);
    assert_eq!(fetch.query.per_page, 100);
    let ids: Vec<u64> = fetch.fused.dependencies.iter().map(|d| d.id).collect();
    assert_eq!(ids, [3, 1, 2, 5, 4]);
    let versions: Vec<u64> = fetch.fused.versions.iter().map(|v| v.id).collect();
    assert_eq!(versions, [1003, 1001, 1002, 1005, 1004]);
    assert_eq!(fetch.fused.meta.total, 201);
}

#[test]
fn a_full_last_page_ends_the_fetch() {
    assert!(!ReverseDependenciesFetch::new().absorb(page(&[], 0)));
    assert!(!ReverseDependenciesFetch::new().absorb(page(&[1], 1)));
    assert!(!ReverseDependenciesFetch::new().absorb(page(&[1], 100)));
    let mut fetch = ReverseDependenciesFetch::new();
    assert!(fetch.absorb(page(&[1], 101)));
    assert!(!fetch.absorb(page(&[2], 200)));
}

#[test]
fn crates_are_asked_about_ten_at_a_time() {
    let requests = crate_info_requests(&opts(BASE, "snafu"), &counts(23)).unwrap();
    let requests: Vec<&str> = requests.iter().map(|r| r.url.as_str()).collect();
    assert_eq!(requests.len(), 3);
    assert!(requests[0].starts_with("https://crates.io/api/v1/crates?ids%5B%5D=crate0&"));
    assert!(requests[0].ends_with("&ids%5B%5D=crate9"));
    assert!(requests[1].starts_with("https://crates.io/api/v1/crates?ids%5B%5D=crate10&"));
    assert!(requests[1].ends_with("&ids%5B%5D=crate19"));
    assert_eq!(
        requests[2],
        "https://crates.io/api/v1/crates?ids%5B%5D=crate20&ids%5B%5D=crate21&ids%5B%5D=crate22"
    );
    let asked: usize = requests.iter().map(|r| r.matches("ids").count()).sum();
    assert_eq!(asked, 23);
}

#[test]
fn no_crates_take_no_requests() {
    assert!(crate_info_requests(&opts(BASE, "snafu"), &counts(0)).unwrap().is_empty());
    assert_eq!(crate_info_requests(&opts(BASE, "snafu"), &counts(10)).unwrap().len(), 1);
    assert_eq!(crate_info_requests(&opts(BASE, "snafu"), &counts(11)).unwrap().len(), 2);
}

#[test]
fn names_are_encoded() {
    let counts = vec![
        NameAndDownloadCount { name: "a b".to_owned(), downloads: 0 },
        NameAndDownloadCount { name: "c&d#e".to_owned(), downloads: 0 },
    ];
    let requests = crate_info_requests(&opts(BASE, "snafu"), &counts).unwrap();
    assert_eq!(requests.len(), 1);
    assert_eq!(
        requests[0].url.as_str(),
        "https://crates.io/api/v1/crates?ids%5B%5D=a+b&ids%5B%5D=c%26d%23e"
    );
    let again = try_crate_info_requests(&opts(BASE, "snafu"), &counts).unwrap().unwrap();
    assert_eq!(again[0].url, requests[0].url);
}

#[test]
fn descriptions_are_gathered_in_order() {
    let describe = |name: &str, repository: Option<&str>| Crate {
        name: name.to_owned(),
        max_version: "1.0.0".to_owned(),
        downloads: 0,
        repository: repository.map(str::to_owned),
        other: vec![],
    };
    let mut info = CrateInfo::new();
    assert_eq!(info.count_repositories(), 0);
    info.absorb(CrateInfo { crates: vec![describe("b", None), describe("a", Some("r"))] });
    info.absorb(CrateInfo { crates: vec![] });
    info.absorb(CrateInfo { crates: vec![describe("c", Some("s"))] });
    let names: Vec<&str> = info.crates.iter().map(|c| c.name.as_str()).collect();
    assert_eq!(names, ["b", "a", "c"]);
    assert_eq!(info.count_repositories(), 2);
}
