//! What the registry tells about crates.

use std::collections::BTreeMap;

use vstd::prelude::*;

use crate::options::Opts;
use crate::requirement::{
    admits, law_loosening_twice_is_loosening_once, loosened, Comparator, Op, TargetVersion,
    VersionReq,
};
use crate::text::{opt_text, texts};

verus! {

/// A member of a record that is carried along: its key, and its value as JSON.
#[derive(Debug, Clone)]
pub struct Extra {
    pub key: String,
    pub json: String,
}

/// A crate, as the registry describes it.
#[derive(Debug, Clone)]
pub struct Crate {
    pub name: String,
    pub max_version: String,
    pub downloads: u64,
    pub repository: Option<String>,
    pub other: Vec<Extra>,
}

/// What is read of a [`Crate`].
pub struct CrateView {
    pub name: Seq<char>,
    pub max_version: Seq<char>,
    pub downloads: u64,
    pub repository: Option<Seq<char>>,
}

impl View for Crate {
    type V = CrateView;

    open spec fn view(&self) -> CrateView {
        CrateView {
            name: self.name@,
            max_version: self.max_version@,
            downloads: self.downloads,
            repository: opt_text(self.repository),
        }
    }
}

/// The models of a list of crates.
pub open spec fn crate_views(crates: Seq<Crate>) -> Seq<CrateView> {
    crates.map_values(|c: Crate| c@)
}

/// The names of a list of crates.
pub open spec fn crate_names(crates: Seq<CrateView>) -> Seq<Seq<char>> {
    crates.map_values(|c: CrateView| c.name)
}

/// A crate's dependency on the target crate, as the registry describes it.
#[derive(Debug)]
pub struct Dependency {
    pub id: u64,
    /// The version of the crate that has the dependency.
    pub version_id: u64,
    /// What it asks of the target crate.
    pub req: VersionReq,
    pub downloads: u64,
    pub other: Vec<Extra>,
}

/// A version of a crate, as the registry describes it.
#[derive(Debug)]
pub struct Version {
    pub id: u64,
    /// The crate that this is a version of.
    pub name: String,
    pub num: String,
    pub downloads: u64,
    pub other: Vec<Extra>,
}

/// What an answer of the registry says about itself.
#[derive(Debug)]
pub struct Meta {
    /// How many dependencies there are on all pages.
    pub total: u64,
    pub other: Vec<Extra>,
}

/// The dependencies on the target crate, and the versions of crates that have them.
#[derive(Debug)]
pub struct ReverseDependencies {
    pub dependencies: Vec<Dependency>,
    pub versions: Vec<Version>,
    pub meta: Meta,
}

/// A crate that depends on the target crate.
#[derive(Debug)]
pub struct NameAndDownloadCount {
    pub name: String,
    pub downloads: u64,
}

/// The model of a [`NameAndDownloadCount`].
pub struct CountView {
    pub name: Seq<char>,
    pub downloads: u64,
}

impl View for NameAndDownloadCount {
    type V = CountView;

    open spec fn view(&self) -> CountView {
        CountView { name: self.name@, downloads: self.downloads }
    }
}

/// The models of a list of crates with their counts.
pub open spec fn count_views(counts: Seq<NameAndDownloadCount>) -> Seq<CountView> {
    counts.map_values(|c: NameAndDownloadCount| c@)
}

/// The names of crates by the numbers of their versions; where a number occurs twice, the last
/// one counts.
pub open spec fn names_by_id(versions: Seq<Version>) -> Map<u64, Seq<char>>
    decreases versions.len(),
{
    if versions.len() == 0 {
        Map::empty()
    } else {
        names_by_id(versions.drop_last()).insert(versions.last().id, versions.last().name@)
    }
}

/// The dependencies that the flags mark, in order.
pub open spec fn marked(dependencies: Seq<Dependency>, flags: Seq<bool>) -> Seq<Dependency>
    decreases flags.len(),
{
    if flags.len() == 0 {
        Seq::empty()
    } else if flags.last() {
        marked(dependencies, flags.drop_last()).push(dependencies[flags.len() - 1])
    } else {
        marked(dependencies, flags.drop_last())
    }
}

/// Whether each dependency admits a version of the target crate.
pub open spec fn admissions(dependencies: Seq<Dependency>, version: TargetVersion) -> Seq<bool> {
    dependencies.map_values(|d: Dependency| admits(d.req.comparators@, version))
}

/// Each of these dependencies belongs to a known version, no two of them to the same.
pub open spec fn each_has_a_version(
    dependencies: Seq<Dependency>,
    names: Map<u64, Seq<char>>,
) -> bool {
    &&& forall|i: int|
        0 <= i < dependencies.len() ==> names.contains_key((#[trigger] dependencies[i]).version_id)
    &&& forall|i: int, j: int|
        0 <= i < j < dependencies.len() ==> (#[trigger] dependencies[i]).version_id != (
        #[trigger] dependencies[j]).version_id
}

/// The crates that have these dependencies, in order.
pub open spec fn named(dependencies: Seq<Dependency>, names: Map<u64, Seq<char>>) -> Seq<CountView> {
    dependencies.map_values(
        |d: Dependency| CountView { name: names[d.version_id], downloads: d.downloads },
    )
}

/// The names by number in an executable map.
pub open spec fn is_index(index: Map<u64, String>, names: Map<u64, Seq<char>>) -> bool {
    &&& index.dom() == names.dom()
    &&& forall|id: u64| #[trigger] index.contains_key(id) ==> index[id]@ == names[id]
}

/// Asks of each dependency whether it admits a version of the target crate; exact requirements
/// are loosened on the way.
pub fn ask_admissions(dependencies: &mut Vec<Dependency>, version: &TargetVersion) -> (r: Vec<bool>)
    ensures
        r@ == admissions(old(dependencies)@, *version),
        final(dependencies)@.len() == old(dependencies)@.len(),
        forall|i: int|
            0 <= i < old(dependencies)@.len() ==> {
                let was = old(dependencies)@[i];
                let is = #[trigger] final(dependencies)@[i];
                &&& is.req.comparators@ == loosened(was.req.comparators@)
                &&& is == Dependency { req: is.req, ..was }
            },
{
    let ghost before = dependencies@;
    let mut flags: Vec<bool> = Vec::new();
    let mut i: usize = 0;
    while i < dependencies.len()
        invariant
            i <= dependencies.len(),
            dependencies.len() == before.len(),
            flags.len() == i,
            forall|j: int| 0 <= j < i ==> #[trigger] flags@[j] == admits(before[j].req.comparators@, *version),
            forall|j: int| i <= j < dependencies.len() ==> #[trigger] dependencies@[j] == before[j],
            forall|j: int|
                0 <= j < i ==> {
                    let is = #[trigger] dependencies@[j];
                    &&& is.req.comparators@ == loosened(before[j].req.comparators@)
                    &&& is == Dependency { req: is.req, ..before[j] }
                },
        decreases dependencies.len() - i,
    {
        let flag = dependencies[i].req.admits(version);
        flags.push(flag);
        i = i + 1;
    }
    assert(flags@ =~= admissions(before, *version));
    flags
}

/// The names of the crates that have the marked dependencies, unless one of them belongs to no
/// known version, or to the version of an earlier one.
pub fn try_name_marked(
    dependencies: &Vec<Dependency>,
    flags: &Vec<bool>,
    versions: &Vec<Version>,
) -> (r: Option<Vec<NameAndDownloadCount>>)
    requires
        flags.len() == dependencies.len(),
    ensures
        ({
            let all = marked(dependencies@, flags@);
            let names = names_by_id(versions@);
            match r {
                Some(counts) => each_has_a_version(all, names) && count_views(counts@) == named(
                    all,
                    names,
                ),
                None => !each_has_a_version(all, names),
            }
        }),
{
    let ghost names = names_by_id(versions@);
    let ghost all = marked(dependencies@, flags@);
    let mut index = index_names(versions);
    let mut counts: Vec<NameAndDownloadCount> = Vec::new();
    let mut i: usize = 0;
    assert(flags@.take(0) =~= Seq::empty());
    while i < dependencies.len()
        invariant
            i <= dependencies.len(),
            flags.len() == dependencies.len(),
            names == names_by_id(versions@),
            all == marked(dependencies@, flags@),
            each_has_a_version(marked(dependencies@, flags@.take(i as int)), names),
            counts.len() == marked(dependencies@, flags@.take(i as int)).len(),
            forall|j: int|
                0 <= j < counts.len() ==> (#[trigger] counts@[j])@ == (CountView {
                    name: names[marked(dependencies@, flags@.take(i as int))[j].version_id],
                    downloads: marked(dependencies@, flags@.take(i as int))[j].downloads,
                }),
            forall|id: u64|
                #[trigger] index@.contains_key(id) <==> names.contains_key(id) && !(exists|j: int|
                    0 <= j < counts.len() && #[trigger] marked(
                        dependencies@,
                        flags@.take(i as int),
                    )[j].version_id == id),
            forall|id: u64| #[trigger] index@.contains_key(id) ==> index@[id]@ == names[id],
        decreases dependencies.len() - i,
    {
        let ghost seen = marked(dependencies@, flags@.take(i as int));
        assert(flags@.take(i + 1).drop_last() =~= flags@.take(i as int));
        if flags[i] {
            let id: u64 = dependencies[i].version_id;
            let ghost now = marked(dependencies@, flags@.take(i + 1));
            proof {
                lemma_marked_grows(dependencies@, flags@, i + 1);
                assert(now == seen.push(dependencies@[i as int]));
                assert(now[seen.len() as int].version_id == id);
                assert(all[seen.len() as int] == now[seen.len() as int]);
            }
            match index.remove(&id) {
                Some(name) => {
                    counts.push(NameAndDownloadCount { name, downloads: dependencies[i].downloads });
                },
                None => {
                    proof {
                        if names.contains_key(id) {
                            let j = choose|j: int|
                                0 <= j < seen.len() && #[trigger] seen[j].version_id == id;
                            assert(now[j] == seen[j]);
                            assert(all[j].version_id == all[seen.len() as int].version_id);
                        }
                    }
                    return None;
                },
            }
            proof {
                assert forall|j: int| 0 <= j < seen.len() implies (#[trigger] now[j]).version_id
                    != id by {
                    assert(seen[j].version_id != id);
                }
                assert forall|other: u64|
                    #[trigger] index@.contains_key(other) <==> names.contains_key(other) && !(
                    exists|j: int| 0 <= j < counts.len() && #[trigger] now[j].version_id == other) by {
                    assert(forall|j: int| 0 <= j < seen.len() ==> #[trigger] now[j] == seen[j]);
                    if exists|j: int| 0 <= j < seen.len() && #[trigger] seen[j].version_id == other {
                        let j = choose|j: int|
                            0 <= j < seen.len() && #[trigger] seen[j].version_id == other;
                        assert(now[j].version_id == other);
                    }
                }
            }
        }
        i = i + 1;
    }
    assert(flags@.take(flags.len() as int) =~= flags@);
    assert(count_views(counts@) =~= named(all, names));
    Some(counts)
}

/// The crates that depend on a version of the target crate that the user asked for, each with the
/// downloads of its dependency, in the order of the dependencies.
pub open spec fn dependents(
    reverse_dependencies: ReverseDependencies,
    version: TargetVersion,
) -> Seq<Dependency> {
    marked(
        reverse_dependencies.dependencies@,
        admissions(reverse_dependencies.dependencies@, version),
    )
}

/// Associates a name to the specific crate version that depends on the target crate.
pub fn compute_name_and_download_counts<P>(
    opts: &Opts<P>,
    reverse_dependencies: ReverseDependencies,
) -> (r: Vec<NameAndDownloadCount>)
    requires
        each_has_a_version(
            dependents(reverse_dependencies, opts.version),
            names_by_id(reverse_dependencies.versions@),
        ),
    ensures
        count_views(r@) == named(
            dependents(reverse_dependencies, opts.version),
            names_by_id(reverse_dependencies.versions@),
        ),
{
    let ReverseDependencies { mut dependencies, versions, meta: _ } = reverse_dependencies;
    let ghost before = dependencies@;
    let flags = ask_admissions(&mut dependencies, &opts.version);
    proof {
        lemma_marked_by_number(before, dependencies@, flags@);
        lemma_same_numbers(
            marked(before, flags@),
            marked(dependencies@, flags@),
            names_by_id(versions@),
        );
    }
    match try_name_marked(&dependencies, &flags, &versions) {
        Some(counts) => counts,
        None => Vec::new(),
    }
}

/// As [`compute_name_and_download_counts`], but nothing where a dependency that counts belongs to
/// no known version, or to that of another one.
pub fn try_compute_name_and_download_counts<P>(
    opts: &Opts<P>,
    reverse_dependencies: ReverseDependencies,
) -> (r: Option<Vec<NameAndDownloadCount>>)
    ensures
        ({
            let all = dependents(reverse_dependencies, opts.version);
            let names = names_by_id(reverse_dependencies.versions@);
            match r {
                Some(counts) => each_has_a_version(all, names) && count_views(counts@) == named(
                    all,
                    names,
                ),
                None => !each_has_a_version(all, names),
            }
        }),
{
    let mut asked = reverse_dependencies;
    let ghost before = asked.dependencies@;
    let flags = ask_admissions(&mut asked.dependencies, &opts.version);
    proof {
        assert forall|i: int| 0 <= i < before.len() implies #[trigger] admits(
            asked.dependencies@[i].req.comparators@,
            opts.version,
        ) == admits(before[i].req.comparators@, opts.version) by {
            assert(asked.dependencies@[i].req.comparators@ == loosened(before[i].req.comparators@));
            law_loosening_twice_is_loosening_once(before[i].req.comparators@);
        }
        assert(admissions(asked.dependencies@, opts.version) =~= flags@);
        lemma_marked_by_number(before, asked.dependencies@, flags@);
        lemma_same_numbers(
            marked(before, flags@),
            marked(asked.dependencies@, flags@),
            names_by_id(asked.versions@),
        );
    }
    match try_name_marked(&asked.dependencies, &flags, &asked.versions) {
        Some(_) => Some(compute_name_and_download_counts(opts, asked)),
        None => None,
    }
}

/// Two lists of dependencies that belong to the same versions and were downloaded as often.
spec fn same_numbers(a: Seq<Dependency>, b: Seq<Dependency>) -> bool {
    &&& a.len() == b.len()
    &&& forall|i: int|
        0 <= i < a.len() ==> (#[trigger] a[i]).version_id == (#[trigger] b[i]).version_id
            && a[i].downloads == b[i].downloads
}

proof fn lemma_marked_by_number(a: Seq<Dependency>, b: Seq<Dependency>, flags: Seq<bool>)
    requires
        same_numbers(a, b),
        flags.len() <= a.len(),
    ensures
        same_numbers(marked(a, flags), marked(b, flags)),
    decreases flags.len(),
{
    if flags.len() > 0 {
        lemma_marked_by_number(a, b, flags.drop_last());
        assert(a[flags.len() - 1].version_id == b[flags.len() - 1].version_id);
    }
}

proof fn lemma_same_numbers(a: Seq<Dependency>, b: Seq<Dependency>, names: Map<u64, Seq<char>>)
    requires
        same_numbers(a, b),
    ensures
        each_has_a_version(a, names) == each_has_a_version(b, names),
        named(a, names) == named(b, names),
{
    assert(named(a, names) =~= named(b, names));
    if each_has_a_version(a, names) {
        assert forall|i: int| 0 <= i < b.len() implies names.contains_key(
            (#[trigger] b[i]).version_id,
        ) by {
            assert(names.contains_key(a[i].version_id));
        }
        assert forall|i: int, j: int| 0 <= i < j < b.len() implies (#[trigger] b[i]).version_id
            != (#[trigger] b[j]).version_id by {
            assert(a[i].version_id != a[j].version_id);
        }
    }
    if each_has_a_version(b, names) {
        assert forall|i: int| 0 <= i < a.len() implies names.contains_key(
            (#[trigger] a[i]).version_id,
        ) by {
            assert(names.contains_key(b[i].version_id));
        }
        assert forall|i: int, j: int| 0 <= i < j < a.len() implies (#[trigger] a[i]).version_id
            != (#[trigger] a[j]).version_id by {
            assert(b[i].version_id != b[j].version_id);
        }
    }
}

/// A marked dependency keeps its place when more follow.
proof fn lemma_marked_grows(dependencies: Seq<Dependency>, flags: Seq<bool>, n: int)
    requires
        0 <= n <= flags.len(),
    ensures
        marked(dependencies, flags.take(n)).len() <= marked(dependencies, flags).len(),
        forall|j: int|
            0 <= j < marked(dependencies, flags.take(n)).len() ==> #[trigger] marked(
                dependencies,
                flags.take(n),
            )[j] == marked(dependencies, flags)[j],
    decreases flags.len(),
{
    if n == flags.len() {
        assert(flags.take(n) =~= flags);
    } else {
        lemma_marked_grows(dependencies, flags.drop_last(), n);
        assert(flags.drop_last().take(n) =~= flags.take(n));
    }
}

/// The names of crates by the numbers of their versions.
fn index_names(versions: &Vec<Version>) -> (r: BTreeMap<u64, String>)
    ensures
        is_index(r@, names_by_id(versions@)),
{
    let mut index: BTreeMap<u64, String> = BTreeMap::new();
    let mut i: usize = 0;
    assert(versions@.take(0) =~= Seq::empty());
    while i < versions.len()
        invariant
            i <= versions.len(),
            is_index(index@, names_by_id(versions@.take(i as int))),
        decreases versions.len() - i,
    {
        assert(versions@.take(i + 1).drop_last() =~= versions@.take(i as int));
        index.insert(versions[i].id, versions[i].name.clone());
        assert(index@.dom() =~= names_by_id(versions@.take(i + 1)).dom());
        i = i + 1;
    }
    assert(versions@.take(versions.len() as int) =~= versions@);
    index
}

/// How many parts of a requirement ask for an exact version.
pub open spec fn exact_parts(comparators: Seq<Comparator>) -> nat {
    comparators.filter(|c: Comparator| c.op is Exact).len()
}

/// The versions whose dependencies ask for exact versions, once for each part that does, in order.
pub open spec fn exact_ids(dependencies: Seq<Dependency>) -> Seq<u64>
    decreases dependencies.len(),
{
    if dependencies.len() == 0 {
        Seq::empty()
    } else {
        let last = dependencies.last();
        exact_ids(dependencies.drop_last()) + Seq::new(
            exact_parts(last.req.comparators@),
            |i: int| last.version_id,
        )
    }
}

/// Every one of these numbers is that of a known version.
pub open spec fn all_known(ids: Seq<u64>, names: Map<u64, Seq<char>>) -> bool {
    forall|i: int| 0 <= i < ids.len() ==> names.contains_key(#[trigger] ids[i])
}

/// The versions whose dependencies ask for exact versions, once for each part that does.
fn collect_exact(dependencies: &Vec<Dependency>) -> (r: Vec<u64>)
    ensures
        r@ == exact_ids(dependencies@),
{
    let mut ids: Vec<u64> = Vec::new();
    let mut i: usize = 0;
    assert(dependencies@.take(0) =~= Seq::empty());
    while i < dependencies.len()
        invariant
            i <= dependencies.len(),
            ids@ == exact_ids(dependencies@.take(i as int)),
        decreases dependencies.len() - i,
    {
        let d: &Dependency = &dependencies[i];
        let ghost before = ids@;
        let ghost parts = d.req.comparators@;
        let mut j: usize = 0;
        proof {
            reveal(Seq::filter);
            assert(parts.take(0) =~= Seq::empty());
            assert(ids@ =~= before + Seq::new(exact_parts(parts.take(0)), |k: int| d.version_id));
        }
        while j < d.req.comparators.len()
            invariant
                j <= d.req.comparators.len(),
                parts == d.req.comparators@,
                ids@ == before + Seq::new(
                    exact_parts(parts.take(j as int)),
                    |k: int| d.version_id,
                ),
            decreases d.req.comparators.len() - j,
        {
            proof {
                reveal(Seq::filter);
                assert(parts.take(j + 1).drop_last() =~= parts.take(j as int));
            }
            if let Op::Exact = d.req.comparators[j].op {
                ids.push(d.version_id);
            }
            assert(ids@ =~= before + Seq::new(
                exact_parts(parts.take(j + 1)),
                |k: int| d.version_id,
            ));
            j = j + 1;
        }
        assert(parts.take(parts.len() as int) =~= parts);
        assert(dependencies@.take(i + 1).drop_last() =~= dependencies@.take(i as int));
        assert(dependencies@.take(i + 1).last() == *d);
        i = i + 1;
    }
    assert(dependencies@.take(dependencies.len() as int) =~= dependencies@);
    ids
}

/// The crates that ask for exact versions of the target crate, which are not taken at their word:
/// once for each part of a requirement that does, in order; nothing where one of them belongs to
/// no known version.
pub fn exact_requirements(reverse_dependencies: &ReverseDependencies) -> (r: Option<Vec<String>>)
    ensures
        ({
            let ids = exact_ids(reverse_dependencies.dependencies@);
            let names = names_by_id(reverse_dependencies.versions@);
            match r {
                Some(found) => all_known(ids, names) && texts(found@) == ids.map_values(
                    |id: u64| names[id],
                ),
                None => !all_known(ids, names),
            }
        }),
{
    let ghost names = names_by_id(reverse_dependencies.versions@);
    let index = index_names(&reverse_dependencies.versions);
    let ids = collect_exact(&reverse_dependencies.dependencies);
    let mut found: Vec<String> = Vec::new();
    let mut i: usize = 0;
    while i < ids.len()
        invariant
            i <= ids.len(),
            found.len() == i,
            ids@ == exact_ids(reverse_dependencies.dependencies@),
            names == names_by_id(reverse_dependencies.versions@),
            is_index(index@, names),
            forall|j: int|
                0 <= j < i ==> names.contains_key(#[trigger] ids@[j]) && found@[j]@
                    == names[ids@[j]],
        decreases ids.len() - i,
    {
        match index.get(&ids[i]) {
            Some(name) => {
                found.push(name.clone());
            },
            None => {
                assert(!names.contains_key(ids@[i as int]));
                return None;
            },
        }
        i = i + 1;
    }
    assert(texts(found@) =~= ids@.map_values(|id: u64| names[id]));
    Some(found)
}

/// The dependents are those crates whose requirement, loosened, admits the version, in order.
pub proof fn law_dependents_admit_the_version(
    reverse_dependencies: ReverseDependencies,
    version: TargetVersion,
)
    ensures
        dependents(reverse_dependencies, version) == reverse_dependencies.dependencies@.filter(
            |d: Dependency| admits(d.req.comparators@, version),
        ),
{
    lemma_marked_are_admitted(reverse_dependencies.dependencies@, version);
}

proof fn lemma_marked_are_admitted(dependencies: Seq<Dependency>, version: TargetVersion)
    ensures
        marked(dependencies, admissions(dependencies, version)) == dependencies.filter(
            |d: Dependency| admits(d.req.comparators@, version),
        ),
    decreases dependencies.len(),
{
    reveal(Seq::filter);
    let flags = admissions(dependencies, version);
    if dependencies.len() > 0 {
        let earlier = dependencies.drop_last();
        lemma_marked_are_admitted(earlier, version);
        assert(flags.drop_last() =~= admissions(earlier, version));
        lemma_marked_of_a_start(dependencies, earlier, flags.drop_last());
    }
}

proof fn lemma_marked_of_a_start(
    dependencies: Seq<Dependency>,
    start: Seq<Dependency>,
    flags: Seq<bool>,
)
    requires
        flags.len() <= start.len() <= dependencies.len(),
        forall|i: int| 0 <= i < start.len() ==> #[trigger] start[i] == dependencies[i],
    ensures
        marked(dependencies, flags) == marked(start, flags),
    decreases flags.len(),
{
    if flags.len() > 0 {
        lemma_marked_of_a_start(dependencies, start, flags.drop_last());
    }
}

} // verus!
