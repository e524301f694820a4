//! What is asked of the registry and made of its answers, told by what comes in and what goes out.

use vstd::prelude::*;

use crate::address::{Address, Ends};
use crate::cache::{
    cache_expects, cache_start, cache_step, CacheEvent, CacheEventView, CacheStage, CacheUse,
    CacheView,
};
use crate::checkout::{file_views, is_found, same_letters, FileEntry, FileView};
use crate::error::CraterError;
use crate::fetch::{
    absorbed, are_info_requests, chunk, chunks_for, dependencies_path, goes_on,
    is_page_request, page_query, pages_for, starts, takes_names, takes_page, with_names,
    with_repository, FetchView, PageView, ReverseDependenciesQuery,
};
use crate::options::{is_single, Opts, PatchArg, PatchArgView, API_BASE};
use crate::order::is_sorted;
use crate::outside::{
    address_ends, address_joined, address_with_pair, address_with_query, manifest_of,
    manifest_package, semver_matches,
};
use crate::registry::{
    admissions, all_known, dependents, each_has_a_version, exact_ids, exact_parts, marked, named, names_by_id,
    CountView, Crate, Dependency, ReverseDependencies, Version,
};
use crate::requirement::{admits, loosened, Comparator, Op, TargetVersion};
use crate::text::{decimal, opt_text, texts};

verus! {

/// The number that digits stand for.
pub open spec fn value(digits: Seq<char>) -> nat
    decreases digits.len(),
{
    if digits.len() == 0 {
        0
    } else {
        (10 * value(digits.drop_last()) + (digits.last() as int - '0' as int)) as nat
    }
}

/// A number is written in digits that stand for it, and without needless zeros in front.
pub proof fn law_decimal_reads_back(n: nat)
    ensures
        value(decimal(n)) == n,
        decimal(n).len() >= 1,
        decimal(n).len() > 1 ==> decimal(n)[0] != '0',
        forall|i: int| 0 <= i < decimal(n).len() ==> '0' <= #[trigger] decimal(n)[i] <= '9',
    decreases n,
{
    crate::text::lemma_decimal_is_digits(n);
    reveal_with_fuel(value, 2);
    if n >= 10 {
        law_decimal_reads_back(n / 10);
        let digits = decimal(n);
        assert(digits.drop_last() =~= decimal(n / 10));
        assert(digits.last() as int - '0' as int == n % 10);
        assert(digits[0] == decimal(n / 10)[0]);
        reveal_with_fuel(decimal, 2);
        if n / 10 < 10 {
            assert(decimal(n / 10)[0] as int == 48 + n / 10);
        }
    } else {
        assert(decimal(n).drop_last() =~= Seq::empty());
        assert(decimal(n).last() as int - '0' as int == n);
    }
}

/// The dependencies on a crate are asked for under its whole name.
pub proof fn law_path_holds_the_name(crate_name: Seq<char>)
    ensures
        ({
            let path = dependencies_path(crate_name);
            let n = crate_name.len() as int;
            &&& path.len() == n + 30
            &&& path.take(9) == "./crates/"@
            &&& path.subrange(9, 9 + n) == crate_name
            &&& path.skip(9 + n) == "/reverse_dependencies"@
        }),
{
    reveal_strlit("./crates/");
    reveal_strlit("/reverse_dependencies");
    let path = dependencies_path(crate_name);
    let n = crate_name.len() as int;
    assert(path.take(9) =~= "./crates/"@);
    assert(path.subrange(9, 9 + n) =~= crate_name);
    assert(path.skip(9 + n) =~= "/reverse_dependencies"@);
}

/// A query holds the number of the page and the size of pages, each in full.
pub proof fn law_query_holds_the_page(query: ReverseDependenciesQuery)
    ensures
        ({
            let text = page_query(query);
            let n = decimal(query.page as nat).len() as int;
            &&& text.take(5) == "page="@
            &&& text.subrange(5, 5 + n) == decimal(query.page as nat)
            &&& value(text.subrange(5, 5 + n)) == query.page
            &&& text.subrange(5 + n, 15 + n) == "&per_page="@
            &&& text.skip(15 + n) == decimal(query.per_page as nat)
            &&& value(text.skip(15 + n)) == query.per_page
        }),
{
    reveal_strlit("page=");
    reveal_strlit("&per_page=");
    let text = page_query(query);
    let n = decimal(query.page as nat).len() as int;
    assert(text.take(5) =~= "page="@);
    assert(text.subrange(5, 5 + n) =~= decimal(query.page as nat));
    assert(text.subrange(5 + n, 15 + n) =~= "&per_page="@);
    assert(text.skip(15 + n) =~= decimal(query.per_page as nat));
    law_decimal_reads_back(query.page as nat);
    law_decimal_reads_back(query.per_page as nat);
}

/// A request for a page is the registry's address with the path for the crate and the query for
/// the page; there is none exactly where the path cannot be joined.
pub proof fn law_page_is_asked_for(
    r: Result<Address, CraterError>,
    api_base: Address,
    crate_name: Seq<char>,
    query: ReverseDependenciesQuery,
)
    requires
        is_page_request(r, api_base, crate_name, query),
    ensures
        r is Ok <==> address_joined(api_base, dependencies_path(crate_name)) is Some,
        r matches Ok(address) ==> address == address_with_query(
            address_joined(api_base, dependencies_path(crate_name))->0,
            page_query(query),
        ),
        r matches Err(e) ==> e is Url,
{
}

/// A page can be asked for unless the path, or what follows it, is too long to be counted in 32
/// bits.
pub proof fn law_pages_can_be_asked_for(
    api_base: Address,
    crate_name: Seq<char>,
    query: ReverseDependenciesQuery,
)
    ensures
        !takes_page(api_base, crate_name, query) <==> {
            &&& address_joined(api_base, dependencies_path(crate_name)) matches Some(address)
            &&& {
                let ends = address_ends(address);
                let fragment = ends.query < ends.whole;
                ||| ends.path > 0xffff_ffff
                ||| fragment && ends.query >= 0xffff_ffff
                ||| fragment && ends.path + 1 + page_query(query).len() > 0xffff_ffff
            }
        },
{
}

/// A query that fits leaves room for every shorter one, and a path that cannot be counted leaves
/// room for none.
pub proof fn law_room_for_queries(ends: Ends, length: nat, shorter: nat)
    requires
        shorter <= length,
    ensures
        ends.takes_query(length) ==> ends.takes_query(shorter),
        ends.path > 0xffff_ffff ==> !ends.takes_query(shorter) && !ends.takes_pair(),
        ends.path <= 0xffff_ffff && ends.query == ends.whole ==> ends.takes_query(length)
            && ends.takes_pair(),
        ends.query != ends.whole ==> !ends.takes_pair(),
{
}

/// A fetch begins with the first page of a hundred and with nothing gathered.
pub proof fn law_fetch_begins_with_the_first_page(fetch: FetchView)
    requires
        starts(fetch),
    ensures
        fetch.query.page == 1,
        fetch.query.per_page == 100,
        fetch.fused.dependencies.len() == 0,
        fetch.fused.versions.len() == 0,
        fetch.fused.meta.total == 0,
{
}

/// An answer is put behind what was gathered, all of it, and the next page is asked for exactly
/// where the total says that there is more.
pub proof fn law_answer_is_taken_in(fetch: FetchView, page: PageView)
    requires
        fetch.query.per_page == 100,
    ensures
        ({
            let next = absorbed(fetch, page);
            let n = fetch.fused.dependencies.len() as int;
            let m = fetch.fused.versions.len() as int;
            &&& next.fused.dependencies.take(n) == fetch.fused.dependencies
            &&& next.fused.dependencies.skip(n) == page.dependencies
            &&& next.fused.versions.take(m) == fetch.fused.versions
            &&& next.fused.versions.skip(m) == page.versions
            &&& next.fused.meta == page.meta
            &&& next.query.per_page == 100
            &&& goes_on(fetch.query, page.meta.total) <==> fetch.query.page * 100
                < page.meta.total
            &&& fetch.query.page * 100 < page.meta.total ==> next.query.page == fetch.query.page
                + 1
            &&& fetch.query.page * 100 >= page.meta.total ==> next.query.page == fetch.query.page
        }),
{
    let query = fetch.query;
    assert(query.page * query.per_page == query.page * 100) by (nonlinear_arith)
        requires
            query.per_page == 100,
    ;
    let next = absorbed(fetch, page);
    let n = fetch.fused.dependencies.len() as int;
    let m = fetch.fused.versions.len() as int;
    assert(next.fused.dependencies.take(n) =~= fetch.fused.dependencies);
    assert(next.fused.dependencies.skip(n) =~= page.dependencies);
    assert(next.fused.versions.take(m) =~= fetch.fused.versions);
    assert(next.fused.versions.skip(m) =~= page.versions);
}

/// There are as many pages as it takes for all dependencies, a hundred on each, and one at least.
pub proof fn law_pages_hold_the_total(total: u64)
    ensures
        pages_for(total) >= 1,
        pages_for(total) * 100 >= total,
        pages_for(total) > 1 ==> (pages_for(total) - 1) * 100 < total,
{
}

/// A request asks about every crate that it is for, whatever its downloads, in order, and about no
/// other.
pub proof fn law_request_asks_about_every_crate(
    address: Address,
    counts: Seq<CountView>,
    count: CountView,
)
    ensures
        with_names(address, Seq::empty()) == address,
        with_names(address, counts.push(count)) == address_with_pair(
            with_names(address, counts),
            "ids[]"@,
            count.name,
        ),
{
    assert(counts.push(count).drop_last() =~= counts);
}

/// Two crates of the same name are asked about alike.
pub proof fn law_requests_go_by_names(address: Address, a: Seq<CountView>, b: Seq<CountView>)
    requires
        a.len() == b.len(),
        forall|i: int| 0 <= i < a.len() ==> (#[trigger] a[i]).name == b[i].name,
    ensures
        with_names(address, a) == with_names(address, b),
    decreases a.len(),
{
    if a.len() > 0 {
        assert forall|i: int| 0 <= i < a.drop_last().len() implies (
        #[trigger] a.drop_last()[i]).name == b.drop_last()[i].name by {
            assert(a[i].name == b[i].name);
        }
        law_requests_go_by_names(address, a.drop_last(), b.drop_last());
        assert(a[a.len() - 1].name == b[b.len() - 1].name);
    }
}

/// The requests are for ten crates each, and the last for the rest: the crate at any place is asked
/// about by the request and at the place in it that its tens and its ones say.
pub proof fn law_ten_crates_a_request(counts: Seq<CountView>, i: int)
    requires
        0 <= i < counts.len(),
    ensures
        ({
            let k = i / 10;
            &&& 0 <= k < chunks_for(counts.len())
            &&& i % 10 < chunk(counts, k).len() <= 10
            &&& chunk(counts, k)[i % 10] == counts[i]
            &&& k < chunks_for(counts.len()) - 1 ==> chunk(counts, k).len() == 10
            &&& (chunks_for(counts.len()) - 1) * 10 < counts.len() <= chunks_for(counts.len()) * 10
        }),
{
}

/// The requests are the one address of the crates with the crates of each ten, in order; there are
/// none exactly where there is no such address.
pub proof fn law_crates_are_asked_about(
    r: Result<Vec<Address>, CraterError>,
    api_base: Address,
    counts: Seq<CountView>,
)
    requires
        are_info_requests(r, api_base, counts),
    ensures
        r is Ok <==> address_joined(api_base, "./crates"@) is Some,
        r matches Err(e) ==> e is Url,
        r matches Ok(requests) ==> {
            let address = address_joined(api_base, "./crates"@)->0;
            &&& (requests@.len() - 1) * 10 < counts.len() <= requests@.len() * 10
            &&& forall|k: int|
                0 <= k < requests@.len() ==> #[trigger] requests@[k] == with_names(
                    address,
                    chunk(counts, k),
                )
        },
{
}

/// Crates can be asked about unless the path is too long to be counted in 32 bits.
pub proof fn law_crates_can_be_asked_about(api_base: Address, counts: Seq<CountView>)
    ensures
        !takes_names(api_base, counts) <==> {
            &&& counts.len() > 0
            &&& address_joined(api_base, "./crates"@) matches Some(address)
            &&& address_ends(address).path > 0xffff_ffff
        },
{
}

/// Repositories are counted one by one.
pub proof fn law_repositories_are_counted(crates: Seq<Crate>, c: Crate)
    ensures
        with_repository(Seq::empty()).len() == 0,
        with_repository(crates.push(c)).len() == with_repository(crates).len() + if c.repository
            is Some {
            1int
        } else {
            0int
        },
{
    reveal(Seq::filter);
    assert(crates.push(c).drop_last() =~= crates);
}

/// A version that is added names its number, in place of an earlier one, and leaves the others.
pub proof fn law_versions_name_their_numbers(versions: Seq<Version>, version: Version, id: u64)
    ensures
        ({
            let was = names_by_id(versions);
            let is = names_by_id(versions.push(version));
            &&& !names_by_id(Seq::empty()).contains_key(id)
            &&& is.contains_key(id) <==> was.contains_key(id) || id == version.id
            &&& id == version.id ==> is[id] == version.name@
            &&& id != version.id && was.contains_key(id) ==> is[id] == was[id]
        }),
{
    assert(versions.push(version).drop_last() =~= versions);
}

/// A dependency is one that counts exactly where its requirement, with caret parts in place of the
/// exact ones, is met by the version; those that count stay in order.
pub proof fn law_dependency_counts_where_semver_says_so(
    was: ReverseDependencies,
    is: ReverseDependencies,
    d: Dependency,
    loose: Seq<Comparator>,
    version: TargetVersion,
)
    requires
        is.dependencies@ == was.dependencies@.push(d),
        loose.len() == d.req.comparators@.len(),
        forall|i: int|
            0 <= i < loose.len() ==> #[trigger] loose[i] == (Comparator {
                op: if d.req.comparators@[i].op == Op::Exact {
                    Op::Caret
                } else {
                    d.req.comparators@[i].op
                },
                ..d.req.comparators@[i]
            }),
    ensures
        semver_matches(loose, version) ==> dependents(is, version) == dependents(
            was,
            version,
        ).push(d),
        !semver_matches(loose, version) ==> dependents(is, version) == dependents(was, version),
        admits(d.req.comparators@, version) == semver_matches(loose, version),
{
    assert(loosened(d.req.comparators@) =~= loose);
    crate::registry::law_dependents_admit_the_version(was, version);
    crate::registry::law_dependents_admit_the_version(is, version);
    reveal(Seq::filter);
    assert(was.dependencies@.push(d).drop_last() =~= was.dependencies@);
}

/// Without dependencies there are no dependents.
pub proof fn law_no_dependencies_no_dependents(none: ReverseDependencies, version: TargetVersion)
    requires
        none.dependencies@.len() == 0,
    ensures
        dependents(none, version).len() == 0,
{
}

/// Each dependent is told by the name of its version and the downloads of its dependency.
pub proof fn law_dependents_are_named(
    dependencies: Seq<Dependency>,
    names: Map<u64, Seq<char>>,
    i: int,
)
    requires
        0 <= i < dependencies.len(),
    ensures
        named(dependencies, names).len() == dependencies.len(),
        named(dependencies, names)[i].name == names[dependencies[i].version_id],
        named(dependencies, names)[i].downloads == dependencies[i].downloads,
{
}

/// The dependents can be named exactly where each of their versions is known and none of them is
/// that of another.
pub proof fn law_dependents_can_be_named(
    dependencies: Seq<Dependency>,
    names: Map<u64, Seq<char>>,
    d: Dependency,
)
    ensures
        each_has_a_version(Seq::empty(), names),
        each_has_a_version(dependencies.push(d), names) <==> {
            &&& each_has_a_version(dependencies, names)
            &&& names.contains_key(d.version_id)
            &&& forall|i: int|
                0 <= i < dependencies.len() ==> (#[trigger] dependencies[i]).version_id
                    != d.version_id
        },
{
    let all = dependencies.push(d);
    let n = dependencies.len() as int;
    assert(all[n] == d);
    assert forall|i: int| 0 <= i < n implies #[trigger] all[i] == dependencies[i] by {}
    if each_has_a_version(all, names) {
        assert forall|i: int| 0 <= i < n implies (#[trigger] dependencies[i]).version_id
            != d.version_id && names.contains_key(dependencies[i].version_id) by {
            assert(all[i].version_id != all[n].version_id);
            assert(names.contains_key(all[i].version_id));
        }
        assert forall|i: int, j: int| 0 <= i < j < n implies (
        #[trigger] dependencies[i]).version_id != (#[trigger] dependencies[j]).version_id by {
            assert(all[i].version_id != all[j].version_id);
        }
        assert(names.contains_key(all[n].version_id));
    }
}

/// A dependency is reported once for each of its parts that ask for an exact version.
pub proof fn law_exact_parts_are_reported(
    dependencies: Seq<Dependency>,
    d: Dependency,
    parts: Seq<Comparator>,
    part: Comparator,
)
    ensures
        ({
            let was = exact_ids(dependencies);
            let is = exact_ids(dependencies.push(d));
            &&& exact_ids(Seq::empty()).len() == 0
            &&& is.len() == was.len() + exact_parts(d.req.comparators@)
            &&& is.take(was.len() as int) == was
            &&& forall|i: int| was.len() <= i < is.len() ==> #[trigger] is[i] == d.version_id
            &&& exact_parts(Seq::empty()) == 0
            &&& exact_parts(parts.push(part)) == exact_parts(parts) + if part.op == Op::Exact {
                1int
            } else {
                0int
            }
        }),
{
    reveal(Seq::filter);
    assert(dependencies.push(d).drop_last() =~= dependencies);
    assert(parts.push(part).drop_last() =~= parts);
    assert(exact_ids(dependencies.push(d)).take(exact_ids(dependencies).len() as int)
        =~= exact_ids(dependencies));
}

/// Numbers are known where each of them is.
pub proof fn law_known_numbers_are_known_one_by_one(
    ids: Seq<u64>,
    id: u64,
    names: Map<u64, Seq<char>>,
)
    ensures
        all_known(Seq::empty(), names),
        all_known(ids.push(id), names) <==> all_known(ids, names) && names.contains_key(id),
{
    let all = ids.push(id);
    assert(all[ids.len() as int] == id);
    if all_known(all, names) {
        assert forall|i: int| 0 <= i < ids.len() implies names.contains_key(#[trigger] ids[i]) by {
            assert(all[i] == ids[i]);
        }
    }
}

/// The crates are put in order and nothing else: every place is taken once, a crate with more
/// downloads comes first, and of two with as many the one that stood later.
pub proof fn law_crates_are_put_in_order(crates: Seq<Crate>, sorted: Seq<Crate>)
    requires
        is_sorted(crates, true, sorted),
    ensures
        sorted.len() == crates.len(),
        exists|places: Seq<int>|
            {
                &&& places.len() == crates.len()
                &&& #[trigger] places.no_duplicates()
                &&& forall|i: int|
                    0 <= i < places.len() ==> 0 <= #[trigger] places[i] < crates.len()
                        && sorted[i] == crates[places[i]]
                &&& forall|i: int, j: int|
                    0 <= i < j < places.len() ==> {
                        let a = #[trigger] places[i];
                        let b = #[trigger] places[j];
                        crates[a].downloads > crates[b].downloads || (crates[a].downloads
                            == crates[b].downloads && a > b)
                    }
            },
{
    let places = choose|places: Seq<int>| #[trigger]
        crate::order::in_order(crates, true, places) && sorted == crate::order::at_places(
            crates,
            places,
        );
    assert forall|i: int, j: int| 0 <= i < j < places.len() implies {
        let a = #[trigger] places[i];
        let b = #[trigger] places[j];
        crates[a].downloads > crates[b].downloads || (crates[a].downloads == crates[b].downloads
            && a > b)
    } by {
        assert(crate::order::precedes(crates, true, places[i], places[j]));
    }
    assert(places.no_duplicates());
}

/// A patch argument has to hold one patch, which is then the one that is taken.
pub proof fn law_one_patch_an_argument(
    r: Result<PatchArg, CraterError>,
    patches: Seq<PatchArgView>,
)
    requires
        is_single(r, patches),
    ensures
        r is Ok <==> patches.len() == 1,
        r matches Ok(patch) ==> patch@ == patches[0],
        r matches Err(e) ==> (e == CraterError::NoPatch <==> patches.len() == 0),
        r matches Err(e) ==> (e == CraterError::TooManyPatches <==> patches.len() > 1),
{
}

/// The registry that is asked is crates.io.
pub proof fn law_registry_is_crates_io()
    ensures
        API_BASE@ == "https://crates.io/api/v1/"@,
{
}

/// What decides how the experiments go is what the user asked for.
pub proof fn law_settings_are_the_users<P>(opts: Opts<P>, i: int)
    ensures
        opts.settings().use_git == opts.use_git,
        opts.settings().pre_command is Some <==> opts.pre_command is Some,
        opts.settings().post_command is Some <==> opts.post_command is Some,
        opts.settings().select is Some <==> opts.select is Some,
        opts.pre_command matches Some(command) ==> opts.settings().pre_command == Some(command@),
        opts.post_command matches Some(command) ==> opts.settings().post_command == Some(
            command@,
        ),
        opts.select matches Some(pattern) ==> opts.settings().select == Some(pattern@),
        opts.settings().patch.len() == opts.patch@.len(),
        0 <= i < opts.patch@.len() ==> {
            let model = opts.settings().patch[i];
            let patch = opts.patch@[i];
            &&& model.name == patch.name@
            &&& model.dep == patch.dep
            &&& model.default_features == patch.default_features
            &&& model.features is Some <==> patch.features is Some
            &&& patch.features matches Some(features) ==> model.features matches Some(texts)
                && texts.len() == features@.len() && forall|j: int|
                0 <= j < texts.len() ==> #[trigger] texts[j] == features@[j]@
        },
{
}

/// Two names are alike where they differ in the case of ASCII letters at most.
pub proof fn law_case_does_not_matter(a: Seq<char>, b: Seq<char>)
    ensures
        same_letters(a, b) <==> {
            &&& a.len() == b.len()
            &&& forall|i: int|
                0 <= i < a.len() ==> {
                    let x = #[trigger] a[i];
                    let y = b[i];
                    ||| x == y
                    ||| 'A' <= x <= 'Z' && y as int == x as int + 32
                    ||| 'A' <= y <= 'Z' && x as int == y as int + 32
                }
        },
{
    let f = |c: char| crate::checkout::folded(c);
    if same_letters(a, b) {
        assert(a.map_values(f).len() == b.map_values(f).len());
        assert forall|i: int| 0 <= i < a.len() implies {
            let x = #[trigger] a[i];
            let y = b[i];
            ||| x == y
            ||| 'A' <= x <= 'Z' && y as int == x as int + 32
            ||| 'A' <= y <= 'Z' && x as int == y as int + 32
        } by {
            let x = a[i];
            let y = b[i];
            assert(a.map_values(f)[i] == b.map_values(f)[i]);
            assert(crate::checkout::folded(x) == crate::checkout::folded(y));
            vstd::utf8::char_u32_cast(x, x as u32);
            vstd::utf8::char_u32_cast(y, y as u32);
            if 'A' <= x <= 'Z' {
                assert(crate::checkout::folded(x) == x as int + 32);
            }
            if 'A' <= y <= 'Z' {
                assert(crate::checkout::folded(y) == y as int + 32);
            }
        }
    } else if a.len() == b.len() && (forall|i: int|
        0 <= i < a.len() ==> {
            let x = #[trigger] a[i];
            let y = b[i];
            ||| x == y
            ||| 'A' <= x <= 'Z' && y as int == x as int + 32
            ||| 'A' <= y <= 'Z' && x as int == y as int + 32
        }) {
        assert forall|i: int| 0 <= i < a.len() implies a.map_values(f)[i] == b.map_values(
            f,
        )[i] by {
            let x = a[i];
        }
        assert(a.map_values(f) =~= b.map_values(f));
    }
}

/// A file that says nothing of a package: it is called otherwise, or describes no package or
/// another one.
pub open spec fn says_nothing(file: FileView, name: Seq<char>) -> bool {
    ||| file.file_name is None
    ||| !same_letters(file.file_name->0, "Cargo.toml"@)
    ||| file.text matches Ok(text) && manifest_of(text) matches Some(manifest)
        && manifest_package(manifest) != Some(name)
}

/// A search finds the first manifest that is for the package, and stops at one before that which
/// cannot be read or is none; where there is neither it says what it looked for, and where.
pub proof fn law_first_manifest_of_the_package_is_found(
    r: Result<usize, CraterError>,
    files: Seq<FileView>,
    name: Seq<char>,
    root: Seq<char>,
)
    requires
        is_found(r, files, name, root),
    ensures
        match r {
            Ok(i) => {
                &&& i < files.len()
                &&& files[i as int].file_name matches Some(file_name)
                &&& same_letters(file_name, "Cargo.toml"@)
                &&& files[i as int].text matches Ok(text)
                &&& manifest_of(text) matches Some(manifest)
                &&& manifest_package(manifest) == Some(name)
                &&& forall|j: int| 0 <= j < i ==> says_nothing(#[trigger] files[j], name)
            },
            Err(CraterError::Io(e)) => exists|i: int|
                {
                    &&& 0 <= i < files.len()
                    &&& (#[trigger] files[i]).file_name is Some
                    &&& same_letters(files[i].file_name->0, "Cargo.toml"@)
                    &&& files[i].text == Err::<Seq<char>, std::io::Error>(e)
                    &&& forall|j: int| 0 <= j < i ==> says_nothing(#[trigger] files[j], name)
                },
            Err(CraterError::TomlRead(_)) => exists|i: int|
                {
                    &&& 0 <= i < files.len()
                    &&& (#[trigger] files[i]).file_name is Some
                    &&& same_letters(files[i].file_name->0, "Cargo.toml"@)
                    &&& files[i].text is Ok
                    &&& manifest_of(files[i].text->Ok_0) is None
                    &&& forall|j: int| 0 <= j < i ==> says_nothing(#[trigger] files[j], name)
                },
            Err(CraterError::NoCargoToml { name: sought, root: searched }) => {
                &&& sought@ == name
                &&& searched@ == root
                &&& forall|j: int|
                    0 <= j < files.len() ==> says_nothing(#[trigger] files[j], name)
            },
            Err(_) => false,
        },
{
    match r {
        Err(CraterError::Io(e)) => {
            let i = choose|i: int| #[trigger]
                crate::checkout::ends_at(files, name, i) && crate::checkout::probed(files[i], name)
                    == crate::checkout::Probe::NotRead(e);
            assert(files[i].file_name is Some);
        },
        Err(CraterError::TomlRead(_)) => {
            let i = choose|i: int| #[trigger]
                crate::checkout::ends_at(files, name, i) && crate::checkout::probed(files[i], name)
                    is NotManifest;
            assert(files[i].file_name is Some);
        },
        _ => {},
    }
}

/// A file that is there answers a question, a missing one is filled with what is fetched, and one
/// that cannot be read ends it.
pub proof fn law_cache_goes_by_its_file(cache: CacheView, event: CacheEventView)
    ensures
        cache_start().stage == CacheStage::Reading,
        cache_start().data.len() == 0,
        match event {
            CacheEventView::Held(data) => {
                let next = cache_step(cache, event);
                next.stage == CacheStage::Settled && next.data == data
            },
            CacheEventView::Missing => {
                let next = cache_step(cache, event);
                next.stage == CacheStage::Fetching && next.data == cache.data
            },
            CacheEventView::Unreadable => cache_step(cache, event).stage == CacheStage::Failed,
            CacheEventView::Fetched(data) => {
                let next = cache_step(cache, event);
                next.stage == CacheStage::Writing && next.data == data
            },
            CacheEventView::Written => {
                let next = cache_step(cache, event);
                next.stage == CacheStage::Settled && next.data == cache.data
            },
        },
        cache_expects(cache.stage, event) <==> {
            ||| cache.stage == CacheStage::Reading && (event is Held || event is Missing || event
                is Unreadable)
            ||| cache.stage == CacheStage::Fetching && event is Fetched
            ||| cache.stage == CacheStage::Writing && event is Written
        },
{
}

/// What there is to say about an error names what was looked for, and where.
pub proof fn law_errors_speak(e: CraterError)
    ensures
        e == CraterError::NoPatch ==> e.message_text() == Some("No patch provided"@),
        e == CraterError::TooManyPatches ==> e.message_text() == Some("Too many patches found"@),
        e == CraterError::PathNotUtf8 ==> e.message_text() == Some("Path was not UTF-8"@),
        e is TomlRead || e is TomlWrite || e is PackageName || e is Url || e is Query || e is Regex
            || e is Io ==> e.message_text() is None,
        e matches CraterError::NoCargoToml { name, root } ==> {
            let n = name@.len() as int;
            &&& e.message_text() matches Some(text)
            &&& text.take(41) == "Could not find a suitable Cargo toml for "@
            &&& text.subrange(41, 41 + n) == name@
            &&& text.subrange(41 + n, 45 + n) == " in "@
            &&& text.skip(45 + n) == root@
        },
{
    reveal_strlit("Could not find a suitable Cargo toml for ");
    reveal_strlit(" in ");
    if let CraterError::NoCargoToml { name, root } = e {
        let text = e.message_text()->0;
        let n = name@.len() as int;
        assert(text.take(41) =~= "Could not find a suitable Cargo toml for "@);
        assert(text.subrange(41, 41 + n) =~= name@);
        assert(text.subrange(41 + n, 45 + n) =~= " in "@);
        assert(text.skip(45 + n) =~= root@);
    }
}

/// The dependencies that are marked are those whose mark says so, in order.
pub proof fn law_marks_decide(
    dependencies: Seq<Dependency>,
    flags: Seq<bool>,
    flag: bool,
    version: TargetVersion,
    i: int,
)
    ensures
        marked(dependencies, Seq::empty()).len() == 0,
        flag ==> marked(dependencies, flags.push(flag)) == marked(dependencies, flags).push(
            dependencies[flags.len() as int],
        ),
        !flag ==> marked(dependencies, flags.push(flag)) == marked(dependencies, flags),
        admissions(dependencies, version).len() == dependencies.len(),
        0 <= i < dependencies.len() ==> admissions(dependencies, version)[i] == admits(
            dependencies[i].req.comparators@,
            version,
        ),
{
    assert(flags.push(flag).drop_last() =~= flags);
}

/// The models of files, of texts and of answers hold all of them.
pub proof fn law_models_of_files_are_whole(
    file: FileEntry,
    files: Seq<FileEntry>,
    strings: Seq<String>,
    string: Option<String>,
    event: CacheEvent,
    cache: CacheUse,
    i: int,
)
    ensures
        file@.file_name is Some <==> file.file_name is Some,
        file.file_name matches Some(name) ==> file@.file_name == Some(name@),
        file.text matches Ok(text) ==> file@.text == Ok::<Seq<char>, std::io::Error>(text@),
        file.text matches Err(e) ==> file@.text == Err::<Seq<char>, std::io::Error>(e),
        file_views(files).len() == files.len(),
        0 <= i < files.len() ==> file_views(files)[i] == files[i]@,
        texts(strings).len() == strings.len(),
        0 <= i < strings.len() ==> texts(strings)[i] == strings[i]@,
        opt_text(string) is Some <==> string is Some,
        string matches Some(s) ==> opt_text(string) == Some(s@),
        event matches CacheEvent::Held(data) ==> event@ == CacheEventView::Held(data@),
        event matches CacheEvent::Fetched(data) ==> event@ == CacheEventView::Fetched(data@),
        event is Missing ==> event@ == CacheEventView::Missing,
        event is Unreadable ==> event@ == CacheEventView::Unreadable,
        event is Written ==> event@ == CacheEventView::Written,
        cache@.stage == cache.stage,
        cache@.data == cache.data@,
{
}

} // verus!
