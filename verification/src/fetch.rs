//! What to ask the registry, and what to make of its answers.

use vstd::arithmetic::div_mod::{lemma_fundamental_div_mod, lemma_mod_bound};
use vstd::prelude::*;
use vstd::string::*;

use crate::address::Address;
use crate::error::CraterError;
use crate::options::Opts;
use crate::outside::{
    address_ends, address_joined, address_with_pair, address_with_query, append_address_pair,
    copy_address, encode_numbers, ends_of, join_address, query_safe, set_address_query,
};
use crate::registry::{
    count_views, CountView, Crate, Dependency, Extra, Meta, NameAndDownloadCount,
    ReverseDependencies, Version,
};
use crate::text::{decimal, join, lemma_decimal_is_digits};

verus! {

/// How many dependencies the registry puts on a page at most.
pub const PER_PAGE: u64 = 100;

/// How many crates the registry can be asked about at once.
pub const PER_REQUEST: usize = 10;

/// Which page of the dependencies to ask for.
#[derive(Debug, Copy, Clone, PartialEq, Eq, Structural)]
pub struct ReverseDependenciesQuery {
    pub page: u64,
    pub per_page: u64,
}

/// What has been gathered of the dependencies, and which page comes next.
#[derive(Debug)]
pub struct ReverseDependenciesFetch {
    pub query: ReverseDependenciesQuery,
    pub fused: ReverseDependencies,
}

/// The model of a page, or of several pages put together.
#[verifier::ext_equal]
pub struct PageView {
    pub dependencies: Seq<Dependency>,
    pub versions: Seq<Version>,
    pub meta: Meta,
}

impl View for ReverseDependencies {
    type V = PageView;

    open spec fn view(&self) -> PageView {
        PageView {
            dependencies: self.dependencies@,
            versions: self.versions@,
            meta: self.meta,
        }
    }
}

/// The model of a [`ReverseDependenciesFetch`].
#[verifier::ext_equal]
pub struct FetchView {
    pub query: ReverseDependenciesQuery,
    pub fused: PageView,
}

impl View for ReverseDependenciesFetch {
    type V = FetchView;

    open spec fn view(&self) -> FetchView {
        FetchView { query: self.query, fused: self.fused@ }
    }
}

/// The path, below the registry's, that lists the dependencies on a crate.
pub open spec fn dependencies_path(crate_name: Seq<char>) -> Seq<char> {
    "./crates/"@ + crate_name + "/reverse_dependencies"@
}

/// The query for a page.
pub open spec fn page_query(query: ReverseDependenciesQuery) -> Seq<char> {
    "page="@ + decimal(query.page as nat) + "&per_page="@ + decimal(query.per_page as nat)
}

/// The query for this page can be put on the address of the dependencies on this crate.
pub open spec fn takes_page(
    api_base: Address,
    crate_name: Seq<char>,
    query: ReverseDependenciesQuery,
) -> bool {
    match address_joined(api_base, dependencies_path(crate_name)) {
        Some(address) => address_ends(address).takes_query(page_query(query).len()),
        None => true,
    }
}

/// The request for a page: the registry's base with the path and the query for it.
pub open spec fn is_page_request(
    r: Result<Address, CraterError>,
    api_base: Address,
    crate_name: Seq<char>,
    query: ReverseDependenciesQuery,
) -> bool {
    match address_joined(api_base, dependencies_path(crate_name)) {
        Some(address) => r == Ok::<Address, CraterError>(
            address_with_query(address, page_query(query)),
        ),
        None => r matches Err(CraterError::Url(_)),
    }
}

/// Whether there is more behind a page.
pub open spec fn goes_on(query: ReverseDependenciesQuery, total: u64) -> bool {
    query.page * query.per_page < total
}

/// Before the first answer.
pub open spec fn starts(fetch: FetchView) -> bool {
    &&& fetch.query.page == 1
    &&& fetch.query.per_page == PER_PAGE
    &&& fetch.fused.dependencies == Seq::<Dependency>::empty()
    &&& fetch.fused.versions == Seq::<Version>::empty()
    &&& fetch.fused.meta.total == 0
    &&& fetch.fused.meta.other@ == Seq::<Extra>::empty()
}

/// What an answer adds.
pub open spec fn absorbed(fetch: FetchView, page: PageView) -> FetchView {
    let query = if goes_on(fetch.query, page.meta.total) {
        ReverseDependenciesQuery { page: (fetch.query.page + 1) as u64, ..fetch.query }
    } else {
        fetch.query
    };
    FetchView {
        query,
        fused: PageView {
            dependencies: fetch.fused.dependencies + page.dependencies,
            versions: fetch.fused.versions + page.versions,
            meta: page.meta,
        },
    }
}

impl FetchView {
    /// Pages are counted from one and have the size that the registry allows.
    pub open spec fn wf(self) -> bool {
        self.query.page >= 1 && self.query.per_page == PER_PAGE
    }
}

impl ReverseDependenciesFetch {
    /// Nothing yet, and the first page comes next.
    pub fn new() -> (r: Self)
        ensures
            starts(r@),
            r@.wf(),
    {
        ReverseDependenciesFetch {
            query: ReverseDependenciesQuery { page: 1, per_page: PER_PAGE },
            fused: ReverseDependencies {
                dependencies: Vec::new(),
                versions: Vec::new(),
                meta: Meta { total: 0, other: Vec::new() },
            },
        }
    }

    /// The address of the dependencies, without a query.
    fn dependencies_address<P>(&self, opts: &Opts<P>) -> (r: Result<Address, url::ParseError>)
        ensures
            match r {
                Ok(address) => address_joined(
                    opts.api_base,
                    dependencies_path(opts.crate_name@),
                ) == Some(address),
                Err(_) => address_joined(
                    opts.api_base,
                    dependencies_path(opts.crate_name@),
                ) is None,
            },
    {
        let path = join(&join("./crates/", &opts.crate_name), "/reverse_dependencies");
        join_address(&opts.api_base, &path)
    }

    /// The query for the next page.
    fn encode_query(&self) -> (r: Result<String, serde_urlencoded::ser::Error>)
        ensures
            r matches Ok(query) && query@ == page_query(self.query),
            forall|i: int|
                0 <= i < page_query(self.query).len() ==> query_safe(
                    #[trigger] page_query(self.query)[i],
                ),
    {
        proof {
            reveal_strlit("page");
            reveal_strlit("per_page");
            reveal_strlit("page=");
            reveal_strlit("&per_page=");
            reveal_strlit("=");
            reveal_strlit("&");
            lemma_decimal_is_digits(self.query.page as nat);
            lemma_decimal_is_digits(self.query.per_page as nat);
        }
        let r = encode_numbers("page", self.query.page, "per_page", self.query.per_page);
        assert(r->Ok_0@ =~= page_query(self.query));
        r
    }

    /// Where to ask for the next page.
    pub fn request<P>(&self, opts: &Opts<P>) -> (r: Result<Address, CraterError>)
        requires
            takes_page(opts.api_base, opts.crate_name@, self.query),
        ensures
            is_page_request(r, opts.api_base, opts.crate_name@, self.query),
    {
        let mut address = match self.dependencies_address(opts) {
            Ok(address) => address,
            Err(e) => {
                return Err(CraterError::Url(e));
            },
        };
        match self.encode_query() {
            Ok(query) => {
                set_address_query(&mut address, &query);
                Ok(address)
            },
            Err(e) => Err(CraterError::Query(e)),
        }
    }

    /// As [`ReverseDependenciesFetch::request`], but nothing where the address is too long to be
    /// given a query.
    pub fn try_request<P>(&self, opts: &Opts<P>) -> (r: Option<Result<Address, CraterError>>)
        ensures
            match r {
                Some(request) => takes_page(opts.api_base, opts.crate_name@, self.query)
                    && is_page_request(request, opts.api_base, opts.crate_name@, self.query),
                None => !takes_page(opts.api_base, opts.crate_name@, self.query),
            },
    {
        if let (Ok(address), Ok(query)) = (self.dependencies_address(opts), self.encode_query()) {
            if !ends_of(&address).can_take_query(query.as_str().unicode_len()) {
                return None;
            }
        }
        Some(self.request(opts))
    }

    /// Takes an answer in; tells whether there is more to ask for.
    pub fn absorb(&mut self, chunk: ReverseDependencies) -> (more: bool)
        requires
            old(self)@.wf(),
        ensures
            more == goes_on(old(self).query, chunk.meta.total),
            final(self)@ == absorbed(old(self)@, chunk@),
            final(self)@.wf(),
    {
        let mut chunk = chunk;
        self.fused.dependencies.append(&mut chunk.dependencies);
        self.fused.versions.append(&mut chunk.versions);
        self.fused.meta = chunk.meta;
        let ghost query = self.query;
        assert(query.page * query.per_page == query.page * 100) by (nonlinear_arith)
            requires
                query.per_page == 100,
        ;
        let seen: u128 = self.query.page as u128 * self.query.per_page as u128;
        let more = seen < self.fused.meta.total as u128;
        if more {
            self.query.page = self.query.page + 1;
        }
        more
    }
}

/// A fetch that took in these pages, one after the other, and what it held before each and after
/// the last.
pub open spec fn fetched(pages: Seq<PageView>, states: Seq<FetchView>) -> bool {
    &&& states.len() == pages.len() + 1
    &&& starts(states[0])
    &&& forall|i: int|
        0 <= i < pages.len() ==> #[trigger] states[i + 1] == absorbed(states[i], pages[i])
}

/// The dependencies on these pages, in order.
pub open spec fn all_dependencies(pages: Seq<PageView>) -> Seq<Dependency> {
    pages.map_values(|p: PageView| p.dependencies).flatten()
}

/// The versions on these pages, in order.
pub open spec fn all_versions(pages: Seq<PageView>) -> Seq<Version> {
    pages.map_values(|p: PageView| p.versions).flatten()
}

/// How many pages there are for so many dependencies. There is always a first one.
pub open spec fn pages_for(total: u64) -> int {
    if total <= PER_PAGE {
        1
    } else {
        (total + PER_PAGE - 1) / PER_PAGE as int
    }
}

/// A fetch gathers what stands on all the pages it took in, in order, and what the last one says
/// about itself.
pub proof fn law_fetch_gathers_every_page(pages: Seq<PageView>, states: Seq<FetchView>)
    requires
        fetched(pages, states),
    ensures
        states.last().fused.dependencies == all_dependencies(pages),
        states.last().fused.versions == all_versions(pages),
        pages.len() > 0 ==> states.last().fused.meta == pages.last().meta,
    decreases pages.len(),
{
    if pages.len() > 0 {
        let n = pages.len() - 1;
        let earlier = pages.drop_last();
        assert forall|i: int| 0 <= i < earlier.len() implies #[trigger] states.drop_last()[i + 1]
            == absorbed(states.drop_last()[i], earlier[i]) by {
            assert(states[i + 1] == absorbed(states[i], pages[i]));
        }
        law_fetch_gathers_every_page(earlier, states.drop_last());
        assert(states[n + 1] == absorbed(states[n], pages[n]));
        let dependencies = pages.map_values(|p: PageView| p.dependencies);
        let versions = pages.map_values(|p: PageView| p.versions);
        assert(dependencies.drop_last() =~= earlier.map_values(|p: PageView| p.dependencies));
        assert(versions.drop_last() =~= earlier.map_values(|p: PageView| p.versions));
        dependencies.lemma_flatten_and_flatten_alt_are_equivalent();
        dependencies.drop_last().lemma_flatten_and_flatten_alt_are_equivalent();
        versions.lemma_flatten_and_flatten_alt_are_equivalent();
        versions.drop_last().lemma_flatten_and_flatten_alt_are_equivalent();
    }
}

/// There is more behind a page exactly where it is not the last one for its total.
proof fn lemma_goes_on(query: ReverseDependenciesQuery, total: u64)
    requires
        query.page >= 1,
        query.per_page == PER_PAGE,
    ensures
        goes_on(query, total) <==> query.page < pages_for(total),
{
    let page = query.page as int;
    let pages = (total + 99) / 100;
    assert(query.page * query.per_page == page * 100) by (nonlinear_arith)
        requires
            query.per_page == 100,
            page == query.page,
    ;
    lemma_fundamental_div_mod(total + 99, 100);
    lemma_mod_bound(total + 99, 100);
    assert(total <= 100 * pages < total + 100);
    if page < pages {
        assert(100 * page + 100 <= 100 * pages);
    } else {
        assert(100 * page >= 100 * pages);
    }
}

/// A fetch asks for one page after the other and for no page twice. It goes on behind a page
/// exactly where the total on that page tells of more, and so, where all pages tell of one total,
/// it has asked for every page there is once it stops.
pub proof fn law_fetch_asks_for_every_page_once(pages: Seq<PageView>, states: Seq<FetchView>)
    requires
        fetched(pages, states),
        pages.len() > 0,
        forall|i: int|
            0 <= i < pages.len() - 1 ==> goes_on(
                (#[trigger] states[i]).query,
                pages[i].meta.total,
            ),
        !goes_on(states[pages.len() - 1].query, pages.last().meta.total),
    ensures
        forall|i: int| 0 <= i < pages.len() ==> (#[trigger] states[i]).query.page == i + 1,
        forall|i: int|
            0 <= i < pages.len() - 1 ==> i + 1 < pages_for((#[trigger] pages[i]).meta.total),
        pages.len() >= pages_for(pages.last().meta.total),
        pages.len() > 1 && pages[pages.len() - 2].meta.total <= pages.last().meta.total
            ==> pages.len() == pages_for(pages.last().meta.total),
        pages.len() == 1 ==> pages_for(pages.last().meta.total) == 1,
{
    let last = pages.len() - 1;
    lemma_pages_are_counted(pages, states, last);
    assert forall|i: int| 0 <= i < last implies i + 1 < pages_for(
        (#[trigger] pages[i]).meta.total,
    ) by {
        assert(goes_on(states[i].query, pages[i].meta.total));
        lemma_goes_on(states[i].query, pages[i].meta.total);
    }
    lemma_goes_on(states[last].query, pages[last].meta.total);
    if last > 0 {
        assert(last < pages_for(pages[last - 1].meta.total));
        lemma_goes_on(states[last - 1].query, pages[last].meta.total);
    }
}

proof fn lemma_pages_are_counted(pages: Seq<PageView>, states: Seq<FetchView>, n: int)
    requires
        fetched(pages, states),
        0 <= n < pages.len(),
        forall|i: int|
            0 <= i < n ==> goes_on((#[trigger] states[i]).query, pages[i].meta.total),
    ensures
        forall|i: int|
            0 <= i <= n ==> (#[trigger] states[i]).query.page == i + 1 && states[i].query.per_page
                == PER_PAGE,
    decreases n,
{
    if n > 0 {
        lemma_pages_are_counted(pages, states, n - 1);
        let query = states[n - 1].query;
        assert(goes_on(query, pages[n - 1].meta.total));
        assert(query.page * query.per_page == query.page * 100) by (nonlinear_arith)
            requires
                query.per_page == 100,
        ;
        assert(states[(n - 1) + 1] == absorbed(states[n - 1], pages[n - 1]));
    }
}

/// The full description of crates.
#[derive(Debug)]
pub struct CrateInfo {
    pub crates: Vec<Crate>,
}

/// The crates with a repository.
pub open spec fn with_repository(crates: Seq<Crate>) -> Seq<Crate> {
    crates.filter(|c: Crate| c.repository is Some)
}

impl CrateInfo {
    /// No crates.
    pub fn new() -> (r: Self)
        ensures
            r.crates@ == Seq::<Crate>::empty(),
    {
        CrateInfo { crates: Vec::new() }
    }

    /// Takes an answer in.
    pub fn absorb(&mut self, chunk: CrateInfo)
        ensures
            final(self).crates@ == old(self).crates@ + chunk.crates@,
    {
        let mut chunk = chunk;
        self.crates.append(&mut chunk.crates);
    }

    /// How many of the crates have a repository.
    pub fn count_repositories(&self) -> (r: usize)
        ensures
            r == with_repository(self.crates@).len(),
    {
        let mut count: usize = 0;
        let mut i: usize = 0;
        proof {
            reveal(Seq::filter);
        }
        assert(self.crates@.take(0) =~= Seq::empty());
        while i < self.crates.len()
            invariant
                i <= self.crates.len(),
                count <= i,
                count == with_repository(self.crates@.take(i as int)).len(),
            decreases self.crates.len() - i,
        {
            proof {
                reveal(Seq::filter);
            }
            assert(self.crates@.take(i + 1).drop_last() =~= self.crates@.take(i as int));
            if self.crates[i].repository.is_some() {
                count = count + 1;
            }
            i = i + 1;
        }
        assert(self.crates@.take(self.crates.len() as int) =~= self.crates@);
        count
    }
}

/// The names that a request asks about: the next few of them.
pub open spec fn chunk(counts: Seq<CountView>, k: int) -> Seq<CountView> {
    let end = (k + 1) * PER_REQUEST;
    counts.subrange(k * PER_REQUEST, if end < counts.len() { end } else { counts.len() as int })
}

/// How many requests it takes to ask about so many crates.
pub open spec fn chunks_for(n: nat) -> nat {
    (n + PER_REQUEST - 1) as nat / PER_REQUEST as nat
}

/// An address with these crates to ask about.
pub open spec fn with_names(address: Address, counts: Seq<CountView>) -> Address
    decreases counts.len(),
{
    if counts.len() == 0 {
        address
    } else {
        address_with_pair(
            with_names(address, counts.drop_last()),
            "ids[]"@,
            counts.last().name,
        )
    }
}

/// The requests for the crates.
pub open spec fn info_requests(address: Address, counts: Seq<CountView>) -> Seq<Address> {
    Seq::new(chunks_for(counts.len()), |k: int| with_names(address, chunk(counts, k)))
}

/// The crates to ask about, if there are any, can be added to the address of the crates.
pub open spec fn takes_names(api_base: Address, counts: Seq<CountView>) -> bool {
    match address_joined(api_base, "./crates"@) {
        Some(address) => counts.len() > 0 ==> address_ends(address).path <= u32::MAX,
        None => true,
    }
}

/// The requests for the crates, unless there is no address for them.
pub open spec fn are_info_requests(
    r: Result<Vec<Address>, CraterError>,
    api_base: Address,
    counts: Seq<CountView>,
) -> bool {
    match address_joined(api_base, "./crates"@) {
        Some(address) => r matches Ok(requests) && requests@ == info_requests(address, counts),
        None => r matches Err(CraterError::Url(_)),
    }
}

/// Adds a few of the crates to an address, to ask about them.
fn append_names(
    address: &Address,
    counts: &Vec<NameAndDownloadCount>,
    start: usize,
    end: usize,
) -> (r: Address)
    requires
        start <= end <= counts.len(),
        address_ends(*address).takes_pair(),
    ensures
        r == with_names(*address, count_views(counts@).subrange(start as int, end as int)),
{
    let ghost views = count_views(counts@);
    let mut request = copy_address(address);
    let mut i: usize = start;
    assert(views.subrange(start as int, start as int) =~= Seq::empty());
    while i < end
        invariant
            start <= i <= end <= counts.len(),
            views == count_views(counts@),
            request == with_names(*address, views.subrange(start as int, i as int)),
            address_ends(request).takes_pair(),
        decreases end - i,
    {
        let ghost now = views.subrange(start as int, i + 1);
        assert(now.drop_last() =~= views.subrange(start as int, i as int));
        assert(now.last() == counts@[i as int]@);
        append_address_pair(&mut request, "ids[]", &counts[i].name);
        i = i + 1;
    }
    request
}

/// Where to ask for the full description of the crates.
pub fn crate_info_requests<P>(
    opts: &Opts<P>,
    counts: &Vec<NameAndDownloadCount>,
) -> (r: Result<Vec<Address>, CraterError>)
    requires
        takes_names(opts.api_base, count_views(counts@)),
    ensures
        are_info_requests(r, opts.api_base, count_views(counts@)),
{
    proof {
        reveal_strlit("./crates");
    }
    let address = match join_address(&opts.api_base, "./crates") {
        Ok(address) => address,
        Err(e) => {
            return Err(CraterError::Url(e));
        },
    };
    let ghost views = count_views(counts@);
    let mut requests: Vec<Address> = Vec::new();
    let mut start: usize = 0;
    while start < counts.len()
        invariant
            views == count_views(counts@),
            counts.len() > 0 ==> address_ends(address).takes_pair(),
            start == requests@.len() * PER_REQUEST || (start == counts.len() && requests@.len()
                == chunks_for(counts.len() as nat)),
            start <= counts.len(),
            requests@.len() <= chunks_for(counts.len() as nat),
            forall|k: int|
                0 <= k < requests@.len() ==> #[trigger] requests@[k] == with_names(
                    address,
                    chunk(views, k),
                ),
        decreases counts.len() - start,
    {
        let end: usize = if counts.len() - start > PER_REQUEST {
            start + PER_REQUEST
        } else {
            counts.len()
        };
        let ghost k = requests@.len() as int;
        assert(chunk(views, k) == views.subrange(start as int, end as int));
        requests.push(append_names(&address, counts, start, end));
        start = end;
    }
    assert(requests@ =~= info_requests(address, views));
    Ok(requests)
}

/// As [`crate_info_requests`], but nothing where the address is too long to be given a query.
pub fn try_crate_info_requests<P>(
    opts: &Opts<P>,
    counts: &Vec<NameAndDownloadCount>,
) -> (r: Option<Result<Vec<Address>, CraterError>>)
    ensures
        match r {
            Some(requests) => takes_names(opts.api_base, count_views(counts@))
                && are_info_requests(requests, opts.api_base, count_views(counts@)),
            None => !takes_names(opts.api_base, count_views(counts@)),
        },
{
    proof {
        reveal_strlit("./crates");
    }
    if let Ok(address) = join_address(&opts.api_base, "./crates") {
        if counts.len() > 0 && !ends_of(&address).can_take_pair() {
            return None;
        }
    }
    Some(crate_info_requests(opts, counts))
}

/// The names in these chunks, in order.
pub open spec fn chunked(counts: Seq<CountView>, n: nat) -> Seq<CountView> {
    Seq::new(n, |k: int| chunk(counts, k)).flatten()
}

/// The requests ask about every crate once, in order, and each of them about one at least and no
/// more than the registry takes.
pub proof fn law_requests_ask_about_every_crate_once(counts: Seq<CountView>)
    ensures
        chunked(counts, chunks_for(counts.len())) == counts,
        forall|k: int|
            0 <= k < chunks_for(counts.len()) ==> 1 <= (#[trigger] chunk(counts, k)).len()
                <= PER_REQUEST,
{
    lemma_chunks_join(counts, chunks_for(counts.len()));
    assert(counts.take(counts.len() as int) =~= counts);
}

proof fn lemma_chunks_join(counts: Seq<CountView>, n: nat)
    requires
        n <= chunks_for(counts.len()),
    ensures
        chunked(counts, n) == counts.take(
            if n * PER_REQUEST < counts.len() {
                n * PER_REQUEST
            } else {
                counts.len() as int
            },
        ),
    decreases n,
{
    let all = Seq::new(n, |k: int| chunk(counts, k));
    all.lemma_flatten_and_flatten_alt_are_equivalent();
    if n > 0 {
        let before = (n - 1) as nat;
        lemma_chunks_join(counts, before);
        all.drop_last().lemma_flatten_and_flatten_alt_are_equivalent();
        assert(all.drop_last() =~= Seq::new(before, |k: int| chunk(counts, k)));
    }
}

} // verus!
