//! The resolve and search operations: the requests they send, how they read
//! what comes back, and the clients that answer them, live or scripted.
use vstd::prelude::*;

use crate::api;
use crate::api::{is_valid_search_term, parse_system, ApiError, SearchTerm};
use crate::error::{resolve_failure, search_failure, CatalogClientError, ResolveError, SearchError};
use crate::model::{
    is_resolved_group_of, is_search_result_of, is_wire_group_of, nixpkgs_catalog, PackageGroup,
    ResolvedPackageGroup, SearchResult, SearchResults, NIXPKGS_CATALOG,
};

verus! {

/// Group `k` is the first whose platform the service does not support.
pub open spec fn first_unsupported(groups: Seq<PackageGroup>, k: int) -> bool {
    &&& 0 <= k < groups.len()
    &&& parse_system(groups[k].system@) is None
    &&& forall|j: int| 0 <= j < k ==> parse_system(#[trigger] groups[j].system@) is Some
}

/// Every group names a platform the service supports.
pub open spec fn all_supported(groups: Seq<PackageGroup>) -> bool {
    forall|i: int| 0 <= i < groups.len() ==> parse_system(#[trigger] groups[i].system@) is Some
}

/// `e` reports `system` as a platform the service does not support.
pub open spec fn is_unsupported_system(e: CatalogClientError, system: Seq<char>) -> bool {
    e matches CatalogClientError::UnsupportedSystem(c) && c.value@ == system
}

/// What building a resolve request from `groups` gives: the wire form of
/// each group, in order, or the rejection of the first unsupported platform.
pub open spec fn resolve_request_outcome(
    groups: Seq<PackageGroup>,
    r: Result<api::PackageGroups, ResolveError>,
) -> bool {
    match r {
        Ok(req) => {
            &&& all_supported(groups)
            &&& req.items@.len() == groups.len()
            &&& forall|i: int| 0 <= i < groups.len() ==> is_wire_group_of(#[trigger] req.items@[i], groups[i])
        },
        Err(e) => {
            &&& !all_supported(groups)
            &&& exists|k: int| #[trigger] first_unsupported(groups, k) && (e matches ResolveError::CatalogClientError(c) && is_unsupported_system(c, groups[k].system@))
        },
    }
}

/// What reading the answer to a resolve call gives: the domain form of each
/// reported group, in order, or the classified failure.
pub open spec fn resolve_outcome(
    response: Result<api::ResolvedPackageGroups, ApiError>,
    r: Result<Vec<ResolvedPackageGroup>, ResolveError>,
) -> bool {
    match response {
        Err(e) => r == Err::<Vec<ResolvedPackageGroup>, ResolveError>(resolve_failure(e)),
        Ok(body) => match r {
            Ok(groups) => {
                &&& groups@.len() == body.items@.len()
                &&& forall|i: int| 0 <= i < groups@.len() ==> is_resolved_group_of(#[trigger] groups@[i], body.items@[i])
            },
            Err(_) => false,
        },
    }
}

/// What building a search query gives: the query for the one catalog, or
/// the rejection of the term, else of the platform.
pub open spec fn search_request_outcome(
    search_term: Seq<char>,
    system: Seq<char>,
    limit: u8,
    r: Result<api::SearchQuery, SearchError>,
) -> bool {
    match r {
        Ok(q) => {
            &&& is_valid_search_term(search_term)
            &&& parse_system(system) == Some(q.system)
            &&& q.seq@ == search_term
            &&& q.limit == Some(limit)
            &&& q.stability is None
            &&& q.catalog matches Some(c) && c@ == nixpkgs_catalog()
        },
        Err(e) => if !is_valid_search_term(search_term) {
            e matches SearchError::InvalidSearchTerm(c) && c.value@ == search_term
        } else {
            &&& parse_system(system) is None
            &&& e matches SearchError::CatalogClientError(c) && is_unsupported_system(c, system)
        },
    }
}

/// What reading the answer to a search call gives: the domain form of each
/// hit, in order, with the reported total, or the classified failure, or
/// the rejection of a negative total.
pub open spec fn search_outcome(
    response: Result<api::PackageSearchResultInput, ApiError>,
    r: Result<SearchResults, SearchError>,
) -> bool {
    match response {
        Err(e) => r == Err::<SearchResults, SearchError>(search_failure(e)),
        Ok(body) => if body.total_count < 0 {
            r == Err::<SearchResults, SearchError>(SearchError::NegativeNumberOfResults)
        } else {
            match r {
                Ok(found) => {
                    &&& found.count == Some(body.total_count as u64)
                    &&& found.results@.len() == body.items@.len()
                    &&& forall|i: int| 0 <= i < found.results@.len() ==> is_search_result_of(#[trigger] found.results@[i], body.items@[i])
                },
                Err(_) => false,
            }
        },
    }
}

/// A batch with a group whose platform the service does not support is
/// rejected as such, whatever the other groups hold.
pub proof fn lemma_unsupported_group_rejected(
    groups: Seq<PackageGroup>,
    k: int,
    r: Result<api::PackageGroups, ResolveError>,
)
    requires
        0 <= k < groups.len(),
        parse_system(groups[k].system@) is None,
        resolve_request_outcome(groups, r),
    ensures
        r matches Err(ResolveError::CatalogClientError(CatalogClientError::UnsupportedSystem(_))),
{
    if r is Ok {
        assert(parse_system(groups[k].system@) is Some);
    }
}

/// A negative total is rejected; any other is the count reported, exactly.
pub proof fn lemma_search_count(
    body: api::PackageSearchResultInput,
    r: Result<SearchResults, SearchError>,
)
    requires
        search_outcome(Ok(body), r),
    ensures
        body.total_count < 0 ==> r == Err::<SearchResults, SearchError>(
            SearchError::NegativeNumberOfResults,
        ),
        body.total_count >= 0 ==> (r matches Ok(found) && found.count matches Some(n) && n
            == body.total_count),
{
}

/// The body of a resolve request for `package_groups`, all in one batch;
/// fails on the first group whose platform the service does not support.
pub fn resolve_request(package_groups: Vec<PackageGroup>) -> (r: Result<api::PackageGroups, ResolveError>)
    ensures
        resolve_request_outcome(package_groups@, r),
{
    let ghost all = package_groups@;
    let mut rest = package_groups;
    let mut items: Vec<api::PackageGroup> = Vec::new();
    while rest.len() > 0
        invariant
            all == package_groups@,
            items@.len() + rest@.len() == all.len(),
            rest@ == all.subrange(items@.len() as int, all.len() as int),
            forall|i: int| 0 <= i < items@.len() ==> is_wire_group_of(#[trigger] items@[i], all[i]),
            forall|i: int| 0 <= i < items@.len() ==> parse_system(#[trigger] all[i].system@) is Some,
        decreases rest.len(),
    {
        let ghost k: int = items@.len() as int;
        let group = rest.remove(0);
        assert(group == all[k]);
        match api::PackageGroup::try_from(group) {
            Ok(w) => {
                items.push(w);
            },
            Err(e) => {
                assert(first_unsupported(all, k));
                assert(!all_supported(all));
                let r = ResolveError::from_client_error(e);
                assert(r matches ResolveError::CatalogClientError(c) && is_unsupported_system(
                    c,
                    all[k].system@,
                ));
                return Err(r);
            },
        }
        assert(rest@ =~= all.subrange(k + 1, all.len() as int));
    }
    Ok(api::PackageGroups { items })
}

/// Reads the answer to a resolve call: a failure is classified, and each
/// reported group is brought into the domain model.
pub fn resolve_response(response: Result<api::ResolvedPackageGroups, ApiError>) -> (r: Result<
    Vec<ResolvedPackageGroup>,
    ResolveError,
>)
    ensures
        resolve_outcome(response, r),
{
    let body = match response {
        Ok(body) => body,
        Err(e) => {
            return Err(ResolveError::from_api_error(e));
        },
    };
    let ghost all = body.items@;
    let mut rest = body.items;
    let mut groups: Vec<ResolvedPackageGroup> = Vec::new();
    while rest.len() > 0
        invariant
            groups@.len() + rest@.len() == all.len(),
            rest@ == all.subrange(groups@.len() as int, all.len() as int),
            forall|i: int| 0 <= i < groups@.len() ==> is_resolved_group_of(#[trigger] groups@[i], all[i]),
        decreases rest.len(),
    {
        let ghost k: int = groups@.len() as int;
        let item = rest.remove(0);
        match ResolvedPackageGroup::try_from(item) {
            Ok(g) => {
                groups.push(g);
            },
            Err(e) => {
                return Err(ResolveError::from_client_error(e));
            },
        }
        assert(rest@ =~= all.subrange(k + 1, all.len() as int));
    }
    Ok(groups)
}

/// The query of a search for `search_term` on `system`, at most `limit`
/// hits, in the one catalog; the term is checked first, then the platform.
pub fn search_request(search_term: &str, system: String, limit: u8) -> (r: Result<
    api::SearchQuery,
    SearchError,
>)
    ensures
        search_request_outcome(search_term@, system@, limit, r),
{
    let seq = match SearchTerm::from_str(search_term) {
        Ok(t) => t,
        Err(e) => {
            return Err(SearchError::InvalidSearchTerm(e));
        },
    };
    let system = match api::System::try_from(system.as_str()) {
        Ok(s) => s,
        Err(e) => {
            return Err(SearchError::from_client_error(CatalogClientError::UnsupportedSystem(e)));
        },
    };
    Ok(api::SearchQuery {
        catalog: Some(String::from_str(NIXPKGS_CATALOG)),
        stability: None,
        limit: Some(limit),
        seq,
        system,
    })
}

/// Reads the answer to a search call: a failure is classified, each hit is
/// brought into the domain model, and a negative total is rejected.
pub fn search_response(response: Result<api::PackageSearchResultInput, ApiError>) -> (r: Result<
    SearchResults,
    SearchError,
>)
    ensures
        search_outcome(response, r),
{
    let body = match response {
        Ok(body) => body,
        Err(e) => {
            return Err(SearchError::from_api_error(e));
        },
    };
    let api::PackageSearchResultInput { items, total_count } = body;
    let ghost all = items@;
    let mut rest = items;
    let mut results: Vec<SearchResult> = Vec::new();
    while rest.len() > 0
        invariant
            results@.len() + rest@.len() == all.len(),
            rest@ == all.subrange(results@.len() as int, all.len() as int),
            forall|i: int| 0 <= i < results@.len() ==> is_search_result_of(#[trigger] results@[i], all[i]),
        decreases rest.len(),
    {
        let ghost k: int = results@.len() as int;
        let item = rest.remove(0);
        match SearchResult::try_from(item) {
            Ok(s) => {
                results.push(s);
            },
            Err(e) => {
                return Err(e);
            },
        }
        assert(rest@ =~= all.subrange(k + 1, all.len() as int));
    }
    if total_count < 0 {
        return Err(SearchError::NegativeNumberOfResults);
    }
    Ok(SearchResults { results, count: Some(total_count as u64) })
}


/// The address of the production catalog service.
pub const DEFAULT_CATALOG_URL: &'static str = "https://flox-catalog.flox.dev";

/// The address of the production catalog service.
pub open spec fn default_catalog_url() -> Seq<char> {
    "https://flox-catalog.flox.dev"@
}

/// A client for the live catalog service, bound to its address for its
/// whole life.
#[derive(Debug)]
pub struct CatalogClient {
    base_url: String,
}

impl View for CatalogClient {
    /// The service's address.
    type V = Seq<char>;

    closed spec fn view(&self) -> Seq<char> {
        self.base_url@
    }
}

impl CatalogClient {
    /// A client for the production service.
    pub fn new() -> (r: CatalogClient)
        ensures
            r@ == default_catalog_url(),
    {
        CatalogClient::with_base_url(String::from_str(DEFAULT_CATALOG_URL))
    }

    /// A client for the service at `base_url`.
    pub fn with_base_url(base_url: String) -> (r: CatalogClient)
        ensures
            r@ == base_url@,
    {
        CatalogClient { base_url }
    }

    /// The service's address.
    pub fn base_url(&self) -> (r: &str)
        ensures
            r@ == self@,
    {
        self.base_url.as_str()
    }
}

impl Default for CatalogClient {
    fn default() -> (r: CatalogClient)
        ensures
            r@ == default_catalog_url(),
    {
        CatalogClient::new()
    }
}

/// A stand-in for the service that answers from scripted responses, in the
/// order they were scripted, and checks requests as the live client does.
#[derive(Debug)]
pub struct MockClient {
    /// What the next resolve calls answer, first to last.
    pub resolve_responses: Vec<Result<api::ResolvedPackageGroups, ApiError>>,
    /// What the next search calls answer, first to last.
    pub search_responses: Vec<Result<api::PackageSearchResultInput, ApiError>>,
}

/// The failure of a call that no scripted response is left for.
pub open spec fn is_unscripted(e: CatalogClientError) -> bool {
    e matches CatalogClientError::UnexpectedError(ApiError::CommunicationError(_))
}

/// What a resolve call on the stand-in `before` does: a request the live
/// client would reject is rejected and nothing is consumed; otherwise the
/// first scripted response is consumed and read as the live answer is.
pub open spec fn mock_resolve_outcome(
    before: MockClient,
    after: MockClient,
    groups: Seq<PackageGroup>,
    r: Result<Vec<ResolvedPackageGroup>, ResolveError>,
) -> bool {
    if !all_supported(groups) {
        &&& after == before
        &&& r matches Err(e) && resolve_request_outcome(groups, Err(e))
    } else if before.resolve_responses@.len() == 0 {
        &&& after == before
        &&& r matches Err(ResolveError::CatalogClientError(e)) && is_unscripted(e)
    } else {
        &&& after.resolve_responses@ == before.resolve_responses@.drop_first()
        &&& after.search_responses == before.search_responses
        &&& resolve_outcome(before.resolve_responses@[0], r)
    }
}

/// What a search call on the stand-in `before` does, in the same way.
pub open spec fn mock_search_outcome(
    before: MockClient,
    after: MockClient,
    search_term: Seq<char>,
    system: Seq<char>,
    limit: u8,
    r: Result<SearchResults, SearchError>,
) -> bool {
    if !is_valid_search_term(search_term) || parse_system(system) is None {
        &&& after == before
        &&& r matches Err(e) && search_request_outcome(search_term, system, limit, Err(e))
    } else if before.search_responses@.len() == 0 {
        &&& after == before
        &&& r matches Err(SearchError::CatalogClientError(e)) && is_unscripted(e)
    } else {
        &&& after.search_responses@ == before.search_responses@.drop_first()
        &&& after.resolve_responses == before.resolve_responses
        &&& search_outcome(before.search_responses@[0], r)
    }
}

fn no_scripted_response() -> (r: CatalogClientError)
    ensures
        is_unscripted(r),
{
    CatalogClientError::UnexpectedError(
        ApiError::CommunicationError(String::from_str("no scripted response")),
    )
}

impl MockClient {
    /// A stand-in with nothing scripted.
    pub fn new() -> (r: MockClient)
        ensures
            r.resolve_responses@.len() == 0,
            r.search_responses@.len() == 0,
    {
        MockClient { resolve_responses: Vec::new(), search_responses: Vec::new() }
    }

    /// Scripts the answer to a later resolve call, after those scripted so far.
    pub fn push_resolve_response(&mut self, response: Result<api::ResolvedPackageGroups, ApiError>)
        ensures
            final(self).resolve_responses@ == old(self).resolve_responses@.push(response),
            final(self).search_responses == old(self).search_responses,
    {
        self.resolve_responses.push(response);
    }

    /// Scripts the answer to a later search call, after those scripted so far.
    pub fn push_search_response(&mut self, response: Result<api::PackageSearchResultInput, ApiError>)
        ensures
            final(self).search_responses@ == old(self).search_responses@.push(response),
            final(self).resolve_responses == old(self).resolve_responses,
    {
        self.search_responses.push(response);
    }

    /// Resolves `package_groups` against the next scripted response.
    pub fn resolve(&mut self, package_groups: Vec<PackageGroup>) -> (r: Result<
        Vec<ResolvedPackageGroup>,
        ResolveError,
    >)
        ensures
            mock_resolve_outcome(*old(self), *final(self), package_groups@, r),
    {
        if let Err(e) = resolve_request(package_groups) {
            return Err(e);
        }
        if self.resolve_responses.len() == 0 {
            return Err(ResolveError::from_client_error(no_scripted_response()));
        }
        let response = self.resolve_responses.remove(0);
        resolve_response(response)
    }

    /// Searches for `search_term` against the next scripted response.
    pub fn search(&mut self, search_term: &str, system: String, limit: u8) -> (r: Result<
        SearchResults,
        SearchError,
    >)
        ensures
            mock_search_outcome(*old(self), *final(self), search_term@, system@, limit, r),
    {
        if let Err(e) = search_request(search_term, system, limit) {
            return Err(e);
        }
        if self.search_responses.len() == 0 {
            return Err(SearchError::from_client_error(no_scripted_response()));
        }
        let response = self.search_responses.remove(0);
        search_response(response)
    }
}

/// Either a client for the live service or a scripted stand-in, chosen once
/// when it is made.
#[derive(Debug)]
pub enum Client {
    Catalog(CatalogClient),
    Mock(MockClient),
}

/// What a resolve call on a client comes to: an answer, or a request that
/// the caller sends to the service at `base_url` and whose answer it reads
/// with `resolve_response`.
#[derive(Debug)]
pub enum ResolveStep {
    Done(Result<Vec<ResolvedPackageGroup>, ResolveError>),
    Send { base_url: String, request: api::PackageGroups },
}

/// What a search call on a client comes to: an answer, or a query that the
/// caller sends to the service at `base_url` and whose answer it reads with
/// `search_response`.
#[derive(Debug)]
pub enum SearchStep {
    Done(Result<SearchResults, SearchError>),
    Send { base_url: String, query: api::SearchQuery },
}

impl Client {
    /// Starts resolving `package_groups`: the stand-in answers at once; the
    /// live client answers a rejected request at once and else hands back
    /// the one batched request to send.
    pub fn resolve(&mut self, package_groups: Vec<PackageGroup>) -> (r: ResolveStep)
        ensures
            match *old(self) {
                Client::Mock(before) => {
                    &&& *final(self) matches Client::Mock(after)
                    &&& r matches ResolveStep::Done(res)
                    &&& mock_resolve_outcome(before, after, package_groups@, res)
                },
                Client::Catalog(c) => {
                    &&& *final(self) == *old(self)
                    &&& match r {
                        ResolveStep::Done(res) => res matches Err(e) && resolve_request_outcome(
                            package_groups@,
                            Err(e),
                        ),
                        ResolveStep::Send { base_url, request } => base_url@ == c@
                            && resolve_request_outcome(package_groups@, Ok(request)),
                    }
                },
            },
    {
        match self {
            Client::Mock(m) => ResolveStep::Done(m.resolve(package_groups)),
            Client::Catalog(c) => match resolve_request(package_groups) {
                Err(e) => ResolveStep::Done(Err(e)),
                Ok(request) => ResolveStep::Send {
                    base_url: String::from_str(c.base_url()),
                    request,
                },
            },
        }
    }

    /// Starts a search for `search_term`: the stand-in answers at once; the
    /// live client answers a rejected query at once and else hands back the
    /// query to send.
    pub fn search(&mut self, search_term: &str, system: String, limit: u8) -> (r: SearchStep)
        ensures
            match *old(self) {
                Client::Mock(before) => {
                    &&& *final(self) matches Client::Mock(after)
                    &&& r matches SearchStep::Done(res)
                    &&& mock_search_outcome(before, after, search_term@, system@, limit, res)
                },
                Client::Catalog(c) => {
                    &&& *final(self) == *old(self)
                    &&& match r {
                        SearchStep::Done(res) => res matches Err(e) && search_request_outcome(
                            search_term@,
                            system@,
                            limit,
                            Err(e),
                        ),
                        SearchStep::Send { base_url, query } => base_url@ == c@
                            && search_request_outcome(search_term@, system@, limit, Ok(query)),
                    }
                },
            },
    {
        match self {
            Client::Mock(m) => SearchStep::Done(m.search(search_term, system, limit)),
            Client::Catalog(c) => match search_request(search_term, system, limit) {
                Err(e) => SearchStep::Done(Err(e)),
                Ok(query) => SearchStep::Send { base_url: String::from_str(c.base_url()), query },
            },
        }
    }
}

} // verus!
