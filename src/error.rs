//! The failures that resolve and search report, and how a transport failure
//! is classified as expected or unexpected.
use vstd::prelude::*;

use crate::api::{ApiError, ConversionError};

verus! {

/// Failures shared by resolve and search.
#[derive(Debug)]
pub enum CatalogClientError {
    /// The platform identifier is not one the service supports.
    UnsupportedSystem(ConversionError),
    /// A failure of the remote call other than the service's documented
    /// error body.
    UnexpectedError(ApiError),
}

/// Failures of a search.
#[derive(Debug)]
pub enum SearchError {
    /// The service answered the search with its documented error body.
    Search(ApiError),
    /// The service reported a negative number of results.
    NegativeNumberOfResults,
    /// The search term does not fit the service's grammar.
    InvalidSearchTerm(ConversionError),
    /// An attribute path with fewer segments than required; kept for a
    /// stricter check of attribute paths, and not raised.
    ShortAttributePath(String),
    CatalogClientError(CatalogClientError),
}

/// Failures of a resolution.
#[derive(Debug)]
pub enum ResolveError {
    /// The service answered the resolution with its documented error body.
    Resolve(ApiError),
    CatalogClientError(CatalogClientError),
}

/// Whether a transport failure is anything but the service's documented
/// error body.
pub open spec fn is_unexpected(e: ApiError) -> bool {
    !(e is ErrorResponse)
}

/// How a failure of the resolve call is reported.
pub open spec fn resolve_failure(e: ApiError) -> ResolveError {
    if is_unexpected(e) {
        ResolveError::CatalogClientError(CatalogClientError::UnexpectedError(e))
    } else {
        ResolveError::Resolve(e)
    }
}

/// How a failure of the search call is reported.
pub open spec fn search_failure(e: ApiError) -> SearchError {
    if is_unexpected(e) {
        SearchError::CatalogClientError(CatalogClientError::UnexpectedError(e))
    } else {
        SearchError::Search(e)
    }
}

/// The service's documented error body, and only it, is reported as the
/// operation's own failure; every other failure is reported as unexpected.
pub proof fn lemma_classification(e: ApiError)
    ensures
        resolve_failure(e) is Resolve <==> e is ErrorResponse,
        search_failure(e) is Search <==> e is ErrorResponse,
        !(e is ErrorResponse) ==> resolve_failure(e) == ResolveError::CatalogClientError(
            CatalogClientError::UnexpectedError(e),
        ),
        !(e is ErrorResponse) ==> search_failure(e) == SearchError::CatalogClientError(
            CatalogClientError::UnexpectedError(e),
        ),
{
}

impl CatalogClientError {
    /// Whether a transport failure is anything but the service's documented
    /// error body.
    pub fn is_unexpected_error(error: &ApiError) -> (r: bool)
        ensures
            r == is_unexpected(*error),
    {
        !matches!(error, ApiError::ErrorResponse(_))
    }
}

/// The message that describes a shared failure.
pub open spec fn client_error_message(e: CatalogClientError) -> Seq<char> {
    match e {
        CatalogClientError::UnsupportedSystem(_) => "system not supported by catalog"@,
        CatalogClientError::UnexpectedError(_) => "unexpected catalog connection error"@,
    }
}

/// The message that describes a failure of a search.
pub open spec fn search_error_message(e: SearchError) -> Seq<char> {
    match e {
        SearchError::Search(_) => "search failed"@,
        SearchError::NegativeNumberOfResults => "negative number of search resuls"@,
        SearchError::InvalidSearchTerm(_) => "invalid search term"@,
        SearchError::ShortAttributePath(p) => "encountered attribute path with less than 3 elements: "@
            + p@,
        SearchError::CatalogClientError(c) => client_error_message(c),
    }
}

/// The message that describes a failure of a resolution.
pub open spec fn resolve_error_message(e: ResolveError) -> Seq<char> {
    match e {
        ResolveError::Resolve(_) => "resolution failed"@,
        ResolveError::CatalogClientError(c) => client_error_message(c),
    }
}

impl CatalogClientError {
    /// A message that describes the failure.
    pub fn message(&self) -> (r: String)
        ensures
            r@ == client_error_message(*self),
    {
        match self {
            CatalogClientError::UnsupportedSystem(_) => String::from_str(
                "system not supported by catalog",
            ),
            CatalogClientError::UnexpectedError(_) => String::from_str(
                "unexpected catalog connection error",
            ),
        }
    }
}

impl SearchError {
    /// A message that describes the failure.
    pub fn message(&self) -> (r: String)
        ensures
            r@ == search_error_message(*self),
    {
        match self {
            SearchError::Search(_) => String::from_str("search failed"),
            SearchError::NegativeNumberOfResults => String::from_str(
                "negative number of search resuls",
            ),
            SearchError::InvalidSearchTerm(_) => String::from_str("invalid search term"),
            SearchError::ShortAttributePath(p) => String::from_str(
                "encountered attribute path with less than 3 elements: ",
            ).concat(p.as_str()),
            SearchError::CatalogClientError(c) => c.message(),
        }
    }
}

impl ResolveError {
    /// A message that describes the failure.
    pub fn message(&self) -> (r: String)
        ensures
            r@ == resolve_error_message(*self),
    {
        match self {
            ResolveError::Resolve(_) => String::from_str("resolution failed"),
            ResolveError::CatalogClientError(c) => c.message(),
        }
    }

    /// Classifies a failure of the resolve call: the documented error body is
    /// expected, anything else is unexpected.
    pub fn from_api_error(e: ApiError) -> (r: ResolveError)
        ensures
            r == resolve_failure(e),
    {
        if CatalogClientError::is_unexpected_error(&e) {
            ResolveError::from_client_error(CatalogClientError::UnexpectedError(e))
        } else {
            ResolveError::Resolve(e)
        }
    }

    /// Wraps a shared failure.
    pub fn from_client_error(e: CatalogClientError) -> (r: ResolveError)
        ensures
            r == ResolveError::CatalogClientError(e),
    {
        ResolveError::CatalogClientError(e)
    }
}

impl SearchError {
    /// Classifies a failure of the search call: the documented error body is
    /// expected, anything else is unexpected.
    pub fn from_api_error(e: ApiError) -> (r: SearchError)
        ensures
            r == search_failure(e),
    {
        if CatalogClientError::is_unexpected_error(&e) {
            SearchError::from_client_error(CatalogClientError::UnexpectedError(e))
        } else {
            SearchError::Search(e)
        }
    }

    /// Wraps a shared failure.
    pub fn from_client_error(e: CatalogClientError) -> (r: SearchError)
        ensures
            r == SearchError::CatalogClientError(e),
    {
        SearchError::CatalogClientError(e)
    }
}

} // verus!
