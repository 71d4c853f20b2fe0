//! The catalog service's wire schema: the request and response shapes that
//! travel over the transport, and the errors the transport reports.
use vstd::prelude::*;

use crate::text::str_eq;

verus! {

/// A platform identifier that the catalog service supports.
#[derive(Clone, Copy, Debug, PartialEq, Eq, Structural)]
pub enum System {
    Aarch64Darwin,
    Aarch64Linux,
    X8664Darwin,
    X8664Linux,
}

/// The identifier that names a supported platform on the wire.
pub open spec fn system_name(s: System) -> Seq<char> {
    match s {
        System::Aarch64Darwin => "aarch64-darwin"@,
        System::Aarch64Linux => "aarch64-linux"@,
        System::X8664Darwin => "x86_64-darwin"@,
        System::X8664Linux => "x86_64-linux"@,
    }
}

/// The supported platform that an identifier names, if any.
pub open spec fn parse_system(s: Seq<char>) -> Option<System> {
    if s == "aarch64-darwin"@ {
        Some(System::Aarch64Darwin)
    } else if s == "aarch64-linux"@ {
        Some(System::Aarch64Linux)
    } else if s == "x86_64-darwin"@ {
        Some(System::X8664Darwin)
    } else if s == "x86_64-linux"@ {
        Some(System::X8664Linux)
    } else {
        None
    }
}

/// Whether an identifier names a platform the service supports.
pub open spec fn is_supported_system(s: Seq<char>) -> bool {
    parse_system(s) is Some
}

/// A value that did not fit a constrained wire type.
#[derive(Debug)]
pub struct ConversionError {
    /// The rejected input.
    pub value: String,
}

impl System {
    /// The wire identifier of this platform.
    pub fn as_str(&self) -> (r: &'static str)
        ensures
            r@ == system_name(*self),
    {
        match self {
            System::Aarch64Darwin => "aarch64-darwin",
            System::Aarch64Linux => "aarch64-linux",
            System::X8664Darwin => "x86_64-darwin",
            System::X8664Linux => "x86_64-linux",
        }
    }

    /// The wire identifier of this platform, as an owned string.
    pub fn to_string(&self) -> (r: String)
        ensures
            r@ == system_name(*self),
    {
        String::from_str(self.as_str())
    }

    /// Reads a platform identifier; fails on one the service does not support.
    pub fn try_from(s: &str) -> (r: Result<System, ConversionError>)
        ensures
            match r {
                Ok(v) => parse_system(s@) == Some(v),
                Err(e) => parse_system(s@) is None && e.value@ == s@,
            },
    {
        if str_eq(s, "aarch64-darwin") {
            Ok(System::Aarch64Darwin)
        } else if str_eq(s, "aarch64-linux") {
            Ok(System::Aarch64Linux)
        } else if str_eq(s, "x86_64-darwin") {
            Ok(System::X8664Darwin)
        } else if str_eq(s, "x86_64-linux") {
            Ok(System::X8664Linux)
        } else {
            Err(ConversionError { value: String::from_str(s) })
        }
    }
}


/// A character that the service accepts in a search term.
pub open spec fn is_term_char(c: char) -> bool {
    ('a' <= c && c <= 'z') || ('A' <= c && c <= 'Z') || ('0' <= c && c <= '9') || c == '-'
        || c == '.' || c == '_' || c == ','
}

/// The service's grammar of search terms: two to two hundred characters, each
/// a letter, a digit, or one of `-`, `.`, `_`, `,`.
pub open spec fn is_valid_search_term(s: Seq<char>) -> bool {
    &&& 2 <= s.len() <= 200
    &&& forall|i: int| 0 <= i < s.len() ==> #[trigger] is_term_char(s[i])
}

/// A search term that conforms to the service's grammar.
#[derive(Debug)]
pub struct SearchTerm {
    term: String,
}

impl View for SearchTerm {
    type V = Seq<char>;

    closed spec fn view(&self) -> Seq<char> {
        self.term@
    }
}

fn term_char(c: char) -> (r: bool)
    ensures
        r == is_term_char(c),
{
    ('a' <= c && c <= 'z') || ('A' <= c && c <= 'Z') || ('0' <= c && c <= '9') || c == '-'
        || c == '.' || c == '_' || c == ','
}

impl SearchTerm {
    /// The term's text.
    pub fn as_str(&self) -> (r: &str)
        ensures
            r@ == self@,
    {
        self.term.as_str()
    }

    /// Validates a search term against the service's grammar.
    pub fn from_str(s: &str) -> (r: Result<SearchTerm, ConversionError>)
        ensures
            match r {
                Ok(t) => is_valid_search_term(s@) && t@ == s@,
                Err(e) => !is_valid_search_term(s@) && e.value@ == s@,
            },
    {
        let n = s.unicode_len();
        if n < 2 || n > 200 {
            return Err(ConversionError { value: String::from_str(s) });
        }
        let mut i: usize = 0;
        while i < n
            invariant
                n == s@.len(),
                i <= n,
                forall|j: int| 0 <= j < i ==> #[trigger] is_term_char(s@[j]),
            decreases n - i,
        {
            if !term_char(s.get_char(i)) {
                return Err(ConversionError { value: String::from_str(s) });
            }
            i = i + 1;
        }
        Ok(SearchTerm { term: String::from_str(s) })
    }
}

/// A package as a request names it; the service interprets its fields.
#[derive(Debug)]
pub struct PackageDescriptor {
    pub install_id: String,
    pub attr_path: String,
    pub version: Option<String>,
}

/// A fully resolved package entry, as the service reports it.
#[derive(Debug)]
pub struct PackageResolutionInfo {
    pub attr_path: String,
    pub derivation: String,
    pub pname: String,
    pub version: String,
    pub outputs: Vec<String>,
}

/// One group of a resolve request.
#[derive(Debug)]
pub struct PackageGroup {
    pub descriptors: Vec<PackageDescriptor>,
    pub name: String,
    pub system: System,
    pub stability: Option<String>,
}

/// The body of a resolve request.
#[derive(Debug)]
pub struct PackageGroups {
    pub items: Vec<PackageGroup>,
}

/// One page of resolved packages, as the service reports it.
#[derive(Debug)]
pub struct CatalogPage {
    pub packages: Vec<PackageResolutionInfo>,
    pub page: i64,
    pub url: String,
}

/// The resolution of one requested group, as the service reports it.
#[derive(Debug)]
pub struct ResolvedPackageGroupInput {
    pub name: String,
    pub pages: Vec<CatalogPage>,
    pub system: System,
}

/// The body of a resolve response.
#[derive(Debug)]
pub struct ResolvedPackageGroups {
    pub items: Vec<ResolvedPackageGroupInput>,
}

/// One search hit, as the service reports it.
#[derive(Debug)]
pub struct PackageInfoApiInput {
    pub attr_path: String,
    pub description: String,
    pub license: String,
    pub pname: String,
    pub system: System,
    pub version: String,
}

/// The body of a search response.
#[derive(Debug)]
pub struct PackageSearchResultInput {
    pub items: Vec<PackageInfoApiInput>,
    pub total_count: i64,
}

/// The query of a search request.
#[derive(Debug)]
pub struct SearchQuery {
    pub catalog: Option<String>,
    pub stability: Option<String>,
    pub limit: Option<u8>,
    pub seq: SearchTerm,
    pub system: System,
}

/// The structured error body that the service documents.
#[derive(Debug)]
pub struct ErrorResponse {
    pub detail: String,
}

/// A failure of one remote call, as the transport reports it.
#[derive(Debug)]
pub enum ApiError {
    /// The request could not be built.
    InvalidRequest(String),
    /// The service could not be reached.
    CommunicationError(String),
    /// The service answered with its documented error body.
    ErrorResponse(ErrorResponse),
    /// The response body did not fit the schema.
    InvalidResponsePayload(String),
    /// The service answered with a status the schema does not list.
    UnexpectedResponse(u16),
}

} // verus!
