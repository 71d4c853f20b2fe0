//! The domain model that callers program against, and its conversions from
//! and to the wire schema.
use vstd::prelude::*;

use crate::api;
use crate::api::{parse_system, system_name};
use crate::error::{CatalogClientError, SearchError};
use crate::text::{split_dot, split_on_dot, views};

verus! {

/// The one catalog that searches go to.
pub const NIXPKGS_CATALOG: &'static str = "nixpkgs";

/// The name of the one catalog that searches go to.
pub open spec fn nixpkgs_catalog() -> Seq<char> {
    "nixpkgs"@
}

/// A package as a request names it; passed through to the service.
pub type PackageDescriptor = api::PackageDescriptor;

/// A fully resolved package entry; passed through from the service.
pub type PackageResolutionInfo = api::PackageResolutionInfo;

/// A named batch of descriptors, for one platform, to resolve together.
#[derive(Debug)]
pub struct PackageGroup {
    pub descriptors: Vec<PackageDescriptor>,
    pub name: String,
    /// A platform identifier, such as `x86_64-linux`.
    pub system: String,
}

/// The resolution of one requested group.
#[derive(Debug)]
pub struct ResolvedPackageGroup {
    pub name: String,
    pub pages: Vec<CatalogPage>,
    pub system: String,
}

/// One page of resolved packages for a group.
#[derive(Debug)]
pub struct CatalogPage {
    pub packages: Vec<PackageResolutionInfo>,
    pub page: i64,
    /// Where the page comes from.
    pub url: String,
}

/// One search hit.
#[derive(Debug)]
pub struct SearchResult {
    /// The catalog the hit comes from.
    pub input: String,
    pub system: String,
    /// The attribute path, split on `.`.
    pub rel_path: Vec<String>,
    pub pname: Option<String>,
    pub version: Option<String>,
    pub description: Option<String>,
    pub license: Option<String>,
}

/// A page of search hits.
#[derive(Debug)]
pub struct SearchResults {
    pub results: Vec<SearchResult>,
    /// How many hits the service reports in all.
    pub count: Option<u64>,
}

/// `w` is the wire form of `g`.
pub open spec fn is_wire_group_of(w: api::PackageGroup, g: PackageGroup) -> bool {
    &&& w.descriptors == g.descriptors
    &&& w.name == g.name
    &&& parse_system(g.system@) == Some(w.system)
    &&& w.stability is None
}

/// The page of the domain model that a wire page maps to.
pub open spec fn page_of(p: api::CatalogPage) -> CatalogPage {
    CatalogPage { packages: p.packages, page: p.page, url: p.url }
}

/// `r` is the domain form of the reported group `w`.
pub open spec fn is_resolved_group_of(r: ResolvedPackageGroup, w: api::ResolvedPackageGroupInput) -> bool {
    &&& r.name == w.name
    &&& r.system@ == system_name(w.system)
    &&& r.pages@ == w.pages@.map_values(|p: api::CatalogPage| page_of(p))
}

/// `r` is the domain form of the search hit `w`.
pub open spec fn is_search_result_of(r: SearchResult, w: api::PackageInfoApiInput) -> bool {
    &&& r.input@ == nixpkgs_catalog()
    &&& r.system@ == system_name(w.system)
    &&& views(r.rel_path@) == split_dot(w.attr_path@)
    &&& r.pname == Some(w.pname)
    &&& r.version == Some(w.version)
    &&& r.description == Some(w.description)
    &&& r.license == Some(w.license)
}

/// A supported identifier names the platform that it is read as.
pub proof fn lemma_system_name_of_parse(s: Seq<char>)
    requires
        parse_system(s) is Some,
    ensures
        system_name(parse_system(s)->0) == s,
{
}

/// A group's name and platform survive the trip to the wire and back: where
/// the service echoes the name and platform of a group's wire form, the
/// domain form of its answer carries the group's own name and platform.
pub proof fn lemma_group_round_trip(
    group: PackageGroup,
    wire: api::PackageGroup,
    echoed: api::ResolvedPackageGroupInput,
    resolved: ResolvedPackageGroup,
)
    requires
        is_wire_group_of(wire, group),
        echoed.name == wire.name,
        echoed.system == wire.system,
        is_resolved_group_of(resolved, echoed),
    ensures
        resolved.name == group.name,
        resolved.system@ == group.system@,
{
    lemma_system_name_of_parse(group.system@);
}

impl api::PackageGroup {
    /// The wire form of a group; fails on a platform the service does not
    /// support.
    pub fn try_from(package_group: PackageGroup) -> (r: Result<api::PackageGroup, CatalogClientError>)
        ensures
            match r {
                Ok(w) => is_wire_group_of(w, package_group),
                Err(e) => parse_system(package_group.system@) is None && (match e {
                    CatalogClientError::UnsupportedSystem(c) => c.value@ == package_group.system@,
                    _ => false,
                }),
            },
    {
        let system = match api::System::try_from(package_group.system.as_str()) {
            Ok(s) => s,
            Err(e) => {
                return Err(CatalogClientError::UnsupportedSystem(e));
            },
        };
        Ok(api::PackageGroup {
            descriptors: package_group.descriptors,
            name: package_group.name,
            system,
            stability: None,
        })
    }
}

impl CatalogPage {
    /// The domain form of a wire page: the fields are copied.
    pub fn from(catalog_page: api::CatalogPage) -> (r: CatalogPage)
        ensures
            r == page_of(catalog_page),
    {
        CatalogPage {
            packages: catalog_page.packages,
            page: catalog_page.page,
            url: catalog_page.url,
        }
    }
}

impl ResolvedPackageGroup {
    /// The domain form of a reported group; it always succeeds.
    pub fn try_from(resolved_package_group: api::ResolvedPackageGroupInput) -> (r: Result<
        ResolvedPackageGroup,
        CatalogClientError,
    >)
        ensures
            r is Ok,
            r matches Ok(g) ==> is_resolved_group_of(g, resolved_package_group),
    {
        let api::ResolvedPackageGroupInput { name, pages: wire_pages, system } =
            resolved_package_group;
        let ghost all = wire_pages@;
        let mut rest = wire_pages;
        let mut pages: Vec<CatalogPage> = Vec::new();
        while rest.len() > 0
            invariant
                pages@.len() + rest@.len() == all.len(),
                rest@ == all.subrange(pages@.len() as int, all.len() as int),
                pages@ == all.subrange(0, pages@.len() as int).map_values(
                    |p: api::CatalogPage| page_of(p),
                ),
            decreases rest.len(),
        {
            let ghost k: int = pages@.len() as int;
            let p = rest.remove(0);
            pages.push(CatalogPage::from(p));
            assert(all.subrange(0, k + 1).map_values(|p: api::CatalogPage| page_of(p))
                =~= all.subrange(0, k).map_values(|p: api::CatalogPage| page_of(p)).push(
                page_of(all[k]),
            ));
            assert(rest@ =~= all.subrange(k + 1, all.len() as int));
        }
        assert(all.subrange(0, all.len() as int) =~= all);
        Ok(ResolvedPackageGroup { name, pages, system: system.to_string() })
    }
}

impl SearchResult {
    /// The domain form of a search hit, from the one catalog searched; the
    /// attribute path is split on `.`. It always succeeds.
    pub fn try_from(package_info: api::PackageInfoApiInput) -> (r: Result<SearchResult, SearchError>)
        ensures
            r is Ok,
            r matches Ok(s) ==> is_search_result_of(s, package_info),
    {
        let rel_path = split_on_dot(package_info.attr_path.as_str());
        Ok(SearchResult {
            input: String::from_str(NIXPKGS_CATALOG),
            system: package_info.system.to_string(),
            rel_path,
            pname: Some(package_info.pname),
            version: Some(package_info.version),
            description: Some(package_info.description),
            license: Some(package_info.license),
        })
    }
}

} // verus!
