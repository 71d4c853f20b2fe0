use catalog_client::api::{
    ApiError, CatalogPage as WireCatalogPage, ErrorResponse, PackageDescriptor,
    PackageGroup as WirePackageGroup, PackageInfoApiInput, PackageSearchResultInput,
    ResolvedPackageGroupInput, ResolvedPackageGroups, SearchTerm, System,
};
use catalog_client::client::{
    resolve_request, resolve_response, search_request, search_response, CatalogClient, Client,
    MockClient, ResolveStep, SearchStep, DEFAULT_CATALOG_URL,
};
use catalog_client::error::{CatalogClientError, ResolveError, SearchError};
use catalog_client::model::{CatalogPage, PackageGroup, ResolvedPackageGroup, SearchResult};

fn descriptor(id: &str) -> PackageDescriptor {
    PackageDescriptor {
        install_id: id.to_string(),
        attr_path: id.to_string(),
        version: None,
    }
}

fn group(name: &str, system: &str, n: usize) -> PackageGroup {
    PackageGroup {
        descriptors: (0..n).map(|i| descriptor(&format!("pkg{}", i))).collect(),
        name: name.to_string(),
        system: system.to_string(),
    }
}

fn hit(attr_path: &str) -> PackageInfoApiInput {
    PackageInfoApiInput {
        attr_path: attr_path.to_string(),
        description: "...".to_string(),
        license: "GPL-3.0".to_string(),
        pname: "hello".to_string(),
        system: System::X8664Linux,
        version: "2.12".to_string(),
    }
}

fn strings(v: &[&str]) -> Vec<String> {
    v.iter().map(|s| s.to_string()).collect()
}

#[test]
fn resolve_toolchain_scenario() {
    let mut mock = MockClient::new();
    mock.push_resolve_response(Ok(ResolvedPackageGroups {
        items: vec![ResolvedPackageGroupInput {
            name: "toolchain".to_string(),
            pages: vec![WireCatalogPage {
                packages: vec![],
                page: 0,
                url: "https://cache.example/page0".to_string(),
            }],
            system: System::X8664Linux,
        }],
    }));
    let resolved = mock
        .resolve(vec![group("toolchain", "x86_64-linux", 2)])
        .unwrap();
    assert_eq!(resolved.len(), 1);
    assert_eq!(resolved[0].name, "toolchain");
    assert_eq!(resolved[0].system, "x86_64-linux");
    assert_eq!(resolved[0].pages.len(), 1);
    assert!(resolved[0].pages[0].packages.is_empty());
    assert_eq!(resolved[0].pages[0].page, 0);
    assert_eq!(resolved[0].pages[0].url, "https://cache.example/page0");
    assert!(mock.resolve_responses.is_empty());
}

#[test]
fn resolve_request_is_one_batch_in_order() {
    let request = resolve_request(vec![
        group("a", "x86_64-linux", 2),
        group("b", "aarch64-darwin", 0),
    ])
    .unwrap();
    assert_eq!(request.items.len(), 2);
    assert_eq!(request.items[0].name, "a");
    assert_eq!(request.items[0].system, System::X8664Linux);
    assert_eq!(request.items[0].descriptors.len(), 2);
    assert_eq!(request.items[0].descriptors[1].install_id, "pkg1");
    assert!(request.items[0].stability.is_none());
    assert_eq!(request.items[1].name, "b");
    assert_eq!(request.items[1].system, System::Aarch64Darwin);
}

#[test]
fn group_round_trip_keeps_name_and_system() {
    for system in ["aarch64-darwin", "aarch64-linux", "x86_64-darwin", "x86_64-linux"] {
        let wire = WirePackageGroup::try_from(group("dev", system, 1)).unwrap();
        let echoed = ResolvedPackageGroupInput {
            name: wire.name,
            pages: vec![],
            system: wire.system,
        };
        let resolved = ResolvedPackageGroup::try_from(echoed).unwrap();
        assert_eq!(resolved.name, "dev");
        assert_eq!(resolved.system, system);
        assert!(resolved.pages.is_empty());
    }
}

#[test]
fn unsupported_group_is_rejected_before_sending() {
    let mut mock = MockClient::new();
    mock.push_resolve_response(Ok(ResolvedPackageGroups { items: vec![] }));
    let r = mock.resolve(vec![
        group("ok", "x86_64-linux", 1),
        group("bad", "riscv64-linux", 1),
        group("worse", "plan9", 1),
    ]);
    match r {
        Err(ResolveError::CatalogClientError(CatalogClientError::UnsupportedSystem(e))) => {
            assert_eq!(e.value, "riscv64-linux")
        }
        other => panic!("unexpected {:?}", other),
    }
    assert_eq!(mock.resolve_responses.len(), 1);

    let mut client = Client::Catalog(CatalogClient::new());
    match client.resolve(vec![group("bad", "windows", 0)]) {
        ResolveStep::Done(Err(ResolveError::CatalogClientError(
            CatalogClientError::UnsupportedSystem(_),
        ))) => {}
        other => panic!("unexpected {:?}", other),
    }
}

#[test]
fn live_client_hands_back_the_request() {
    let mut client = Client::Catalog(CatalogClient::with_base_url("http://localhost:8000".to_string()));
    match client.resolve(vec![group("g", "aarch64-linux", 3)]) {
        ResolveStep::Send { base_url, request } => {
            assert_eq!(base_url, "http://localhost:8000");
            assert_eq!(request.items.len(), 1);
            assert_eq!(request.items[0].system, System::Aarch64Linux);
        }
        other => panic!("unexpected {:?}", other),
    }
    match client.search("hello", "x86_64-darwin".to_string(), 7) {
        SearchStep::Send { base_url, query } => {
            assert_eq!(base_url, "http://localhost:8000");
            assert_eq!(query.catalog.as_deref(), Some("nixpkgs"));
            assert_eq!(query.seq.as_str(), "hello");
            assert_eq!(query.limit, Some(7));
            assert_eq!(query.system, System::X8664Darwin);
            assert!(query.stability.is_none());
        }
        other => panic!("unexpected {:?}", other),
    }
}

#[test]
fn default_client_uses_production_url() {
    assert_eq!(CatalogClient::new().base_url(), DEFAULT_CATALOG_URL);
    assert_eq!(CatalogClient::default().base_url(), "https://flox-catalog.flox.dev");
}

#[test]
fn search_hello_scenario() {
    let mut mock = MockClient::new();
    mock.push_search_response(Ok(PackageSearchResultInput {
        items: vec![hit("legacyPackages.x86_64-linux.hello")],
        total_count: 1,
    }));
    let found = mock.search("hello", "x86_64-linux".to_string(), 10).unwrap();
    assert_eq!(found.count, Some(1));
    assert_eq!(found.results.len(), 1);
    let r: &SearchResult = &found.results[0];
    assert_eq!(r.input, "nixpkgs");
    assert_eq!(r.system, "x86_64-linux");
    assert_eq!(r.rel_path, strings(&["legacyPackages", "x86_64-linux", "hello"]));
    assert_eq!(r.pname.as_deref(), Some("hello"));
    assert_eq!(r.version.as_deref(), Some("2.12"));
    assert_eq!(r.description.as_deref(), Some("..."));
    assert_eq!(r.license.as_deref(), Some("GPL-3.0"));
}

#[test]
fn search_unsupported_system_scenario() {
    let mut mock = MockClient::new();
    mock.push_search_response(Ok(PackageSearchResultInput { items: vec![], total_count: 0 }));
    match mock.search("hello", "unsupported-os".to_string(), 10) {
        Err(SearchError::CatalogClientError(CatalogClientError::UnsupportedSystem(e))) => {
            assert_eq!(e.value, "unsupported-os")
        }
        other => panic!("unexpected {:?}", other),
    }
    assert_eq!(mock.search_responses.len(), 1);
    let mut client = Client::Catalog(CatalogClient::new());
    assert!(matches!(
        client.search("hello", "unsupported-os".to_string(), 10),
        SearchStep::Done(Err(SearchError::CatalogClientError(
            CatalogClientError::UnsupportedSystem(_)
        )))
    ));
}

#[test]
fn invalid_search_term_is_checked_first() {
    for term in ["h", "", "hello world", "caf\u{e9}", "a/b"] {
        match search_request(term, "unsupported-os".to_string(), 10) {
            Err(SearchError::InvalidSearchTerm(e)) => assert_eq!(e.value, term),
            other => panic!("unexpected {:?}", other),
        }
    }
}

#[test]
fn search_term_grammar_bounds() {
    assert!(SearchTerm::from_str("he").is_ok());
    assert!(SearchTerm::from_str("Python3.11_pkgs,-x").is_ok());
    assert!(SearchTerm::from_str(&"a".repeat(200)).is_ok());
    assert!(SearchTerm::from_str(&"a".repeat(201)).is_err());
    assert!(SearchTerm::from_str("a").is_err());
}

#[test]
fn negative_total_is_rejected() {
    let r = search_response(Ok(PackageSearchResultInput {
        items: vec![hit("hello")],
        total_count: -1,
    }));
    assert!(matches!(r, Err(SearchError::NegativeNumberOfResults)));
}

#[test]
fn total_count_is_kept_exactly() {
    let r = search_response(Ok(PackageSearchResultInput {
        items: vec![],
        total_count: 4_000_000_000,
    }))
    .unwrap();
    assert_eq!(r.count, Some(4_000_000_000));
    assert!(r.results.is_empty());
    let r = search_response(Ok(PackageSearchResultInput { items: vec![], total_count: 0 })).unwrap();
    assert_eq!(r.count, Some(0));
}

#[test]
fn attribute_paths_split_on_dots() {
    let cases: [(&str, &[&str]); 5] = [
        ("hello", &["hello"]),
        ("python3Packages.requests", &["python3Packages", "requests"]),
        ("a..b", &["a", "", "b"]),
        (".x.", &["", "x", ""]),
        ("", &[""]),
    ];
    for (path, expected) in cases {
        let r = SearchResult::try_from(hit(path)).unwrap();
        assert_eq!(r.rel_path, strings(expected));
    }
}

fn every_failure() -> Vec<ApiError> {
    vec![
        ApiError::InvalidRequest("bad".to_string()),
        ApiError::CommunicationError("refused".to_string()),
        ApiError::ErrorResponse(ErrorResponse { detail: "no such package".to_string() }),
        ApiError::InvalidResponsePayload("garbage".to_string()),
        ApiError::UnexpectedResponse(502),
    ]
}

#[test]
fn resolve_failures_are_classified() {
    for e in every_failure() {
        let expected = matches!(e, ApiError::ErrorResponse(_));
        assert_eq!(CatalogClientError::is_unexpected_error(&e), !expected);
        match resolve_response(Err(e)) {
            Err(ResolveError::Resolve(ApiError::ErrorResponse(body))) => {
                assert!(expected);
                assert_eq!(body.detail, "no such package");
            }
            Err(ResolveError::CatalogClientError(CatalogClientError::UnexpectedError(inner))) => {
                assert!(!expected);
                assert!(!matches!(inner, ApiError::ErrorResponse(_)));
            }
            other => panic!("unexpected {:?}", other),
        }
    }
}

#[test]
fn search_failures_are_classified() {
    for e in every_failure() {
        let expected = matches!(e, ApiError::ErrorResponse(_));
        match search_response(Err(e)) {
            Err(SearchError::Search(ApiError::ErrorResponse(_))) => assert!(expected),
            Err(SearchError::CatalogClientError(CatalogClientError::UnexpectedError(inner))) => {
                assert!(!expected);
                assert!(!matches!(inner, ApiError::ErrorResponse(_)));
            }
            other => panic!("unexpected {:?}", other),
        }
    }
}

#[test]
fn unscripted_mock_reports_unexpected_error() {
    let mut mock = MockClient::new();
    assert!(matches!(
        mock.resolve(vec![]),
        Err(ResolveError::CatalogClientError(CatalogClientError::UnexpectedError(
            ApiError::CommunicationError(_)
        )))
    ));
    assert!(matches!(
        mock.search("hello", "x86_64-linux".to_string(), 1),
        Err(SearchError::CatalogClientError(CatalogClientError::UnexpectedError(
            ApiError::CommunicationError(_)
        )))
    ));
}

#[test]
fn mock_answers_in_scripted_order() {
    let mut client = Client::Mock(MockClient::new());
    if let Client::Mock(m) = &mut client {
        m.push_resolve_response(Err(ApiError::UnexpectedResponse(500)));
        m.push_resolve_response(Ok(ResolvedPackageGroups { items: vec![] }));
    }
    assert!(matches!(
        client.resolve(vec![]),
        ResolveStep::Done(Err(ResolveError::CatalogClientError(
            CatalogClientError::UnexpectedError(ApiError::UnexpectedResponse(500))
        )))
    ));
    match client.resolve(vec![]) {
        ResolveStep::Done(Ok(v)) => assert!(v.is_empty()),
        other => panic!("unexpected {:?}", other),
    }
}

#[test]
fn pages_are_copied_in_order() {
    let resolved = resolve_response(Ok(ResolvedPackageGroups {
        items: vec![ResolvedPackageGroupInput {
            name: "g".to_string(),
            pages: vec![
                WireCatalogPage { packages: vec![], page: 3, url: "u3".to_string() },
                WireCatalogPage { packages: vec![], page: 1, url: "u1".to_string() },
            ],
            system: System::Aarch64Darwin,
        }],
    }))
    .unwrap();
    assert_eq!(resolved[0].system, "aarch64-darwin");
    let pages: Vec<(i64, String)> = resolved[0].pages.iter().map(|p| (p.page, p.url.clone())).collect();
    assert_eq!(pages, vec![(3, "u3".to_string()), (1, "u1".to_string())]);
    let page = CatalogPage::from(WireCatalogPage { packages: vec![], page: 9, url: "x".to_string() });
    assert_eq!(page.page, 9);
    assert_eq!(page.url, "x");
}

#[test]
fn systems_read_and_write_their_identifiers() {
    for (s, v) in [
        ("aarch64-darwin", System::Aarch64Darwin),
        ("aarch64-linux", System::Aarch64Linux),
        ("x86_64-darwin", System::X8664Darwin),
        ("x86_64-linux", System::X8664Linux),
    ] {
        assert_eq!(System::try_from(s).unwrap(), v);
        assert_eq!(v.to_string(), s);
        assert_eq!(v.as_str(), s);
    }
    assert!(System::try_from("x86_64-linux ").is_err());
    assert!(System::try_from("").is_err());
}

#[test]
fn error_messages() {
    assert_eq!(SearchError::Search(ApiError::UnexpectedResponse(500)).message(), "search failed");
    assert_eq!(
        SearchError::NegativeNumberOfResults.message(),
        "negative number of search resuls"
    );
    assert_eq!(
        SearchError::ShortAttributePath("a.b".to_string()).message(),
        "encountered attribute path with less than 3 elements: a.b"
    );
    let unsupported = match System::try_from("plan9") {
        Err(e) => e,
        Ok(s) => panic!("unexpected {:?}", s),
    };
    assert_eq!(
        SearchError::CatalogClientError(CatalogClientError::UnsupportedSystem(unsupported)).message(),
        "system not supported by catalog"
    );
    match search_request("?", "x86_64-linux".to_string(), 1) {
        Err(e) => assert_eq!(e.message(), "invalid search term"),
        Ok(q) => panic!("unexpected {:?}", q),
    }
    assert_eq!(
        ResolveError::Resolve(ApiError::ErrorResponse(ErrorResponse { detail: String::new() })).message(),
        "resolution failed"
    );
    assert_eq!(
        ResolveError::CatalogClientError(CatalogClientError::UnexpectedError(
            ApiError::CommunicationError("refused".to_string())
        ))
        .message(),
        "unexpected catalog connection error"
    );
}
