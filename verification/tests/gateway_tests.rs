use rv_core::config::{resolve_paths, resolve_uv_paths};
use rv_core::downloader::TargetOs;
use rv_core::supervisor::{BackendConfig, PythonManager};
use rv_core::gateway::{
    asset_response, backend_authority, build_proxy_request, fallback_response, gateway_plan,
    normalize_backend_base, resolve_dist_dir, resolve_open_url, route_for_path,
    strip_hop_headers, AssetOutcome, FallbackOutcome, GatewayError, RouteDecision, WebServer,
    WebServerConfig,
};

#[test]
fn web_server_config_default_values() {
    let cfg = WebServerConfig::default();
    assert_eq!(cfg.listen_host, "0.0.0.0");
    assert_eq!(cfg.listen_port, 8080);
    assert_eq!(cfg.backend_base, "http://127.0.0.1:12345");
}

#[test]
fn proxied_prefixes_route_to_backend() {
    for path in [
        "/api", "/api/", "/api/items", "/comic/1", "/root/", "/kemono/a/b",
        "/static/img.png", "/static_kemono/x",
    ] {
        assert_eq!(route_for_path(path), RouteDecision::Proxy, "path {}", path);
    }
}

#[test]
fn prefix_matching_respects_segment_boundaries() {
    assert_eq!(route_for_path("/staticfoo"), RouteDecision::Fallback);
    assert_eq!(route_for_path("/apifoo"), RouteDecision::Fallback);
    assert_eq!(route_for_path("/static_kemono"), RouteDecision::Proxy);
}

#[test]
fn unmatched_paths_fall_back_to_spa_document() {
    assert_eq!(route_for_path("/some/client/route"), RouteDecision::Fallback);
    assert_eq!(route_for_path("/"), RouteDecision::Fallback);
    assert_eq!(route_for_path("/favicon.ico"), RouteDecision::Fallback);
    // The SPA document is served only when no root file exists at the path.
    assert_eq!(fallback_response(true), FallbackOutcome::RootFile);
    assert_eq!(fallback_response(false), FallbackOutcome::SpaIndex);
}

#[test]
fn missing_asset_is_not_found_not_spa() {
    assert_eq!(route_for_path("/assets/missing.js"), RouteDecision::Assets);
    assert_eq!(asset_response(false), AssetOutcome::NotFound);
    assert_eq!(asset_response(true), AssetOutcome::File);
}

#[test]
fn proxy_rewrite_targets_backend_with_host_header() {
    let base = normalize_backend_base("http://127.0.0.1:12345/");
    assert_eq!(base, "http://127.0.0.1:12345");
    let authority = backend_authority(&base).unwrap();
    assert_eq!(authority, "127.0.0.1:12345");
    let req = build_proxy_request(&base, &authority, "/api/items?page=2");
    assert_eq!(req.target_url, "http://127.0.0.1:12345/api/items?page=2");
    assert_eq!(req.host_header, "127.0.0.1:12345");
}

#[test]
fn backend_authority_requires_a_scheme() {
    assert_eq!(backend_authority("http://host:1/x/y").unwrap(), "host:1");
    assert_eq!(backend_authority("https://example.com").unwrap(), "example.com");
    assert!(backend_authority("ftp://host").is_none());
    assert!(backend_authority("host:1234").is_none());
}

#[test]
fn connection_header_is_stripped() {
    let headers = vec![
        ("accept".to_string(), "*/*".to_string()),
        ("connection".to_string(), "keep-alive".to_string()),
        ("host".to_string(), "localhost:8080".to_string()),
    ];
    let kept = strip_hop_headers(headers);
    assert_eq!(
        kept,
        vec![
            ("accept".to_string(), "*/*".to_string()),
            ("host".to_string(), "localhost:8080".to_string()),
        ]
    );
}

#[test]
fn gateway_plan_validates_and_lays_out_serving() {
    let cfg = WebServerConfig::default();
    let dist = resolve_dist_dir(&cfg, Some("/res/dist".to_string()));
    assert_eq!(dist, "/res/dist");
    let plan = gateway_plan(&cfg, dist, true).unwrap();
    assert_eq!(plan.dist_dir, "/res/dist");
    assert_eq!(plan.assets_dir, "/res/dist/assets");
    assert_eq!(plan.index_file, "/res/dist/index.html");
    assert_eq!(plan.backend_base, "http://127.0.0.1:12345");
    assert_eq!(plan.backend_authority, "127.0.0.1:12345");
    assert_eq!(plan.url, "http://localhost:8080/");
}

#[test]
fn gateway_start_fails_fast_without_dist_dir() {
    let cfg = WebServerConfig::default();
    match gateway_plan(&cfg, "/nope".to_string(), false) {
        Err(GatewayError::DistDirMissing(d)) => assert_eq!(d, "/nope"),
        other => panic!("unexpected result: {:?}", other),
    }
}

#[test]
fn gateway_start_rejects_backend_base_without_scheme() {
    let cfg = WebServerConfig {
        backend_base: "127.0.0.1:12345".to_string(),
        ..WebServerConfig::default()
    };
    match gateway_plan(&cfg, "/res".to_string(), true) {
        Err(GatewayError::InvalidBackendBase(b)) => assert_eq!(b, "127.0.0.1:12345"),
        other => panic!("unexpected result: {:?}", other),
    }
}

#[test]
fn server_url_renders_any_port() {
    assert_eq!(WebServer::started(3000).url(), "http://localhost:3000/");
    assert_eq!(WebServer::started(65535).url(), "http://localhost:65535/");
}

#[test]
fn stopping_twice_is_a_noop_the_second_time() {
    let mut ws = WebServer::started(8080);
    assert_eq!(ws.url(), "http://localhost:8080/");
    assert!(ws.stop()); // the signal must be sent now
    assert!(!ws.stop()); // second stop: nothing to do
    assert_eq!(ws.url(), "http://localhost:8080/");
}

#[test]
fn open_url_prefers_gateway_over_backend() {
    let ws = WebServer::started(8080);
    let pm = PythonManager::new(
        resolve_paths(TargetOs::Linux, "/d", "/c", "/h"),
        resolve_uv_paths(TargetOs::Linux, "/d", "/e"),
        BackendConfig::default(),
    );
    assert_eq!(resolve_open_url(Some(&ws), Some(&pm)), "http://localhost:8080/");
    assert_eq!(resolve_open_url(None, Some(&pm)), "http://127.0.0.1:12345/");
    assert_eq!(resolve_open_url(None, None), "http://localhost:8080/");
}
