use stratmaster_desktop::config::SharedRuntimeConfig;
use stratmaster_desktop::health::{
    check_all, check_primary, decimal_string, health_url, local_endpoints, HealthResponse,
    PrimaryProbeEvent, ServiceHealthMap,
};
use stratmaster_desktop::system::{classify, effective_memory, get_system_info};
use stratmaster_desktop::{AppConfig, AppError, HardwareProfile};

#[test]
fn classify_high_performance_needs_memory_and_gpu() {
    assert_eq!(classify(20_000_000_000, true), "high-performance");
    assert_eq!(classify(20_000_000_000, false), "standard");
}

#[test]
fn classify_standard_and_lightweight() {
    assert_eq!(classify(10_000_000_000, false), "standard");
    assert_eq!(classify(2_000_000_000, false), "lightweight");
    assert_eq!(classify(2_000_000_000, true), "lightweight");
}

#[test]
fn classify_boundaries_are_strict() {
    assert_eq!(classify(16_000_000_000, true), "standard");
    assert_eq!(classify(8_000_000_000, false), "lightweight");
    assert_eq!(classify(8_000_000_000, true), "lightweight");
    assert_eq!(classify(16_000_000_001, true), "high-performance");
    assert_eq!(classify(8_000_000_001, false), "standard");
}

#[test]
fn classify_is_deterministic() {
    for _ in 0..3 {
        assert_eq!(classify(10_000_000_000, true), "standard");
    }
}

#[test]
fn effective_memory_converts_and_falls_back() {
    assert_eq!(effective_memory(None), 8_000_000_000);
    assert_eq!(effective_memory(Some(16_000_000)), 16_384_000_000);
    assert_eq!(effective_memory(Some(0)), 0);
    assert_eq!(effective_memory(Some(u64::MAX)), u64::MAX);
}

#[test]
fn system_info_carries_inputs_and_classifies() {
    let info = get_system_info("linux".to_string(), "x86_64".to_string(), false, false);
    assert_eq!(info.platform, "linux");
    assert_eq!(info.arch, "x86_64");
    assert!(info.cpu_count >= 1);
    assert!(!info.has_gpu);
    assert_eq!(info.recommended_config, classify(info.memory_total, info.has_gpu));
}

#[test]
fn system_info_gpu_heuristic_is_either_signal() {
    assert!(get_system_info("linux".into(), "aarch64".into(), true, false).has_gpu);
    assert!(get_system_info("linux".into(), "aarch64".into(), false, true).has_gpu);
    assert!(!get_system_info("linux".into(), "aarch64".into(), false, false).has_gpu);
}

#[test]
fn endpoint_table_is_fixed() {
    let eps = local_endpoints();
    assert_eq!(eps.len(), 4);
    assert_eq!(eps[0], ("api".to_string(), "http://localhost:8080/healthz".to_string()));
    assert_eq!(
        eps[1],
        ("research-mcp".to_string(), "http://localhost:8081/health".to_string())
    );
    assert_eq!(
        eps[2],
        ("knowledge-mcp".to_string(), "http://localhost:8082/health".to_string())
    );
    assert_eq!(eps[3], ("router-mcp".to_string(), "http://localhost:8083/health".to_string()));
}

#[test]
fn check_all_two_reachable_two_unreachable() {
    let probes = vec![
        ("api".to_string(), true),
        ("research-mcp".to_string(), false),
        ("knowledge-mcp".to_string(), true),
        ("router-mcp".to_string(), false),
    ];
    let map = check_all(probes);
    assert_eq!(map.len(), 4);
    assert_eq!(map.get(&"api".to_string()), Some(true));
    assert_eq!(map.get(&"research-mcp".to_string()), Some(false));
    assert_eq!(map.get(&"knowledge-mcp".to_string()), Some(true));
    assert_eq!(map.get(&"router-mcp".to_string()), Some(false));
    assert_eq!(map.get(&"unknown".to_string()), None);
}

#[test]
fn check_all_all_unreachable_is_all_false() {
    let names = ["api", "research-mcp", "knowledge-mcp", "router-mcp"];
    let probes: Vec<(String, bool)> = names.iter().map(|n| (n.to_string(), false)).collect();
    let map = check_all(probes);
    assert_eq!(map.len(), 4);
    for n in names {
        assert_eq!(map.get(&n.to_string()), Some(false));
    }
}

#[test]
fn check_all_cardinality_does_not_depend_on_outcomes() {
    let names = ["api", "research-mcp", "knowledge-mcp", "router-mcp"];
    for pattern in 0..16u32 {
        let probes: Vec<(String, bool)> = names
            .iter()
            .enumerate()
            .map(|(i, n)| (n.to_string(), pattern & (1 << i) != 0))
            .collect();
        assert_eq!(check_all(probes).len(), 4);
    }
}

#[test]
fn check_all_later_probe_overwrites_earlier() {
    let probes = vec![("api".to_string(), true), ("api".to_string(), false)];
    let map = check_all(probes);
    assert_eq!(map.len(), 1);
    assert_eq!(map.get(&"api".to_string()), Some(false));
}

#[test]
fn health_map_insert_and_get() {
    let mut map = ServiceHealthMap::new();
    assert_eq!(map.len(), 0);
    map.insert("api".to_string(), true);
    map.insert("router-mcp".to_string(), false);
    assert_eq!(map.len(), 2);
    assert_eq!(map.get(&"api".to_string()), Some(true));
    map.insert("api".to_string(), false);
    assert_eq!(map.len(), 2);
    assert_eq!(map.get(&"api".to_string()), Some(false));
}

#[test]
fn health_url_appends_healthz_to_base() {
    assert_eq!(
        health_url(&"http://example.test:9999".to_string()),
        "http://example.test:9999/healthz"
    );
}

#[test]
fn health_url_of_empty_base_is_default() {
    assert_eq!(health_url(&String::new()), "http://localhost:8080/healthz");
}

#[test]
fn config_starts_at_default_and_is_last_write_wins() {
    let mut cfg = SharedRuntimeConfig::new();
    assert_eq!(cfg.current_base_url(), "http://localhost:8080");
    cfg.set_api_base_url("http://first.test".to_string());
    cfg.set_api_base_url("http://second.test".to_string());
    assert_eq!(cfg.current_base_url(), "http://second.test");
}

#[test]
fn set_base_url_then_check_targets_new_url() {
    let mut cfg = SharedRuntimeConfig::new();
    cfg.set_api_base_url("http://other.test:1234".to_string());
    let url = health_url(&cfg.current_base_url());
    assert_eq!(url, "http://other.test:1234/healthz");
}

#[test]
fn check_primary_returns_parsed_report_unchanged() {
    let report = HealthResponse {
        status: "ok".to_string(),
        services: Some(vec![("router".to_string(), "ok".to_string())]),
    };
    let r = check_primary(PrimaryProbeEvent::Parsed(report));
    match r {
        Ok(h) => {
            assert_eq!(h.status, "ok");
            assert_eq!(h.services, Some(vec![("router".to_string(), "ok".to_string())]));
        }
        Err(_) => panic!("a parsed report must be a success"),
    }
}

#[test]
fn check_primary_connection_failure() {
    let r = check_primary(PrimaryProbeEvent::ConnectFailed("connection refused".to_string()));
    match r {
        Err(AppError::ApiConnectionFailed(cause)) => assert_eq!(cause, "connection refused"),
        _ => panic!("a transport failure must be ApiConnectionFailed"),
    }
}

#[test]
fn check_primary_parse_failure_is_distinct() {
    let r = check_primary(PrimaryProbeEvent::ParseFailed("missing field status".to_string()));
    match r {
        Err(AppError::ResponseParseFailed(cause)) => assert_eq!(cause, "missing field status"),
        _ => panic!("an unparseable body must be ResponseParseFailed"),
    }
}

#[test]
fn check_primary_bad_status_names_the_code() {
    let r = check_primary(PrimaryProbeEvent::BadStatus(503));
    match r {
        Err(AppError::ApiConnectionFailed(cause)) => {
            assert_eq!(cause, "health check failed with HTTP status 503");
        }
        _ => panic!("a non-success status must be ApiConnectionFailed"),
    }
}

#[test]
fn decimal_string_renders_exactly() {
    assert_eq!(decimal_string(0), "0");
    assert_eq!(decimal_string(7), "7");
    assert_eq!(decimal_string(503), "503");
    assert_eq!(decimal_string(65535), "65535");
    assert_eq!(decimal_string(u64::MAX), "18446744073709551615");
}

#[test]
fn app_config_default_values() {
    let c = AppConfig::default();
    assert_eq!(c.api_base_url, "http://localhost:8080");
    assert!(!c.auto_start_services);
    assert_eq!(c.theme, "auto");
    assert!(matches!(c.hardware_profile, HardwareProfile::Standard));
}

#[test]
fn error_messages_name_the_failure_class() {
    assert_eq!(
        AppError::ApiConnectionFailed("refused".to_string()).message(),
        "API connection failed: refused"
    );
    assert_eq!(
        AppError::ConfigError("bad".to_string()).message(),
        "Configuration error: bad"
    );
    assert_eq!(
        AppError::FileSystemError("gone".to_string()).message(),
        "File system error: gone"
    );
    assert_eq!(
        AppError::SystemDetectionError("unknown".to_string()).message(),
        "System detection error: unknown"
    );
    assert_eq!(
        AppError::ResponseParseFailed("not json".to_string()).message(),
        "Failed to parse health response: not json"
    );
}
