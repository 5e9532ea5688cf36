use dive_core::host::{HostError, McpHost};
use dive_core::paths::{
    augmented_search_path, path_join, path_or_fallback, resolve_dirs, simplify_path,
};
use dive_core::shell::{ContentType, HttpMethod, MCPInstallParam, MCPServerSearchParam};
use dive_core::text::{str_eq, str_starts_with, strip_prefix_or_self};

#[test]
fn build_url_fails_until_a_hostname_is_set() {
    let host = McpHost::new();
    assert_eq!(host.build_url("/api/ping"), Err(HostError::HostnameNotSet));
}

#[test]
fn build_url_joins_scheme_host_and_path() {
    let mut host = McpHost::new();
    host.set_hostname("localhost:61990".to_string());
    assert_eq!(
        host.build_url("/api/plugins/oap-platform/config/refresh"),
        Ok("http://localhost:61990/api/plugins/oap-platform/config/refresh".to_string())
    );
}

#[test]
fn set_hostname_strips_the_scheme_prefix() {
    let mut host = McpHost::new();
    host.set_hostname("http://127.0.0.1:8000".to_string());
    assert_eq!(host.build_url("/x"), Ok("http://127.0.0.1:8000/x".to_string()));
}

#[test]
fn default_host_has_no_hostname() {
    let host = McpHost::default();
    assert!(host.build_url("/").is_err());
}

#[test]
fn directories_lie_under_the_home() {
    let dirs = resolve_dirs("/home/u");
    assert_eq!(dirs.root, "/home/u/.dive");
    assert_eq!(dirs.cache, "/home/u/.dive/host_cache");
    assert_eq!(dirs.bus, "/home/u/.dive/host_cache/bus");
    assert_eq!(dirs.log, "/home/u/.dive/log");
    assert_eq!(dirs.bin, "/home/u/.dive/bin");
    assert_eq!(dirs.config, "/home/u/.dive/config");
}

#[test]
fn path_join_inserts_one_separator() {
    assert_eq!(path_join("/a/b", "c.json"), "/a/b/c.json");
}

#[test]
fn simplify_path_keeps_plain_paths() {
    // On platforms without verbatim path prefixes, normalization is
    // the identity.
    assert_eq!(simplify_path("/home/u/.dive/config"), "/home/u/.dive/config");
}

#[test]
fn search_path_is_augmented_only_where_tools_are_bundled() {
    assert_eq!(augmented_search_path("/usr/bin:/bin", "/home/u/.dive/bin", false), "/usr/bin:/bin");
    assert_eq!(
        augmented_search_path("C:\\w", "C:\\dive\\bin", true),
        "C:\\w;C:\\\\dive\\\\bin/nodejs;C:\\\\dive\\\\bin/uv"
    );
}

#[test]
fn empty_search_path_falls_back() {
    assert_eq!(path_or_fallback("/usr/bin", None), "/usr/bin");
    assert_eq!(path_or_fallback("/usr/bin", Some("/shell".to_string())), "/usr/bin");
    assert_eq!(path_or_fallback("", Some("/from/shell".to_string())), "/from/shell");
    assert_eq!(path_or_fallback("", None), "/opt/homebrew/bin:/usr/local/bin:/usr/bin");
}

#[test]
fn text_helpers_compare_by_characters() {
    assert!(str_eq("abc", "abc"));
    assert!(!str_eq("abc", "abd"));
    assert!(!str_eq("abc", "ab"));
    assert!(str_starts_with("http://x", "http://"));
    assert!(!str_starts_with("https://x", "http://"));
    assert!(!str_starts_with("ht", "http://"));
    assert_eq!(strip_prefix_or_self("http://x", "http://"), "x");
    assert_eq!(strip_prefix_or_self("ftp://x", "http://"), "ftp://x");
}

#[test]
fn http_method_names_round_trip() {
    for m in
        [HttpMethod::Get, HttpMethod::Post, HttpMethod::Put, HttpMethod::Delete, HttpMethod::Options]
    {
        assert_eq!(HttpMethod::parse(&m.name()), Some(m));
    }
    assert_eq!(HttpMethod::parse("PATCH"), None);
    assert_eq!(HttpMethod::default_method(), HttpMethod::Get);
    assert_eq!(HttpMethod::Get.name(), "GET");
}

#[test]
fn content_type_names_round_trip() {
    assert_eq!(ContentType::Json.name(), "json");
    assert_eq!(ContentType::Form.name(), "form");
    assert_eq!(ContentType::parse("json"), Some(ContentType::Json));
    assert_eq!(ContentType::parse("form"), Some(ContentType::Form));
    assert_eq!(ContentType::parse("xml"), None);
}

#[test]
fn shell_data_carries_plain_values() {
    let install = MCPInstallParam { name: "weather".to_string(), config: "{}".to_string() };
    assert_eq!(install.name, "weather");
    assert_eq!(install.config, "{}");

    let search = MCPServerSearchParam {
        search_input: "files".to_string(),
        page: Some(2),
        tags: Some(vec!["fs".to_string()]),
        subscription_level: None,
        is_official: Some(true),
        sort_order: None,
    };
    assert_eq!(search.search_input, "files");
    assert_eq!(search.page, Some(2));
}
