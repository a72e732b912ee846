use agentx::plugin_marketplace::{
    join_path, text_less, DownloadStats, MarketplaceConfig, MarketplaceError, PluginCategory, PluginDependency,
    PluginMarketplace, PluginMetadata, PluginPackage, PluginRatings, PluginVersion, SearchQuery,
    SortBy,
};

fn create_test_config() -> MarketplaceConfig {
    MarketplaceConfig {
        cache_dir: "/tmp/agentx-test/cache".to_string(),
        install_dir: "/tmp/agentx-test/plugins".to_string(),
        default_repository: "https://test.plugins.agentx.dev".to_string(),
        cache_expiry_hours: 1,
        auto_update: false,
        verify_signatures: false,
        max_concurrent_downloads: 1,
    }
}

fn version(v: &str, pre: bool) -> PluginVersion {
    PluginVersion {
        version: v.to_string(),
        released_at: 0,
        changelog: format!("changes in {}", v),
        download_url: "https://example.com/plugin.tar.gz".to_string(),
        file_size: 1024,
        file_hash: "abc123".to_string(),
        signature: None,
        min_agentx_version: "0.1.0".to_string(),
        is_prerelease: pre,
    }
}

fn package(name: &str, versions: Vec<PluginVersion>) -> PluginPackage {
    PluginPackage {
        metadata: PluginMetadata {
            name: name.to_string(),
            display_name: "Test Plugin".to_string(),
            description: "A test plugin".to_string(),
            author: "Test Author".to_string(),
            author_email: Some("test@example.com".to_string()),
            homepage: None,
            keywords: vec!["test".to_string()],
            category: PluginCategory::Development,
            created_at: 0,
            updated_at: 0,
        },
        versions,
        download_stats: DownloadStats::default(),
        ratings: PluginRatings::default(),
        dependencies: Vec::new(),
        tags: vec!["test".to_string()],
        license: "MIT".to_string(),
        repository_url: None,
        documentation_url: None,
    }
}

fn create_test_plugin() -> PluginPackage {
    package("test-plugin", vec![version("1.0.0", false)])
}

fn query(sort_by: SortBy, page: usize, page_size: usize) -> SearchQuery {
    SearchQuery { sort_by, page, page_size, ..SearchQuery::default() }
}

#[test]
fn test_marketplace_creation() {
    let marketplace = PluginMarketplace::new(create_test_config());
    assert!(marketplace.list_installed_plugins().is_empty());
}

#[test]
fn test_search_query_default() {
    let query = SearchQuery::default();
    assert_eq!(query.page, 0);
    assert_eq!(query.page_size, 0);
    assert!(matches!(query.sort_by, SortBy::Relevance));
}

#[test]
fn test_plugin_package_creation() {
    let plugin = create_test_plugin();
    assert_eq!(plugin.metadata.name, "test-plugin");
    assert_eq!(plugin.versions.len(), 1);
    assert_eq!(plugin.versions[0].version, "1.0.0");
}

#[test]
fn install_takes_the_newest_stable_version() {
    let mut m = PluginMarketplace::new(create_test_config());
    let p = package("p", vec![version("1.0.0", false), version("2.0.0-beta", true), version("1.2.0", false)]);
    m.install_plugin("p", Some(p), None, 42).unwrap();
    let installed = m.list_installed_plugins();
    assert_eq!(installed.len(), 1);
    assert_eq!(installed[0].installed_version, "1.2.0");
    assert_eq!(installed[0].installed_at, 42);
    assert_eq!(installed[0].install_path, "/tmp/agentx-test/plugins/p");
    assert!(installed[0].enabled);
}

#[test]
fn install_refusals() {
    let mut m = PluginMarketplace::new(create_test_config());
    assert_eq!(m.install_plugin("x", None, None, 0), Err(MarketplaceError::Validation("插件未找到: x".to_string())));
    let only_pre = package("p", vec![version("2.0.0-rc", true)]);
    assert_eq!(
        m.install_plugin("p", Some(only_pre.clone()), None, 0),
        Err(MarketplaceError::Validation("没有稳定版本".to_string()))
    );
    assert_eq!(
        m.install_plugin("p", Some(only_pre), Some("9.9"), 0),
        Err(MarketplaceError::Validation("版本未找到: 9.9".to_string()))
    );
    let mut needs = create_test_plugin();
    needs.dependencies = vec![
        PluginDependency { name: "opt".to_string(), version_requirement: "*".to_string(), optional: true },
        PluginDependency { name: "base".to_string(), version_requirement: "*".to_string(), optional: false },
    ];
    assert_eq!(
        m.install_plugin("test-plugin", Some(needs.clone()), None, 0),
        Err(MarketplaceError::Validation("依赖未找到: base".to_string()))
    );
    assert!(m.list_installed_plugins().is_empty());
    m.install_plugin("base", Some(package("base", vec![version("1.0.0", false)])), None, 0).unwrap();
    m.install_plugin("test-plugin", Some(needs), Some("1.0.0"), 0).unwrap();
    assert_eq!(m.list_installed_plugins().len(), 2);
}

#[test]
fn uninstall_gives_back_the_record() {
    let mut m = PluginMarketplace::new(create_test_config());
    m.install_plugin("test-plugin", Some(create_test_plugin()), None, 7).unwrap();
    let removed = m.uninstall_plugin("test-plugin").unwrap();
    assert_eq!(removed.installed_version, "1.0.0");
    assert!(m.list_installed_plugins().is_empty());
    assert_eq!(
        m.uninstall_plugin("test-plugin").unwrap_err(),
        MarketplaceError::Validation("插件未安装: test-plugin".to_string())
    );
}

#[test]
fn updates_are_found_and_applied() {
    let mut m = PluginMarketplace::new(create_test_config());
    m.install_plugin("test-plugin", Some(create_test_plugin()), None, 1).unwrap();
    let newer = package("test-plugin", vec![version("1.0.0", false), version("1.1.0", false), version("2.0.0", true)]);
    let updates = m.check_updates(&vec![newer.clone()]);
    assert_eq!(updates.len(), 1);
    assert_eq!(updates[0].current_version, "1.0.0");
    assert_eq!(updates[0].latest_version, "1.1.0");
    assert_eq!(updates[0].changelog, "changes in 1.1.0");

    m.update_plugin("test-plugin", Some(newer.clone()), 2).unwrap();
    assert_eq!(m.list_installed_plugins()[0].installed_version, "1.1.0");
    assert!(m.check_updates(&vec![newer.clone()]).is_empty());
    m.update_plugin("test-plugin", Some(newer), 3).unwrap();
    assert_eq!(m.list_installed_plugins()[0].installed_at, 2);
    assert!(m.update_plugin("other", None, 0).is_err());
}

#[test]
fn search_orders_merges_and_pages() {
    let m = PluginMarketplace::new(create_test_config());
    let found = vec![
        package("b", vec![]),
        package("a", vec![]),
        package("b", vec![]),
        package("c", vec![]),
    ];
    let r = m.search_plugins(&query(SortBy::Name, 0, 2), found.clone());
    assert_eq!(r.total_count, 3);
    let names: Vec<&str> = r.plugins.iter().map(|p| p.metadata.name.as_str()).collect();
    assert_eq!(names, vec!["a", "b"]);
    let r = m.search_plugins(&query(SortBy::Name, 1, 2), found.clone());
    assert_eq!(r.plugins.len(), 1);
    assert_eq!(r.plugins[0].metadata.name, "c");
    assert_eq!(r.page, 1);

    let mut busy = package("z", vec![]);
    busy.download_stats.total_downloads = 99;
    let r = m.search_plugins(&query(SortBy::Downloads, 0, 10), vec![package("y", vec![]), busy]);
    assert_eq!(r.plugins[0].metadata.name, "z");
    let r = m.search_plugins(&SearchQuery::default(), Vec::new());
    assert_eq!(r.total_count, 0);
    assert!(r.plugins.is_empty());
}

#[test]
fn text_order_and_paths() {
    assert!(text_less("1.0.0", "1.1.0"));
    assert!(text_less("1.0", "1.0.0"));
    assert_eq!(text_less("1.10", "1.9"), "1.10" < "1.9");
    assert!(!text_less("b", "a"));
    assert!(!text_less("a", "a"));
    assert_eq!(join_path("/opt/plugins", "p"), "/opt/plugins/p");
    assert_eq!(join_path("/opt/plugins/", "p"), "/opt/plugins/p");
    assert_eq!(join_path("", "p"), "p");
    assert_eq!(join_path("/opt", "/abs"), "/abs");
}

#[test]
fn marketplace_config_defaults() {
    let c = MarketplaceConfig::default();
    assert_eq!(c.default_repository, "https://plugins.agentx.dev");
    assert_eq!(c.cache_expiry_hours, 24);
    assert!(c.verify_signatures);
    assert_eq!(c.max_concurrent_downloads, 3);
}
