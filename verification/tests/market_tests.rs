use agentx::developer_ecosystem::{
    CliToolManager, CompatibilityInfo, DeveloperEcosystemManager, EcosystemError, PluginCategory, PluginDependency,
    PluginMarketEntry, PluginMarketManager, PluginReview,
};

fn entry(id: &str, name: &str, description: &str, category: PluginCategory, tags: &[&str]) -> PluginMarketEntry {
    PluginMarketEntry {
        id: id.to_string(),
        name: name.to_string(),
        description: description.to_string(),
        version: "1.0.0".to_string(),
        author: "Test Author".to_string(),
        category,
        tags: tags.iter().map(|t| t.to_string()).collect(),
        download_url: "https://example.com/plugin.zip".to_string(),
        documentation_url: None,
        source_code_url: None,
        license: "MIT".to_string(),
        created_at: 0,
        updated_at: 0,
        downloads: 0,
        rating_milli: 0,
        reviews: vec![],
        compatibility: CompatibilityInfo {
            agentx_version: "0.1.0".to_string(),
            supported_platforms: vec!["linux".to_string()],
            required_features: vec![],
        },
        dependencies: vec![],
    }
}

fn review(rating: u8) -> PluginReview {
    PluginReview { reviewer: "test_user".to_string(), rating, comment: "Excellent plugin for testing!".to_string(), created_at: 0 }
}

#[test]
fn test_plugin_market() {
    let mut market = PluginMarketManager::new();
    let plugin = entry("test-plugin", "Test Plugin", "A test plugin", PluginCategory::Tools, &["test"]);
    market.register_plugin(plugin).unwrap();

    let results = market.search_plugins("test", None);
    assert_eq!(results.len(), 1);
    assert_eq!(results[0].name, "Test Plugin");
}

#[test]
fn test_cli_tools() {
    let cli = CliToolManager::new();
    let init_cmd = cli.get_command("init").unwrap();
    assert_eq!(init_cmd.name, "init");
    let rust_template = cli.get_template("rust-plugin").unwrap();
    assert_eq!(rust_template.language, "rust");
}

#[test]
fn test_developer_ecosystem() {
    let mut ecosystem = DeveloperEcosystemManager::new();
    let plugin = entry("ecosystem-test", "Ecosystem Test", "Test plugin for ecosystem", PluginCategory::Development, &["ecosystem"]);
    ecosystem.market().register_plugin(plugin).unwrap();
    let results = ecosystem.market().search_plugins("ecosystem", None);
    assert_eq!(results.len(), 1);
}

#[test]
fn test_plugin_market_manager() {
    let mut market_manager = PluginMarketManager::new();
    let mut test_plugin = entry("test-plugin", "Test Plugin", "A test plugin for AgentX", PluginCategory::Tools, &["test", "demo"]);
    test_plugin.download_url = "https://github.com/test/plugin/releases".to_string();
    test_plugin.documentation_url = Some("https://docs.example.com".to_string());
    test_plugin.source_code_url = Some("https://github.com/test/plugin".to_string());
    test_plugin.downloads = 100;
    test_plugin.rating_milli = 4500;
    test_plugin.compatibility.supported_platforms = vec!["linux".to_string(), "macos".to_string()];
    test_plugin.compatibility.required_features = vec!["grpc".to_string()];
    test_plugin.dependencies = vec![PluginDependency { name: "agentx-sdk".to_string(), version: "^0.1.0".to_string(), optional: false }];

    market_manager.register_plugin(test_plugin.clone()).unwrap();

    let search_results = market_manager.search_plugins("test", None);
    assert_eq!(search_results.len(), 1);
    assert_eq!(search_results[0].name, "Test Plugin");

    let tag_results = market_manager.search_plugins("", Some(PluginCategory::Tools));
    assert_eq!(tag_results.len(), 1);

    let plugin_details = market_manager.get_plugin("test-plugin").unwrap();
    assert_eq!(plugin_details.name, "Test Plugin");
    assert_eq!(plugin_details.version, "1.0.0");
    assert_eq!(plugin_details.author, "Test Author");

    let all_plugins = market_manager.search_plugins("", None);
    assert_eq!(all_plugins.len(), 1);
}

#[test]
fn test_developer_ecosystem_manager() {
    let mut ecosystem_manager = DeveloperEcosystemManager::new();
    ecosystem_manager.generate_plugin_scaffold("test-plugin", "rust-plugin", "./test-output").unwrap();

    let market = ecosystem_manager.market();
    assert!(market.search_plugins("", None).is_empty());

    let cli = ecosystem_manager.cli();
    assert!(!cli.list_commands().is_empty());
}

#[test]
fn scaffold_from_unknown_template_is_refused() {
    let ecosystem_manager = DeveloperEcosystemManager::new();
    let err = ecosystem_manager.generate_plugin_scaffold("p", "go-plugin", "./out").unwrap_err();
    assert_eq!(err, EcosystemError::NotFound("模板 go-plugin 不存在".to_string()));
}

#[test]
fn registration_without_name_or_version_is_refused() {
    let mut market = PluginMarketManager::new();
    let mut plugin = entry("p", "", "d", PluginCategory::Tools, &[]);
    assert_eq!(
        market.register_plugin(plugin.clone()),
        Err(EcosystemError::Validation("插件名称和版本不能为空".to_string()))
    );
    plugin.name = "P".to_string();
    plugin.version = String::new();
    assert!(market.register_plugin(plugin).is_err());
    assert!(market.search_plugins("", None).is_empty());
    assert!(market.get_plugins_by_category(&PluginCategory::Tools).is_empty());
}

#[test]
fn search_ignores_case_and_looks_at_tags() {
    let mut market = PluginMarketManager::new();
    market.register_plugin(entry("a", "Alpha Tool", "first", PluginCategory::Tools, &["Vision"])).unwrap();
    market.register_plugin(entry("b", "Beta", "SECOND helper", PluginCategory::Security, &[])).unwrap();
    assert_eq!(market.search_plugins("ALPHA", None).len(), 1);
    assert_eq!(market.search_plugins("second", None)[0].id, "b");
    assert_eq!(market.search_plugins("vision", None)[0].id, "a");
    assert_eq!(market.search_plugins("", Some(PluginCategory::Security)).len(), 1);
    assert!(market.search_plugins("alpha", Some(PluginCategory::Security)).is_empty());
}

#[test]
fn search_ranks_by_downloads_and_rating() {
    let mut market = PluginMarketManager::new();
    let mut low = entry("low", "Low", "x", PluginCategory::Tools, &[]);
    low.downloads = 10;
    let mut rated = entry("rated", "Rated", "x", PluginCategory::Tools, &[]);
    rated.rating_milli = 4000;
    let mut popular = entry("popular", "Popular", "x", PluginCategory::Tools, &[]);
    popular.downloads = 5000;
    market.register_plugin(low).unwrap();
    market.register_plugin(rated).unwrap();
    market.register_plugin(popular).unwrap();
    let ids: Vec<&str> = market.search_plugins("", None).iter().map(|p| p.id.as_str()).collect();
    assert_eq!(ids, vec!["popular", "rated", "low"]);
}

#[test]
fn reregistering_replaces_but_keeps_the_category_index() {
    let mut market = PluginMarketManager::new();
    market.register_plugin(entry("p", "First", "x", PluginCategory::Tools, &[])).unwrap();
    market.register_plugin(entry("p", "Second", "x", PluginCategory::Monitoring, &[])).unwrap();
    assert_eq!(market.search_plugins("", None).len(), 1);
    assert_eq!(market.get_plugin("p").unwrap().name, "Second");
    let tools = market.get_plugins_by_category(&PluginCategory::Tools);
    assert_eq!(tools.len(), 1);
    assert_eq!(tools[0].name, "Second");
    assert_eq!(market.get_plugins_by_category(&PluginCategory::Monitoring).len(), 1);
    assert!(market.get_plugins_by_category(&PluginCategory::Custom).is_empty());
}

#[test]
fn reviews_set_the_average_rating() {
    let mut market = PluginMarketManager::new();
    market.register_plugin(entry("p", "P", "x", PluginCategory::Tools, &[])).unwrap();
    market.add_review("p", review(5)).unwrap();
    assert_eq!(market.get_plugin("p").unwrap().rating_milli, 5000);
    market.add_review("p", review(4)).unwrap();
    market.add_review("p", review(4)).unwrap();
    let p = market.get_plugin("p").unwrap();
    assert_eq!(p.reviews.len(), 3);
    assert_eq!(p.rating_milli, 4333);
    assert_eq!(
        market.add_review("nonexistent-plugin", review(1)),
        Err(EcosystemError::NotFound("插件 nonexistent-plugin 不存在".to_string()))
    );
}

#[test]
fn downloads_are_counted() {
    let mut market = PluginMarketManager::new();
    market.register_plugin(entry("p", "P", "x", PluginCategory::Tools, &[])).unwrap();
    market.increment_downloads("p").unwrap();
    market.increment_downloads("p").unwrap();
    assert_eq!(market.get_plugin("p").unwrap().downloads, 2);
    assert!(market.increment_downloads("q").is_err());
}
