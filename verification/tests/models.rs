use codey::auth::InternalAuthMode;
use codey::models::cache_path::{
    format_client_version_to_whole, models_cache_path, sanitize_model_provider_id,
};
use codey::models::catalog::{merged_catalog, position_of_slug, CachedModels, RemoteCatalog};
use codey::models::listing::{default_among, first_shown, known_model, mark_default};
use codey::models::manager::{
    refresh_after_cache, CatalogBusy, EtagStep, FetchReply, ModelsManager, RefreshError,
    RefreshStep, RefreshStrategy,
};
use codey::models::order::sort_by_priority;
use codey::models::picker::custom_model_preset;
use codey::models::types::{
    Config, ModelInfo, ModelPreset, ReasoningEffort, ReasoningEffortPreset,
};
use std::collections::HashMap;
use std::path::{Path, PathBuf};

fn efforts() -> Vec<ReasoningEffortPreset> {
    vec![
        ReasoningEffortPreset {
            effort: ReasoningEffort::Low,
            description: "low".to_string(),
        },
        ReasoningEffortPreset {
            effort: ReasoningEffort::Medium,
            description: "medium".to_string(),
        },
    ]
}

fn preset(slug: &str, display: &str, shown: bool) -> ModelPreset {
    ModelPreset {
        id: slug.to_string(),
        model: slug.to_string(),
        display_name: display.to_string(),
        description: format!("{display} desc"),
        default_reasoning_effort: ReasoningEffort::Medium,
        supported_reasoning_efforts: efforts(),
        supports_personality: false,
        is_default: false,
        upgrade: None,
        show_in_picker: shown,
        supported_in_api: true,
    }
}

fn remote_model(slug: &str, display: &str, priority: i32) -> ModelInfo {
    remote_model_with_visibility(slug, display, priority, "list")
}

fn remote_model_with_visibility(
    slug: &str,
    display: &str,
    priority: i32,
    visibility: &str,
) -> ModelInfo {
    ModelInfo {
        slug: slug.to_string(),
        priority,
        default_reasoning_level: Some(ReasoningEffort::Medium),
        supported_reasoning_levels: efforts(),
        supports_personality: false,
        preset: preset(slug, display, visibility == "list"),
        metadata: format!("{display} metadata"),
    }
}

fn unknown_model(slug: &str) -> ModelInfo {
    ModelInfo {
        slug: slug.to_string(),
        priority: 99,
        default_reasoning_level: None,
        supported_reasoning_levels: Vec::new(),
        supports_personality: true,
        preset: preset(slug, slug, false),
        metadata: String::new(),
    }
}

fn config() -> Config {
    Config {
        model: None,
        model_provider_id: "openai".to_string(),
        model_reasoning_effort: None,
        remote_models_enabled: false,
    }
}

fn with_remote_models() -> Config {
    Config {
        remote_models_enabled: true,
        ..config()
    }
}

fn builtin(_: Option<InternalAuthMode>) -> Vec<ModelPreset> {
    vec![
        preset("gpt-5.2-codex", "gpt-5.2-codex", true),
        preset("gpt-5-hidden", "gpt-5-hidden", false),
    ]
}

fn no_presets(_: Option<InternalAuthMode>) -> Vec<ModelPreset> {
    Vec::new()
}

fn merge(remote: Vec<ModelPreset>, local: Vec<ModelPreset>) -> Vec<ModelPreset> {
    let mut merged = remote;
    for preset in local {
        if !merged.iter().any(|known| known.model == preset.model) {
            merged.push(preset);
        }
    }
    merged
}

fn filter_by_auth(presets: Vec<ModelPreset>, chatgpt: bool) -> Vec<ModelPreset> {
    presets
        .into_iter()
        .filter(|preset| chatgpt || preset.supported_in_api)
        .collect()
}

fn find(slug: &str) -> ModelInfo {
    unknown_model(slug)
}

fn overrides(info: ModelInfo, _: &Config) -> ModelInfo {
    info
}

fn manager(provider: &str) -> (ModelsManager, RemoteCatalog) {
    ModelsManager::with_provider(
        PathBuf::from("/tmp/codey"),
        None,
        provider,
        Ok(Vec::new()),
        builtin,
    )
}

/// A provider: where it is, and the credentials that its settings bring along.
struct Provider {
    base_url: String,
    env_key: Option<String>,
    experimental_bearer_token: Option<String>,
}

impl Provider {
    /// There is a token, or the environment holds the key.
    fn has_local_auth(&self, environment: &[&str]) -> bool {
        self.experimental_bearer_token.is_some()
            || self
                .env_key
                .as_ref()
                .is_some_and(|key| environment.contains(&key.as_str()))
    }
}

fn provider_for(base_url: &str) -> Provider {
    Provider {
        base_url: base_url.to_string(),
        env_key: None,
        experimental_bearer_token: None,
    }
}

const SERVER: &str = "http://server.test";

/// Servers by address, the requests they got, the disk with the caches, and the provider in use.
struct Service {
    servers: HashMap<String, Vec<ModelInfo>>,
    etag: Option<String>,
    requests: Vec<String>,
    disk: HashMap<PathBuf, CachedModels>,
    provider: Provider,
}

impl Service {
    fn new(reply: Vec<ModelInfo>) -> Self {
        Service {
            servers: HashMap::from([(SERVER.to_string(), reply)]),
            etag: None,
            requests: Vec::new(),
            disk: HashMap::new(),
            provider: provider_for(SERVER),
        }
    }

    fn refresh(
        &mut self,
        manager: &ModelsManager,
        catalog: &mut RemoteCatalog,
        auth_mode: Option<InternalAuthMode>,
        strategy: RefreshStrategy,
    ) -> Result<(), RefreshError> {
        let step =
            ModelsManager::refresh_available_models(&with_remote_models(), auth_mode, strategy);
        let cache = self
            .disk
            .get(&manager.cache_path)
            .map(|cache| CachedModels {
                models: cache.models.clone(),
                etag: cache.etag.clone(),
            });
        let reply = if ModelsManager::refresh_fetches(step, cache.is_some()) {
            self.requests.push(self.provider.base_url.clone());
            Some(match self.servers.get(&self.provider.base_url) {
                Some(models) => FetchReply::Answered(CachedModels {
                    models: models.clone(),
                    etag: self.etag.clone(),
                }),
                None => FetchReply::Failed("no such server".to_string()),
            })
        } else {
            None
        };
        if let Some(entry) = manager.complete_refresh(catalog, step, cache, reply)? {
            self.disk.insert(manager.cache_path.clone(), entry);
        }
        Ok(())
    }
}

fn assert_models_contain(actual: &[ModelInfo], expected: &[ModelInfo]) {
    for model in expected {
        assert!(
            actual.iter().any(|candidate| candidate.slug == model.slug),
            "expected model {} in cached list",
            model.slug
        );
    }
}

#[test]
fn refresh_available_models_sorts_by_priority() {
    let remote_models = vec![
        remote_model("priority-low", "Low", 1),
        remote_model("priority-high", "High", 0),
    ];
    let mut service = Service::new(remote_models.clone());
    let (manager, mut catalog) = manager("mock-provider");
    let chatgpt = Some(InternalAuthMode::Chatgpt);

    service
        .refresh(
            &manager,
            &mut catalog,
            chatgpt,
            RefreshStrategy::OnlineIfUncached,
        )
        .expect("refresh succeeds");
    let cached_remote = ModelsManager::get_remote_models(&catalog, &with_remote_models());
    assert_models_contain(&cached_remote, &remote_models);

    service
        .refresh(
            &manager,
            &mut catalog,
            chatgpt,
            RefreshStrategy::OnlineIfUncached,
        )
        .expect("refresh succeeds");
    let available = manager.list_models(
        &catalog,
        &with_remote_models(),
        chatgpt,
        &merge,
        &filter_by_auth,
    );
    let high_idx = available
        .iter()
        .position(|model| model.model == "priority-high")
        .expect("priority-high should be listed");
    let low_idx = available
        .iter()
        .position(|model| model.model == "priority-low")
        .expect("priority-low should be listed");
    assert!(
        high_idx < low_idx,
        "higher priority should be listed before lower priority"
    );
    assert_eq!(service.requests.len(), 1, "expected a single /models request");
}

#[test]
fn new_uses_supplied_provider_for_remote_model_refresh() {
    let remote_models = vec![remote_model("custom-provider-model", "Custom Provider", 1)];
    let mut service = Service::new(vec![remote_model("other-model", "Other", 1)]);
    service
        .servers
        .insert("http://custom.test".to_string(), remote_models.clone());
    service.provider = provider_for("http://custom.test");
    let (manager, mut catalog) = ModelsManager::new(
        PathBuf::from("/tmp/codey"),
        Some(InternalAuthMode::Chatgpt),
        "custom-provider",
        Ok(Vec::new()),
        builtin,
    );

    service
        .refresh(
            &manager,
            &mut catalog,
            Some(InternalAuthMode::Chatgpt),
            RefreshStrategy::OnlineIfUncached,
        )
        .expect("refresh succeeds");
    let known = ModelsManager::get_remote_models(&catalog, &with_remote_models());
    assert_models_contain(&known, &remote_models);
    assert!(!known.iter().any(|model| model.slug == "other-model"));
    assert_eq!(
        service.requests,
        vec!["http://custom.test".to_string()],
        "expected a single /models request against the supplied provider"
    );
    let cached = PathBuf::from("/tmp/codey/remote_models/custom-provider/models_cache.json");
    assert_eq!(service.disk[&cached].models, remote_models);
}

#[test]
fn refresh_available_models_uses_cache_when_fresh() {
    let remote_models = vec![remote_model("cached", "Cached", 5)];
    let mut service = Service::new(remote_models.clone());
    let (manager, mut catalog) = manager("mock-provider");

    service
        .refresh(
            &manager,
            &mut catalog,
            None,
            RefreshStrategy::OnlineIfUncached,
        )
        .expect("first refresh succeeds");
    assert_models_contain(
        &ModelsManager::get_remote_models(&catalog, &with_remote_models()),
        &remote_models,
    );

    service
        .refresh(
            &manager,
            &mut catalog,
            None,
            RefreshStrategy::OnlineIfUncached,
        )
        .expect("cached refresh succeeds");
    assert_models_contain(
        &ModelsManager::get_remote_models(&catalog, &with_remote_models()),
        &remote_models,
    );
    assert_eq!(
        service.requests.len(), 1,
        "cache hit should avoid a second /models request"
    );
}

#[test]
fn refresh_available_models_scopes_cache_by_provider() {
    let models_a = vec![remote_model("provider-a", "Provider A", 1)];
    let models_b = vec![remote_model("provider-b", "Provider B", 1)];
    let (manager_a, mut catalog_a) = manager("mock-provider-a");
    let (manager_b, mut catalog_b) = manager("mock-provider-b");
    assert_ne!(manager_a.cache_path, manager_b.cache_path);

    let mut service = Service::new(Vec::new());
    service
        .servers
        .insert("http://a.test".to_string(), models_a.clone());
    service
        .servers
        .insert("http://b.test".to_string(), models_b.clone());

    service.provider = provider_for("http://a.test");
    service
        .refresh(
            &manager_a,
            &mut catalog_a,
            None,
            RefreshStrategy::OnlineIfUncached,
        )
        .expect("provider A refresh succeeds");
    assert_models_contain(
        &ModelsManager::get_remote_models(&catalog_a, &with_remote_models()),
        &models_a,
    );

    service.provider = provider_for("http://b.test");
    service
        .refresh(
            &manager_b,
            &mut catalog_b,
            None,
            RefreshStrategy::OnlineIfUncached,
        )
        .expect("provider B refresh succeeds");
    let remote_models = ModelsManager::get_remote_models(&catalog_b, &with_remote_models());
    assert_models_contain(&remote_models, &models_b);
    assert!(
        !remote_models.iter().any(|model| model.slug == "provider-a"),
        "provider B should not reuse provider A cache"
    );
    assert_eq!(
        service.requests,
        vec!["http://a.test".to_string(), "http://b.test".to_string()],
        "each provider should fetch /models once instead of reusing the other's cache"
    );
}

#[test]
fn refresh_available_models_refetches_when_cache_stale() {
    let mut service = Service::new(vec![remote_model("stale", "Stale", 1)]);
    let (manager, mut catalog) = manager("mock-provider");

    service
        .refresh(
            &manager,
            &mut catalog,
            None,
            RefreshStrategy::OnlineIfUncached,
        )
        .expect("initial refresh succeeds");
    assert_eq!(
        service.requests.len(), 1,
        "initial refresh should only hit /models once"
    );

    // A stale cache is not handed out.
    service.disk.clear();
    let updated_models = vec![remote_model("fresh", "Fresh", 9)];
    service
        .servers
        .insert(SERVER.to_string(), updated_models.clone());

    service
        .refresh(
            &manager,
            &mut catalog,
            None,
            RefreshStrategy::OnlineIfUncached,
        )
        .expect("second refresh succeeds");
    assert_models_contain(
        &ModelsManager::get_remote_models(&catalog, &with_remote_models()),
        &updated_models,
    );
    assert_eq!(
        service.requests.len(), 2,
        "stale cache refresh should fetch /models once"
    );
}

#[test]
fn refresh_available_models_drops_removed_remote_models() {
    let mut service = Service::new(vec![remote_model("remote-old", "Remote Old", 1)]);
    let (manager, mut catalog) = manager("mock-provider");
    let chatgpt = Some(InternalAuthMode::Chatgpt);

    service
        .refresh(
            &manager,
            &mut catalog,
            chatgpt,
            RefreshStrategy::OnlineIfUncached,
        )
        .expect("initial refresh succeeds");
    assert_eq!(
        service.requests.len(), 1,
        "initial refresh should only hit /models once"
    );

    service.disk.clear();
    service.servers.insert(
        SERVER.to_string(),
        vec![remote_model("remote-new", "Remote New", 1)],
    );
    service
        .refresh(
            &manager,
            &mut catalog,
            chatgpt,
            RefreshStrategy::OnlineIfUncached,
        )
        .expect("second refresh succeeds");

    let available = manager
        .try_list_models(
            Some(&catalog),
            &with_remote_models(),
            chatgpt,
            &merge,
            &filter_by_auth,
        )
        .expect("models should be available");
    assert!(
        available.iter().any(|preset| preset.model == "remote-new"),
        "new remote model should be listed"
    );
    assert!(
        !available.iter().any(|preset| preset.model == "remote-old"),
        "removed remote model should not be listed"
    );
    assert_eq!(
        service.requests.len(), 2,
        "second refresh should only hit /models once"
    );
}

#[test]
fn build_available_models_picks_default_after_hiding_hidden_models() {
    let (mut manager, _) = manager("mock-provider");
    manager.local_models = Vec::new();

    let hidden_model = remote_model_with_visibility("hidden", "Hidden", 0, "hide");
    let visible_model = remote_model_with_visibility("visible", "Visible", 1, "list");

    let expected_hidden = hidden_model.preset.clone();
    let mut expected_visible = visible_model.preset.clone();
    expected_visible.is_default = true;

    let available = manager.build_available_models(
        vec![hidden_model, visible_model],
        Some(InternalAuthMode::ApiKey),
        &merge,
        &filter_by_auth,
    );

    assert_eq!(available, vec![expected_hidden, expected_visible]);
}

#[test]
fn models_cache_path_sanitizes_provider_id() {
    let path = models_cache_path(Path::new("/tmp/codey"), "mock/provider:beta");
    assert_eq!(
        path,
        PathBuf::from("/tmp/codey/remote_models/mock_provider_beta/models_cache.json")
    );
}

#[test]
fn ids_without_a_directory_share_the_cache_directory() {
    let home = Path::new("/tmp/codey");
    let shared = PathBuf::from("/tmp/codey/remote_models/models_cache.json");
    assert_eq!(models_cache_path(home, ""), shared);
    assert_eq!(models_cache_path(home, "."), shared);
    assert_eq!(
        models_cache_path(home, ".."),
        PathBuf::from("/tmp/codey/remote_models/../models_cache.json")
    );
    assert_eq!(
        models_cache_path(Path::new(""), "a"),
        PathBuf::from("remote_models/a/models_cache.json")
    );
}

#[test]
fn sanitizing_keeps_safe_ids_and_replaces_the_rest() {
    assert_eq!(sanitize_model_provider_id("Open-AI_1.0"), "Open-AI_1.0");
    assert_eq!(sanitize_model_provider_id("a/b\\c:d e"), "a_b_c_d_e");
    assert_eq!(sanitize_model_provider_id("\u{e9}\u{1f600}"), "__");
    assert_eq!(sanitize_model_provider_id(""), "");
    let once = sanitize_model_provider_id("x y/z");
    assert_eq!(sanitize_model_provider_id(&once), once);
}

#[test]
fn client_version_is_whole() {
    assert_eq!(format_client_version_to_whole("1", "2", "3"), "1.2.3");
    assert_eq!(format_client_version_to_whole("0", "10", "0"), "0.10.0");
}

#[test]
fn manager_starts_with_bundled_models() {
    let (manager, catalog) = ModelsManager::new(
        PathBuf::from("/tmp/codey"),
        None,
        "openai",
        Ok(vec![remote_model("bundled", "Bundled", 3)]),
        builtin,
    );
    assert_eq!(catalog.models, manager.bundled_models);
    assert_eq!(catalog.models[0].slug, "bundled");
    assert_eq!(catalog.etag, None);
    assert_eq!(manager.cache_ttl_secs, 300);
    assert_eq!(manager.local_models, builtin(None));
    assert_eq!(
        manager.cache_path,
        PathBuf::from("/tmp/codey/remote_models/openai/models_cache.json")
    );
}

#[test]
fn unreadable_bundled_models_count_as_none() {
    let (manager, catalog) = ModelsManager::new(
        PathBuf::from("/tmp/codey"),
        None,
        "openai",
        Err("unreadable".to_string()),
        no_presets,
    );
    assert!(manager.bundled_models.is_empty());
    assert!(catalog.models.is_empty());
    assert!(manager.local_models.is_empty());
}

#[test]
fn updates_replace_append_and_forget() {
    let bundled = vec![
        remote_model("one", "One", 1),
        remote_model("two", "Two", 2),
    ];
    let merged = merged_catalog(
        &bundled,
        vec![
            remote_model("two", "Second", 20),
            remote_model("three", "Three", 3),
            remote_model("three", "Third", 30),
        ],
    );
    let names: Vec<&str> = merged
        .iter()
        .map(|model| model.preset.display_name.as_str())
        .collect();
    assert_eq!(names, vec!["One", "Second", "Third"]);

    let again = merged_catalog(&bundled, Vec::new());
    assert_eq!(again, bundled);
}

#[test]
fn position_is_that_of_the_first() {
    let models = vec![
        remote_model("a", "First", 0),
        remote_model("b", "B", 0),
        remote_model("b", "Second B", 0),
    ];
    assert_eq!(position_of_slug(&models, &"b".to_string()), Some(1));
    assert_eq!(position_of_slug(&models, &"c".to_string()), None);
}

#[test]
fn sorting_is_stable() {
    let sorted = sort_by_priority(vec![
        remote_model("a", "A", 2),
        remote_model("b", "B", -1),
        remote_model("c", "C", 2),
        remote_model("d", "D", 0),
        remote_model("e", "E", -1),
    ]);
    let slugs: Vec<&str> = sorted.iter().map(|model| model.slug.as_str()).collect();
    assert_eq!(slugs, vec!["b", "e", "d", "a", "c"]);
    assert_eq!(sort_by_priority(sorted.clone()), sorted);
    assert!(sort_by_priority(Vec::new()).is_empty());
}

#[test]
fn strategies_decide_between_cache_and_network() {
    let on = with_remote_models();
    let off = config();
    let chatgpt = Some(InternalAuthMode::Chatgpt);
    let strategies = [
        RefreshStrategy::Online,
        RefreshStrategy::Offline,
        RefreshStrategy::OnlineIfUncached,
    ];
    for strategy in strategies {
        assert_eq!(
            ModelsManager::refresh_available_models(&off, chatgpt, strategy),
            RefreshStep::Finished
        );
        assert_eq!(
            ModelsManager::refresh_available_models(&on, Some(InternalAuthMode::ApiKey), strategy),
            RefreshStep::Finished
        );
    }
    assert_eq!(
        ModelsManager::refresh_available_models(&on, chatgpt, RefreshStrategy::Online),
        RefreshStep::Fetch
    );
    assert_eq!(
        ModelsManager::refresh_available_models(&on, None, RefreshStrategy::Offline),
        RefreshStep::LoadCache {
            fetch_if_missing: false
        }
    );
    assert_eq!(
        ModelsManager::refresh_available_models(&on, None, RefreshStrategy::OnlineIfUncached),
        RefreshStep::LoadCache {
            fetch_if_missing: true
        }
    );
    assert_eq!(refresh_after_cache(true, false), RefreshStep::Fetch);
    assert_eq!(refresh_after_cache(true, true), RefreshStep::Finished);
    assert_eq!(refresh_after_cache(false, false), RefreshStep::Finished);
    assert_eq!(refresh_after_cache(false, true), RefreshStep::Finished);
}

#[test]
fn offline_refresh_sends_no_request() {
    let mut service = Service::new(vec![remote_model("online", "Online", 1)]);
    let (manager, mut catalog) = manager("mock-provider");
    service
        .refresh(&manager, &mut catalog, None, RefreshStrategy::Offline)
        .expect("nothing to fail");
    assert!(service.requests.is_empty());
    assert!(catalog.models.is_empty());
}

#[test]
fn failed_fetch_leaves_the_catalog_alone() {
    let (manager, mut catalog) = manager("mock-provider");
    catalog.models = vec![remote_model("kept", "Kept", 1)];
    catalog.etag = Some("tag".to_string());
    let before = RemoteCatalog {
        models: catalog.models.clone(),
        etag: catalog.etag.clone(),
    };

    assert_eq!(
        manager.fetch_and_update_models(&mut catalog, FetchReply::TimedOut),
        Err(RefreshError::Timeout)
    );
    assert_eq!(
        manager.fetch_and_update_models(&mut catalog, FetchReply::Failed("503".to_string())),
        Err(RefreshError::Api("503".to_string()))
    );
    assert_eq!(
        manager.fetch_and_update_models(&mut catalog, FetchReply::NotSent("no key".to_string())),
        Err(RefreshError::NotSent("no key".to_string()))
    );
    assert_eq!(catalog, before);
    assert!(!manager.try_load_cache(&mut catalog, None));
    assert_eq!(catalog, before);
}

#[test]
fn known_tag_renews_the_cache() {
    let mut service = Service::new(vec![remote_model("tagged", "Tagged", 1)]);
    service.etag = Some("v1".to_string());
    let (manager, mut catalog) = manager("mock-provider");
    let on = with_remote_models();

    assert_eq!(
        ModelsManager::refresh_if_new_etag(&catalog, "v1".to_string(), &on, None),
        EtagStep::Refresh(RefreshStep::Fetch)
    );
    service
        .refresh(&manager, &mut catalog, None, RefreshStrategy::Online)
        .expect("refresh succeeds");
    assert_eq!(ModelsManager::get_etag(&catalog), Some("v1".to_string()));
    assert_eq!(
        ModelsManager::refresh_if_new_etag(&catalog, "v1".to_string(), &on, None),
        EtagStep::RenewCacheTtl
    );
    assert_eq!(
        ModelsManager::refresh_if_new_etag(&catalog, "v2".to_string(), &on, None),
        EtagStep::Refresh(RefreshStep::Fetch)
    );
    assert_eq!(
        ModelsManager::refresh_if_new_etag(&catalog, "v2".to_string(), &config(), None),
        EtagStep::Refresh(RefreshStep::Finished)
    );
}

#[test]
fn remote_models_count_only_while_enabled() {
    let (_, mut catalog) = manager("mock-provider");
    catalog.models = vec![remote_model("remote", "Remote", 1)];
    assert!(ModelsManager::get_remote_models(&catalog, &config()).is_empty());
    assert_eq!(
        ModelsManager::get_remote_models(&catalog, &with_remote_models()),
        catalog.models
    );
    assert_eq!(
        ModelsManager::try_get_remote_models(None, &with_remote_models()),
        Err(CatalogBusy)
    );
    assert_eq!(
        ModelsManager::try_get_remote_models(None, &config()),
        Ok(Vec::new())
    );
    assert_eq!(
        ModelsManager::try_get_remote_models(Some(&catalog), &with_remote_models()),
        Ok(catalog.models.clone())
    );
}

#[test]
fn busy_catalog_is_reported_only_if_needed() {
    let (manager, _) = manager("mock-provider");
    assert_eq!(
        manager.try_list_models(None, &with_remote_models(), None, &merge, &filter_by_auth),
        Err(CatalogBusy)
    );
    let available = manager
        .try_list_models(None, &config(), None, &merge, &filter_by_auth)
        .expect("the catalog is not needed");
    assert_eq!(available.len(), 2);
    assert_eq!(
        manager.try_list_picker_models(
            None,
            &with_remote_models(),
            None,
            false,
            &merge,
            &filter_by_auth,
            &find,
            &overrides,
        ),
        Err(CatalogBusy)
    );
    let picker = manager
        .try_list_picker_models(
            None,
            &config(),
            None,
            false,
            &merge,
            &filter_by_auth,
            &find,
            &overrides,
        )
        .expect("the catalog is not needed");
    assert_eq!(picker.len(), 1);
}

#[test]
fn exactly_one_default_is_marked() {
    let mut stale = preset("b", "B", true);
    stale.is_default = true;
    let marked = mark_default(vec![
        preset("a", "A", false),
        preset("c", "C", true),
        stale,
    ]);
    let defaults: Vec<&str> = marked
        .iter()
        .filter(|preset| preset.is_default)
        .map(|preset| preset.model.as_str())
        .collect();
    assert_eq!(defaults, vec!["c"]);

    let hidden = mark_default(vec![preset("a", "A", false), preset("b", "B", false)]);
    assert!(hidden[0].is_default);
    assert!(!hidden[1].is_default);
    assert!(mark_default(Vec::new()).is_empty());
}

#[test]
fn default_model_is_the_given_or_the_marked_one() {
    let (manager, mut catalog) = manager("mock-provider");
    catalog.models = vec![
        remote_model_with_visibility("hidden", "Hidden", 0, "hide"),
        remote_model("visible", "Visible", 1),
    ];
    let on = with_remote_models();
    assert_eq!(
        manager.get_default_model(&None, &catalog, &on, None, &merge, &filter_by_auth),
        "visible"
    );
    assert_eq!(
        manager.get_default_model(
            &Some("given".to_string()),
            &catalog,
            &on,
            None,
            &merge,
            &filter_by_auth
        ),
        "given"
    );
    assert_eq!(
        ModelsManager::default_model_refresh(
            &Some("given".to_string()),
            &on,
            None,
            RefreshStrategy::Online
        ),
        RefreshStep::Finished
    );
    assert_eq!(
        ModelsManager::default_model_refresh(&None, &on, None, RefreshStrategy::Online),
        RefreshStep::Fetch
    );
    assert_eq!(default_among(&Vec::new()), "");
    assert_eq!(
        default_among(&vec![preset("first", "First", false), preset("b", "B", true)]),
        "first"
    );
}

#[test]
fn offline_model_is_the_given_or_the_first_shown() {
    assert_eq!(
        ModelsManager::get_model_offline(Some("given"), builtin),
        "given"
    );
    assert_eq!(
        ModelsManager::get_model_offline(None, builtin),
        "gpt-5.2-codex"
    );
    assert_eq!(ModelsManager::get_model_offline(None, no_presets), "");
    assert_eq!(
        first_shown(&vec![preset("a", "A", false), preset("b", "B", true)]),
        "b"
    );
}

#[test]
fn model_info_prefers_what_the_provider_told() {
    let (_, mut catalog) = manager("mock-provider");
    catalog.models = vec![remote_model("told", "Told", 7)];
    let on = with_remote_models();
    assert_eq!(
        ModelsManager::get_model_info(&catalog, "told", &on, &find, &overrides),
        catalog.models[0]
    );
    assert_eq!(
        ModelsManager::get_model_info(&catalog, "told", &config(), &find, &overrides),
        unknown_model("told")
    );
    assert_eq!(
        ModelsManager::get_model_info(&catalog, "other", &on, &find, &overrides),
        unknown_model("other")
    );
    assert_eq!(known_model(&catalog, "other", &on), None);
    let raised = |info: ModelInfo, _: &Config| ModelInfo {
        priority: info.priority + 1,
        ..info
    };
    assert_eq!(
        ModelsManager::construct_model_info_offline("other", &on, &find, &raised).priority,
        100
    );
}

#[test]
fn list_picker_models_without_auth_returns_only_configured_custom_model() {
    let (manager, catalog) = manager("openai");
    let config = Config {
        model: Some("mock-model".to_string()),
        model_provider_id: "mock-provider".to_string(),
        ..config()
    };

    let picker_models = manager.list_picker_models(
        &catalog,
        &config,
        None,
        false,
        &merge,
        &filter_by_auth,
        &find,
        &overrides,
    );

    assert_eq!(picker_models.len(), 1);
    assert_eq!(picker_models[0].model, "mock-model");
    assert_eq!(picker_models[0].display_name, "mock-model");
    assert_eq!(
        picker_models[0].description,
        "Configured model from config.toml for provider mock-provider."
    );
    assert!(picker_models[0].is_default);
    assert!(picker_models[0].show_in_picker);
}

#[test]
fn list_picker_models_with_auth_appends_configured_custom_model() {
    let (manager, catalog) = manager("openai");
    let config = Config {
        model: Some("mock-model".to_string()),
        model_provider_id: "mock-provider".to_string(),
        ..config()
    };

    let picker_models = manager.list_picker_models(
        &catalog,
        &config,
        Some(InternalAuthMode::Chatgpt),
        false,
        &merge,
        &filter_by_auth,
        &find,
        &overrides,
    );

    assert_eq!(
        picker_models.first().map(|preset| preset.model.as_str()),
        Some("gpt-5.2-codex")
    );
    assert_eq!(
        picker_models.last().map(|preset| preset.model.as_str()),
        Some("mock-model")
    );
    assert_eq!(
        picker_models
            .iter()
            .filter(|preset| preset.is_default)
            .count(),
        1
    );
    assert!(picker_models
        .iter()
        .any(|preset| preset.model == "gpt-5.2-codex" && preset.is_default));
}

fn picker_with(provider: &Provider) -> Vec<ModelPreset> {
    let (manager, catalog) = manager("mock-provider");
    let config = Config {
        model: Some("mock-model".to_string()),
        model_provider_id: "mock-provider".to_string(),
        ..config()
    };
    manager.list_picker_models(
        &catalog,
        &config,
        None,
        provider.has_local_auth(&["HOME", "PATH"]),
        &merge,
        &filter_by_auth,
        &find,
        &overrides,
    )
}

#[test]
fn list_picker_models_with_provider_bearer_token_appends_configured_custom_model() {
    let mut provider = provider_for("http://example.test");
    provider.experimental_bearer_token = Some("sk-test".to_string());
    let picker_models = picker_with(&provider);

    assert_eq!(
        picker_models.first().map(|preset| preset.model.as_str()),
        Some("gpt-5.2-codex")
    );
    assert_eq!(
        picker_models.last().map(|preset| preset.model.as_str()),
        Some("mock-model")
    );
}

#[test]
fn list_picker_models_with_provider_env_key_appends_configured_custom_model() {
    let mut provider = provider_for("http://example.test");
    provider.env_key = Some("PATH".to_string());
    let picker_models = picker_with(&provider);

    assert_eq!(
        picker_models.first().map(|preset| preset.model.as_str()),
        Some("gpt-5.2-codex")
    );
    assert_eq!(
        picker_models.last().map(|preset| preset.model.as_str()),
        Some("mock-model")
    );
}

#[test]
fn picker_without_any_credentials_collapses() {
    let provider = provider_for("http://example.test");
    let picker_models = picker_with(&provider);
    assert_eq!(picker_models.len(), 1);
    assert_eq!(picker_models[0].model, "mock-model");

    let mut provider = provider_for("http://example.test");
    provider.env_key = Some("UNSET_KEY".to_string());
    assert_eq!(picker_with(&provider).len(), 1);
}

#[test]
fn picker_without_auth_collapses_to_a_listed_model_too() {
    let (mut manager, catalog) = manager("openai");
    manager.local_models = vec![
        preset("first", "First", true),
        preset("second", "Second", true),
    ];
    let config = Config {
        model: Some(" second ".to_string()),
        ..config()
    };
    let pick = |auth_mode: Option<InternalAuthMode>| {
        manager.list_picker_models(
            &catalog,
            &config,
            auth_mode,
            false,
            &merge,
            &filter_by_auth,
            &find,
            &overrides,
        )
    };
    let alone = pick(None);
    assert_eq!(alone.len(), 1);
    assert_eq!(alone[0].display_name, "Second");
    assert!(alone[0].is_default);
    assert_eq!(pick(Some(InternalAuthMode::ApiKey)).len(), 2);
}

#[test]
fn picker_without_waiting_keeps_all_shown_models() {
    let (mut manager, catalog) = manager("openai");
    manager.local_models = vec![
        preset("first", "First", true),
        preset("second", "Second", true),
    ];
    let pick = |model: &str| {
        let config = Config {
            model: Some(model.to_string()),
            ..config()
        };
        manager
            .try_list_picker_models(
                Some(&catalog),
                &config,
                None,
                false,
                &merge,
                &filter_by_auth,
                &find,
                &overrides,
            )
            .expect("the catalog is free")
            .into_iter()
            .map(|preset| preset.model)
            .collect::<Vec<String>>()
    };
    assert_eq!(pick("second"), vec!["first", "second"]);
    assert_eq!(pick("mock-model"), vec!["mock-model"]);
}

#[test]
fn refresh_is_carried_out_as_a_whole() {
    let (manager, mut catalog) = manager("openai");
    let entry = |slug: &str, etag: &str| CachedModels {
        models: vec![remote_model(slug, slug, 1)],
        etag: Some(etag.to_string()),
    };
    let load = RefreshStep::LoadCache {
        fetch_if_missing: true,
    };
    assert!(ModelsManager::refresh_fetches(load, false));
    assert!(!ModelsManager::refresh_fetches(load, true));
    assert!(ModelsManager::refresh_fetches(RefreshStep::Fetch, true));
    assert!(!ModelsManager::refresh_fetches(RefreshStep::Finished, false));

    assert_eq!(
        manager.complete_refresh(&mut catalog, load, Some(entry("cached", "v1")), None),
        Ok(None)
    );
    assert_eq!(catalog.models[0].slug, "cached");
    assert_eq!(
        manager.complete_refresh(
            &mut catalog,
            load,
            None,
            Some(FetchReply::Answered(entry("fetched", "v2")))
        ),
        Ok(Some(entry("fetched", "v2")))
    );
    assert_eq!(catalog.models.len(), 1);
    assert_eq!(catalog.models[0].slug, "fetched");
    assert_eq!(catalog.etag.as_deref(), Some("v2"));
    assert_eq!(
        manager.complete_refresh(
            &mut catalog,
            RefreshStep::Fetch,
            Some(entry("cached", "v1")),
            Some(FetchReply::TimedOut)
        ),
        Err(RefreshError::Timeout)
    );
    assert_eq!(
        manager.complete_refresh(
            &mut catalog,
            RefreshStep::Finished,
            Some(entry("cached", "v1")),
            None
        ),
        Ok(None)
    );
    assert_eq!(catalog.etag.as_deref(), Some("v2"));
}

#[test]
fn list_models_leaves_hidden_models_out() {
    let (manager, mut catalog) = manager("openai");
    catalog.models = vec![
        remote_model_with_visibility("hidden", "Hidden", 0, "hide"),
        remote_model("visible", "Visible", 1),
    ];
    let listed = manager.list_models(
        &catalog,
        &with_remote_models(),
        None,
        &merge,
        &filter_by_auth,
    );
    let models: Vec<&str> = listed.iter().map(|preset| preset.model.as_str()).collect();
    assert_eq!(models, vec!["visible", "gpt-5.2-codex"]);
    assert!(listed[0].is_default);

    catalog.models = vec![remote_model_with_visibility("hidden", "Hidden", 0, "hide")];
    let mut bare = manager;
    bare.local_models = Vec::new();
    assert!(bare
        .list_models(
            &catalog,
            &with_remote_models(),
            None,
            &merge,
            &filter_by_auth
        )
        .is_empty());
    assert_eq!(
        bare.get_default_model(
            &None,
            &catalog,
            &with_remote_models(),
            None,
            &merge,
            &filter_by_auth
        ),
        "hidden"
    );
}

#[test]
fn blank_configured_model_counts_as_none() {
    let (manager, catalog) = manager("openai");
    let config = Config {
        model: Some(" \t ".to_string()),
        ..config()
    };
    let picker_models = manager.list_picker_models(
        &catalog,
        &config,
        None,
        false,
        &merge,
        &filter_by_auth,
        &find,
        &overrides,
    );
    assert_eq!(picker_models.len(), 1);
    assert_eq!(picker_models[0].model, "gpt-5.2-codex");
}

#[test]
fn configured_model_is_trimmed_and_not_repeated() {
    let available = vec![preset("shown", "Shown", true), preset("hidden", "Hidden", false)];
    let listed = Config {
        model: Some(" shown ".to_string()),
        ..config()
    };
    let picker_models = ModelsManager::build_picker_models(
        &listed,
        available.clone(),
        None,
        true,
        &find,
        &overrides,
    );
    assert_eq!(picker_models, vec![preset("shown", "Shown", true)]);

    let hidden = Config {
        model: Some(" hidden ".to_string()),
        ..config()
    };
    let picker_models =
        ModelsManager::build_picker_models(&hidden, available, None, true, &find, &overrides);
    assert_eq!(picker_models.len(), 2);
    assert_eq!(picker_models[1].id, "hidden");
    assert!(picker_models[1].show_in_picker);
}

#[test]
fn custom_entry_takes_its_effort_from_settings_then_model_then_medium() {
    let mut info = unknown_model("mock");
    assert_eq!(
        custom_model_preset("mock", info.clone(), &config()).default_reasoning_effort,
        ReasoningEffort::Medium
    );
    info.default_reasoning_level = Some(ReasoningEffort::Low);
    info.supported_reasoning_levels = efforts();
    let entry = custom_model_preset("mock", info.clone(), &config());
    assert_eq!(entry.default_reasoning_effort, ReasoningEffort::Low);
    assert_eq!(entry.supported_reasoning_efforts, efforts());
    assert!(entry.supports_personality);
    assert!(entry.supported_in_api);
    assert!(!entry.is_default);
    assert_eq!(entry.upgrade, None);
    let forced = Config {
        model_reasoning_effort: Some(ReasoningEffort::High),
        ..config()
    };
    assert_eq!(
        custom_model_preset("mock", info, &forced).default_reasoning_effort,
        ReasoningEffort::High
    );
}

fn is_custom(model: &str, configured: Option<&str>) -> bool {
    let config = Config {
        model: configured.map(|model| model.to_string()),
        ..config()
    };
    ModelsManager::is_configured_custom_model(
        model,
        &config,
        None,
        Ok(Vec::new()),
        &builtin,
        &merge,
        &filter_by_auth,
    )
}

#[test]
fn configured_custom_model_detection_matches_picker_behavior() {
    assert!(is_custom("mock-model", Some("mock-model")));
    assert!(!is_custom("gpt-5.2-codex", Some("gpt-5.2-codex")));
}

#[test]
fn only_the_configured_model_is_custom() {
    assert!(!is_custom("mock-model", None));
    assert!(!is_custom("mock-model", Some("")));
    assert!(!is_custom("mock-model", Some("other")));
    assert!(is_custom(" mock-model ", Some("mock-model\n")));
    assert!(is_custom("gpt-5-hidden", Some("gpt-5-hidden")));
    assert!(!is_custom("", Some(" ")));
}

#[test]
fn caches_differ_below_unusual_homes() {
    for home in ["", "/", "\\", "\\\\server", "\\\\?\\C:\\home", "relative/home", "C:"] {
        let one = models_cache_path(Path::new(home), "one");
        let other = models_cache_path(Path::new(home), "an other");
        assert_ne!(one, other);
        assert!(one.ends_with("one/models_cache.json"));
        assert!(other.ends_with("an_other/models_cache.json"));
    }
}
