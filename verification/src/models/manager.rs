//! Keeps the models of a provider up to date.

use crate::auth::InternalAuthMode;
use crate::models::cache_path::{
    is_cache_path, is_models_cache_path, law_caches_are_scoped_by_provider, models_cache_path,
    names_no_directory, path_buf_components, sanitized,
};
use crate::models::catalog::{
    last_with_slug, law_last_update_wins, law_removed_models_are_dropped,
    law_updates_are_taken_over, merged_catalog, model_with_slug, slugs, updated_with, CachedModels,
    RemoteCatalog, RemoteCatalogView,
};
use crate::models::types::{
    copy_infos, infos_view, Config, ConfigView, ModelInfo, ModelInfoView, ModelPreset,
};
use crate::text::{copy_optional, optional, same_text};
use std::path::PathBuf;
use vstd::prelude::*;

verus! {

/// How long a cached reply stays fresh, in seconds.
pub const DEFAULT_MODEL_CACHE_TTL_SECS: u64 = 300;

/// How long to wait for the service, in seconds.
pub const MODELS_REFRESH_TIMEOUT_SECS: u64 = 5;

/// Strategy for refreshing available models.
#[derive(Debug, Clone, Copy, PartialEq, Eq, Structural)]
pub enum RefreshStrategy {
    /// Always fetch from the network, ignoring cache.
    Online,
    /// Only use cached data, never fetch from the network.
    Offline,
    /// Use cache if available and fresh, otherwise fetch from the network.
    OnlineIfUncached,
}

/// The next thing to do for a refresh.
#[derive(Debug, Clone, Copy, PartialEq, Eq, Structural)]
pub enum RefreshStep {
    /// Nothing is left to do.
    Finished,
    /// Load the cache if it is fresh, and then fetch if it was not and that is asked for.
    LoadCache { fetch_if_missing: bool },
    /// Fetch from the network.
    Fetch,
}

/// What to do about the tag of a reply.
#[derive(Debug, Clone, Copy, PartialEq, Eq, Structural)]
pub enum EtagStep {
    /// The known models are current: the cache stays fresh for another while.
    RenewCacheTtl,
    /// Refresh, beginning with the given step.
    Refresh(RefreshStep),
}

/// What came of asking the service for its models.
#[derive(Debug, PartialEq, Eq)]
pub enum FetchReply {
    /// The request could not be put together.
    NotSent(String),
    /// There was no answer in time.
    TimedOut,
    /// The request failed.
    Failed(String),
    /// The models, and the tag of the reply.
    Answered(CachedModels),
}

/// Why a refresh failed.
#[derive(Debug, PartialEq, Eq)]
pub enum RefreshError {
    NotSent(String),
    Timeout,
    Api(String),
}

/// Somebody else is changing the catalog.
#[derive(Debug, Clone, Copy, PartialEq, Eq, Structural)]
pub struct CatalogBusy;

/// What does not change while a provider is in use: the presets and models that the program
/// brings along, and where and for how long replies are cached.
#[derive(Debug)]
pub struct ModelsManager {
    pub local_models: Vec<ModelPreset>,
    pub bundled_models: Vec<ModelInfo>,
    pub cache_path: PathBuf,
    pub cache_ttl_secs: u64,
}

/// The first step of a refresh.
pub open spec fn first_step(
    enabled: bool,
    auth_mode: Option<InternalAuthMode>,
    strategy: RefreshStrategy,
) -> RefreshStep {
    if !enabled || auth_mode == Some(InternalAuthMode::ApiKey) {
        RefreshStep::Finished
    } else {
        match strategy {
            RefreshStrategy::Offline => RefreshStep::LoadCache { fetch_if_missing: false },
            RefreshStrategy::OnlineIfUncached => RefreshStep::LoadCache { fetch_if_missing: true },
            RefreshStrategy::Online => RefreshStep::Fetch,
        }
    }
}

/// The step after the cache was tried.
pub open spec fn step_after_cache(fetch_if_missing: bool, loaded: bool) -> RefreshStep {
    if fetch_if_missing && !loaded {
        RefreshStep::Fetch
    } else {
        RefreshStep::Finished
    }
}

/// The catalog after a reply: the bundled models brought up to date, and the reply's tag.
pub open spec fn catalog_after(
    bundled: Seq<ModelInfoView>,
    reply: RemoteCatalogView,
) -> RemoteCatalogView {
    RemoteCatalogView { models: updated_with(bundled, reply.models), etag: reply.etag }
}

/// A refresh that began with `step` fetches, where `cached` tells whether there is a fresh cache.
pub open spec fn fetches(step: RefreshStep, cached: bool) -> bool {
    match step {
        RefreshStep::Finished => false,
        RefreshStep::LoadCache { fetch_if_missing } => step_after_cache(fetch_if_missing, cached)
            == RefreshStep::Fetch,
        RefreshStep::Fetch => true,
    }
}

/// The catalog after a refresh that began with `step`, where `cache` is the fresh cache, if
/// there is one, and `answer` is what the service would answer, if it does.
pub open spec fn refreshed(
    bundled: Seq<ModelInfoView>,
    catalog: RemoteCatalogView,
    step: RefreshStep,
    cache: Option<RemoteCatalogView>,
    answer: Option<RemoteCatalogView>,
) -> RemoteCatalogView {
    if fetches(step, cache is Some) {
        match answer {
            Some(reply) => catalog_after(bundled, reply),
            None => catalog,
        }
    } else {
        match (step, cache) {
            (RefreshStep::LoadCache { .. }, Some(reply)) => catalog_after(bundled, reply),
            _ => catalog,
        }
    }
}

/// The content of a cache, if there is one.
pub open spec fn cache_view(cache: Option<CachedModels>) -> Option<RemoteCatalogView> {
    match cache {
        Some(reply) => Some(reply@),
        None => None,
    }
}

/// What the service answered, if it was asked and did.
pub open spec fn answer_view(reply: Option<FetchReply>) -> Option<RemoteCatalogView> {
    match reply {
        Some(FetchReply::Answered(answer)) => Some(answer@),
        _ => None,
    }
}

/// What comes of the service's reply: the entry to cache, or the error.
pub open spec fn is_fetch_outcome(
    reply: FetchReply,
    outcome: Result<CachedModels, RefreshError>,
) -> bool {
    match (reply, outcome) {
        (FetchReply::Answered(answer), Ok(entry)) => entry@ == answer@,
        (FetchReply::NotSent(cause), Err(RefreshError::NotSent(error))) => error@ == cause@,
        (FetchReply::TimedOut, Err(RefreshError::Timeout)) => true,
        (FetchReply::Failed(cause), Err(RefreshError::Api(error))) => error@ == cause@,
        _ => false,
    }
}

/// What to do about a tag.
pub open spec fn etag_step(
    known: Option<Seq<char>>,
    etag: Seq<char>,
    enabled: bool,
    auth_mode: Option<InternalAuthMode>,
) -> EtagStep {
    if known == Some(etag) {
        EtagStep::RenewCacheTtl
    } else {
        EtagStep::Refresh(first_step(enabled, auth_mode, RefreshStrategy::Online))
    }
}

/// The models to go by: none of the provider's while they are switched off.
pub open spec fn models_in_use(
    catalog: RemoteCatalogView,
    config: ConfigView,
) -> Seq<ModelInfoView> {
    if config.remote_models_enabled {
        catalog.models
    } else {
        Seq::empty()
    }
}

/// The models to go by if the catalog may be out of sight: none then.
pub open spec fn models_in_sight(
    catalog: Option<&RemoteCatalog>,
    config: ConfigView,
) -> Seq<ModelInfoView> {
    match catalog {
        Some(catalog) => models_in_use(catalog@, config),
        None => Seq::empty(),
    }
}

/// The models that the program brings along; none if they cannot be read.
pub open spec fn loaded_or_none(loaded: Result<Vec<ModelInfo>, String>) -> Seq<ModelInfoView> {
    match loaded {
        Ok(models) => infos_view(models@),
        Err(_) => Seq::empty(),
    }
}

/// The models that the program brings along; none if they cannot be read.
pub fn bundled_or_none(loaded: Result<Vec<ModelInfo>, String>) -> (models: Vec<ModelInfo>)
    ensures
        infos_view(models@) == loaded_or_none(loaded),
{
    match loaded {
        Ok(models) => models,
        Err(_) => {
            let models: Vec<ModelInfo> = Vec::new();
            assert(infos_view(models@) =~= Seq::<ModelInfoView>::empty());
            models
        },
    }
}

/// The step after the cache was tried.
pub fn refresh_after_cache(fetch_if_missing: bool, loaded: bool) -> (step: RefreshStep)
    ensures
        step == step_after_cache(fetch_if_missing, loaded),
{
    if fetch_if_missing && !loaded {
        RefreshStep::Fetch
    } else {
        RefreshStep::Finished
    }
}

impl ModelsManager {
    /// A manager for a provider, and the catalog it starts with: the bundled models.
    /// `builtin_model_presets` gives the presets for an account.
    pub fn new<B>(
        codex_home: PathBuf,
        auth_mode: Option<InternalAuthMode>,
        model_provider_id: &str,
        bundled: Result<Vec<ModelInfo>, String>,
        builtin_model_presets: B,
    ) -> (started: (Self, RemoteCatalog)) where
        B: Fn(Option<InternalAuthMode>) -> Vec<ModelPreset>,

        requires
            call_requires(builtin_model_presets, (auth_mode,)),
        ensures
            call_ensures(builtin_model_presets, (auth_mode,), started.0.local_models),
            infos_view(started.0.bundled_models@) == loaded_or_none(bundled),
            is_models_cache_path(
                started.0.cache_path,
                path_buf_components(codex_home),
                model_provider_id@,
            ),
            started.0.cache_ttl_secs == DEFAULT_MODEL_CACHE_TTL_SECS,
            started.1@ == (RemoteCatalogView { models: loaded_or_none(bundled), etag: None }),
    {
        let cache_path = models_cache_path(codex_home.as_path(), model_provider_id);
        let bundled_models = bundled_or_none(bundled);
        let models = copy_infos(&bundled_models);
        let manager = ModelsManager {
            local_models: builtin_model_presets(auth_mode),
            bundled_models,
            cache_path,
            cache_ttl_secs: DEFAULT_MODEL_CACHE_TTL_SECS,
        };
        (manager, RemoteCatalog { models, etag: None })
    }

    /// A manager for a particular provider: the same as [`ModelsManager::new`].
    pub fn with_provider<B>(
        codex_home: PathBuf,
        auth_mode: Option<InternalAuthMode>,
        model_provider_id: &str,
        bundled: Result<Vec<ModelInfo>, String>,
        builtin_model_presets: B,
    ) -> (started: (Self, RemoteCatalog)) where
        B: Fn(Option<InternalAuthMode>) -> Vec<ModelPreset>,

        requires
            call_requires(builtin_model_presets, (auth_mode,)),
        ensures
            call_ensures(builtin_model_presets, (auth_mode,), started.0.local_models),
            infos_view(started.0.bundled_models@) == loaded_or_none(bundled),
            is_models_cache_path(
                started.0.cache_path,
                path_buf_components(codex_home),
                model_provider_id@,
            ),
            started.0.cache_ttl_secs == DEFAULT_MODEL_CACHE_TTL_SECS,
            started.1@ == (RemoteCatalogView { models: loaded_or_none(bundled), etag: None }),
    {
        Self::new(codex_home, auth_mode, model_provider_id, bundled, builtin_model_presets)
    }

    /// The first step of a refresh.
    pub fn refresh_available_models(
        config: &Config,
        auth_mode: Option<InternalAuthMode>,
        refresh_strategy: RefreshStrategy,
    ) -> (step: RefreshStep)
        ensures
            step == first_step(config.remote_models_enabled, auth_mode, refresh_strategy),
    {
        if !config.remote_models_enabled {
            return RefreshStep::Finished;
        }
        if let Some(InternalAuthMode::ApiKey) = auth_mode {
            return RefreshStep::Finished;
        }
        match refresh_strategy {
            RefreshStrategy::Offline => RefreshStep::LoadCache { fetch_if_missing: false },
            RefreshStrategy::OnlineIfUncached => RefreshStep::LoadCache { fetch_if_missing: true },
            RefreshStrategy::Online => RefreshStep::Fetch,
        }
    }

    /// Puts models that the provider told of into the catalog.
    pub fn apply_remote_models(&self, catalog: &mut RemoteCatalog, models: Vec<ModelInfo>)
        ensures
            final(catalog)@ == (RemoteCatalogView {
                models: updated_with(infos_view(self.bundled_models@), infos_view(models@)),
                ..old(catalog)@
            }),
    {
        catalog.models = merged_catalog(&self.bundled_models, models);
    }

    /// Takes the models out of a fresh cache; tells whether there was one.
    pub fn try_load_cache(
        &self,
        catalog: &mut RemoteCatalog,
        cache: Option<CachedModels>,
    ) -> (loaded: bool)
        ensures
            loaded == (cache is Some),
            cache matches Some(reply) ==> final(catalog)@ == catalog_after(
                infos_view(self.bundled_models@),
                reply@,
            ),
            cache is None ==> *final(catalog) == *old(catalog),
    {
        match cache {
            Some(reply) => {
                catalog.etag = reply.etag;
                self.apply_remote_models(catalog, reply.models);
                true
            },
            None => false,
        }
    }

    /// Takes the models out of the service's reply, and returns what is to be cached.
    pub fn fetch_and_update_models(
        &self,
        catalog: &mut RemoteCatalog,
        reply: FetchReply,
    ) -> (to_cache: Result<CachedModels, RefreshError>)
        ensures
            is_fetch_outcome(reply, to_cache),
            reply matches FetchReply::Answered(answer) ==> final(catalog)@ == catalog_after(
                infos_view(self.bundled_models@),
                answer@,
            ),
            !(reply is Answered) ==> *final(catalog) == *old(catalog),
    {
        match reply {
            FetchReply::NotSent(cause) => Err(RefreshError::NotSent(cause)),
            FetchReply::TimedOut => Err(RefreshError::Timeout),
            FetchReply::Failed(cause) => Err(RefreshError::Api(cause)),
            FetchReply::Answered(answer) => {
                self.apply_remote_models(catalog, copy_infos(&answer.models));
                catalog.etag = copy_optional(&answer.etag);
                Ok(answer)
            },
        }
    }

    /// Whether a refresh that began with `step` goes on to fetch, where `cached` tells whether
    /// there is a fresh cache.
    pub fn refresh_fetches(step: RefreshStep, cached: bool) -> (fetch: bool)
        ensures
            fetch == fetches(step, cached),
    {
        match step {
            RefreshStep::Finished => false,
            RefreshStep::LoadCache { fetch_if_missing } => match refresh_after_cache(
                fetch_if_missing,
                cached,
            ) {
                RefreshStep::Fetch => true,
                _ => false,
            },
            RefreshStep::Fetch => true,
        }
    }

    /// Carries a refresh out that began with `step`, where `cache` is the fresh cache, if there
    /// is one, and `reply` is the service's, if the refresh fetches. Returns what is to be
    /// cached, if anything is.
    pub fn complete_refresh(
        &self,
        catalog: &mut RemoteCatalog,
        step: RefreshStep,
        cache: Option<CachedModels>,
        reply: Option<FetchReply>,
    ) -> (to_cache: Result<Option<CachedModels>, RefreshError>)
        requires
            fetches(step, cache is Some) ==> reply is Some,
        ensures
            final(catalog)@ == refreshed(
                infos_view(self.bundled_models@),
                old(catalog)@,
                step,
                cache_view(cache),
                answer_view(reply),
            ),
            fetches(step, cache is Some) ==> match to_cache {
                Ok(Some(entry)) => is_fetch_outcome(reply->0, Ok(entry)),
                Ok(None) => false,
                Err(error) => is_fetch_outcome(reply->0, Err(error)),
            },
            !fetches(step, cache is Some) ==> to_cache == Ok::<Option<CachedModels>, RefreshError>(
                None,
            ),
    {
        let mut step = step;
        if let RefreshStep::LoadCache { fetch_if_missing } = step {
            let loaded = self.try_load_cache(catalog, cache);
            step = refresh_after_cache(fetch_if_missing, loaded);
        }
        match (step, reply) {
            (RefreshStep::Fetch, Some(reply)) => match self.fetch_and_update_models(
                catalog,
                reply,
            ) {
                Ok(entry) => Ok(Some(entry)),
                Err(error) => Err(error),
            },
            _ => Ok(None),
        }
    }

    /// The tag of the reply that the catalog came from.
    pub fn get_etag(catalog: &RemoteCatalog) -> (etag: Option<String>)
        ensures
            optional(etag) == catalog@.etag,
    {
        copy_optional(&catalog.etag)
    }

    /// What to do when the service mentions the tag `etag`: nothing but to keep the cache, if
    /// it is the known one, and otherwise to fetch.
    pub fn refresh_if_new_etag(
        catalog: &RemoteCatalog,
        etag: String,
        config: &Config,
        auth_mode: Option<InternalAuthMode>,
    ) -> (step: EtagStep)
        ensures
            step == etag_step(catalog@.etag, etag@, config.remote_models_enabled, auth_mode),
    {
        if let Some(current) = Self::get_etag(catalog) {
            if same_text(&current, &etag) {
                return EtagStep::RenewCacheTtl;
            }
        }
        EtagStep::Refresh(
            Self::refresh_available_models(config, auth_mode, RefreshStrategy::Online),
        )
    }

    /// The provider's models to go by.
    pub fn get_remote_models(catalog: &RemoteCatalog, config: &Config) -> (models: Vec<ModelInfo>)
        ensures
            infos_view(models@) == models_in_use(catalog@, config@),
    {
        if config.remote_models_enabled {
            copy_infos(&catalog.models)
        } else {
            let models: Vec<ModelInfo> = Vec::new();
            assert(infos_view(models@) =~= Seq::<ModelInfoView>::empty());
            models
        }
    }

    /// The provider's models to go by, where the catalog may be locked: that matters only if
    /// it is needed.
    pub fn try_get_remote_models(
        catalog: Option<&RemoteCatalog>,
        config: &Config,
    ) -> (models: Result<Vec<ModelInfo>, CatalogBusy>)
        ensures
            models is Err <==> catalog is None && config.remote_models_enabled,
            models matches Ok(models) ==> infos_view(models@) == models_in_sight(
                catalog,
                config@,
            ),
    {
        match catalog {
            Some(catalog) => Ok(Self::get_remote_models(catalog, config)),
            None => if config.remote_models_enabled {
                Err(CatalogBusy)
            } else {
                let models: Vec<ModelInfo> = Vec::new();
                assert(infos_view(models@) =~= Seq::<ModelInfoView>::empty());
                Ok(models)
            },
        }
    }
}

/// Neither with an API key nor while the provider's models are switched off is there anything
/// to refresh.
pub proof fn law_nothing_to_refresh(
    enabled: bool,
    auth_mode: Option<InternalAuthMode>,
    strategy: RefreshStrategy,
)
    ensures
        first_step(enabled, auth_mode, strategy) == RefreshStep::Finished <==> !enabled || auth_mode
            == Some(InternalAuthMode::ApiKey),
{
}

/// An offline refresh never fetches, whether or not there is a cache.
pub proof fn law_offline_never_fetches(
    enabled: bool,
    auth_mode: Option<InternalAuthMode>,
    loaded: bool,
)
    ensures
        first_step(enabled, auth_mode, RefreshStrategy::Offline) != RefreshStep::Fetch,
        first_step(enabled, auth_mode, RefreshStrategy::Offline) matches RefreshStep::LoadCache {
            fetch_if_missing,
        } ==> step_after_cache(fetch_if_missing, loaded) == RefreshStep::Finished,
{
}

/// An online refresh does not look at the cache.
pub proof fn law_online_ignores_the_cache(enabled: bool, auth_mode: Option<InternalAuthMode>)
    ensures
        !(first_step(enabled, auth_mode, RefreshStrategy::Online) is LoadCache),
        first_step(enabled, auth_mode, RefreshStrategy::Online) == RefreshStep::Fetch <==> enabled
            && auth_mode != Some(InternalAuthMode::ApiKey),
{
}

/// In between, the cache is tried first, and the network is used exactly when there is none.
pub proof fn law_fetch_only_without_cache(auth_mode: Option<InternalAuthMode>, loaded: bool)
    requires
        auth_mode != Some(InternalAuthMode::ApiKey),
    ensures
        first_step(true, auth_mode, RefreshStrategy::OnlineIfUncached) matches
            RefreshStep::LoadCache { fetch_if_missing } && (step_after_cache(
            fetch_if_missing,
            loaded,
        ) == RefreshStep::Fetch <==> !loaded),
{
}

/// Once a reply with a tag was taken, from the network or from the cache, the same tag calls
/// for no refresh, and any other does.
pub proof fn law_known_tag_needs_no_refresh(
    bundled: Seq<ModelInfoView>,
    reply: RemoteCatalogView,
    tag: Seq<char>,
    mentioned: Seq<char>,
    enabled: bool,
    auth_mode: Option<InternalAuthMode>,
)
    requires
        reply.etag == Some(tag),
    ensures
        etag_step(catalog_after(bundled, reply).etag, mentioned, enabled, auth_mode)
            == EtagStep::RenewCacheTtl <==> mentioned == tag,
{
}

/// A second refresh that finds what the first one fetched still in the cache changes nothing,
/// whatever the service would answer by then.
pub proof fn law_fresh_cache_saves_the_fetch(
    bundled: Seq<ModelInfoView>,
    catalog: RemoteCatalogView,
    auth_mode: Option<InternalAuthMode>,
    answer: RemoteCatalogView,
    later: Option<RemoteCatalogView>,
)
    ensures
        ({
            let step = first_step(true, auth_mode, RefreshStrategy::OnlineIfUncached);
            let once = refreshed(bundled, catalog, step, None, Some(answer));
            refreshed(bundled, once, step, Some(answer), later) == once
        }),
{
}

/// What a refresh takes over, from the cache or from the service, replaces all that earlier
/// ones brought: the outcome does not depend on the catalog before.
pub proof fn law_refresh_forgets_earlier_ones(
    bundled: Seq<ModelInfoView>,
    one: RemoteCatalogView,
    other: RemoteCatalogView,
    auth_mode: Option<InternalAuthMode>,
    strategy: RefreshStrategy,
    cache: Option<RemoteCatalogView>,
    answer: Option<RemoteCatalogView>,
)
    requires
        auth_mode != Some(InternalAuthMode::ApiKey),
        match strategy {
            RefreshStrategy::Offline => cache is Some,
            RefreshStrategy::Online => answer is Some,
            RefreshStrategy::OnlineIfUncached => cache is Some || answer is Some,
        },
    ensures
        ({
            let step = first_step(true, auth_mode, strategy);
            refreshed(bundled, one, step, cache, answer) == refreshed(
                bundled,
                other,
                step,
                cache,
                answer,
            )
        }),
{
}

/// The caches on disk, by the components of their paths.
pub type Disk = Map<Seq<Seq<char>>, RemoteCatalogView>;

/// The cache at a path, if there is one.
pub open spec fn cache_at(disk: Disk, path: Seq<Seq<char>>) -> Option<RemoteCatalogView> {
    if disk.contains_key(path) {
        Some(disk[path])
    } else {
        None
    }
}

/// A provider without a cache of its own fetches, whatever another provider has cached in the
/// same home directory. Its catalog then holds the bundled models and its own answer, and nothing
/// that only the other provider told of.
pub proof fn law_refresh_is_scoped_by_provider(
    home: Seq<Seq<char>>,
    one: Seq<char>,
    other: Seq<char>,
    path: Seq<Seq<char>>,
    other_path: Seq<Seq<char>>,
    disk: Disk,
    other_cache: RemoteCatalogView,
    bundled: Seq<ModelInfoView>,
    catalog: RemoteCatalogView,
    auth_mode: Option<InternalAuthMode>,
    answer: RemoteCatalogView,
)
    requires
        auth_mode != Some(InternalAuthMode::ApiKey),
        sanitized(one) != sanitized(other),
        !names_no_directory(one) || !names_no_directory(other),
        is_cache_path(path, home, one),
        is_cache_path(other_path, home, other),
        !disk.contains_key(path),
    ensures
        ({
            let step = first_step(true, auth_mode, RefreshStrategy::OnlineIfUncached);
            let cache = cache_at(disk.insert(other_path, other_cache), path);
            let after = refreshed(bundled, catalog, step, cache, Some(answer));
            &&& fetches(step, cache is Some)
            &&& after == catalog_after(bundled, answer)
            &&& forall|slug: Seq<char>|
                !slugs(bundled).contains(slug) && !slugs(answer.models).contains(slug)
                    ==> !(#[trigger] slugs(after.models).contains(slug))
            &&& forall|slug: Seq<char>| #[trigger]
                slugs(answer.models).contains(slug) ==> slugs(after.models).contains(slug)
        }),
{
    law_caches_are_scoped_by_provider(home, one, other);
    let after = catalog_after(bundled, answer);
    assert forall|slug: Seq<char>|
        !slugs(bundled).contains(slug) && !slugs(answer.models).contains(slug) implies !(
    #[trigger] slugs(after.models).contains(slug)) by {
        law_removed_models_are_dropped(bundled, answer.models, slug);
    }
    assert forall|slug: Seq<char>| #[trigger] slugs(answer.models).contains(slug) implies slugs(
        after.models,
    ).contains(slug) by {
        law_updates_are_taken_over(bundled, answer.models, slug);
    }
}

/// A tag that the service mentions calls for the network exactly if it is not the known one, the
/// provider's models are switched on, and the account is not an API key. The known one only keeps
/// the cache, and otherwise there is nothing to do.
pub proof fn law_new_tag_is_fetched(
    known: Option<Seq<char>>,
    etag: Seq<char>,
    enabled: bool,
    auth_mode: Option<InternalAuthMode>,
)
    ensures
        known != Some(etag) && enabled && auth_mode != Some(InternalAuthMode::ApiKey) ==> etag_step(
            known,
            etag,
            enabled,
            auth_mode,
        ) == EtagStep::Refresh(RefreshStep::Fetch),
        known == Some(etag) <==> etag_step(known, etag, enabled, auth_mode)
            == EtagStep::RenewCacheTtl,
        known != Some(etag) && !(enabled && auth_mode != Some(InternalAuthMode::ApiKey))
            ==> etag_step(known, etag, enabled, auth_mode) == EtagStep::Refresh(
            RefreshStep::Finished,
        ),
{
}

/// Once a reply was taken, the only tag that calls for no refresh is that reply's, for every
/// account; after a reply without a tag every tag calls for one.
pub proof fn law_tag_is_that_of_the_last_reply(
    bundled: Seq<ModelInfoView>,
    catalog: RemoteCatalogView,
    answer: RemoteCatalogView,
    etag: Seq<char>,
    auth_mode: Option<InternalAuthMode>,
)
    requires
        auth_mode != Some(InternalAuthMode::ApiKey),
    ensures
        ({
            let step = first_step(true, auth_mode, RefreshStrategy::Online);
            let after = refreshed(bundled, catalog, step, None, Some(answer));
            let next = etag_step(after.etag, etag, true, auth_mode);
            &&& answer.etag == Some(etag) ==> next == EtagStep::RenewCacheTtl
            &&& answer.etag != Some(etag) ==> next == EtagStep::Refresh(RefreshStep::Fetch)
        }),
{
}

/// Whether a refresh reads the cache and whether it asks the network, for every strategy and
/// account.
pub proof fn law_cache_and_network_by_strategy(
    auth_mode: Option<InternalAuthMode>,
    strategy: RefreshStrategy,
    cached: bool,
)
    requires
        auth_mode != Some(InternalAuthMode::ApiKey),
    ensures
        ({
            let step = first_step(true, auth_mode, strategy);
            &&& step is LoadCache <==> strategy != RefreshStrategy::Online
            &&& fetches(step, cached) <==> match strategy {
                RefreshStrategy::Online => true,
                RefreshStrategy::Offline => false,
                RefreshStrategy::OnlineIfUncached => !cached,
            }
        }),
        !fetches(first_step(false, auth_mode, strategy), cached),
        first_step(false, auth_mode, strategy) is Finished,
        !fetches(first_step(true, Some(InternalAuthMode::ApiKey), strategy), cached),
        first_step(true, Some(InternalAuthMode::ApiKey), strategy) is Finished,
{
}

/// After the cache was tried there is a fetch, or nothing is left to do.
pub proof fn law_cache_is_tried_once(fetch_if_missing: bool, loaded: bool)
    ensures
        step_after_cache(fetch_if_missing, loaded) is Fetch <==> fetch_if_missing && !loaded,
        step_after_cache(fetch_if_missing, loaded) is Finished <==> !fetch_if_missing || loaded,
{
}

/// What a refresh leaves behind. A fetch that is answered brings the answer; a cache that is read
/// brings the cache; a fetch that fails, a cache that is missing and a refresh with nothing to do
/// leave the catalog alone, its tag included.
pub proof fn law_refresh_by_strategy(
    bundled: Seq<ModelInfoView>,
    catalog: RemoteCatalogView,
    auth_mode: Option<InternalAuthMode>,
    cached: RemoteCatalogView,
    answer: RemoteCatalogView,
    strategy: RefreshStrategy,
)
    requires
        auth_mode != Some(InternalAuthMode::ApiKey),
    ensures
        ({
            let online = first_step(true, auth_mode, RefreshStrategy::Online);
            let offline = first_step(true, auth_mode, RefreshStrategy::Offline);
            let between = first_step(true, auth_mode, RefreshStrategy::OnlineIfUncached);
            let from_answer = RemoteCatalogView {
                models: updated_with(bundled, answer.models),
                etag: answer.etag,
            };
            let from_cache = RemoteCatalogView {
                models: updated_with(bundled, cached.models),
                etag: cached.etag,
            };
            &&& refreshed(bundled, catalog, online, Some(cached), Some(answer)) == from_answer
            &&& refreshed(bundled, catalog, online, None, Some(answer)) == from_answer
            &&& refreshed(bundled, catalog, online, Some(cached), None) == catalog
            &&& refreshed(bundled, catalog, offline, Some(cached), Some(answer)) == from_cache
            &&& refreshed(bundled, catalog, offline, None, Some(answer)) == catalog
            &&& refreshed(bundled, catalog, between, Some(cached), Some(answer)) == from_cache
            &&& refreshed(bundled, catalog, between, Some(cached), None) == from_cache
            &&& refreshed(bundled, catalog, between, None, Some(answer)) == from_answer
            &&& refreshed(bundled, catalog, between, None, None) == catalog
        }),
        refreshed(
            bundled,
            catalog,
            first_step(false, auth_mode, strategy),
            Some(cached),
            Some(answer),
        ) == catalog,
        refreshed(
            bundled,
            catalog,
            first_step(true, Some(InternalAuthMode::ApiKey), strategy),
            Some(cached),
            Some(answer),
        ) == catalog,
{
}

/// After a reply, looking a slug up finds the reply's model if it has one of that slug that no
/// later one replaces, and the bundled model if the reply has none.
pub proof fn law_reply_goes_over_bundled(
    bundled: Seq<ModelInfoView>,
    reply: RemoteCatalogView,
    at: int,
    slug: Seq<char>,
)
    ensures
        0 <= at < reply.models.len() && (forall|later: int|
            at < later < reply.models.len() ==> (#[trigger] reply.models[later]).slug
                != reply.models[at].slug) ==> model_with_slug(
            catalog_after(bundled, reply).models,
            reply.models[at].slug,
        ) == Some(reply.models[at]),
        (forall|i: int|
            0 <= i < reply.models.len() ==> (#[trigger] reply.models[i]).slug != slug)
            ==> model_with_slug(catalog_after(bundled, reply).models, slug) == model_with_slug(
            bundled,
            slug,
        ),
        catalog_after(bundled, reply).etag == reply.etag,
{
    if 0 <= at < reply.models.len() {
        law_last_update_wins(bundled, reply.models, reply.models[at].slug);
        lemma_last_with_slug_at(reply.models, at);
    }
    law_last_update_wins(bundled, reply.models, slug);
    lemma_no_last_with_slug(reply.models, slug);
}

proof fn lemma_last_with_slug_at(updates: Seq<ModelInfoView>, at: int)
    requires
        0 <= at < updates.len(),
    ensures
        (forall|later: int|
            at < later < updates.len() ==> (#[trigger] updates[later]).slug != updates[at].slug)
            ==> last_with_slug(updates, updates[at].slug) == Some(updates[at]),
    decreases updates.len(),
{
    if at < updates.len() - 1 && (forall|later: int|
        at < later < updates.len() ==> (#[trigger] updates[later]).slug != updates[at].slug) {
        let shorter = updates.drop_last();
        assert(updates[updates.len() - 1].slug != updates[at].slug);
        assert(forall|i: int| 0 <= i < shorter.len() ==> shorter[i] == updates[i]);
        lemma_last_with_slug_at(shorter, at);
    }
}

proof fn lemma_no_last_with_slug(updates: Seq<ModelInfoView>, slug: Seq<char>)
    ensures
        (forall|i: int| 0 <= i < updates.len() ==> (#[trigger] updates[i]).slug != slug)
            ==> last_with_slug(updates, slug) is None,
    decreases updates.len(),
{
    if updates.len() > 0 && (forall|i: int|
        0 <= i < updates.len() ==> (#[trigger] updates[i]).slug != slug) {
        let shorter = updates.drop_last();
        assert(updates[updates.len() - 1].slug != slug);
        assert(forall|i: int| 0 <= i < shorter.len() ==> shorter[i] == updates[i]);
        lemma_no_last_with_slug(shorter, slug);
    }
}

/// A request that was answered succeeds with what was answered, and is what changes the catalog.
/// Each way to fail has an error of its own, with the cause that was given.
pub proof fn law_fetch_outcomes(
    reply: FetchReply,
    outcome: Result<CachedModels, RefreshError>,
    cached: CachedModels,
)
    requires
        is_fetch_outcome(reply, outcome),
    ensures
        outcome is Ok <==> reply is Answered,
        answer_view(Some(reply)) is Some <==> reply is Answered,
        reply matches FetchReply::Answered(answer) ==> infos_view(outcome->Ok_0.models@)
            == infos_view(answer.models@) && optional(outcome->Ok_0.etag) == optional(answer.etag)
            && answer_view(Some(reply))->0.models == infos_view(answer.models@) && answer_view(
            Some(reply),
        )->0.etag == optional(answer.etag),
        reply is TimedOut <==> (outcome matches Err(error) && error is Timeout),
        reply matches FetchReply::NotSent(cause) ==> (outcome matches Err(
            RefreshError::NotSent(error),
        ) && error@ == cause@),
        reply matches FetchReply::Failed(cause) ==> (outcome matches Err(RefreshError::Api(error))
            && error@ == cause@),
        answer_view(None) is None,
        cache_view(None) is None,
        cache_view(Some(cached)) matches Some(view) && view.models == infos_view(cached.models@)
            && view.etag == optional(cached.etag),
{
}

/// While the provider's models are switched on, all of the catalog's are used, in their order;
/// while they are switched off, or the catalog is out of sight, none are.
pub proof fn law_models_in_use(catalog: RemoteCatalog, config: ConfigView)
    ensures
        config.remote_models_enabled ==> models_in_use(catalog@, config) == infos_view(
            catalog.models@,
        ) && models_in_sight(Some(&catalog), config) == infos_view(catalog.models@),
        !config.remote_models_enabled ==> models_in_use(catalog@, config).len() == 0
            && models_in_sight(Some(&catalog), config).len() == 0,
        models_in_sight(None, config).len() == 0,
{
}

/// The models that the program brings along are those that were read, all of them in order, and
/// none if they could not be read.
pub proof fn law_bundled_models(models: Vec<ModelInfo>, error: String)
    ensures
        loaded_or_none(Ok(models)) == infos_view(models@),
        loaded_or_none(Err(error)).len() == 0,
        infos_view(models@).len() == models@.len(),
        forall|i: int| 0 <= i < models@.len() ==> infos_view(models@)[i] == (#[trigger] models@[i])@,
{
}

/// A cached reply is fresh for five minutes, and the service has five seconds to answer.
pub proof fn law_times()
    ensures
        DEFAULT_MODEL_CACHE_TTL_SECS == 5 * 60,
        MODELS_REFRESH_TIMEOUT_SECS == 5,
{
}

/// Asking what to do about a tag: the known one keeps the cache, and any other is fetched where
/// the provider's models are switched on and the account is not an API key.
pub proof fn law_asking_about_a_tag(
    catalog: RemoteCatalog,
    etag: String,
    config: Config,
    auth_mode: Option<InternalAuthMode>,
    step: EtagStep,
)
    requires
        call_ensures(
            ModelsManager::refresh_if_new_etag,
            (&catalog, etag, &config, auth_mode),
            step,
        ),
    ensures
        ({
            let is_known = catalog.etag is Some && catalog.etag->0@ == etag@;
            let may_fetch = config.remote_models_enabled && !(auth_mode matches Some(
                InternalAuthMode::ApiKey,
            ));
            &&& is_known ==> step is RenewCacheTtl
            &&& !is_known && may_fetch ==> step == EtagStep::Refresh(RefreshStep::Fetch)
            &&& !is_known && !may_fetch ==> step == EtagStep::Refresh(RefreshStep::Finished)
        }),
{
}

/// Where a refresh begins: with nothing for an API key or while the provider's models are
/// switched off, and otherwise where the strategy says.
pub proof fn law_asking_for_a_refresh(
    config: Config,
    auth_mode: Option<InternalAuthMode>,
    strategy: RefreshStrategy,
    step: RefreshStep,
)
    requires
        call_ensures(
            ModelsManager::refresh_available_models,
            (&config, auth_mode, strategy),
            step,
        ),
    ensures
        ({
            let may_refresh = config.remote_models_enabled && !(auth_mode matches Some(
                InternalAuthMode::ApiKey,
            ));
            &&& !may_refresh ==> step is Finished
            &&& may_refresh && strategy is Online ==> step is Fetch
            &&& may_refresh && strategy is Offline ==> step == (RefreshStep::LoadCache {
                fetch_if_missing: false,
            })
            &&& may_refresh && strategy is OnlineIfUncached ==> step == (RefreshStep::LoadCache {
                fetch_if_missing: true,
            })
        }),
{
}

/// Taking a reply: an answer brings its models over the bundled ones and its tag, and is what is
/// cached; a failure leaves the catalog as it was.
pub proof fn law_taking_a_reply(
    manager: ModelsManager,
    catalog: &mut RemoteCatalog,
    reply: FetchReply,
    to_cache: Result<CachedModels, RefreshError>,
)
    requires
        call_ensures(
            ModelsManager::fetch_and_update_models,
            (&manager, catalog, reply),
            to_cache,
        ),
    ensures
        reply matches FetchReply::Answered(answer) ==> {
            &&& infos_view(final(catalog).models@) == updated_with(
                infos_view(manager.bundled_models@),
                infos_view(answer.models@),
            )
            &&& optional(final(catalog).etag) == optional(answer.etag)
            &&& to_cache matches Ok(entry) && infos_view(entry.models@) == infos_view(
                answer.models@,
            ) && optional(entry.etag) == optional(answer.etag)
        },
        !(reply is Answered) ==> *final(catalog) == *old(catalog) && to_cache is Err,
{
}

/// Loading a cache: a fresh one brings its models over the bundled ones and its tag, and without
/// one nothing changes; the outcome tells which.
pub proof fn law_loading_a_cache(
    manager: ModelsManager,
    catalog: &mut RemoteCatalog,
    cache: Option<CachedModels>,
    loaded: bool,
)
    requires
        call_ensures(ModelsManager::try_load_cache, (&manager, catalog, cache), loaded),
    ensures
        loaded <==> cache is Some,
        cache matches Some(entry) ==> infos_view(final(catalog).models@) == updated_with(
            infos_view(manager.bundled_models@),
            infos_view(entry.models@),
        ) && optional(final(catalog).etag) == optional(entry.etag),
        cache is None ==> *final(catalog) == *old(catalog),
{
}

/// Carrying a refresh out: what it leaves and what it wants cached, by where it began and what it
/// found.
pub proof fn law_carrying_a_refresh_out(
    manager: ModelsManager,
    catalog: &mut RemoteCatalog,
    step: RefreshStep,
    cache: Option<CachedModels>,
    reply: Option<FetchReply>,
    to_cache: Result<Option<CachedModels>, RefreshError>,
)
    requires
        step is Fetch || (step == (RefreshStep::LoadCache { fetch_if_missing: true })
            && cache is None) ==> reply is Some,
        call_ensures(
            ModelsManager::complete_refresh,
            (&manager, catalog, step, cache, reply),
            to_cache,
        ),
    ensures
        ({
            let bundled = infos_view(manager.bundled_models@);
            let after = final(catalog)@;
            let asks = step is Fetch || (step == (RefreshStep::LoadCache {
                fetch_if_missing: true,
            }) && cache is None);
            &&& step is Finished ==> after == old(catalog)@
            &&& step is LoadCache ==> (cache matches Some(entry) ==> after.models == updated_with(
                bundled,
                infos_view(entry.models@),
            ) && after.etag == optional(entry.etag))
            &&& step is LoadCache && cache is None && !asks ==> after == old(catalog)@
            &&& !asks ==> to_cache == Ok::<Option<CachedModels>, RefreshError>(None)
            &&& asks ==> (reply matches Some(FetchReply::Answered(answer)) ==> after.models
                == updated_with(bundled, infos_view(answer.models@)) && after.etag == optional(
                answer.etag,
            ) && to_cache is Ok && to_cache->Ok_0 is Some && to_cache->Ok_0->0@ == answer@)
            &&& asks && !(reply->0 is Answered) ==> after == old(catalog)@ && to_cache is Err
        }),
{
}

/// A new manager has the presets for the account, the bundled models, five minutes for its cache,
/// and starts out with the bundled models and no tag.
pub proof fn law_new_manager<B>(
    codex_home: PathBuf,
    auth_mode: Option<InternalAuthMode>,
    model_provider_id: &str,
    bundled: Result<Vec<ModelInfo>, String>,
    builtin_model_presets: B,
    started: (ModelsManager, RemoteCatalog),
) where B: Fn(Option<InternalAuthMode>) -> Vec<ModelPreset>
    requires
        call_ensures(
            ModelsManager::new::<B>,
            (codex_home, auth_mode, model_provider_id, bundled, builtin_model_presets),
            started,
        ) || call_ensures(
            ModelsManager::with_provider::<B>,
            (codex_home, auth_mode, model_provider_id, bundled, builtin_model_presets),
            started,
        ),
    ensures
        call_ensures(builtin_model_presets, (auth_mode,), started.0.local_models),
        bundled matches Ok(models) ==> infos_view(started.0.bundled_models@) == infos_view(models@)
            && infos_view(started.1.models@) == infos_view(models@),
        bundled is Err ==> started.0.bundled_models@.len() == 0 && started.1.models@.len() == 0,
        started.0.cache_ttl_secs == 300,
        started.1.etag is None,
        is_models_cache_path(
            started.0.cache_path,
            path_buf_components(codex_home),
            model_provider_id@,
        ),
{
    assert(infos_view(started.0.bundled_models@).len() == started.0.bundled_models@.len());
    assert(infos_view(started.1.models@).len() == started.1.models@.len());
}

/// Reading the models to go by: all that the catalog holds while they are switched on, none while
/// they are not, and a locked catalog is an error only if it is needed.
pub proof fn law_reading_the_models(
    catalog: Option<&RemoteCatalog>,
    config: Config,
    read: Result<Vec<ModelInfo>, CatalogBusy>,
)
    requires
        call_ensures(ModelsManager::try_get_remote_models, (catalog, &config), read),
    ensures
        !config.remote_models_enabled ==> read is Ok && read->Ok_0@.len() == 0,
        config.remote_models_enabled && catalog is None ==> read is Err,
        config.remote_models_enabled ==> (catalog matches Some(known) ==> read is Ok && infos_view(
            read->Ok_0@,
        ) == infos_view(known.models@)),
{
    if read is Ok {
        assert(infos_view(read->Ok_0@).len() == read->Ok_0@.len());
    }
}

} // verus!
