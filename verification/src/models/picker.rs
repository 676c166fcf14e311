//! The models that a user picks from.

use crate::auth::InternalAuthMode;
use crate::models::catalog::RemoteCatalog;
use crate::models::listing::{
    chatgpt_mode, concatenates, default_index, is_among, is_available, is_listing, keeps_usable,
    law_exactly_one_default, law_shown_of_available, lemma_filter_contains, lemma_shown,
    lemma_shown_twice, listed_presets, merged_listing, presets_of, shown, shown_presets, unmarked,
    usable, with_default,
};
use crate::models::manager::{
    bundled_or_none, loaded_or_none, models_in_sight, models_in_use, CatalogBusy, ModelsManager,
};
use crate::models::types::{
    presets_view, Config, ConfigView, ModelInfo, ModelInfoView, ModelPreset, ModelPresetView,
    ReasoningEffort,
};
use crate::text::{joined, trimmed};
use vstd::prelude::*;

verus! {

/// The models that the entries stand for.
pub open spec fn models_of(presets: Seq<ModelPresetView>) -> Seq<Seq<char>> {
    presets.map_values(|preset: ModelPresetView| preset.model)
}

/// The model named in the settings; a blank name counts as none.
pub open spec fn configured_model(config: ConfigView) -> Option<Seq<char>> {
    match config.model {
        Some(model) if trimmed(model).len() > 0 => Some(trimmed(model)),
        _ => None,
    }
}

/// The model named in the settings, if it is not among the entries.
pub open spec fn unlisted_model(config: ConfigView, presets: Seq<ModelPresetView>) -> Option<
    Seq<char>,
> {
    match configured_model(config) {
        Some(model) if !models_of(presets).contains(model) => Some(model),
        _ => None,
    }
}

/// The entry for a model that is only named in the settings.
pub open spec fn custom_entry(
    model: Seq<char>,
    info: ModelInfoView,
    config: ConfigView,
) -> ModelPresetView {
    ModelPresetView {
        id: model,
        model,
        display_name: model,
        description: "Configured model from config.toml for provider "@ + config.model_provider_id
            + "."@,
        default_reasoning_effort: match (
            config.model_reasoning_effort,
            info.default_reasoning_level,
        ) {
            (Some(effort), _) => effort,
            (None, Some(effort)) => effort,
            (None, None) => ReasoningEffort::Medium,
        },
        supported_reasoning_efforts: info.supported_reasoning_levels,
        supports_personality: info.supports_personality,
        is_default: false,
        upgrade: None,
        show_in_picker: true,
        supported_in_api: true,
    }
}

/// The picker: the shown entries, and the custom one behind them. Without any credentials the
/// custom one stands alone, as the default.
pub open spec fn picker(
    shown_entries: Seq<ModelPresetView>,
    has_auth: bool,
    custom: Option<ModelPresetView>,
) -> Seq<ModelPresetView> {
    match (has_auth, custom) {
        (true, Some(custom)) => shown_entries.push(custom),
        (false, Some(custom)) => seq![ModelPresetView { is_default: true, ..custom }],
        (_, None) => shown_entries,
    }
}

/// The picker once more without credentials: if the settings name a model, only its entry is
/// left, as the default.
pub open spec fn collapsed(
    entries: Seq<ModelPresetView>,
    has_auth: bool,
    config: ConfigView,
) -> Seq<ModelPresetView> {
    match configured_model(config) {
        Some(model) if !has_auth => match models_of(entries).index_of_first(model) {
            Some(index) => seq![ModelPresetView { is_default: true, ..entries[index] }],
            None => entries,
        },
        _ => entries,
    }
}

/// `custom` may come out as the entry to add to `shown_entries`: none if the settings name no
/// other model, and else one made from what is known of that model.
pub open spec fn is_custom_entry<I, O>(
    find_model_info_for_slug: I,
    with_config_overrides: O,
    config: &Config,
    shown_entries: Seq<ModelPresetView>,
    custom: Option<ModelPresetView>,
) -> bool where I: Fn(&str) -> ModelInfo, O: Fn(ModelInfo, &Config) -> ModelInfo {
    match unlisted_model(config@, shown_entries) {
        None => custom is None,
        Some(model) => exists|slug: &str, found: ModelInfo, info: ModelInfo|
            {
                &&& slug@ == model
                &&& #[trigger] call_ensures(find_model_info_for_slug, (slug,), found)
                &&& #[trigger] call_ensures(with_config_overrides, (found, config), info)
                &&& custom == Some(custom_entry(model, info@, config@))
            },
    }
}

/// `model` is the one named in the settings, and it is not among the shown entries of `listing`.
pub open spec fn is_custom_model(
    model: Seq<char>,
    config: ConfigView,
    listing: Seq<ModelPresetView>,
) -> bool {
    unlisted_model(config, shown(listing)) == Some(trimmed(model))
}

/// The model named in the settings, if any.
pub fn configured_model_name(config: &Config) -> (name: Option<&str>)
    ensures
        match name {
            Some(name) => configured_model(config@) == Some(name@),
            None => configured_model(config@) is None,
        },
{
    match &config.model {
        Some(model) => {
            let model = model.trim();
            if model.is_empty() {
                None
            } else {
                Some(model)
            }
        },
        None => None,
    }
}

/// One of the entries stands for `model`.
pub fn lists_model(presets: &Vec<ModelPreset>, model: &str) -> (listed: bool)
    ensures
        listed == models_of(presets_view(presets@)).contains(model@),
{
    let ghost models = models_of(presets_view(presets@));
    let wanted = model.to_string();
    for i in 0..presets.len()
        invariant
            wanted@ == model@,
            models == models_of(presets_view(presets@)),
            forall|j: int| 0 <= j < i ==> models[j] != model@,
    {
        assert(models[i as int] == presets@[i as int].model@);
        if presets[i].model == wanted {
            return true;
        }
    }
    false
}

/// The entry for a model that is only named in the settings.
pub fn custom_model_preset(model: &str, info: ModelInfo, config: &Config) -> (preset: ModelPreset)
    ensures
        preset@ == custom_entry(model@, info@, config@),
{
    let default_reasoning_effort = match (
        config.model_reasoning_effort,
        info.default_reasoning_level,
    ) {
        (Some(effort), _) => effort,
        (None, Some(effort)) => effort,
        (None, None) => ReasoningEffort::Medium,
    };
    ModelPreset {
        id: model.to_string(),
        model: model.to_string(),
        display_name: model.to_string(),
        description: joined(
            &joined("Configured model from config.toml for provider ", &config.model_provider_id),
            ".",
        ),
        default_reasoning_effort,
        supported_reasoning_efforts: info.supported_reasoning_levels,
        supports_personality: info.supports_personality,
        is_default: false,
        upgrade: None,
        show_in_picker: true,
        supported_in_api: true,
    }
}

/// The picker out of the shown entries and the custom one, if any.
pub fn picker_entries(
    shown_entries: Vec<ModelPreset>,
    has_auth: bool,
    custom: Option<ModelPreset>,
) -> (entries: Vec<ModelPreset>)
    ensures
        presets_view(entries@) == picker(
            presets_view(shown_entries@),
            has_auth,
            match custom {
                Some(custom) => Some(custom@),
                None => None,
            },
        ),
{
    let mut shown_entries = shown_entries;
    match custom {
        None => shown_entries,
        Some(custom) => if has_auth {
            let ghost before = presets_view(shown_entries@);
            shown_entries.push(custom);
            assert(presets_view(shown_entries@) =~= before.push(custom@));
            shown_entries
        } else {
            let mut custom = custom;
            let ghost before = custom@;
            custom.is_default = true;
            let entries = vec![custom];
            assert(presets_view(entries@) =~= seq![ModelPresetView { is_default: true, ..before }]);
            entries
        },
    }
}

/// Leaves only the model named in the settings, if there are no credentials.
pub fn collapse_without_auth(
    entries: Vec<ModelPreset>,
    has_auth: bool,
    config: &Config,
) -> (left: Vec<ModelPreset>)
    ensures
        presets_view(left@) == collapsed(presets_view(entries@), has_auth, config@),
{
    if has_auth {
        return entries;
    }
    let model = match configured_model_name(config) {
        Some(model) => model.to_string(),
        None => return entries,
    };
    let ghost models = models_of(presets_view(entries@));
    proof {
        models.index_of_first_ensures(model@);
    }
    for i in 0..entries.len()
        invariant
            !has_auth,
            configured_model(config@) == Some(model@),
            models == models_of(presets_view(entries@)),
            forall|j: int| 0 <= j < i ==> models[j] != model@,
            match models.index_of_first(model@) {
                Some(index) => 0 <= index < models.len() && models[index] == model@ && forall|
                    j: int,
                |
                    0 <= j < index < models.len() ==> models[j] != model@,
                None => !models.contains(model@),
            },
    {
        assert(models[i as int] == entries@[i as int].model@);
        if entries[i].model == model {
            assert(models.contains(model@));
            let mut entry = entries[i].clone();
            entry.is_default = true;
            let left = vec![entry];
            assert(presets_view(left@) =~= seq![
                ModelPresetView { is_default: true, ..presets_view(entries@)[i as int] },
            ]);
            return left;
        }
    }
    entries
}

impl ModelsManager {
    /// The entry for the model named in the settings, if it is not among the shown ones.
    pub fn configured_picker_model<I, O>(
        config: &Config,
        picker_models: &Vec<ModelPreset>,
        find_model_info_for_slug: &I,
        with_config_overrides: &O,
    ) -> (custom: Option<ModelPreset>) where
        I: Fn(&str) -> ModelInfo,
        O: Fn(ModelInfo, &Config) -> ModelInfo,

        requires
            forall|slug: &str| #[trigger] call_requires(*find_model_info_for_slug, (slug,)),
            forall|found: ModelInfo| #[trigger]
                call_requires(*with_config_overrides, (found, config)),
        ensures
            is_custom_entry(
                *find_model_info_for_slug,
                *with_config_overrides,
                config,
                presets_view(picker_models@),
                match custom {
                    Some(custom) => Some(custom@),
                    None => None,
                },
            ),
    {
        let model = match configured_model_name(config) {
            Some(model) => model,
            None => return None,
        };
        if lists_model(picker_models, model) {
            return None;
        }
        let found = find_model_info_for_slug(model);
        let info = with_config_overrides(found, config);
        Some(custom_model_preset(model, info, config))
    }

    /// The picker out of the available models.
    pub fn build_picker_models<I, O>(
        config: &Config,
        available_models: Vec<ModelPreset>,
        auth_mode: Option<InternalAuthMode>,
        provider_has_local_auth: bool,
        find_model_info_for_slug: &I,
        with_config_overrides: &O,
    ) -> (entries: Vec<ModelPreset>) where
        I: Fn(&str) -> ModelInfo,
        O: Fn(ModelInfo, &Config) -> ModelInfo,

        requires
            forall|slug: &str| #[trigger] call_requires(*find_model_info_for_slug, (slug,)),
            forall|found: ModelInfo| #[trigger]
                call_requires(*with_config_overrides, (found, config)),
        ensures
            is_picker(
                *find_model_info_for_slug,
                *with_config_overrides,
                config,
                auth_mode is Some || provider_has_local_auth,
                presets_view(available_models@),
                presets_view(entries@),
            ),
    {
        let picker_models = shown_presets(available_models);
        let has_auth = auth_mode.is_some() || provider_has_local_auth;
        let custom_model = Self::configured_picker_model(
            config,
            &picker_models,
            find_model_info_for_slug,
            with_config_overrides,
        );
        picker_entries(picker_models, has_auth, custom_model)
    }

    /// The picker, as far as the available models are known. Without any credentials it
    /// collapses to the model named in the settings, if there is one.
    pub fn list_picker_models<M, F, I, O>(
        &self,
        catalog: &RemoteCatalog,
        config: &Config,
        auth_mode: Option<InternalAuthMode>,
        provider_has_local_auth: bool,
        merge: &M,
        filter_by_auth: &F,
        find_model_info_for_slug: &I,
        with_config_overrides: &O,
    ) -> (entries: Vec<ModelPreset>) where
        M: Fn(Vec<ModelPreset>, Vec<ModelPreset>) -> Vec<ModelPreset>,
        F: Fn(Vec<ModelPreset>, bool) -> Vec<ModelPreset>,
        I: Fn(&str) -> ModelInfo,
        O: Fn(ModelInfo, &Config) -> ModelInfo,

        requires
            forall|remote: Vec<ModelPreset>, local: Vec<ModelPreset>| #[trigger]
                call_requires(*merge, (remote, local)),
            forall|presets: Vec<ModelPreset>, chatgpt: bool| #[trigger]
                call_requires(*filter_by_auth, (presets, chatgpt)),
            forall|slug: &str| #[trigger] call_requires(*find_model_info_for_slug, (slug,)),
            forall|found: ModelInfo| #[trigger]
                call_requires(*with_config_overrides, (found, config)),
        ensures
            exists|available: Seq<ModelPresetView>|
                {
                    &&& #[trigger] is_available(
                        *merge,
                        *filter_by_auth,
                        models_in_use(catalog@, config@),
                        presets_view(self.local_models@),
                        chatgpt_mode(auth_mode),
                        available,
                    )
                    &&& is_offered(
                        *find_model_info_for_slug,
                        *with_config_overrides,
                        config,
                        auth_mode is Some || provider_has_local_auth,
                        available,
                        presets_view(entries@),
                    )
                },
            !(auth_mode is Some || provider_has_local_auth) && configured_model(config@) is Some ==> {
                &&& entries@.len() == 1
                &&& Some(entries@[0].model@) == configured_model(config@)
                &&& entries@[0].is_default
            },
    {
        let available_models = self.list_models(catalog, config, auth_mode, merge, filter_by_auth);
        let ghost listed = presets_view(available_models@);
        let ghost available = choose|available: Seq<ModelPresetView>|
            #![trigger shown(available)]
            is_available(
                *merge,
                *filter_by_auth,
                models_in_use(catalog@, config@),
                presets_view(self.local_models@),
                chatgpt_mode(auth_mode),
                available,
            ) && listed == shown(available);
        let entries = offer(
            config,
            available_models,
            auth_mode,
            provider_has_local_auth,
            find_model_info_for_slug,
            with_config_overrides,
        );
        proof {
            lemma_offered_of_shown(
                *find_model_info_for_slug,
                *with_config_overrides,
                config,
                auth_mode is Some || provider_has_local_auth,
                available,
                presets_view(entries@),
            );
        }
        entries
    }

    /// The picker, where the catalog may be locked.
    pub fn try_list_picker_models<M, F, I, O>(
        &self,
        catalog: Option<&RemoteCatalog>,
        config: &Config,
        auth_mode: Option<InternalAuthMode>,
        provider_has_local_auth: bool,
        merge: &M,
        filter_by_auth: &F,
        find_model_info_for_slug: &I,
        with_config_overrides: &O,
    ) -> (entries: Result<Vec<ModelPreset>, CatalogBusy>) where
        M: Fn(Vec<ModelPreset>, Vec<ModelPreset>) -> Vec<ModelPreset>,
        F: Fn(Vec<ModelPreset>, bool) -> Vec<ModelPreset>,
        I: Fn(&str) -> ModelInfo,
        O: Fn(ModelInfo, &Config) -> ModelInfo,

        requires
            forall|remote: Vec<ModelPreset>, local: Vec<ModelPreset>| #[trigger]
                call_requires(*merge, (remote, local)),
            forall|presets: Vec<ModelPreset>, chatgpt: bool| #[trigger]
                call_requires(*filter_by_auth, (presets, chatgpt)),
            forall|slug: &str| #[trigger] call_requires(*find_model_info_for_slug, (slug,)),
            forall|found: ModelInfo| #[trigger]
                call_requires(*with_config_overrides, (found, config)),
        ensures
            entries is Err <==> catalog is None && config.remote_models_enabled,
            entries matches Ok(entries) ==> exists|available: Seq<ModelPresetView>|
                {
                    &&& #[trigger] is_available(
                        *merge,
                        *filter_by_auth,
                        models_in_sight(catalog, config@),
                        presets_view(self.local_models@),
                        chatgpt_mode(auth_mode),
                        available,
                    )
                    &&& is_picker(
                        *find_model_info_for_slug,
                        *with_config_overrides,
                        config,
                        auth_mode is Some || provider_has_local_auth,
                        available,
                        presets_view(entries@),
                    )
                },
    {
        match self.try_list_models(catalog, config, auth_mode, merge, filter_by_auth) {
            Ok(available_models) => Ok(
                Self::build_picker_models(
                    config,
                    available_models,
                    auth_mode,
                    provider_has_local_auth,
                    find_model_info_for_slug,
                    with_config_overrides,
                ),
            ),
            Err(busy) => Err(busy),
        }
    }

    /// Whether `model` is the one named in the settings and not one that the program brings
    /// along and shows.
    pub fn is_configured_custom_model<B, M, F>(
        model: &str,
        config: &Config,
        auth_mode: Option<InternalAuthMode>,
        bundled: Result<Vec<ModelInfo>, String>,
        builtin_model_presets: &B,
        merge: &M,
        filter_by_auth: &F,
    ) -> (custom: bool) where
        B: Fn(Option<InternalAuthMode>) -> Vec<ModelPreset>,
        M: Fn(Vec<ModelPreset>, Vec<ModelPreset>) -> Vec<ModelPreset>,
        F: Fn(Vec<ModelPreset>, bool) -> Vec<ModelPreset>,

        requires
            call_requires(*builtin_model_presets, (auth_mode,)),
            forall|remote: Vec<ModelPreset>, local: Vec<ModelPreset>| #[trigger]
                call_requires(*merge, (remote, local)),
            forall|presets: Vec<ModelPreset>, chatgpt: bool| #[trigger]
                call_requires(*filter_by_auth, (presets, chatgpt)),
        ensures
            configured_model(config@) != Some(trimmed(model@)) ==> !custom,
            configured_model(config@) == Some(trimmed(model@)) ==> exists|
                local: Vec<ModelPreset>,
                listing: Seq<ModelPresetView>,
            |
                {
                    &&& #[trigger] call_ensures(*builtin_model_presets, (auth_mode,), local)
                    &&& #[trigger] is_listing(
                        *merge,
                        *filter_by_auth,
                        presets_of(loaded_or_none(bundled)),
                        presets_view(local@),
                        chatgpt_mode(auth_mode),
                        listing,
                    )
                    &&& custom == is_custom_model(model@, config@, listing)
                },
    {
        let config_model = match configured_model_name(config) {
            Some(config_model) => config_model,
            None => return false,
        };
        if config_model.to_string() != model.trim().to_string() {
            return false;
        }
        let local_presets = builtin_model_presets(auth_mode);
        let listing = merged_listing(
            merge,
            filter_by_auth,
            listed_presets(bundled_or_none(bundled)),
            local_presets,
            auth_mode,
        );
        is_unlisted(config_model, listing)
    }
}

/// No shown entry stands for `model`.
pub fn is_unlisted(model: &str, listing: Vec<ModelPreset>) -> (unlisted: bool)
    ensures
        unlisted == !models_of(shown(presets_view(listing@))).contains(model@),
{
    !lists_model(&shown_presets(listing), model)
}

/// `entries` may come out as the picker out of the available models.
pub open spec fn is_picker<I, O>(
    find_model_info_for_slug: I,
    with_config_overrides: O,
    config: &Config,
    has_auth: bool,
    available: Seq<ModelPresetView>,
    entries: Seq<ModelPresetView>,
) -> bool where I: Fn(&str) -> ModelInfo, O: Fn(ModelInfo, &Config) -> ModelInfo {
    exists|custom: Option<ModelPresetView>|
        #![trigger picker(shown(available), has_auth, custom)]
        is_custom_entry(
            find_model_info_for_slug,
            with_config_overrides,
            config,
            shown(available),
            custom,
        ) && entries == picker(shown(available), has_auth, custom)
}

/// `entries` may come out as what is offered of the available models.
pub open spec fn is_offered<I, O>(
    find_model_info_for_slug: I,
    with_config_overrides: O,
    config: &Config,
    has_auth: bool,
    available: Seq<ModelPresetView>,
    entries: Seq<ModelPresetView>,
) -> bool where I: Fn(&str) -> ModelInfo, O: Fn(ModelInfo, &Config) -> ModelInfo {
    exists|picked: Seq<ModelPresetView>|
        {
            &&& #[trigger] is_picker(
                find_model_info_for_slug,
                with_config_overrides,
                config,
                has_auth,
                available,
                picked,
            )
            &&& entries == collapsed(picked, has_auth, config@)
        }
}

/// The picker out of the available models, collapsed where there are no credentials.
fn offer<I, O>(
    config: &Config,
    available_models: Vec<ModelPreset>,
    auth_mode: Option<InternalAuthMode>,
    provider_has_local_auth: bool,
    find_model_info_for_slug: &I,
    with_config_overrides: &O,
) -> (entries: Vec<ModelPreset>) where
    I: Fn(&str) -> ModelInfo,
    O: Fn(ModelInfo, &Config) -> ModelInfo,

    requires
        forall|slug: &str| #[trigger] call_requires(*find_model_info_for_slug, (slug,)),
        forall|found: ModelInfo| #[trigger] call_requires(*with_config_overrides, (found, config)),
    ensures
        is_offered(
            *find_model_info_for_slug,
            *with_config_overrides,
            config,
            auth_mode is Some || provider_has_local_auth,
            presets_view(available_models@),
            presets_view(entries@),
        ),
        !(auth_mode is Some || provider_has_local_auth) && configured_model(config@) is Some ==> {
            &&& entries@.len() == 1
            &&& Some(entries@[0].model@) == configured_model(config@)
            &&& entries@[0].is_default
        },
{
    let ghost available = presets_view(available_models@);
    let has_auth = auth_mode.is_some() || provider_has_local_auth;
    let picked = ModelsManager::build_picker_models(
        config,
        available_models,
        auth_mode,
        provider_has_local_auth,
        find_model_info_for_slug,
        with_config_overrides,
    );
    let ghost picked_view = presets_view(picked@);
    let entries = collapse_without_auth(picked, has_auth, config);
    proof {
        if !has_auth && configured_model(config@) is Some {
            let custom = choose|custom: Option<ModelPresetView>|
                #![trigger picker(shown(available), has_auth, custom)]
                is_custom_entry(
                    *find_model_info_for_slug,
                    *with_config_overrides,
                    config,
                    shown(available),
                    custom,
                ) && picked_view == picker(shown(available), has_auth, custom);
            lemma_collapsed(shown(available), custom, config@);
            assert(presets_view(entries@)[0] == entries@[0]@);
        }
    }
    entries
}

proof fn lemma_offered_of_shown<I, O>(
    find_model_info_for_slug: I,
    with_config_overrides: O,
    config: &Config,
    has_auth: bool,
    available: Seq<ModelPresetView>,
    entries: Seq<ModelPresetView>,
) where I: Fn(&str) -> ModelInfo, O: Fn(ModelInfo, &Config) -> ModelInfo
    requires
        is_offered(
            find_model_info_for_slug,
            with_config_overrides,
            config,
            has_auth,
            shown(available),
            entries,
        ),
    ensures
        is_offered(
            find_model_info_for_slug,
            with_config_overrides,
            config,
            has_auth,
            available,
            entries,
        ),
{
    lemma_shown_twice(available);
    let picked = choose|picked: Seq<ModelPresetView>|
        {
            &&& #[trigger] is_picker(
                find_model_info_for_slug,
                with_config_overrides,
                config,
                has_auth,
                shown(available),
                picked,
            )
            &&& entries == collapsed(picked, has_auth, config@)
        };
    let custom = choose|custom: Option<ModelPresetView>|
        #![trigger picker(shown(shown(available)), has_auth, custom)]
        is_custom_entry(
            find_model_info_for_slug,
            with_config_overrides,
            config,
            shown(shown(available)),
            custom,
        ) && picked == picker(shown(shown(available)), has_auth, custom);
    assert(picked == picker(shown(available), has_auth, custom));
    assert(is_picker(
        find_model_info_for_slug,
        with_config_overrides,
        config,
        has_auth,
        available,
        picked,
    ));
}

proof fn lemma_collapsed(
    shown_entries: Seq<ModelPresetView>,
    custom: Option<ModelPresetView>,
    config: ConfigView,
)
    requires
        configured_model(config) is Some,
        match unlisted_model(config, shown_entries) {
            Some(model) => custom matches Some(added) && added.model == model,
            None => custom is None,
        },
    ensures
        ({
            let entries = collapsed(picker(shown_entries, false, custom), false, config);
            &&& entries.len() == 1
            &&& Some(entries[0].model) == configured_model(config)
            &&& entries[0].is_default
            &&& (custom matches Some(added) ==> added.show_in_picker) && (forall|i: int|
                0 <= i < shown_entries.len() ==> (#[trigger] shown_entries[i]).show_in_picker)
                ==> entries[0].show_in_picker
        }),
{
    let model = configured_model(config)->0;
    let picked = picker(shown_entries, false, custom);
    let models = models_of(picked);
    models.index_of_first_ensures(model);
    if custom is Some {
        assert(models[0] == model);
    }
    assert(models.contains(model));
}

/// The entry to add for the model named in the settings, out of what is known of it.
pub open spec fn entry_to_add(
    config: ConfigView,
    shown_entries: Seq<ModelPresetView>,
    info: ModelInfoView,
) -> Option<ModelPresetView> {
    match unlisted_model(config, shown_entries) {
        Some(model) => Some(custom_entry(model, info, config)),
        None => None,
    }
}

/// What is offered of the available models, where `info` is what is known of the model named in
/// the settings.
pub open spec fn offered(
    available: Seq<ModelPresetView>,
    has_auth: bool,
    config: ConfigView,
    info: ModelInfoView,
) -> Seq<ModelPresetView> {
    collapsed(
        picker(shown(available), has_auth, entry_to_add(config, shown(available), info)),
        has_auth,
        config,
    )
}

/// Without any credentials, the model named in the settings is all that is offered, and the
/// default, whether or not it is among the available models.
pub proof fn law_without_auth_only_the_configured_model(
    available: Seq<ModelPresetView>,
    config: ConfigView,
    info: ModelInfoView,
)
    requires
        configured_model(config) is Some,
    ensures
        ({
            let entries = offered(available, false, config, info);
            &&& entries.len() == 1
            &&& Some(entries[0].model) == configured_model(config)
            &&& entries[0].is_default
            &&& entries[0].show_in_picker
        }),
{
    lemma_shown(available);
    lemma_collapsed(shown(available), entry_to_add(config, shown(available), info), config);
}

/// With credentials, everything that is shown is offered first, and a model that is only named
/// in the settings comes last.
pub proof fn law_with_auth_the_custom_model_is_last(
    available: Seq<ModelPresetView>,
    config: ConfigView,
    info: ModelInfoView,
)
    ensures
        ({
            let entries = offered(available, true, config, info);
            &&& entries.take(shown(available).len() as int) == shown(available)
            &&& match unlisted_model(config, shown(available)) {
                Some(model) => entries.len() == shown(available).len() + 1 && entries.last().model
                    == model && !entries.last().is_default,
                None => entries == shown(available),
            }
        }),
{
    let entries = offered(available, true, config, info);
    assert(entries.take(shown(available).len() as int) =~= shown(available));
}

/// The model named in the settings can always be picked, and everything that is offered is meant
/// to be shown.
pub proof fn law_configured_model_can_be_picked(
    available: Seq<ModelPresetView>,
    has_auth: bool,
    config: ConfigView,
    info: ModelInfoView,
)
    ensures
        ({
            let entries = offered(available, has_auth, config, info);
            &&& configured_model(config) matches Some(model) ==> models_of(entries).contains(model)
            &&& forall|i: int| 0 <= i < entries.len() ==> (#[trigger] entries[i]).show_in_picker
        }),
{
    let custom = entry_to_add(config, shown(available), info);
    let entries = offered(available, has_auth, config, info);
    lemma_shown(available);
    if !has_auth && configured_model(config) is Some {
        lemma_collapsed(shown(available), custom, config);
        assert(models_of(entries)[0] == entries[0].model);
    } else if let Some(added) = custom {
        assert(models_of(entries)[entries.len() - 1] == added.model);
    }
}

proof fn lemma_shown_models(one: Seq<ModelPresetView>, other: Seq<ModelPresetView>)
    requires
        one.len() == other.len(),
        forall|i: int|
            0 <= i < one.len() ==> (#[trigger] one[i]).model == other[i].model
                && one[i].show_in_picker == other[i].show_in_picker,
    ensures
        models_of(shown(one)) == models_of(shown(other)),
    decreases one.len(),
{
    reveal(Seq::filter);
    if one.len() > 0 {
        let first = one.drop_last();
        let second = other.drop_last();
        assert forall|i: int| 0 <= i < first.len() implies (#[trigger] first[i]).model
            == second[i].model && first[i].show_in_picker == second[i].show_in_picker by {
            assert(one[i].model == other[i].model);
        }
        lemma_shown_models(first, second);
        assert(one[one.len() - 1].model == other[one.len() - 1].model);
        if one.last().show_in_picker {
            assert(models_of(shown(one)) =~= models_of(shown(first)).push(one.last().model));
            assert(models_of(shown(other)) =~= models_of(shown(second)).push(other.last().model));
        }
    } else {
        assert(models_of(shown(one)) =~= models_of(shown(other)));
    }
}

/// A model counts as a custom one exactly if the picker adds an entry for it to the same
/// listing.
pub proof fn law_custom_detection_matches_the_picker(
    model: Seq<char>,
    config: ConfigView,
    listing: Seq<ModelPresetView>,
    info: ModelInfoView,
)
    ensures
        is_custom_model(model, config, listing) <==> (entry_to_add(
            config,
            shown(with_default(listing)),
            info,
        ) matches Some(added) && added.model == trimmed(model)),
{
    assert forall|i: int| 0 <= i < listing.len() implies (#[trigger] listing[i]).model
        == with_default(listing)[i].model && listing[i].show_in_picker == with_default(
        listing,
    )[i].show_in_picker by {}
    lemma_shown_models(listing, with_default(listing));
}

proof fn lemma_shown_marks(presets: Seq<ModelPresetView>, index: int)
    requires
        0 <= index < presets.len(),
        presets[index].show_in_picker,
        forall|i: int| 0 <= i < index ==> !(#[trigger] presets[i]).show_in_picker,
        forall|i: int|
            0 <= i < presets.len() ==> ((#[trigger] presets[i]).is_default <==> i == index),
    ensures
        shown(presets).len() > 0,
        shown(presets)[0] == presets[index],
        forall|i: int| 1 <= i < shown(presets).len() ==> !(#[trigger] shown(presets)[i]).is_default,
    decreases presets.len(),
{
    reveal(Seq::filter);
    let shorter = presets.drop_last();
    assert(forall|i: int| 0 <= i < shorter.len() ==> shorter[i] == presets[i]);
    if index < presets.len() - 1 {
        lemma_shown_marks(shorter, index);
    } else {
        lemma_nothing_shown(shorter);
    }
}

proof fn lemma_nothing_shown(presets: Seq<ModelPresetView>)
    requires
        forall|i: int| 0 <= i < presets.len() ==> !(#[trigger] presets[i]).show_in_picker,
    ensures
        shown(presets).len() == 0,
    decreases presets.len(),
{
    reveal(Seq::filter);
    if presets.len() > 0 {
        let shorter = presets.drop_last();
        assert(forall|i: int| 0 <= i < shorter.len() ==> shorter[i] == presets[i]);
        assert(!presets[presets.len() - 1].show_in_picker);
        lemma_nothing_shown(shorter);
    }
}

/// With credentials, if anything is shown, what is offered begins with the default, and has no
/// other.
pub proof fn law_picker_begins_with_the_default(
    listing: Seq<ModelPresetView>,
    config: ConfigView,
    info: ModelInfoView,
)
    requires
        exists|i: int| 0 <= i < listing.len() && (#[trigger] listing[i]).show_in_picker,
    ensures
        ({
            let available = with_default(listing);
            let entries = offered(available, true, config, info);
            &&& entries.len() > 0
            &&& entries[0] == available[default_index(listing)]
            &&& forall|i: int|
                0 <= i < entries.len() ==> ((#[trigger] entries[i]).is_default <==> i == 0)
        }),
{
    let available = with_default(listing);
    law_exactly_one_default(listing);
    assert forall|i: int| 0 <= i < default_index(listing) implies !(
    #[trigger] available[i]).show_in_picker by {
        assert(!listing[i].show_in_picker);
    }
    lemma_shown_marks(available, default_index(listing));
}

/// If the settings name no model, what is offered is all that is shown, in its order, with or
/// without credentials.
pub proof fn law_without_a_configured_model_all_shown_are_offered(
    available: Seq<ModelPresetView>,
    has_auth: bool,
    config: ConfigView,
    info: ModelInfoView,
)
    requires
        config.model is None || trimmed(config.model->0).len() == 0,
    ensures
        offered(available, has_auth, config, info) == shown(available),
        picker(shown(available), has_auth, entry_to_add(config, shown(available), info)) == shown(
            available,
        ),
{
}

/// Without credentials the one entry that is offered is the first shown one with the configured
/// model, or else the one made from the settings; it is the default and otherwise as it was.
pub proof fn law_entry_that_is_left(
    available: Seq<ModelPresetView>,
    config: ConfigView,
    info: ModelInfoView,
    at: int,
)
    requires
        configured_model(config) is Some,
    ensures
        ({
            let model = configured_model(config)->0;
            let listed = shown(available);
            let entries = offered(available, false, config, info);
            &&& 0 <= at < listed.len() && listed[at].model == model && (forall|i: int|
                0 <= i < at ==> (#[trigger] listed[i]).model != model) ==> entries == seq![
                ModelPresetView { is_default: true, ..listed[at] },
            ]
            &&& (forall|i: int| 0 <= i < listed.len() ==> (#[trigger] listed[i]).model != model)
                ==> entries == seq![
                ModelPresetView { is_default: true, ..custom_entry(model, info, config) },
            ]
        }),
{
    let model = configured_model(config)->0;
    let listed = shown(available);
    let models = models_of(listed);
    let entries = offered(available, false, config, info);
    assert(forall|i: int| 0 <= i < listed.len() ==> models[i] == (#[trigger] listed[i]).model);
    models.index_of_first_ensures(model);
    if 0 <= at < listed.len() && listed[at].model == model && (forall|i: int|
        0 <= i < at ==> (#[trigger] listed[i]).model != model) {
        assert(models[at] == model);
        assert(models.contains(model));
        let first = models.index_of_first(model)->0;
        assert(listed[first].model == model);
        assert(first == at);
        assert(entries =~= seq![ModelPresetView { is_default: true, ..listed[at] }]);
    }
    if forall|i: int| 0 <= i < listed.len() ==> (#[trigger] listed[i]).model != model {
        if models.contains(model) {
            let i = choose|i: int| 0 <= i < models.len() && models[i] == model;
            assert(listed[i].model == model);
        }
        let custom = custom_entry(model, info, config);
        let picked = picker(listed, false, Some(custom));
        assert(models_of(picked)[0] == model);
        models_of(picked).index_of_first_ensures(model);
        assert(models_of(picked).contains(model));
        assert(entries =~= seq![ModelPresetView { is_default: true, ..custom }]);
    }
}

/// Picking without waiting adds the same entry, but leaves a configured model that is shown among
/// the others.
pub proof fn law_picker_adds_only_what_is_missing(
    shown_entries: Seq<ModelPresetView>,
    has_auth: bool,
    config: ConfigView,
    info: ModelInfoView,
)
    ensures
        ({
            let entries = picker(shown_entries, has_auth, entry_to_add(config, shown_entries, info));
            let is_listed = exists|i: int|
                0 <= i < shown_entries.len() && Some((#[trigger] shown_entries[i]).model)
                    == configured_model(config);
            let wanted = configured_model(config) is Some && !is_listed;
            let custom = custom_entry(configured_model(config)->0, info, config);
            &&& !wanted ==> entries == shown_entries
            &&& wanted && has_auth ==> entries == shown_entries + seq![custom]
            &&& wanted && !has_auth ==> entries == seq![
                ModelPresetView { is_default: true, ..custom },
            ]
        }),
{
    let models = models_of(shown_entries);
    assert(forall|i: int|
        0 <= i < shown_entries.len() ==> models[i] == (#[trigger] shown_entries[i]).model);
    if configured_model(config) is Some {
        let model = configured_model(config)->0;
        if models.contains(model) {
            let i = choose|i: int| 0 <= i < models.len() && models[i] == model;
            assert(Some(shown_entries[i].model) == configured_model(config));
        } else {
            assert forall|i: int| 0 <= i < shown_entries.len() implies Some(
                (#[trigger] shown_entries[i]).model,
            ) != configured_model(config) by {
                assert(models.contains(models[i]));
            }
        }
        let custom = custom_entry(model, info, config);
        assert(shown_entries.push(custom) =~= shown_entries + seq![custom]);
    }
}

/// The configured model is the one in the settings without the white space around it; a name of
/// white space alone is none.
pub proof fn law_configured_model(config: ConfigView)
    ensures
        config.model is None ==> configured_model(config) is None,
        config.model matches Some(name) ==> {
            &&& trimmed(name).len() > 0 ==> configured_model(config) == Some(trimmed(name))
            &&& trimmed(name).len() == 0 ==> configured_model(config) is None
        },
{
}

/// What the entry of a model says that is only named in the settings. It goes by the model's
/// name, names the provider, takes its effort from the settings, then from the model, then the
/// middle one, and is offered everywhere.
pub proof fn law_entry_from_the_settings(model: Seq<char>, info: ModelInfoView, config: ConfigView)
    ensures
        ({
            let entry = custom_entry(model, info, config);
            let before = "Configured model from config.toml for provider "@;
            &&& entry.id == model
            &&& entry.model == model
            &&& entry.display_name == model
            &&& entry.description.take(before.len() as int) == before
            &&& entry.description.skip(before.len() as int) == config.model_provider_id.push('.')
            &&& config.model_reasoning_effort is Some ==> entry.default_reasoning_effort
                == config.model_reasoning_effort->0
            &&& config.model_reasoning_effort is None && info.default_reasoning_level is Some
                ==> entry.default_reasoning_effort == info.default_reasoning_level->0
            &&& config.model_reasoning_effort is None && info.default_reasoning_level is None
                ==> entry.default_reasoning_effort == ReasoningEffort::Medium
            &&& entry.supported_reasoning_efforts == info.supported_reasoning_levels
            &&& entry.supports_personality == info.supports_personality
            &&& !entry.is_default
            &&& entry.upgrade is None
            &&& entry.show_in_picker
            &&& entry.supported_in_api
        }),
{
    reveal_strlit(".");
    let entry = custom_entry(model, info, config);
    let before = "Configured model from config.toml for provider "@;
    assert(entry.description.take(before.len() as int) =~= before);
    assert(entry.description.skip(before.len() as int) =~= config.model_provider_id.push('.'));
}

/// A model is a custom one exactly if the settings name it, white space aside, and no entry of
/// the listing that is shown stands for it.
pub proof fn law_custom_models(
    model: Seq<char>,
    config: ConfigView,
    listing: Seq<ModelPresetView>,
)
    ensures
        is_custom_model(model, config, listing) <==> {
            &&& config.model is Some
            &&& trimmed(config.model->0) == trimmed(model)
            &&& trimmed(model).len() > 0
            &&& forall|i: int|
                0 <= i < listing.len() && (#[trigger] listing[i]).show_in_picker
                    ==> listing[i].model != trimmed(model)
        },
{
    lemma_shown_models_listed(listing, trimmed(model));
}

proof fn lemma_shown_models_listed(listing: Seq<ModelPresetView>, model: Seq<char>)
    ensures
        models_of(shown(listing)).contains(model) <==> exists|i: int|
            0 <= i < listing.len() && (#[trigger] listing[i]).show_in_picker && listing[i].model
                == model,
    decreases listing.len(),
{
    reveal(Seq::filter);
    if listing.len() > 0 {
        let shorter = listing.drop_last();
        let last = listing.last();
        lemma_shown_models_listed(shorter, model);
        assert(forall|i: int| 0 <= i < shorter.len() ==> shorter[i] == listing[i]);
        assert(listing[listing.len() - 1] == last);
        if last.show_in_picker {
            let before = models_of(shown(shorter));
            let after = models_of(shown(listing));
            assert(after =~= before.push(last.model));
            assert(after[before.len() as int] == last.model);
            if before.contains(model) {
                let i = choose|i: int| 0 <= i < before.len() && before[i] == model;
                assert(after[i] == model);
            }
            if after.contains(model) {
                let i = choose|i: int| 0 <= i < after.len() && after[i] == model;
                if i < before.len() {
                    assert(before[i] == model);
                }
            }
        }
        if exists|i: int|
            0 <= i < shorter.len() && (#[trigger] shorter[i]).show_in_picker && shorter[i].model
                == model {
            let i = choose|i: int|
                0 <= i < shorter.len() && (#[trigger] shorter[i]).show_in_picker
                    && shorter[i].model == model;
            assert(listing[i].show_in_picker);
        }
        if exists|i: int|
            0 <= i < listing.len() && (#[trigger] listing[i]).show_in_picker && listing[i].model
                == model {
            let i = choose|i: int|
                0 <= i < listing.len() && (#[trigger] listing[i]).show_in_picker
                    && listing[i].model == model;
            if i < shorter.len() {
                assert(shorter[i].show_in_picker);
            }
        }
    }
}

/// Collapsing what is offered changes it only without credentials and with a configured model: if
/// the settings name none, all entries stay, in their order.
pub proof fn law_collapsing_without_a_configured_model(
    entries: Vec<ModelPreset>,
    has_auth: bool,
    config: Config,
    left: Vec<ModelPreset>,
)
    requires
        call_ensures(collapse_without_auth, (entries, has_auth, &config), left),
    ensures
        has_auth ==> presets_view(left@) == presets_view(entries@),
        config.model is None ==> presets_view(left@) == presets_view(entries@),
        config.model matches Some(name) ==> trimmed(name@).len() == 0 ==> presets_view(left@)
            == presets_view(entries@),
{
}

/// Collapsing without credentials leaves the first entry of the configured model alone, as the
/// default and otherwise as it was, and leaves everything if there is none.
pub proof fn law_collapsing_to_the_configured_model(
    entries: Vec<ModelPreset>,
    config: Config,
    left: Vec<ModelPreset>,
    at: int,
)
    requires
        call_ensures(collapse_without_auth, (entries, false, &config), left),
        config.model is Some,
        trimmed(config.model->0@).len() > 0,
    ensures
        ({
            let model = trimmed(config.model->0@);
            &&& 0 <= at < entries@.len() && entries@[at].model@ == model && (forall|i: int|
                0 <= i < at ==> (#[trigger] entries@[i]).model@ != model) ==> presets_view(left@)
                == seq![ModelPresetView { is_default: true, ..entries@[at]@ }]
            &&& (forall|i: int|
                0 <= i < entries@.len() ==> (#[trigger] entries@[i]).model@ != model)
                ==> presets_view(left@) == presets_view(entries@)
        }),
{
    let model = trimmed(config.model->0@);
    let views = presets_view(entries@);
    let models = models_of(views);
    models.index_of_first_ensures(model);
    assert(forall|i: int| 0 <= i < entries@.len() ==> models[i] == (#[trigger] entries@[i]).model@);
    if 0 <= at < entries@.len() && entries@[at].model@ == model && (forall|i: int|
        0 <= i < at ==> (#[trigger] entries@[i]).model@ != model) {
        assert(models[at] == model);
        assert(models.contains(model));
        let first = models.index_of_first(model)->0;
        assert(entries@[first].model@ == model);
        assert(first == at);
    }
    if forall|i: int| 0 <= i < entries@.len() ==> (#[trigger] entries@[i]).model@ != model {
        if models.contains(model) {
            let i = choose|i: int| 0 <= i < models.len() && models[i] == model;
            assert(entries@[i].model@ == model);
        }
    }
}

/// The entry that is added for the configured model is made from what the program knows of that
/// very name, adjusted to the settings.
pub open spec fn is_made_from_the_settings<I, O>(
    find_model_info_for_slug: I,
    with_config_overrides: O,
    config: &Config,
    model: Seq<char>,
    custom: ModelPresetView,
) -> bool where I: Fn(&str) -> ModelInfo, O: Fn(ModelInfo, &Config) -> ModelInfo {
    exists|slug: &str, found: ModelInfo, info: ModelInfo|
        {
            &&& slug@ == model
            &&& #[trigger] call_ensures(find_model_info_for_slug, (slug,), found)
            &&& #[trigger] call_ensures(with_config_overrides, (found, config), info)
            &&& custom == custom_entry(model, info@, config@)
        }
}

/// The picker out of the available models: the shown ones, and an entry for the configured model
/// only if none of them stands for it, behind them with credentials and alone without.
pub proof fn law_what_is_picked_from<I, O>(
    find_model_info_for_slug: I,
    with_config_overrides: O,
    config: &Config,
    has_auth: bool,
    available: Seq<ModelPresetView>,
    entries: Seq<ModelPresetView>,
) where I: Fn(&str) -> ModelInfo, O: Fn(ModelInfo, &Config) -> ModelInfo
    requires
        is_picker(
            find_model_info_for_slug,
            with_config_overrides,
            config,
            has_auth,
            available,
            entries,
        ),
    ensures
        ({
            let listed = shown(available);
            let names_one = config.model is Some && trimmed(config.model->0@).len() > 0;
            let model = trimmed(config.model->0@);
            let stands_for_it = exists|i: int|
                0 <= i < listed.len() && (#[trigger] listed[i]).model == model;
            &&& !names_one || stands_for_it ==> entries == listed
            &&& names_one && !stands_for_it ==> exists|custom: ModelPresetView|
                {
                    &&& #[trigger] is_made_from_the_settings(
                        find_model_info_for_slug,
                        with_config_overrides,
                        config,
                        model,
                        custom,
                    )
                    &&& has_auth ==> entries == listed + seq![custom]
                    &&& !has_auth ==> entries == seq![
                        ModelPresetView { is_default: true, ..custom },
                    ]
                }
        }),
{
    let listed = shown(available);
    let models = models_of(listed);
    let names_one = config.model is Some && trimmed(config.model->0@).len() > 0;
    let model = trimmed(config.model->0@);
    assert(forall|i: int| 0 <= i < listed.len() ==> models[i] == (#[trigger] listed[i]).model);
    let custom = choose|custom: Option<ModelPresetView>|
        #![trigger picker(listed, has_auth, custom)]
        is_custom_entry(find_model_info_for_slug, with_config_overrides, config, listed, custom)
            && entries == picker(listed, has_auth, custom);
    if names_one {
        if exists|i: int| 0 <= i < listed.len() && (#[trigger] listed[i]).model == model {
            let i = choose|i: int| 0 <= i < listed.len() && (#[trigger] listed[i]).model == model;
            assert(models[i] == model);
            assert(models.contains(model));
        } else {
            if models.contains(model) {
                let i = choose|i: int| 0 <= i < models.len() && models[i] == model;
                assert(listed[i].model == model);
            }
            let (slug, found, info) = choose|slug: &str, found: ModelInfo, info: ModelInfo|
                {
                    &&& slug@ == model
                    &&& #[trigger] call_ensures(find_model_info_for_slug, (slug,), found)
                    &&& #[trigger] call_ensures(with_config_overrides, (found, config), info)
                    &&& custom == Some(custom_entry(model, info@, config@))
                };
            assert(is_made_from_the_settings(
                find_model_info_for_slug,
                with_config_overrides,
                config,
                model,
                custom->0,
            ));
            assert(listed.push(custom->0) =~= listed + seq![custom->0]);
        }
    }
}

/// What is offered out of the available models: the same, except that without credentials only
/// the entry of a configured model is left, as the default. If the settings name no model, all
/// that is shown is offered, with or without credentials.
pub proof fn law_what_is_offered_from<I, O>(
    find_model_info_for_slug: I,
    with_config_overrides: O,
    config: &Config,
    has_auth: bool,
    available: Seq<ModelPresetView>,
    entries: Seq<ModelPresetView>,
    at: int,
) where I: Fn(&str) -> ModelInfo, O: Fn(ModelInfo, &Config) -> ModelInfo
    requires
        is_offered(
            find_model_info_for_slug,
            with_config_overrides,
            config,
            has_auth,
            available,
            entries,
        ),
    ensures
        ({
            let listed = shown(available);
            let names_one = config.model is Some && trimmed(config.model->0@).len() > 0;
            let model = trimmed(config.model->0@);
            let stands_for_it = exists|i: int|
                0 <= i < listed.len() && (#[trigger] listed[i]).model == model;
            &&& !names_one ==> entries == listed
            &&& names_one && stands_for_it && has_auth ==> entries == listed
            &&& names_one && !has_auth && 0 <= at < listed.len() && listed[at].model == model && (
            forall|i: int| 0 <= i < at ==> (#[trigger] listed[i]).model != model) ==> entries
                == seq![ModelPresetView { is_default: true, ..listed[at] }]
            &&& names_one && !stands_for_it ==> exists|custom: ModelPresetView|
                {
                    &&& #[trigger] is_made_from_the_settings(
                        find_model_info_for_slug,
                        with_config_overrides,
                        config,
                        model,
                        custom,
                    )
                    &&& has_auth ==> entries == listed + seq![custom]
                    &&& !has_auth ==> entries == seq![
                        ModelPresetView { is_default: true, ..custom },
                    ]
                }
        }),
{
    let listed = shown(available);
    let names_one = config.model is Some && trimmed(config.model->0@).len() > 0;
    let model = trimmed(config.model->0@);
    let picked = choose|picked: Seq<ModelPresetView>|
        {
            &&& #[trigger] is_picker(
                find_model_info_for_slug,
                with_config_overrides,
                config,
                has_auth,
                available,
                picked,
            )
            &&& entries == collapsed(picked, has_auth, config@)
        };
    law_what_is_picked_from(
        find_model_info_for_slug,
        with_config_overrides,
        config,
        has_auth,
        available,
        picked,
    );
    if names_one && !has_auth {
        let models = models_of(picked);
        models.index_of_first_ensures(model);
        assert(forall|i: int| 0 <= i < picked.len() ==> models[i] == (#[trigger] picked[i]).model);
        if exists|i: int| 0 <= i < listed.len() && (#[trigger] listed[i]).model == model {
            let i = choose|i: int| 0 <= i < listed.len() && (#[trigger] listed[i]).model == model;
            assert(models[i] == model);
            assert(models.contains(model));
            let first = models.index_of_first(model)->0;
            assert(listed[first].model == model);
            if 0 <= at < listed.len() && listed[at].model == model && (forall|i: int|
                0 <= i < at ==> (#[trigger] listed[i]).model != model) {
                assert(models[at] == model);
                assert(first == at);
            }
        } else {
            let custom = choose|custom: ModelPresetView|
                {
                    &&& #[trigger] is_made_from_the_settings(
                        find_model_info_for_slug,
                        with_config_overrides,
                        config,
                        model,
                        custom,
                    )
                    &&& picked == seq![ModelPresetView { is_default: true, ..custom }]
                };
            assert(models[0] == model);
            assert(models.contains(model));
            assert(entries =~= seq![ModelPresetView { is_default: true, ..custom }]);
        }
    }
}

/// Listing what can be picked, with a merge that joins its lists and a filter that keeps what the
/// account can use: if the settings name no model, an entry is offered exactly if it is meant to
/// be shown, the account can use it, and it is one of the program's own or, while the provider's
/// models are switched on, one of the catalog's; credentials make no difference.
pub proof fn law_listing_without_a_configured_model<M, F, I, O>(
    manager: ModelsManager,
    catalog: RemoteCatalog,
    config: Config,
    auth_mode: Option<InternalAuthMode>,
    provider_has_local_auth: bool,
    merge: M,
    filter_by_auth: F,
    find_model_info_for_slug: I,
    with_config_overrides: O,
    entries: Vec<ModelPreset>,
    preset: ModelPresetView,
) where
    M: Fn(Vec<ModelPreset>, Vec<ModelPreset>) -> Vec<ModelPreset>,
    F: Fn(Vec<ModelPreset>, bool) -> Vec<ModelPreset>,
    I: Fn(&str) -> ModelInfo,
    O: Fn(ModelInfo, &Config) -> ModelInfo,

    requires
        call_ensures(
            ModelsManager::list_picker_models::<M, F, I, O>,
            (
                &manager,
                &catalog,
                &config,
                auth_mode,
                provider_has_local_auth,
                &merge,
                &filter_by_auth,
                &find_model_info_for_slug,
                &with_config_overrides,
            ),
            entries,
        ),
        concatenates(merge),
        keeps_usable(filter_by_auth),
        config.model is None || trimmed(config.model->0@).len() == 0,
    ensures
        is_among(presets_view(entries@), preset) <==> {
            &&& preset.show_in_picker
            &&& auth_mode == Some(InternalAuthMode::Chatgpt) || preset.supported_in_api
            &&& {
                ||| is_among(presets_view(manager.local_models@), preset)
                ||| config.remote_models_enabled && exists|i: int|
                    0 <= i < catalog.models@.len() && unmarked(
                        (#[trigger] catalog.models@[i]).preset@,
                    ) == unmarked(preset)
            }
        },
{
    let models = models_in_use(catalog@, config@);
    let local = presets_view(manager.local_models@);
    let has_auth = auth_mode is Some || provider_has_local_auth;
    let available = choose|available: Seq<ModelPresetView>|
        {
            &&& #[trigger] is_available(
                merge,
                filter_by_auth,
                models,
                local,
                chatgpt_mode(auth_mode),
                available,
            )
            &&& is_offered(
                find_model_info_for_slug,
                with_config_overrides,
                &config,
                has_auth,
                available,
                presets_view(entries@),
            )
        };
    law_what_is_offered_from(
        find_model_info_for_slug,
        with_config_overrides,
        &config,
        has_auth,
        available,
        presets_view(entries@),
        0,
    );
    law_shown_of_available(
        merge,
        filter_by_auth,
        catalog,
        config,
        local,
        auth_mode,
        available,
        preset,
    );
}

/// Without any credentials and with a configured model, listing what can be picked gives one
/// entry: it stands for that model, is the default and is meant to be shown. With credentials of
/// either kind, every shown entry that is available is offered in its place, before anything else.
pub proof fn law_listing_with_a_configured_model<M, F, I, O>(
    manager: ModelsManager,
    catalog: RemoteCatalog,
    config: Config,
    auth_mode: Option<InternalAuthMode>,
    provider_has_local_auth: bool,
    merge: M,
    filter_by_auth: F,
    find_model_info_for_slug: I,
    with_config_overrides: O,
    entries: Vec<ModelPreset>,
) where
    M: Fn(Vec<ModelPreset>, Vec<ModelPreset>) -> Vec<ModelPreset>,
    F: Fn(Vec<ModelPreset>, bool) -> Vec<ModelPreset>,
    I: Fn(&str) -> ModelInfo,
    O: Fn(ModelInfo, &Config) -> ModelInfo,

    requires
        call_ensures(
            ModelsManager::list_picker_models::<M, F, I, O>,
            (
                &manager,
                &catalog,
                &config,
                auth_mode,
                provider_has_local_auth,
                &merge,
                &filter_by_auth,
                &find_model_info_for_slug,
                &with_config_overrides,
            ),
            entries,
        ),
        config.model is Some,
        trimmed(config.model->0@).len() > 0,
    ensures
        auth_mode is None && !provider_has_local_auth ==> {
            &&& entries@.len() == 1
            &&& entries@[0].model@ == trimmed(config.model->0@)
            &&& entries@[0].is_default
        },
        auth_mode is Some || provider_has_local_auth ==> exists|available: Seq<ModelPresetView>|
            {
                &&& #[trigger] is_available(
                    merge,
                    filter_by_auth,
                    models_in_use(catalog@, config@),
                    presets_view(manager.local_models@),
                    chatgpt_mode(auth_mode),
                    available,
                )
                &&& presets_view(entries@).len() >= shown(available).len()
                &&& presets_view(entries@).take(shown(available).len() as int) == shown(available)
            },
{
    if auth_mode is Some || provider_has_local_auth {
        let available = choose|available: Seq<ModelPresetView>|
            {
                &&& #[trigger] is_available(
                    merge,
                    filter_by_auth,
                    models_in_use(catalog@, config@),
                    presets_view(manager.local_models@),
                    chatgpt_mode(auth_mode),
                    available,
                )
                &&& is_offered(
                    find_model_info_for_slug,
                    with_config_overrides,
                    &config,
                    true,
                    available,
                    presets_view(entries@),
                )
            };
        law_what_is_offered_from(
            find_model_info_for_slug,
            with_config_overrides,
            &config,
            true,
            available,
            presets_view(entries@),
            0,
        );
        assert(presets_view(entries@).take(shown(available).len() as int) =~= shown(available));
    }
}

/// Asking whether a model is a custom one, with such a merge and filter: it is exactly if the
/// settings name it, white space aside, and no entry stands for it that is shown, that the account
/// can use, and that is among what the program brings along.
pub proof fn law_asking_for_a_custom_model<B, M, F>(
    model: &str,
    config: Config,
    auth_mode: Option<InternalAuthMode>,
    bundled: Vec<ModelInfo>,
    builtin_model_presets: B,
    presets: Vec<ModelPreset>,
    merge: M,
    filter_by_auth: F,
    custom: bool,
) where
    B: Fn(Option<InternalAuthMode>) -> Vec<ModelPreset>,
    M: Fn(Vec<ModelPreset>, Vec<ModelPreset>) -> Vec<ModelPreset>,
    F: Fn(Vec<ModelPreset>, bool) -> Vec<ModelPreset>,

    requires
        call_ensures(
            ModelsManager::is_configured_custom_model::<B, M, F>,
            (
                model,
                &config,
                auth_mode,
                Ok::<Vec<ModelInfo>, String>(bundled),
                &builtin_model_presets,
                &merge,
                &filter_by_auth,
            ),
            custom,
        ),
        forall|given: Vec<ModelPreset>| #[trigger]
            call_ensures(builtin_model_presets, (auth_mode,), given) ==> presets_view(given@)
                == presets_view(presets@),
        concatenates(merge),
        keeps_usable(filter_by_auth),
    ensures
        custom <==> {
            &&& config.model is Some
            &&& trimmed(config.model->0@) == trimmed(model@)
            &&& trimmed(model@).len() > 0
            &&& forall|i: int|
                0 <= i < bundled@.len() && (#[trigger] bundled@[i]).preset.show_in_picker && (
                auth_mode == Some(InternalAuthMode::Chatgpt)
                    || bundled@[i].preset.supported_in_api) ==> bundled@[i].preset.model@
                    != trimmed(model@)
            &&& forall|i: int|
                0 <= i < presets@.len() && (#[trigger] presets@[i]).show_in_picker && (auth_mode
                    == Some(InternalAuthMode::Chatgpt) || presets@[i].supported_in_api)
                    ==> presets@[i].model@ != trimmed(model@)
        },
{
    if configured_model(config@) == Some(trimmed(model@)) {
        let chatgpt = chatgpt_mode(auth_mode);
        let remote = presets_of(loaded_or_none(Ok(bundled)));
        let local = presets_view(presets@);
        let (given, listing) = choose|given: Vec<ModelPreset>, listing: Seq<ModelPresetView>|
            {
                &&& #[trigger] call_ensures(builtin_model_presets, (auth_mode,), given)
                &&& #[trigger] is_listing(
                    merge,
                    filter_by_auth,
                    remote,
                    presets_view(given@),
                    chatgpt,
                    listing,
                )
                &&& custom == is_custom_model(model@, config@, listing)
            };
        let all = remote + local;
        assert(listing == all.filter(usable(chatgpt)));
        law_custom_models(model@, config@, listing);
        lemma_no_entry_stands_for(all, usable(chatgpt), trimmed(model@));
        assert(forall|i: int|
            0 <= i < bundled@.len() ==> all[i] == (#[trigger] bundled@[i]).preset@);
        assert(forall|i: int|
            0 <= i < presets@.len() ==> all[remote.len() + i] == (#[trigger] presets@[i])@);
        if forall|i: int|
            0 <= i < listing.len() && (#[trigger] listing[i]).show_in_picker ==> listing[i].model
                != trimmed(model@) {
            assert forall|i: int|
                0 <= i < bundled@.len() && (#[trigger] bundled@[i]).preset.show_in_picker && (
                auth_mode == Some(InternalAuthMode::Chatgpt)
                    || bundled@[i].preset.supported_in_api) implies bundled@[i].preset.model@
                != trimmed(model@) by {
                assert(usable(chatgpt)(all[i]));
            }
            assert forall|i: int|
                0 <= i < presets@.len() && (#[trigger] presets@[i]).show_in_picker && (auth_mode
                    == Some(InternalAuthMode::Chatgpt) || presets@[i].supported_in_api) implies presets@[i].model@
                != trimmed(model@) by {
                assert(usable(chatgpt)(all[remote.len() + i]));
            }
        }
        if (forall|i: int|
            0 <= i < bundled@.len() && (#[trigger] bundled@[i]).preset.show_in_picker && (auth_mode
                == Some(InternalAuthMode::Chatgpt) || bundled@[i].preset.supported_in_api)
                ==> bundled@[i].preset.model@ != trimmed(model@)) && (forall|i: int|
            0 <= i < presets@.len() && (#[trigger] presets@[i]).show_in_picker && (auth_mode
                == Some(InternalAuthMode::Chatgpt) || presets@[i].supported_in_api)
                ==> presets@[i].model@ != trimmed(model@)) {
            assert forall|i: int|
                0 <= i < all.len() && (#[trigger] all[i]).show_in_picker && usable(chatgpt)(
                    all[i],
                ) implies all[i].model != trimmed(model@) by {
                if i < remote.len() {
                    assert(all[i] == bundled@[i].preset@);
                } else {
                    assert(all[i] == presets@[i - remote.len()]@);
                }
            }
        }
    }
}

proof fn lemma_no_entry_stands_for(
    entries: Seq<ModelPresetView>,
    keep: spec_fn(ModelPresetView) -> bool,
    model: Seq<char>,
)
    ensures
        (forall|i: int|
            0 <= i < entries.filter(keep).len() && (#[trigger] entries.filter(keep)[i]).show_in_picker
                ==> entries.filter(keep)[i].model != model) <==> (forall|i: int|
            0 <= i < entries.len() && (#[trigger] entries[i]).show_in_picker && keep(entries[i])
                ==> entries[i].model != model),
{
    let kept = entries.filter(keep);
    if forall|i: int|
        0 <= i < kept.len() && (#[trigger] kept[i]).show_in_picker ==> kept[i].model != model {
        assert forall|i: int|
            0 <= i < entries.len() && (#[trigger] entries[i]).show_in_picker && keep(
                entries[i],
            ) implies entries[i].model != model by {
            assert(entries.contains(entries[i]));
            lemma_filter_contains(entries, keep, entries[i]);
            let j = choose|j: int| 0 <= j < kept.len() && kept[j] == entries[i];
            assert(kept[j].show_in_picker);
        }
    }
    if forall|i: int|
        0 <= i < entries.len() && (#[trigger] entries[i]).show_in_picker && keep(entries[i])
            ==> entries[i].model != model {
        assert forall|i: int|
            0 <= i < kept.len() && (#[trigger] kept[i]).show_in_picker implies kept[i].model
            != model by {
            assert(kept.contains(kept[i]));
            lemma_filter_contains(entries, keep, kept[i]);
            let j = choose|j: int| 0 <= j < entries.len() && entries[j] == kept[i];
            assert(entries[j].show_in_picker);
        }
    }
}

} // verus!
