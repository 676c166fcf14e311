//! The models that are available, and the one to use by default.

use crate::auth::InternalAuthMode;
use crate::models::catalog::{model_with_slug, position_of_slug, slugs, RemoteCatalog};
use crate::models::manager::{
    first_step, models_in_sight, models_in_use, CatalogBusy, ModelsManager, RefreshStep, RefreshStrategy,
};
use crate::models::order::{sort_by_priority, sorted_by_priority};
use crate::models::types::{
    copy_presets, infos_view, presets_view, Config, ModelInfo, ModelInfoView, ModelPreset,
    ModelPresetView,
};
use crate::text::optional;
use vstd::prelude::*;

verus! {

/// The entries that models are listed with.
pub open spec fn presets_of(models: Seq<ModelInfoView>) -> Seq<ModelPresetView> {
    models.map_values(|model: ModelInfoView| model.preset)
}

/// Whether each entry is shown in the picker.
pub open spec fn shown_flags(presets: Seq<ModelPresetView>) -> Seq<bool> {
    presets.map_values(|preset: ModelPresetView| preset.show_in_picker)
}

/// The entries that are shown in the picker.
pub open spec fn shown(presets: Seq<ModelPresetView>) -> Seq<ModelPresetView> {
    presets.filter(|preset: ModelPresetView| preset.show_in_picker)
}

/// The place of the default: the first entry that is shown, or the first of all.
pub open spec fn default_index(presets: Seq<ModelPresetView>) -> int {
    match shown_flags(presets).index_of_first(true) {
        Some(index) => index,
        None => 0,
    }
}

/// The same entries with one of them marked as the default.
pub open spec fn with_default(presets: Seq<ModelPresetView>) -> Seq<ModelPresetView> {
    presets.map(
        |i: int, preset: ModelPresetView|
            ModelPresetView { is_default: i == default_index(presets), ..preset },
    )
}

/// The account is a ChatGPT one.
pub open spec fn chatgpt_mode(auth_mode: Option<InternalAuthMode>) -> bool {
    auth_mode == Some(InternalAuthMode::Chatgpt)
}

/// `listing` may come out when the entries `remote` are merged with the entries `local` and the
/// outcome is filtered by the account.
pub open spec fn is_listing<M, F>(
    merge: M,
    filter_by_auth: F,
    remote: Seq<ModelPresetView>,
    local: Seq<ModelPresetView>,
    chatgpt: bool,
    listing: Seq<ModelPresetView>,
) -> bool where
    M: Fn(Vec<ModelPreset>, Vec<ModelPreset>) -> Vec<ModelPreset>,
    F: Fn(Vec<ModelPreset>, bool) -> Vec<ModelPreset>,
 {
    exists|
        remote_presets: Vec<ModelPreset>,
        existing_presets: Vec<ModelPreset>,
        merged: Vec<ModelPreset>,
        kept: Vec<ModelPreset>,
    |
        {
            &&& presets_view(remote_presets@) == remote
            &&& presets_view(existing_presets@) == local
            &&& #[trigger] call_ensures(merge, (remote_presets, existing_presets), merged)
            &&& #[trigger] call_ensures(filter_by_auth, (merged, chatgpt), kept)
            &&& presets_view(kept@) == listing
        }
}

/// The account is a ChatGPT one.
pub fn is_chatgpt_mode(auth_mode: Option<InternalAuthMode>) -> (chatgpt: bool)
    ensures
        chatgpt == chatgpt_mode(auth_mode),
{
    match auth_mode {
        Some(InternalAuthMode::Chatgpt) => true,
        _ => false,
    }
}

/// The entries that models are listed with, in their order.
pub fn listed_presets(models: Vec<ModelInfo>) -> (presets: Vec<ModelPreset>)
    ensures
        presets_view(presets@) == presets_of(infos_view(models@)),
{
    let ghost views = infos_view(models@);
    let mut presets: Vec<ModelPreset> = Vec::new();
    for model in it: models
        invariant
            it.seq() == models@,
            views == infos_view(models@),
            presets_view(presets@) == presets_of(views.take(it.index())),
    {
        let ghost before = presets_view(presets@);
        presets.push(model.preset);
        assert(presets_view(presets@) =~= before.push(model@.preset));
        assert(presets_of(views.take(it.index() + 1)) =~= before.push(model@.preset));
    }
    assert(views.take(views.len() as int) =~= views);
    presets
}

/// The entries that are shown in the picker, in their order.
pub fn shown_presets(presets: Vec<ModelPreset>) -> (kept: Vec<ModelPreset>)
    ensures
        presets_view(kept@) == shown(presets_view(presets@)),
{
    let ghost views = presets_view(presets@);
    let mut kept: Vec<ModelPreset> = Vec::new();
    proof {
        reveal(Seq::filter);
        assert(presets_view(kept@) =~= shown(views.take(0)));
    }
    for preset in it: presets
        invariant
            it.seq() == presets@,
            views == presets_view(presets@),
            presets_view(kept@) == shown(views.take(it.index())),
    {
        proof {
            reveal(Seq::filter);
            assert(views.take(it.index() + 1).drop_last() =~= views.take(it.index()));
            assert(views.take(it.index() + 1).last() == preset@);
        }
        let ghost before = presets_view(kept@);
        if preset.show_in_picker {
            kept.push(preset);
            assert(presets_view(kept@) =~= before.push(preset@));
        }
    }
    assert(views.take(views.len() as int) =~= views);
    kept
}

/// The place of the default among the entries.
fn default_position(presets: &Vec<ModelPreset>) -> (position: usize)
    ensures
        position == default_index(presets_view(presets@)),
{
    let ghost flags = shown_flags(presets_view(presets@));
    proof {
        flags.index_of_first_ensures(true);
    }
    for i in 0..presets.len()
        invariant
            flags == shown_flags(presets_view(presets@)),
            forall|j: int| 0 <= j < i ==> flags[j] == false,
            match flags.index_of_first(true) {
                Some(index) => 0 <= index < flags.len() && flags[index] == true && forall|j: int|
                    0 <= j < index < flags.len() ==> flags[j] != true,
                None => !flags.contains(true),
            },
    {
        assert(flags[i as int] == presets@[i as int].show_in_picker);
        if presets[i].show_in_picker {
            assert(flags.contains(true));
            return i;
        }
    }
    0
}

/// Marks the default among the entries, and no other.
pub fn mark_default(presets: Vec<ModelPreset>) -> (marked: Vec<ModelPreset>)
    ensures
        presets_view(marked@) == with_default(presets_view(presets@)),
{
    let ghost views = presets_view(presets@);
    let position: usize = default_position(&presets);
    let count: usize = presets.len();
    let mut presets = presets;
    for i in 0..count
        invariant
            count == views.len(),
            presets@.len() == count,
            position == default_index(views),
            forall|j: int| 0 <= j < i ==> (#[trigger] presets@[j])@ == with_default(views)[j],
            forall|j: int| i <= j < views.len() ==> (#[trigger] presets@[j])@ == views[j],
    {
        presets[i].is_default = i == position;
    }
    assert(presets_view(presets@) =~= with_default(views));
    presets
}

/// The merged entries, filtered by the account.
pub fn merged_listing<M, F>(
    merge: &M,
    filter_by_auth: &F,
    remote: Vec<ModelPreset>,
    local: Vec<ModelPreset>,
    auth_mode: Option<InternalAuthMode>,
) -> (listing: Vec<ModelPreset>) where
    M: Fn(Vec<ModelPreset>, Vec<ModelPreset>) -> Vec<ModelPreset>,
    F: Fn(Vec<ModelPreset>, bool) -> Vec<ModelPreset>,

    requires
        forall|remote: Vec<ModelPreset>, local: Vec<ModelPreset>| #[trigger]
            call_requires(*merge, (remote, local)),
        forall|presets: Vec<ModelPreset>, chatgpt: bool| #[trigger]
            call_requires(*filter_by_auth, (presets, chatgpt)),
    ensures
        is_listing(
            *merge,
            *filter_by_auth,
            presets_view(remote@),
            presets_view(local@),
            chatgpt_mode(auth_mode),
            presets_view(listing@),
        ),
{
    let merged = merge(remote, local);
    filter_by_auth(merged, is_chatgpt_mode(auth_mode))
}

/// The model to use out of the available ones: the default, or else the first, if any.
pub open spec fn default_model(available: Seq<ModelPresetView>) -> Seq<char> {
    match default_flags(available).index_of_first(true) {
        Some(index) => available[index].model,
        None => if available.len() > 0 {
            available[0].model
        } else {
            Seq::empty()
        },
    }
}

/// Whether each entry is marked as the default.
pub open spec fn default_flags(presets: Seq<ModelPresetView>) -> Seq<bool> {
    presets.map_values(|preset: ModelPresetView| preset.is_default)
}

/// The model to use out of the available ones.
pub fn default_among(available: &Vec<ModelPreset>) -> (model: String)
    ensures
        model@ == default_model(presets_view(available@)),
{
    let ghost views = presets_view(available@);
    let ghost flags = default_flags(views);
    proof {
        flags.index_of_first_ensures(true);
    }
    for i in 0..available.len()
        invariant
            views == presets_view(available@),
            flags == default_flags(views),
            forall|j: int| 0 <= j < i ==> flags[j] == false,
            match flags.index_of_first(true) {
                Some(index) => 0 <= index < flags.len() && flags[index] == true && forall|j: int|
                    0 <= j < index < flags.len() ==> flags[j] != true,
                None => !flags.contains(true),
            },
    {
        assert(flags[i as int] == available@[i as int].is_default);
        if available[i].is_default {
            assert(flags.contains(true));
            return available[i].model.clone();
        }
    }
    if available.len() > 0 {
        available[0].model.clone()
    } else {
        String::new()
    }
}

impl ModelsManager {
    /// The available models out of those of the provider: by priority, merged with the
    /// presets of the program, filtered by the account, with the default marked.
    pub fn build_available_models<M, F>(
        &self,
        remote_models: Vec<ModelInfo>,
        auth_mode: Option<InternalAuthMode>,
        merge: &M,
        filter_by_auth: &F,
    ) -> (available: Vec<ModelPreset>) where
        M: Fn(Vec<ModelPreset>, Vec<ModelPreset>) -> Vec<ModelPreset>,
        F: Fn(Vec<ModelPreset>, bool) -> Vec<ModelPreset>,

        requires
            forall|remote: Vec<ModelPreset>, local: Vec<ModelPreset>| #[trigger]
                call_requires(*merge, (remote, local)),
            forall|presets: Vec<ModelPreset>, chatgpt: bool| #[trigger]
                call_requires(*filter_by_auth, (presets, chatgpt)),
        ensures
            is_available(
                *merge,
                *filter_by_auth,
                infos_view(remote_models@),
                presets_view(self.local_models@),
                chatgpt_mode(auth_mode),
                presets_view(available@),
            ),
    {
        let remote_presets = listed_presets(sort_by_priority(remote_models));
        let listing = merged_listing(
            merge,
            filter_by_auth,
            remote_presets,
            copy_presets(&self.local_models),
            auth_mode,
        );
        mark_default(listing)
    }

    /// The available models that are shown, as far as they are known.
    pub fn list_models<M, F>(
        &self,
        catalog: &RemoteCatalog,
        config: &Config,
        auth_mode: Option<InternalAuthMode>,
        merge: &M,
        filter_by_auth: &F,
    ) -> (listed: Vec<ModelPreset>) where
        M: Fn(Vec<ModelPreset>, Vec<ModelPreset>) -> Vec<ModelPreset>,
        F: Fn(Vec<ModelPreset>, bool) -> Vec<ModelPreset>,

        requires
            forall|remote: Vec<ModelPreset>, local: Vec<ModelPreset>| #[trigger]
                call_requires(*merge, (remote, local)),
            forall|presets: Vec<ModelPreset>, chatgpt: bool| #[trigger]
                call_requires(*filter_by_auth, (presets, chatgpt)),
        ensures
            exists|available: Seq<ModelPresetView>|
                #![trigger shown(available)]
                is_available(
                    *merge,
                    *filter_by_auth,
                    models_in_use(catalog@, config@),
                    presets_view(self.local_models@),
                    chatgpt_mode(auth_mode),
                    available,
                ) && presets_view(listed@) == shown(available),
            forall|i: int| 0 <= i < listed@.len() ==> (#[trigger] listed@[i]).show_in_picker,
    {
        let available = self.build_available_models(
            Self::get_remote_models(catalog, config),
            auth_mode,
            merge,
            filter_by_auth,
        );
        let ghost views = presets_view(available@);
        let listed = shown_presets(available);
        proof {
            lemma_shown(views);
            assert forall|i: int| 0 <= i < listed@.len() implies (
            #[trigger] listed@[i]).show_in_picker by {
                assert(presets_view(listed@)[i] == listed@[i]@);
            }
        }
        listed
    }

    /// The available models, where the catalog may be locked.
    pub fn try_list_models<M, F>(
        &self,
        catalog: Option<&RemoteCatalog>,
        config: &Config,
        auth_mode: Option<InternalAuthMode>,
        merge: &M,
        filter_by_auth: &F,
    ) -> (available: Result<Vec<ModelPreset>, CatalogBusy>) where
        M: Fn(Vec<ModelPreset>, Vec<ModelPreset>) -> Vec<ModelPreset>,
        F: Fn(Vec<ModelPreset>, bool) -> Vec<ModelPreset>,

        requires
            forall|remote: Vec<ModelPreset>, local: Vec<ModelPreset>| #[trigger]
                call_requires(*merge, (remote, local)),
            forall|presets: Vec<ModelPreset>, chatgpt: bool| #[trigger]
                call_requires(*filter_by_auth, (presets, chatgpt)),
        ensures
            available is Err <==> catalog is None && config.remote_models_enabled,
            available matches Ok(available) ==> is_available(
                *merge,
                *filter_by_auth,
                models_in_sight(catalog, config@),
                presets_view(self.local_models@),
                chatgpt_mode(auth_mode),
                presets_view(available@),
            ),
    {
        match Self::try_get_remote_models(catalog, config) {
            Ok(remote_models) => Ok(
                self.build_available_models(remote_models, auth_mode, merge, filter_by_auth),
            ),
            Err(busy) => Err(busy),
        }
    }

    /// The first step of the refresh before a default is chosen: a given model needs none.
    pub fn default_model_refresh(
        model: &Option<String>,
        config: &Config,
        auth_mode: Option<InternalAuthMode>,
        refresh_strategy: RefreshStrategy,
    ) -> (step: RefreshStep)
        ensures
            step == (if model is Some {
                RefreshStep::Finished
            } else {
                first_step(config.remote_models_enabled, auth_mode, refresh_strategy)
            }),
    {
        match model {
            Some(_) => RefreshStep::Finished,
            None => Self::refresh_available_models(config, auth_mode, refresh_strategy),
        }
    }

    /// The model to use: the given one, or the default of the available ones.
    pub fn get_default_model<M, F>(
        &self,
        model: &Option<String>,
        catalog: &RemoteCatalog,
        config: &Config,
        auth_mode: Option<InternalAuthMode>,
        merge: &M,
        filter_by_auth: &F,
    ) -> (chosen: String) where
        M: Fn(Vec<ModelPreset>, Vec<ModelPreset>) -> Vec<ModelPreset>,
        F: Fn(Vec<ModelPreset>, bool) -> Vec<ModelPreset>,

        requires
            forall|remote: Vec<ModelPreset>, local: Vec<ModelPreset>| #[trigger]
                call_requires(*merge, (remote, local)),
            forall|presets: Vec<ModelPreset>, chatgpt: bool| #[trigger]
                call_requires(*filter_by_auth, (presets, chatgpt)),
        ensures
            match optional(*model) {
                Some(model) => chosen@ == model,
                None => exists|available: Seq<ModelPresetView>|
                    #![trigger default_model(available)]
                    is_available(
                        *merge,
                        *filter_by_auth,
                        models_in_use(catalog@, config@),
                        presets_view(self.local_models@),
                        chatgpt_mode(auth_mode),
                        available,
                    ) && chosen@ == default_model(available),
            },
    {
        if let Some(model) = model {
            return model.clone();
        }
        let available = self.build_available_models(
            Self::get_remote_models(catalog, config),
            auth_mode,
            merge,
            filter_by_auth,
        );
        default_among(&available)
    }

    /// The model to use without asking anybody: the given one, or the first preset of the
    /// program that is shown. `builtin_model_presets` gives the presets for an account.
    pub fn get_model_offline<B>(model: Option<&str>, builtin_model_presets: B) -> (chosen:
        String) where B: Fn(Option<InternalAuthMode>) -> Vec<ModelPreset>,
        requires
            call_requires(builtin_model_presets, (None,)),
        ensures
            match model {
                Some(model) => chosen@ == model@,
                None => exists|presets: Vec<ModelPreset>| #[trigger]
                    call_ensures(builtin_model_presets, (None,), presets) && chosen@
                        == first_shown_model(presets_view(presets@)),
            },
    {
        match model {
            Some(model) => model.to_string(),
            None => first_shown(&builtin_model_presets(None)),
        }
    }

    /// What is known of a model: what the provider told of it, or what the program knows of a
    /// model of that name, adjusted to the settings.
    pub fn get_model_info<I, O>(
        catalog: &RemoteCatalog,
        model: &str,
        config: &Config,
        find_model_info_for_slug: &I,
        with_config_overrides: &O,
    ) -> (info: ModelInfo) where
        I: Fn(&str) -> ModelInfo,
        O: Fn(ModelInfo, &Config) -> ModelInfo,

        requires
            call_requires(*find_model_info_for_slug, (model,)),
            forall|found: ModelInfo| #[trigger]
                call_requires(*with_config_overrides, (found, config)),
        ensures
            exists|found: ModelInfo|
                {
                    &&& #[trigger] call_ensures(*with_config_overrides, (found, config), info)
                    &&& match model_with_slug(models_in_use(catalog@, config@), model@) {
                        Some(known) => found@ == known,
                        None => call_ensures(*find_model_info_for_slug, (model,), found),
                    }
                },
    {
        let found = match known_model(catalog, model, config) {
            Some(known) => known,
            None => find_model_info_for_slug(model),
        };
        with_config_overrides(found, config)
    }

    /// What is known of a model without asking anybody.
    pub fn construct_model_info_offline<I, O>(
        model: &str,
        config: &Config,
        find_model_info_for_slug: &I,
        with_config_overrides: &O,
    ) -> (info: ModelInfo) where
        I: Fn(&str) -> ModelInfo,
        O: Fn(ModelInfo, &Config) -> ModelInfo,

        requires
            call_requires(*find_model_info_for_slug, (model,)),
            forall|found: ModelInfo| #[trigger]
                call_requires(*with_config_overrides, (found, config)),
        ensures
            exists|found: ModelInfo|
                {
                    &&& #[trigger] call_ensures(*find_model_info_for_slug, (model,), found)
                    &&& call_ensures(*with_config_overrides, (found, config), info)
                },
    {
        let found = find_model_info_for_slug(model);
        with_config_overrides(found, config)
    }
}

/// `available` may come out as the available models.
pub open spec fn is_available<M, F>(
    merge: M,
    filter_by_auth: F,
    models: Seq<ModelInfoView>,
    local: Seq<ModelPresetView>,
    chatgpt: bool,
    available: Seq<ModelPresetView>,
) -> bool where
    M: Fn(Vec<ModelPreset>, Vec<ModelPreset>) -> Vec<ModelPreset>,
    F: Fn(Vec<ModelPreset>, bool) -> Vec<ModelPreset>,
 {
    exists|listing: Seq<ModelPresetView>|
        #![trigger with_default(listing)]
        is_listing(
            merge,
            filter_by_auth,
            presets_of(sorted_by_priority(models)),
            local,
            chatgpt,
            listing,
        ) && available == with_default(listing)
}

/// The first model that is shown, or else the first of all, if any.
pub open spec fn first_shown_model(presets: Seq<ModelPresetView>) -> Seq<char> {
    if presets.len() > 0 {
        presets[default_index(presets)].model
    } else {
        Seq::empty()
    }
}

/// The first model that is shown, or else the first of all, if any.
pub fn first_shown(presets: &Vec<ModelPreset>) -> (model: String)
    ensures
        model@ == first_shown_model(presets_view(presets@)),
{
    if presets.len() > 0 {
        proof {
            shown_flags(presets_view(presets@)).index_of_first_ensures(true);
        }
        presets[default_position(presets)].model.clone()
    } else {
        String::new()
    }
}

/// What the provider told of a model, if the provider's models are in use and it is among them.
pub fn known_model(catalog: &RemoteCatalog, model: &str, config: &Config) -> (known: Option<
    ModelInfo,
>)
    ensures
        match known {
            Some(known) => model_with_slug(models_in_use(catalog@, config@), model@) == Some(
                known@,
            ),
            None => model_with_slug(models_in_use(catalog@, config@), model@) is None,
        },
{
    let models = ModelsManager::get_remote_models(catalog, config);
    proof {
        slugs(infos_view(models@)).index_of_first_ensures(model@);
    }
    match position_of_slug(&models, &model.to_string()) {
        Some(index) => Some(models[index].clone()),
        None => None,
    }
}

pub(crate) proof fn lemma_shown(presets: Seq<ModelPresetView>)
    ensures
        forall|i: int|
            0 <= i < shown(presets).len() ==> (#[trigger] shown(presets)[i]).show_in_picker,
    decreases presets.len(),
{
    reveal(Seq::filter);
    if presets.len() > 0 {
        lemma_shown(presets.drop_last());
    }
}

pub(crate) proof fn lemma_shown_twice(presets: Seq<ModelPresetView>)
    ensures
        shown(shown(presets)) == shown(presets),
    decreases presets.len(),
{
    reveal(Seq::filter);
    if presets.len() > 0 {
        let shorter = presets.drop_last();
        lemma_shown_twice(shorter);
        if presets.last().show_in_picker {
            assert(shown(presets).drop_last() =~= shown(shorter));
        }
    }
}

/// Out of a list that is not empty, exactly one entry is marked as the default. It is shown in
/// the picker if any is, and no shown entry stands before it.
pub proof fn law_exactly_one_default(presets: Seq<ModelPresetView>)
    requires
        presets.len() > 0,
    ensures
        0 <= default_index(presets) < presets.len(),
        with_default(presets).len() == presets.len(),
        forall|i: int|
            0 <= i < presets.len() ==> ((#[trigger] with_default(presets)[i]).is_default <==> i
                == default_index(presets)),
        (exists|i: int| 0 <= i < presets.len() && (#[trigger] presets[i]).show_in_picker)
            ==> presets[default_index(presets)].show_in_picker,
        forall|i: int|
            0 <= i < default_index(presets) ==> !(#[trigger] presets[i]).show_in_picker,
{
    let flags = shown_flags(presets);
    flags.index_of_first_ensures(true);
    if exists|i: int| 0 <= i < presets.len() && (#[trigger] presets[i]).show_in_picker {
        let i = choose|i: int| 0 <= i < presets.len() && (#[trigger] presets[i]).show_in_picker;
        assert(flags[i] == true);
        assert(flags.contains(true));
    }
    assert forall|i: int| 0 <= i < default_index(presets) implies !(
    #[trigger] presets[i]).show_in_picker by {
        assert(flags[i] == presets[i].show_in_picker);
    }
}

/// Marking the default changes nothing else about the entries.
pub proof fn law_marking_changes_only_the_mark(presets: Seq<ModelPresetView>, i: int)
    requires
        0 <= i < presets.len(),
    ensures
        (ModelPresetView { is_default: presets[i].is_default, ..with_default(presets)[i] })
            == presets[i],
{
}

/// The default model is the one that is marked: with or without the marks, the choice falls
/// on the first model that is shown.
pub proof fn law_default_model_is_the_marked_one(presets: Seq<ModelPresetView>)
    ensures
        default_model(with_default(presets)) == first_shown_model(presets),
{
    let marked = with_default(presets);
    let flags = default_flags(marked);
    flags.index_of_first_ensures(true);
    if presets.len() > 0 {
        law_exactly_one_default(presets);
        assert(flags[default_index(presets)] == true);
        assert(flags.contains(true));
        let index = flags.index_of_first(true).unwrap();
        assert(flags[index] == marked[index].is_default);
    } else {
        assert(marked.len() == 0);
    }
}

/// Only a ChatGPT account counts as one: neither an API key does, nor no account at all.
pub proof fn law_account_type(auth_mode: Option<InternalAuthMode>)
    ensures
        auth_mode matches Some(InternalAuthMode::Chatgpt) ==> chatgpt_mode(auth_mode),
        auth_mode matches Some(InternalAuthMode::ApiKey) ==> !chatgpt_mode(auth_mode),
        auth_mode is None ==> !chatgpt_mode(auth_mode),
{
}

/// Tells whether an account of that type can use an entry, where a ChatGPT account can use all.
pub open spec fn usable(chatgpt: bool) -> spec_fn(ModelPresetView) -> bool {
    |preset: ModelPresetView| chatgpt || preset.supported_in_api
}

/// With a filter that leaves a ChatGPT account everything and others what the API supports, a
/// ChatGPT account gets all that the merge gave, and any other gets of that exactly the entries
/// that are supported in the API.
pub proof fn law_listing_suits_the_account<M, F>(
    merge: M,
    filter_by_auth: F,
    remote: Seq<ModelPresetView>,
    local: Seq<ModelPresetView>,
    auth_mode: Option<InternalAuthMode>,
    listing: Seq<ModelPresetView>,
) where
    M: Fn(Vec<ModelPreset>, Vec<ModelPreset>) -> Vec<ModelPreset>,
    F: Fn(Vec<ModelPreset>, bool) -> Vec<ModelPreset>,

    requires
        is_listing(merge, filter_by_auth, remote, local, chatgpt_mode(auth_mode), listing),
        forall|presets: Vec<ModelPreset>, chatgpt: bool, kept: Vec<ModelPreset>| #[trigger]
            call_ensures(filter_by_auth, (presets, chatgpt), kept) ==> presets_view(kept@)
                == presets_view(presets@).filter(usable(chatgpt)),
    ensures
        exists|
            remote_presets: Vec<ModelPreset>,
            existing_presets: Vec<ModelPreset>,
            merged: Vec<ModelPreset>,
        |
            {
                &&& presets_view(remote_presets@) == remote
                &&& presets_view(existing_presets@) == local
                &&& #[trigger] call_ensures(merge, (remote_presets, existing_presets), merged)
                &&& auth_mode == Some(InternalAuthMode::Chatgpt) ==> listing == presets_view(
                    merged@,
                )
                &&& auth_mode != Some(InternalAuthMode::Chatgpt) ==> forall|preset: ModelPresetView|
                    #[trigger] listing.contains(preset) <==> presets_view(merged@).contains(preset)
                        && preset.supported_in_api
            },
{
    let (remote_presets, existing_presets, merged, kept) = choose|
        remote_presets: Vec<ModelPreset>,
        existing_presets: Vec<ModelPreset>,
        merged: Vec<ModelPreset>,
        kept: Vec<ModelPreset>,
    |
        {
            &&& presets_view(remote_presets@) == remote
            &&& presets_view(existing_presets@) == local
            &&& #[trigger] call_ensures(merge, (remote_presets, existing_presets), merged)
            &&& #[trigger] call_ensures(filter_by_auth, (merged, chatgpt_mode(auth_mode)), kept)
            &&& presets_view(kept@) == listing
        };
    let all = presets_view(merged@);
    if auth_mode == Some(InternalAuthMode::Chatgpt) {
        lemma_filter_all(all, usable(true));
    } else {
        assert forall|preset: ModelPresetView| #[trigger]
            listing.contains(preset) <==> all.contains(preset) && preset.supported_in_api by {
            lemma_filter_contains(all, usable(false), preset);
        }
    }
}

proof fn lemma_filter_all(presets: Seq<ModelPresetView>, keep: spec_fn(ModelPresetView) -> bool)
    requires
        forall|preset: ModelPresetView| #[trigger] keep(preset),
    ensures
        presets.filter(keep) == presets,
    decreases presets.len(),
{
    reveal(Seq::filter);
    if presets.len() > 0 {
        lemma_filter_all(presets.drop_last(), keep);
        assert(presets.drop_last().push(presets.last()) =~= presets);
    } else {
        assert(presets.filter(keep) =~= presets);
    }
}

pub(crate) proof fn lemma_filter_contains(
    presets: Seq<ModelPresetView>,
    keep: spec_fn(ModelPresetView) -> bool,
    preset: ModelPresetView,
)
    ensures
        presets.filter(keep).contains(preset) <==> presets.contains(preset) && keep(preset),
    decreases presets.len(),
{
    reveal(Seq::filter);
    if presets.len() > 0 {
        let shorter = presets.drop_last();
        let last = presets.last();
        lemma_filter_contains(shorter, keep, preset);
        assert(presets =~= shorter.push(last));
        lemma_push_contains(shorter, last, preset);
        lemma_push_contains(shorter.filter(keep), last, preset);
    }
}

proof fn lemma_push_contains(
    presets: Seq<ModelPresetView>,
    added: ModelPresetView,
    preset: ModelPresetView,
)
    ensures
        presets.push(added).contains(preset) <==> presets.contains(preset) || preset == added,
{
    let longer = presets.push(added);
    if presets.contains(preset) {
        let i = choose|i: int| 0 <= i < presets.len() && presets[i] == preset;
        assert(longer[i] == preset);
    }
    if preset == added {
        assert(longer[presets.len() as int] == preset);
    }
    if longer.contains(preset) {
        let i = choose|i: int| 0 <= i < longer.len() && longer[i] == preset;
        if i < presets.len() {
            assert(presets[i] == preset);
        }
    }
}

/// With a merge that puts its first list before its second, and a filter that keeps everything,
/// the available models are the provider's, by priority, and behind them the program's own in
/// their order. Nothing of an entry is changed but whether it is the default.
pub proof fn law_provider_models_come_first_by_priority<M, F>(
    merge: M,
    filter_by_auth: F,
    models: Seq<ModelInfoView>,
    local: Seq<ModelPresetView>,
    chatgpt: bool,
    available: Seq<ModelPresetView>,
) where
    M: Fn(Vec<ModelPreset>, Vec<ModelPreset>) -> Vec<ModelPreset>,
    F: Fn(Vec<ModelPreset>, bool) -> Vec<ModelPreset>,

    requires
        is_available(merge, filter_by_auth, models, local, chatgpt, available),
        forall|first: Vec<ModelPreset>, second: Vec<ModelPreset>, merged: Vec<ModelPreset>|
            #[trigger] call_ensures(merge, (first, second), merged) ==> presets_view(merged@)
                == presets_view(first@) + presets_view(second@),
        forall|presets: Vec<ModelPreset>, chatgpt: bool, kept: Vec<ModelPreset>| #[trigger]
            call_ensures(filter_by_auth, (presets, chatgpt), kept) ==> presets_view(kept@)
                == presets_view(presets@),
    ensures
        available.len() == models.len() + local.len(),
        forall|i: int|
            0 <= i < models.len() ==> (ModelPresetView {
                is_default: sorted_by_priority(models)[i].preset.is_default,
                ..#[trigger] available[i]
            }) == sorted_by_priority(models)[i].preset,
        forall|i: int|
            0 <= i < local.len() ==> (ModelPresetView {
                is_default: (#[trigger] local[i]).is_default,
                ..available[models.len() + i]
            }) == local[i],
{
    crate::models::order::law_sorting_is_stable(models, 0);
    let sorted = sorted_by_priority(models);
    let listing = choose|listing: Seq<ModelPresetView>|
        #![trigger with_default(listing)]
        is_listing(merge, filter_by_auth, presets_of(sorted), local, chatgpt, listing) && available
            == with_default(listing);
    assert(listing == presets_of(sorted) + local);
}

/// The default of a list of entries is the first that is marked, or else the first of all, or
/// nothing. The same goes for the first that is shown.
pub proof fn law_default_among_any_entries(entries: Seq<ModelPresetView>, at: int)
    ensures
        0 <= at < entries.len() && entries[at].is_default && (forall|i: int|
            0 <= i < at ==> !(#[trigger] entries[i]).is_default) ==> default_model(entries)
            == entries[at].model,
        entries.len() > 0 && (forall|i: int|
            0 <= i < entries.len() ==> !(#[trigger] entries[i]).is_default) ==> default_model(
            entries,
        ) == entries[0].model,
        0 <= at < entries.len() && entries[at].show_in_picker && (forall|i: int|
            0 <= i < at ==> !(#[trigger] entries[i]).show_in_picker) ==> first_shown_model(entries)
            == entries[at].model,
        entries.len() > 0 && (forall|i: int|
            0 <= i < entries.len() ==> !(#[trigger] entries[i]).show_in_picker)
            ==> first_shown_model(entries) == entries[0].model,
        entries.len() == 0 ==> default_model(entries).len() == 0 && first_shown_model(entries).len()
            == 0,
{
    let marks = default_flags(entries);
    let shows = shown_flags(entries);
    marks.index_of_first_ensures(true);
    shows.index_of_first_ensures(true);
    assert(forall|i: int| 0 <= i < entries.len() ==> marks[i] == (#[trigger] entries[i]).is_default);
    assert(forall|i: int|
        0 <= i < entries.len() ==> shows[i] == (#[trigger] entries[i]).show_in_picker);
    if 0 <= at < entries.len() && entries[at].is_default && (forall|i: int|
        0 <= i < at ==> !(#[trigger] entries[i]).is_default) {
        assert(marks[at]);
        assert(marks.contains(true));
        let first = marks.index_of_first(true)->0;
        assert(entries[first].is_default);
        assert(first == at);
    }
    if 0 <= at < entries.len() && entries[at].show_in_picker && (forall|i: int|
        0 <= i < at ==> !(#[trigger] entries[i]).show_in_picker) {
        assert(shows[at]);
        assert(shows.contains(true));
        let first = shows.index_of_first(true)->0;
        assert(entries[first].show_in_picker);
        assert(first == at);
    }
    if marks.contains(true) {
        let i = choose|i: int| 0 <= i < marks.len() && marks[i] == true;
        assert(entries[i].is_default);
    }
    if shows.contains(true) {
        let i = choose|i: int| 0 <= i < shows.len() && shows[i] == true;
        assert(entries[i].show_in_picker);
    }
}

/// Every model is listed with its own entry, and a list of entries is shown piece by piece: each
/// entry stays if it is meant to be shown, and the order stays.
pub proof fn law_shown_entries(
    models: Seq<ModelInfoView>,
    first: Seq<ModelPresetView>,
    second: Seq<ModelPresetView>,
    entry: ModelPresetView,
)
    ensures
        presets_of(models).len() == models.len(),
        forall|i: int| 0 <= i < models.len() ==> presets_of(models)[i] == (#[trigger] models[i]).preset,
        shown(first + second) == shown(first) + shown(second),
        entry.show_in_picker ==> shown(seq![entry]) == seq![entry],
        !entry.show_in_picker ==> shown(seq![entry]).len() == 0,
    decreases second.len(),
{
    reveal(Seq::filter);
    assert(seq![entry].drop_last() =~= Seq::empty());
    assert(shown(Seq::empty()) =~= Seq::empty());
    if entry.show_in_picker {
        assert(shown(seq![entry]) =~= seq![entry]);
    }
    if second.len() > 0 {
        let shorter = second.drop_last();
        law_shown_entries(models, first, shorter, entry);
        assert((first + second).drop_last() =~= first + shorter);
        assert((first + second).last() == second.last());
        assert(shown(first + second) =~= shown(first) + shown(second));
    } else {
        assert(first + second =~= first);
        assert(shown(first) + shown(second) =~= shown(first));
    }
}

/// Asking for the type of an account: only a ChatGPT account is one, an API key is not, and
/// neither is no account.
pub proof fn law_asking_for_the_account(auth_mode: Option<InternalAuthMode>, chatgpt: bool)
    requires
        call_ensures(is_chatgpt_mode, (auth_mode,), chatgpt),
    ensures
        auth_mode matches Some(InternalAuthMode::Chatgpt) ==> chatgpt,
        auth_mode matches Some(InternalAuthMode::ApiKey) ==> !chatgpt,
        auth_mode is None ==> !chatgpt,
{
}

/// Where no entry is shown, the first one is the default; an entry that is shown is it only if no
/// earlier one is.
pub proof fn law_place_of_the_default(entries: Seq<ModelPresetView>, at: int)
    ensures
        (forall|i: int| 0 <= i < entries.len() ==> !(#[trigger] entries[i]).show_in_picker)
            ==> default_index(entries) == 0,
        0 <= at < entries.len() && entries[at].show_in_picker && (forall|i: int|
            0 <= i < at ==> !(#[trigger] entries[i]).show_in_picker) ==> default_index(entries)
            == at,
{
    let shows = shown_flags(entries);
    shows.index_of_first_ensures(true);
    assert(forall|i: int|
        0 <= i < entries.len() ==> shows[i] == (#[trigger] entries[i]).show_in_picker);
    if shows.contains(true) {
        let first = shows.index_of_first(true)->0;
        assert(entries[first].show_in_picker);
    }
    if 0 <= at < entries.len() && entries[at].show_in_picker {
        assert(shows[at]);
        assert(shows.contains(true));
    }
}

/// The entry without the mark of the default.
pub open spec fn unmarked(preset: ModelPresetView) -> ModelPresetView {
    ModelPresetView { is_default: false, ..preset }
}

/// The entry is among these, the mark of the default aside.
pub open spec fn is_among(entries: Seq<ModelPresetView>, preset: ModelPresetView) -> bool {
    exists|i: int| 0 <= i < entries.len() && unmarked(#[trigger] entries[i]) == unmarked(preset)
}

/// The merge puts its first list before its second.
pub open spec fn concatenates<M>(merge: M) -> bool where
    M: Fn(Vec<ModelPreset>, Vec<ModelPreset>) -> Vec<ModelPreset>,
 {
    forall|first: Vec<ModelPreset>, second: Vec<ModelPreset>, merged: Vec<ModelPreset>| #[trigger]
        call_ensures(merge, (first, second), merged) ==> presets_view(merged@) == presets_view(
            first@,
        ) + presets_view(second@)
}

/// The filter keeps what an account of that type can use.
pub open spec fn keeps_usable<F>(filter_by_auth: F) -> bool where
    F: Fn(Vec<ModelPreset>, bool) -> Vec<ModelPreset>,
 {
    forall|presets: Vec<ModelPreset>, chatgpt: bool, kept: Vec<ModelPreset>| #[trigger]
        call_ensures(filter_by_auth, (presets, chatgpt), kept) ==> presets_view(kept@)
            == presets_view(presets@).filter(usable(chatgpt))
}

proof fn lemma_filter_among(
    entries: Seq<ModelPresetView>,
    keep: spec_fn(ModelPresetView) -> bool,
    preset: ModelPresetView,
)
    requires
        forall|one: ModelPresetView, other: ModelPresetView|
            #![trigger keep(one), unmarked(other)]
            unmarked(one) == unmarked(other) ==> keep(one) == keep(other),
    ensures
        is_among(entries.filter(keep), preset) <==> is_among(entries, preset) && keep(preset),
{
    let kept = entries.filter(keep);
    if is_among(kept, preset) {
        let i = choose|i: int|
            0 <= i < kept.len() && unmarked(#[trigger] kept[i]) == unmarked(preset);
        assert(kept.contains(kept[i]));
        lemma_filter_contains(entries, keep, kept[i]);
        let j = choose|j: int| 0 <= j < entries.len() && entries[j] == kept[i];
        assert(unmarked(entries[j]) == unmarked(preset));
        assert(keep(kept[i]));
        assert(keep(preset));
    }
    if is_among(entries, preset) && keep(preset) {
        let i = choose|i: int|
            0 <= i < entries.len() && unmarked(#[trigger] entries[i]) == unmarked(preset);
        assert(keep(entries[i]));
        assert(entries.contains(entries[i]));
        lemma_filter_contains(entries, keep, entries[i]);
        let j = choose|j: int| 0 <= j < kept.len() && kept[j] == entries[i];
        assert(unmarked(kept[j]) == unmarked(preset));
    }
}

proof fn lemma_concatenated_among(
    first: Seq<ModelPresetView>,
    second: Seq<ModelPresetView>,
    preset: ModelPresetView,
)
    ensures
        is_among(first + second, preset) <==> is_among(first, preset) || is_among(second, preset),
{
    let all = first + second;
    if is_among(first, preset) {
        let i = choose|i: int|
            0 <= i < first.len() && unmarked(#[trigger] first[i]) == unmarked(preset);
        assert(unmarked(all[i]) == unmarked(preset));
    }
    if is_among(second, preset) {
        let i = choose|i: int|
            0 <= i < second.len() && unmarked(#[trigger] second[i]) == unmarked(preset);
        assert(unmarked(all[first.len() + i]) == unmarked(preset));
    }
    if is_among(all, preset) {
        let i = choose|i: int| 0 <= i < all.len() && unmarked(#[trigger] all[i]) == unmarked(preset);
        if i < first.len() {
            assert(unmarked(first[i]) == unmarked(preset));
        } else {
            assert(unmarked(second[i - first.len()]) == unmarked(preset));
        }
    }
}

proof fn lemma_marked_among(entries: Seq<ModelPresetView>, preset: ModelPresetView)
    ensures
        is_among(with_default(entries), preset) <==> is_among(entries, preset),
{
    let marked = with_default(entries);
    if is_among(entries, preset) {
        let i = choose|i: int|
            0 <= i < entries.len() && unmarked(#[trigger] entries[i]) == unmarked(preset);
        assert(unmarked(marked[i]) == unmarked(preset));
    }
    if is_among(marked, preset) {
        let i = choose|i: int|
            0 <= i < marked.len() && unmarked(#[trigger] marked[i]) == unmarked(preset);
        assert(unmarked(entries[i]) == unmarked(preset));
    }
}

proof fn lemma_sorted_among(models: Seq<ModelInfoView>, preset: ModelPresetView)
    ensures
        is_among(presets_of(sorted_by_priority(models)), preset) <==> is_among(
            presets_of(models),
            preset,
        ),
{
    broadcast use vstd::seq_lib::group_to_multiset_ensures;

    crate::models::order::law_sorted_list_in_full(models);
    let sorted = sorted_by_priority(models);
    let of_sorted = presets_of(sorted);
    let of_models = presets_of(models);
    if is_among(of_sorted, preset) {
        let i = choose|i: int|
            0 <= i < of_sorted.len() && unmarked(#[trigger] of_sorted[i]) == unmarked(preset);
        assert(sorted.contains(sorted[i]));
        assert(models.to_multiset().count(sorted[i]) > 0);
        let j = choose|j: int| 0 <= j < models.len() && models[j] == sorted[i];
        assert(unmarked(of_models[j]) == unmarked(preset));
    }
    if is_among(of_models, preset) {
        let i = choose|i: int|
            0 <= i < of_models.len() && unmarked(#[trigger] of_models[i]) == unmarked(preset);
        assert(models.contains(models[i]));
        assert(sorted.to_multiset().count(models[i]) > 0);
        let j = choose|j: int| 0 <= j < sorted.len() && sorted[j] == models[i];
        assert(unmarked(of_sorted[j]) == unmarked(preset));
    }
}

/// With a merge that joins its two lists and a filter that keeps what the account can use, an
/// entry is available exactly if the account can use it and it is one of the provider's or one of
/// the program's own.
pub proof fn law_available_entries<M, F>(
    merge: M,
    filter_by_auth: F,
    models: Seq<ModelInfoView>,
    local: Seq<ModelPresetView>,
    auth_mode: Option<InternalAuthMode>,
    available: Seq<ModelPresetView>,
    preset: ModelPresetView,
) where
    M: Fn(Vec<ModelPreset>, Vec<ModelPreset>) -> Vec<ModelPreset>,
    F: Fn(Vec<ModelPreset>, bool) -> Vec<ModelPreset>,

    requires
        is_available(merge, filter_by_auth, models, local, chatgpt_mode(auth_mode), available),
        concatenates(merge),
        keeps_usable(filter_by_auth),
    ensures
        is_among(available, preset) <==> {
            &&& auth_mode == Some(InternalAuthMode::Chatgpt) || preset.supported_in_api
            &&& is_among(local, preset) || exists|i: int|
                0 <= i < models.len() && unmarked((#[trigger] models[i]).preset) == unmarked(preset)
        },
{
    let remote = presets_of(sorted_by_priority(models));
    let chatgpt = chatgpt_mode(auth_mode);
    let listing = choose|listing: Seq<ModelPresetView>|
        #![trigger with_default(listing)]
        is_listing(merge, filter_by_auth, remote, local, chatgpt, listing) && available
            == with_default(listing);
    assert(listing == (remote + local).filter(usable(chatgpt)));
    lemma_marked_among(listing, preset);
    lemma_filter_among(remote + local, usable(chatgpt), preset);
    lemma_concatenated_among(remote, local, preset);
    lemma_sorted_among(models, preset);
    let of_models = presets_of(models);
    if is_among(of_models, preset) {
        let i = choose|i: int|
            0 <= i < of_models.len() && unmarked(#[trigger] of_models[i]) == unmarked(preset);
        assert(unmarked(models[i].preset) == unmarked(preset));
    }
    if exists|i: int|
        0 <= i < models.len() && unmarked((#[trigger] models[i]).preset) == unmarked(preset) {
        let i = choose|i: int|
            0 <= i < models.len() && unmarked((#[trigger] models[i]).preset) == unmarked(preset);
        assert(unmarked(of_models[i]) == unmarked(preset));
    }
}

/// Listing the models with such a merge and filter: an entry is listed exactly if it is meant to
/// be shown, the account can use it, and it is one of the program's own or, while the provider's
/// models are switched on, one of the catalog's.
pub proof fn law_listing_the_models<M, F>(
    manager: ModelsManager,
    catalog: RemoteCatalog,
    config: Config,
    auth_mode: Option<InternalAuthMode>,
    merge: M,
    filter_by_auth: F,
    listed: Vec<ModelPreset>,
    preset: ModelPresetView,
) where
    M: Fn(Vec<ModelPreset>, Vec<ModelPreset>) -> Vec<ModelPreset>,
    F: Fn(Vec<ModelPreset>, bool) -> Vec<ModelPreset>,

    requires
        call_ensures(
            ModelsManager::list_models::<M, F>,
            (&manager, &catalog, &config, auth_mode, &merge, &filter_by_auth),
            listed,
        ),
        concatenates(merge),
        keeps_usable(filter_by_auth),
    ensures
        is_among(presets_view(listed@), preset) <==> {
            &&& preset.show_in_picker
            &&& auth_mode == Some(InternalAuthMode::Chatgpt) || preset.supported_in_api
            &&& {
                ||| is_among(presets_view(manager.local_models@), preset)
                ||| config.remote_models_enabled && exists|i: int|
                    0 <= i < catalog.models@.len() && unmarked(
                        (#[trigger] catalog.models@[i]).preset@,
                    ) == unmarked(preset)
            }
        },
{
    let local = presets_view(manager.local_models@);
    let available = choose|available: Seq<ModelPresetView>|
        #![trigger shown(available)]
        is_available(
            merge,
            filter_by_auth,
            models_in_use(catalog@, config@),
            local,
            chatgpt_mode(auth_mode),
            available,
        ) && presets_view(listed@) == shown(available);
    law_shown_of_available(
        merge,
        filter_by_auth,
        catalog,
        config,
        local,
        auth_mode,
        available,
        preset,
    );
}

/// Of the available entries, with such a merge and filter, one is shown exactly if it is meant to
/// be, the account can use it, and it is one of the program's own or, while the provider's models
/// are switched on, one of the catalog's.
pub proof fn law_shown_of_available<M, F>(
    merge: M,
    filter_by_auth: F,
    catalog: RemoteCatalog,
    config: Config,
    local: Seq<ModelPresetView>,
    auth_mode: Option<InternalAuthMode>,
    available: Seq<ModelPresetView>,
    preset: ModelPresetView,
) where
    M: Fn(Vec<ModelPreset>, Vec<ModelPreset>) -> Vec<ModelPreset>,
    F: Fn(Vec<ModelPreset>, bool) -> Vec<ModelPreset>,

    requires
        is_available(
            merge,
            filter_by_auth,
            models_in_use(catalog@, config@),
            local,
            chatgpt_mode(auth_mode),
            available,
        ),
        concatenates(merge),
        keeps_usable(filter_by_auth),
    ensures
        is_among(shown(available), preset) <==> {
            &&& preset.show_in_picker
            &&& auth_mode == Some(InternalAuthMode::Chatgpt) || preset.supported_in_api
            &&& {
                ||| is_among(local, preset)
                ||| config.remote_models_enabled && exists|i: int|
                    0 <= i < catalog.models@.len() && unmarked(
                        (#[trigger] catalog.models@[i]).preset@,
                    ) == unmarked(preset)
            }
        },
{
    let models = models_in_use(catalog@, config@);
    law_available_entries(merge, filter_by_auth, models, local, auth_mode, available, preset);
    let keep = |entry: ModelPresetView| entry.show_in_picker;
    assert(shown(available) =~= available.filter(keep));
    lemma_filter_among(available, keep, preset);
    if config.remote_models_enabled {
        assert(forall|i: int|
            0 <= i < models.len() ==> (#[trigger] models[i]).preset == catalog.models@[i].preset@);
        if exists|i: int|
            0 <= i < catalog.models@.len() && unmarked((#[trigger] catalog.models@[i]).preset@)
                == unmarked(preset) {
            let i = choose|i: int|
                0 <= i < catalog.models@.len() && unmarked((#[trigger] catalog.models@[i]).preset@)
                    == unmarked(preset);
            assert(unmarked(models[i].preset) == unmarked(preset));
        }
    }
}

/// Listing the models without waiting fails exactly if the catalog is locked and needed, and
/// otherwise lists, under the same conditions, the entries that are not shown as well.
pub proof fn law_listing_without_waiting<M, F>(
    manager: ModelsManager,
    catalog: Option<&RemoteCatalog>,
    config: Config,
    auth_mode: Option<InternalAuthMode>,
    merge: M,
    filter_by_auth: F,
    listed: Result<Vec<ModelPreset>, CatalogBusy>,
    preset: ModelPresetView,
) where
    M: Fn(Vec<ModelPreset>, Vec<ModelPreset>) -> Vec<ModelPreset>,
    F: Fn(Vec<ModelPreset>, bool) -> Vec<ModelPreset>,

    requires
        call_ensures(
            ModelsManager::try_list_models::<M, F>,
            (&manager, catalog, &config, auth_mode, &merge, &filter_by_auth),
            listed,
        ),
        concatenates(merge),
        keeps_usable(filter_by_auth),
    ensures
        listed is Err <==> catalog is None && config.remote_models_enabled,
        listed matches Ok(entries) ==> (is_among(presets_view(entries@), preset) <==> {
            &&& auth_mode == Some(InternalAuthMode::Chatgpt) || preset.supported_in_api
            &&& {
                ||| is_among(presets_view(manager.local_models@), preset)
                ||| config.remote_models_enabled && exists|i: int|
                    0 <= i < catalog->0.models@.len() && unmarked(
                        (#[trigger] catalog->0.models@[i]).preset@,
                    ) == unmarked(preset)
            }
        }),
{
    if let Ok(entries) = listed {
        let models = models_in_sight(catalog, config@);
        let local = presets_view(manager.local_models@);
        law_available_entries(
            merge,
            filter_by_auth,
            models,
            local,
            auth_mode,
            presets_view(entries@),
            preset,
        );
        if config.remote_models_enabled {
            let known = catalog->0.models@;
            assert(forall|i: int|
                0 <= i < models.len() ==> (#[trigger] models[i]).preset == known[i].preset@);
            if exists|i: int|
                0 <= i < known.len() && unmarked((#[trigger] known[i]).preset@) == unmarked(
                    preset,
                ) {
                let i = choose|i: int|
                    0 <= i < known.len() && unmarked((#[trigger] known[i]).preset@) == unmarked(
                        preset,
                    );
                assert(unmarked(models[i].preset) == unmarked(preset));
            }
        }
    }
}

/// Choosing a model: a given one is chosen. Otherwise it is, with such a merge and a filter that
/// keeps everything, the first that is shown among the provider's by priority and then the
/// program's own, or the first of all where none is shown.
pub proof fn law_choosing_a_model<M, F>(
    manager: ModelsManager,
    model: Option<String>,
    catalog: RemoteCatalog,
    config: Config,
    auth_mode: Option<InternalAuthMode>,
    merge: M,
    filter_by_auth: F,
    chosen: String,
) where
    M: Fn(Vec<ModelPreset>, Vec<ModelPreset>) -> Vec<ModelPreset>,
    F: Fn(Vec<ModelPreset>, bool) -> Vec<ModelPreset>,

    requires
        call_ensures(
            ModelsManager::get_default_model::<M, F>,
            (&manager, &model, &catalog, &config, auth_mode, &merge, &filter_by_auth),
            chosen,
        ),
        concatenates(merge),
        forall|presets: Vec<ModelPreset>, chatgpt: bool, kept: Vec<ModelPreset>| #[trigger]
            call_ensures(filter_by_auth, (presets, chatgpt), kept) ==> presets_view(kept@)
                == presets_view(presets@),
    ensures
        model matches Some(given) ==> chosen@ == given@,
        model is None && config.remote_models_enabled ==> chosen@ == first_shown_model(
            presets_of(sorted_by_priority(infos_view(catalog.models@))) + presets_view(
                manager.local_models@,
            ),
        ),
        model is None && !config.remote_models_enabled ==> chosen@ == first_shown_model(
            presets_view(manager.local_models@),
        ),
{
    if model is None {
        let models = models_in_use(catalog@, config@);
        let local = presets_view(manager.local_models@);
        let chatgpt = chatgpt_mode(auth_mode);
        let remote = presets_of(sorted_by_priority(models));
        let available = choose|available: Seq<ModelPresetView>|
            #![trigger default_model(available)]
            is_available(merge, filter_by_auth, models, local, chatgpt, available) && chosen@
                == default_model(available);
        let listing = choose|listing: Seq<ModelPresetView>|
            #![trigger with_default(listing)]
            is_listing(merge, filter_by_auth, remote, local, chatgpt, listing) && available
                == with_default(listing);
        assert(listing == remote + local);
        law_default_model_is_the_marked_one(listing);
        if !config.remote_models_enabled {
            assert(remote.len() == 0);
            assert(remote + local =~= local);
        }
    }
}

/// Choosing a model offline: a given one is chosen, and otherwise the first that is shown among
/// the program's own without an account, or the first of all.
pub proof fn law_choosing_offline<B>(
    model: Option<&str>,
    builtin_model_presets: B,
    chosen: String,
) where B: Fn(Option<InternalAuthMode>) -> Vec<ModelPreset>
    requires
        call_ensures(
            ModelsManager::get_model_offline::<B>,
            (model, builtin_model_presets),
            chosen,
        ),
    ensures
        model matches Some(given) ==> chosen@ == given@,
        model is None ==> exists|presets: Vec<ModelPreset>| #[trigger]
            call_ensures(builtin_model_presets, (None,), presets) && chosen@ == first_shown_model(
                presets_view(presets@),
            ),
{
}

/// Refreshing before a model is chosen: a given model needs no refresh.
pub proof fn law_refreshing_before_the_choice(
    model: Option<String>,
    config: Config,
    auth_mode: Option<InternalAuthMode>,
    strategy: RefreshStrategy,
    step: RefreshStep,
)
    requires
        call_ensures(
            ModelsManager::default_model_refresh,
            (&model, &config, auth_mode, strategy),
            step,
        ),
    ensures
        model is Some ==> step is Finished,
        model is None ==> step == first_step(config.remote_models_enabled, auth_mode, strategy),
{
}

/// Asking about a model: what the catalog says of it, while the provider's models are switched on
/// and it is among them, and otherwise what the program knows of that name, each time adjusted to
/// the settings.
pub proof fn law_asking_about_a_model<I, O>(
    catalog: RemoteCatalog,
    model: &str,
    config: Config,
    find_model_info_for_slug: I,
    with_config_overrides: O,
    info: ModelInfo,
) where I: Fn(&str) -> ModelInfo, O: Fn(ModelInfo, &Config) -> ModelInfo
    requires
        call_ensures(
            ModelsManager::get_model_info::<I, O>,
            (&catalog, model, &config, &find_model_info_for_slug, &with_config_overrides),
            info,
        ),
    ensures
        exists|found: ModelInfo| #[trigger]
            call_ensures(with_config_overrides, (found, &config), info) && (
            if config.remote_models_enabled && (exists|i: int|
                0 <= i < catalog.models@.len() && (#[trigger] catalog.models@[i]).slug@ == model@) {
                found@.slug == model@ && exists|i: int|
                    0 <= i < catalog.models@.len() && (#[trigger] catalog.models@[i])@ == found@
            } else {
                call_ensures(find_model_info_for_slug, (model,), found)
            }),
{
    let models = models_in_use(catalog@, config@);
    let known = catalog.models@;
    crate::models::catalog::law_lookup_finds_the_first(models, model@);
    let found = choose|found: ModelInfo|
        {
            &&& #[trigger] call_ensures(with_config_overrides, (found, &config), info)
            &&& match model_with_slug(models, model@) {
                Some(known) => found@ == known,
                None => call_ensures(find_model_info_for_slug, (model,), found),
            }
        };
    if config.remote_models_enabled {
        assert(forall|i: int| 0 <= i < known.len() ==> models[i] == (#[trigger] known[i])@);
        if exists|i: int| 0 <= i < known.len() && (#[trigger] known[i]).slug@ == model@ {
            let i = choose|i: int| 0 <= i < known.len() && (#[trigger] known[i]).slug@ == model@;
            assert(models[i].slug == model@);
            let at = choose|at: int|
                {
                    &&& 0 <= at < models.len()
                    &&& #[trigger] models[at] == found@
                    &&& forall|j: int| 0 <= j < at ==> (#[trigger] models[j]).slug != model@
                };
            assert(known[at]@ == found@);
        } else {
            assert forall|i: int| 0 <= i < models.len() implies (#[trigger] models[i]).slug
                != model@ by {
                assert(known[i].slug@ != model@);
            }
        }
    }
}

} // verus!
