//! Models: what the service tells about them, and how they are listed.

use crate::text::{copy_optional, optional};
use vstd::prelude::*;

verus! {

/// How long a model thinks before it answers.
#[derive(Clone, Copy, Debug, PartialEq, Eq, Structural)]
pub enum ReasoningEffort {
    /// No reasoning at all.
    Off,
    Minimal,
    Low,
    Medium,
    High,
    XHigh,
}

/// A reasoning effort on offer, with a word on it.
#[derive(Debug, PartialEq, Eq)]
pub struct ReasoningEffortPreset {
    pub effort: ReasoningEffort,
    pub description: String,
}

/// The content of a [`ReasoningEffortPreset`].
pub struct ReasoningEffortPresetView {
    pub effort: ReasoningEffort,
    pub description: Seq<char>,
}

impl View for ReasoningEffortPreset {
    type V = ReasoningEffortPresetView;

    open spec fn view(&self) -> ReasoningEffortPresetView {
        ReasoningEffortPresetView { effort: self.effort, description: self.description@ }
    }
}

impl Clone for ReasoningEffortPreset {
    fn clone(&self) -> (copy: Self)
        ensures
            copy@ == self@,
    {
        ReasoningEffortPreset { effort: self.effort, description: self.description.clone() }
    }
}

/// The contents of a list of efforts.
pub open spec fn efforts_view(
    efforts: Seq<ReasoningEffortPreset>,
) -> Seq<ReasoningEffortPresetView> {
    efforts.map_values(|effort: ReasoningEffortPreset| effort@)
}

fn copy_efforts(efforts: &Vec<ReasoningEffortPreset>) -> (copies: Vec<ReasoningEffortPreset>)
    ensures
        efforts_view(copies@) == efforts_view(efforts@),
{
    let mut copies: Vec<ReasoningEffortPreset> = Vec::new();
    for i in 0..efforts.len()
        invariant
            copies@.len() == i,
            forall|j: int| 0 <= j < i ==> copies@[j]@ == efforts@[j]@,
    {
        copies.push(efforts[i].clone());
    }
    assert(efforts_view(copies@) =~= efforts_view(efforts@));
    copies
}

/// A model as it is listed.
#[derive(Debug, PartialEq, Eq)]
pub struct ModelPreset {
    pub id: String,
    pub model: String,
    pub display_name: String,
    pub description: String,
    pub default_reasoning_effort: ReasoningEffort,
    pub supported_reasoning_efforts: Vec<ReasoningEffortPreset>,
    pub supports_personality: bool,
    pub is_default: bool,
    pub upgrade: Option<String>,
    pub show_in_picker: bool,
    pub supported_in_api: bool,
}

/// The content of a [`ModelPreset`].
#[verifier::ext_equal]
pub struct ModelPresetView {
    pub id: Seq<char>,
    pub model: Seq<char>,
    pub display_name: Seq<char>,
    pub description: Seq<char>,
    pub default_reasoning_effort: ReasoningEffort,
    pub supported_reasoning_efforts: Seq<ReasoningEffortPresetView>,
    pub supports_personality: bool,
    pub is_default: bool,
    pub upgrade: Option<Seq<char>>,
    pub show_in_picker: bool,
    pub supported_in_api: bool,
}

impl View for ModelPreset {
    type V = ModelPresetView;

    open spec fn view(&self) -> ModelPresetView {
        ModelPresetView {
            id: self.id@,
            model: self.model@,
            display_name: self.display_name@,
            description: self.description@,
            default_reasoning_effort: self.default_reasoning_effort,
            supported_reasoning_efforts: efforts_view(self.supported_reasoning_efforts@),
            supports_personality: self.supports_personality,
            is_default: self.is_default,
            upgrade: optional(self.upgrade),
            show_in_picker: self.show_in_picker,
            supported_in_api: self.supported_in_api,
        }
    }
}

impl Clone for ModelPreset {
    fn clone(&self) -> (copy: Self)
        ensures
            copy@ == self@,
    {
        ModelPreset {
            id: self.id.clone(),
            model: self.model.clone(),
            display_name: self.display_name.clone(),
            description: self.description.clone(),
            default_reasoning_effort: self.default_reasoning_effort,
            supported_reasoning_efforts: copy_efforts(&self.supported_reasoning_efforts),
            supports_personality: self.supports_personality,
            is_default: self.is_default,
            upgrade: copy_optional(&self.upgrade),
            show_in_picker: self.show_in_picker,
            supported_in_api: self.supported_in_api,
        }
    }
}

/// The contents of a list of presets.
pub open spec fn presets_view(presets: Seq<ModelPreset>) -> Seq<ModelPresetView> {
    presets.map_values(|preset: ModelPreset| preset@)
}

/// A copy of a list of presets.
pub fn copy_presets(presets: &Vec<ModelPreset>) -> (copies: Vec<ModelPreset>)
    ensures
        presets_view(copies@) == presets_view(presets@),
{
    let mut copies: Vec<ModelPreset> = Vec::new();
    for i in 0..presets.len()
        invariant
            copies@.len() == i,
            forall|j: int| 0 <= j < i ==> copies@[j]@ == presets@[j]@,
    {
        copies.push(presets[i].clone());
    }
    assert(presets_view(copies@) =~= presets_view(presets@));
    copies
}

/// What is known of a model. `preset` is the entry it is listed with, and `metadata` holds
/// whatever else the service tells of it, as it was sent.
#[derive(Debug, PartialEq, Eq)]
pub struct ModelInfo {
    pub slug: String,
    pub priority: i32,
    pub default_reasoning_level: Option<ReasoningEffort>,
    pub supported_reasoning_levels: Vec<ReasoningEffortPreset>,
    pub supports_personality: bool,
    pub preset: ModelPreset,
    pub metadata: String,
}

/// The content of a [`ModelInfo`].
pub struct ModelInfoView {
    pub slug: Seq<char>,
    pub priority: i32,
    pub default_reasoning_level: Option<ReasoningEffort>,
    pub supported_reasoning_levels: Seq<ReasoningEffortPresetView>,
    pub supports_personality: bool,
    pub preset: ModelPresetView,
    pub metadata: Seq<char>,
}

impl View for ModelInfo {
    type V = ModelInfoView;

    open spec fn view(&self) -> ModelInfoView {
        ModelInfoView {
            slug: self.slug@,
            priority: self.priority,
            default_reasoning_level: self.default_reasoning_level,
            supported_reasoning_levels: efforts_view(self.supported_reasoning_levels@),
            supports_personality: self.supports_personality,
            preset: self.preset@,
            metadata: self.metadata@,
        }
    }
}

impl Clone for ModelInfo {
    fn clone(&self) -> (copy: Self)
        ensures
            copy@ == self@,
    {
        ModelInfo {
            slug: self.slug.clone(),
            priority: self.priority,
            default_reasoning_level: self.default_reasoning_level,
            supported_reasoning_levels: copy_efforts(&self.supported_reasoning_levels),
            supports_personality: self.supports_personality,
            preset: self.preset.clone(),
            metadata: self.metadata.clone(),
        }
    }
}

/// The contents of a list of models.
pub open spec fn infos_view(infos: Seq<ModelInfo>) -> Seq<ModelInfoView> {
    infos.map_values(|info: ModelInfo| info@)
}

/// A copy of a list of models.
pub fn copy_infos(infos: &Vec<ModelInfo>) -> (copies: Vec<ModelInfo>)
    ensures
        infos_view(copies@) == infos_view(infos@),
{
    let mut copies: Vec<ModelInfo> = Vec::new();
    for i in 0..infos.len()
        invariant
            copies@.len() == i,
            forall|j: int| 0 <= j < i ==> copies@[j]@ == infos@[j]@,
    {
        copies.push(infos[i].clone());
    }
    assert(infos_view(copies@) =~= infos_view(infos@));
    copies
}

/// The settings that bear on the choice of a model.
#[derive(Debug, PartialEq, Eq)]
pub struct Config {
    pub model: Option<String>,
    pub model_provider_id: String,
    pub model_reasoning_effort: Option<ReasoningEffort>,
    pub remote_models_enabled: bool,
}

/// The content of a [`Config`].
pub struct ConfigView {
    pub model: Option<Seq<char>>,
    pub model_provider_id: Seq<char>,
    pub model_reasoning_effort: Option<ReasoningEffort>,
    pub remote_models_enabled: bool,
}

impl View for Config {
    type V = ConfigView;

    open spec fn view(&self) -> ConfigView {
        ConfigView {
            model: optional(self.model),
            model_provider_id: self.model_provider_id@,
            model_reasoning_effort: self.model_reasoning_effort,
            remote_models_enabled: self.remote_models_enabled,
        }
    }
}

/// What is shown of an entry, of a model and of the settings is what their fields hold, all of
/// them, and lists keep their order.
pub proof fn law_content_of_models(
    preset: ModelPreset,
    info: ModelInfo,
    config: Config,
    efforts: Seq<ReasoningEffortPreset>,
    presets: Seq<ModelPreset>,
    infos: Seq<ModelInfo>,
)
    ensures
        preset@.id == preset.id@,
        preset@.model == preset.model@,
        preset@.display_name == preset.display_name@,
        preset@.description == preset.description@,
        preset@.default_reasoning_effort == preset.default_reasoning_effort,
        preset@.supported_reasoning_efforts == efforts_view(preset.supported_reasoning_efforts@),
        preset@.supports_personality == preset.supports_personality,
        preset@.is_default == preset.is_default,
        preset@.upgrade == optional(preset.upgrade),
        preset@.show_in_picker == preset.show_in_picker,
        preset@.supported_in_api == preset.supported_in_api,
        info@.slug == info.slug@,
        info@.priority == info.priority,
        info@.default_reasoning_level == info.default_reasoning_level,
        info@.supported_reasoning_levels == efforts_view(info.supported_reasoning_levels@),
        info@.supports_personality == info.supports_personality,
        info@.preset == info.preset@,
        info@.metadata == info.metadata@,
        config@.model == optional(config.model),
        config@.model_provider_id == config.model_provider_id@,
        config@.model_reasoning_effort == config.model_reasoning_effort,
        config@.remote_models_enabled == config.remote_models_enabled,
        efforts_view(efforts).len() == efforts.len(),
        forall|i: int|
            0 <= i < efforts.len() ==> efforts_view(efforts)[i] == (ReasoningEffortPresetView {
                effort: (#[trigger] efforts[i]).effort,
                description: efforts[i].description@,
            }),
        presets_view(presets).len() == presets.len(),
        forall|i: int| 0 <= i < presets.len() ==> presets_view(presets)[i] == (#[trigger] presets[i])@,
        infos_view(infos).len() == infos.len(),
        forall|i: int| 0 <= i < infos.len() ==> infos_view(infos)[i] == (#[trigger] infos[i])@,
{
}

} // verus!
