//! The edits to the configuration file that make a custom provider the default one.

use crate::onboarding::provider::{error_text, CustomProviderConfig, CustomProviderView};
use crate::onboarding::wizard::ApiProviderWireApi;
use crate::text::joined;
use vstd::prelude::*;

verus! {

/// A value in the configuration file.
#[derive(Debug, PartialEq, Eq)]
pub enum ConfigValue {
    Text(String),
    Flag(bool),
}

/// One edit to the configuration file.
#[derive(Debug, PartialEq, Eq)]
pub enum ConfigEdit {
    /// Removes the entry at the path and everything below it.
    ClearPath { segments: Vec<String> },
    /// Writes a value at the path.
    SetPath { segments: Vec<String>, value: ConfigValue },
}

/// The content of a [`ConfigValue`].
pub enum ConfigValueView {
    Text(Seq<char>),
    Flag(bool),
}

/// A place in the configuration file: the names that lead to it.
pub type ConfigPath = Seq<Seq<char>>;

/// The content of a [`ConfigEdit`].
pub enum ConfigEditView {
    Cleared(ConfigPath),
    Written(ConfigPath, ConfigValueView),
}

impl View for ConfigValue {
    type V = ConfigValueView;

    open spec fn view(&self) -> ConfigValueView {
        match self {
            ConfigValue::Text(text) => ConfigValueView::Text(text@),
            ConfigValue::Flag(flag) => ConfigValueView::Flag(*flag),
        }
    }
}

/// The names that a list of segments spells.
pub open spec fn path_view(segments: Seq<String>) -> ConfigPath {
    Seq::new(segments.len(), |i: int| segments[i]@)
}

impl View for ConfigEdit {
    type V = ConfigEditView;

    open spec fn view(&self) -> ConfigEditView {
        match self {
            ConfigEdit::ClearPath { segments } => ConfigEditView::Cleared(path_view(segments@)),
            ConfigEdit::SetPath { segments, value } => ConfigEditView::Written(
                path_view(segments@),
                value@,
            ),
        }
    }
}

/// The contents of a list of edits.
pub open spec fn edits_view(edits: Seq<ConfigEdit>) -> Seq<ConfigEditView> {
    Seq::new(edits.len(), |i: int| edits[i]@)
}

/// The place of the provider's table.
pub open spec fn provider_path(provider_id: Seq<char>) -> ConfigPath {
    seq!["model_providers"@, provider_id]
}

/// The place of one entry of the provider's table.
pub open spec fn provider_entry(provider_id: Seq<char>, key: Seq<char>) -> ConfigPath {
    seq!["model_providers"@, provider_id, key]
}

/// The edits that drop an earlier table of the provider, select the provider and its model,
/// and write the table anew.
pub open spec fn provider_edits(config: CustomProviderView) -> Seq<ConfigEditView> {
    let id = config.provider_id;
    seq![
        ConfigEditView::Cleared(provider_path(id)),
        ConfigEditView::Written(seq!["model_provider"@], ConfigValueView::Text(id)),
        ConfigEditView::Written(seq!["model"@], ConfigValueView::Text(config.model)),
        ConfigEditView::Written(provider_entry(id, "name"@), ConfigValueView::Text(id)),
        ConfigEditView::Written(
            provider_entry(id, "base_url"@),
            ConfigValueView::Text(config.base_url),
        ),
        ConfigEditView::Written(
            provider_entry(id, "wire_api"@),
            ConfigValueView::Text(config.wire_api.name()),
        ),
        ConfigEditView::Written(
            provider_entry(id, "experimental_bearer_token"@),
            ConfigValueView::Text(config.api_key),
        ),
        ConfigEditView::Written(
            provider_entry(id, "requires_openai_auth"@),
            ConfigValueView::Flag(false),
        ),
    ]
}

/// An edit that writes `value` at a top-level name.
fn set_top_level(key: &str, value: ConfigValue) -> (edit: ConfigEdit)
    ensures
        edit@ == ConfigEditView::Written(seq![key@], value@),
{
    let segments = vec![key.to_string()];
    assert(path_view(segments@) =~= seq![key@]);
    ConfigEdit::SetPath { segments, value }
}

/// An edit that writes `value` in the table of a provider.
fn set_in_provider(provider_id: &str, key: &str, value: ConfigValue) -> (edit: ConfigEdit)
    ensures
        edit@ == ConfigEditView::Written(provider_entry(provider_id@, key@), value@),
{
    let segments = vec!["model_providers".to_string(), provider_id.to_string(), key.to_string()];
    assert(path_view(segments@) =~= provider_entry(provider_id@, key@));
    ConfigEdit::SetPath { segments, value }
}

/// The edits that make a custom provider the default one.
pub fn build_custom_provider_edits(config: &CustomProviderConfig) -> (edits: Vec<ConfigEdit>)
    ensures
        edits_view(edits@) == provider_edits(config@),
{
    let id: &str = &config.provider_id;
    let provider_path = vec!["model_providers".to_string(), id.to_string()];
    assert(path_view(provider_path@) =~= self::provider_path(id@));
    let edits = vec![
        ConfigEdit::ClearPath { segments: provider_path },
        set_top_level("model_provider", ConfigValue::Text(config.provider_id.clone())),
        set_top_level("model", ConfigValue::Text(config.model.clone())),
        set_in_provider(id, "name", ConfigValue::Text(config.provider_id.clone())),
        set_in_provider(id, "base_url", ConfigValue::Text(config.base_url.clone())),
        set_in_provider(
            id,
            "wire_api",
            ConfigValue::Text(config.wire_api.as_config_value().to_string()),
        ),
        set_in_provider(
            id,
            "experimental_bearer_token",
            ConfigValue::Text(config.api_key.clone()),
        ),
        set_in_provider(id, "requires_openai_auth", ConfigValue::Flag(false)),
    ];
    assert(edits_view(edits@) =~= provider_edits(config@));
    edits
}

/// What is written after the provider was judged: nothing when it was refused.
pub open spec fn edits_to_write(
    config: CustomProviderView,
    judged: Option<Seq<char>>,
) -> Result<Seq<ConfigEditView>, Seq<char>> {
    match judged {
        Some(error) => Err(error),
        None => Ok(provider_edits(config)),
    }
}

/// Decides what to write once the provider was judged: the edits, or its error and no edit.
pub fn persist_custom_provider_config(
    config: &CustomProviderConfig,
    judged: Result<(), String>,
) -> (edits: Result<Vec<ConfigEdit>, String>)
    ensures
        match edits {
            Ok(edits) => Ok(edits_view(edits@)),
            Err(error) => Err(error@),
        } == edits_to_write(config@, error_text(judged)),
{
    match judged {
        Ok(()) => Ok(build_custom_provider_edits(config)),
        Err(error) => Err(error),
    }
}

/// The outcome that is reported once the edits were applied, or could not be.
pub fn written_outcome(applied: Result<(), String>) -> (outcome: Result<(), String>)
    ensures
        error_text(outcome) == match error_text(applied) {
            Some(error) => Some("Failed to write config.toml: "@ + error),
            None => None,
        },
{
    match applied {
        Ok(()) => Ok(()),
        Err(error) => Err(joined("Failed to write config.toml: ", &error)),
    }
}

/// A configuration file: the value at each place that has one.
pub type ConfigTable = Map<ConfigPath, ConfigValueView>;

/// The path lies at `top` or below it.
pub open spec fn is_under(path: ConfigPath, top: ConfigPath) -> bool {
    top.len() <= path.len() && path.take(top.len() as int) == top
}

/// The file after one edit.
pub open spec fn edited(table: ConfigTable, edit: ConfigEditView) -> ConfigTable {
    match edit {
        ConfigEditView::Cleared(top) => table.remove_keys(
            Set::new(|path: ConfigPath| is_under(path, top)),
        ),
        ConfigEditView::Written(path, value) => table.insert(path, value),
    }
}

/// The file after a list of edits, from the first to the last.
pub open spec fn all_edited(table: ConfigTable, edits: Seq<ConfigEditView>) -> ConfigTable
    decreases edits.len(),
{
    if edits.len() == 0 {
        table
    } else {
        edited(all_edited(table, edits.drop_last()), edits.last())
    }
}

/// The entries that the table of a custom provider holds.
pub open spec fn provider_table(config: CustomProviderView) -> ConfigTable {
    let id = config.provider_id;
    map![
        provider_entry(id, "name"@) => ConfigValueView::Text(id),
        provider_entry(id, "base_url"@) => ConfigValueView::Text(config.base_url),
        provider_entry(id, "wire_api"@) => ConfigValueView::Text(config.wire_api.name()),
        provider_entry(id, "experimental_bearer_token"@) => ConfigValueView::Text(config.api_key),
        provider_entry(id, "requires_openai_auth"@) => ConfigValueView::Flag(false)
    ]
}

/// Whatever the file held, afterwards it selects the provider and its model, the provider's
/// table holds the settings and nothing else, and every other place is as it was.
pub proof fn law_edits_select_the_provider(table: ConfigTable, config: CustomProviderView)
    ensures
        ({
            let after = all_edited(table, provider_edits(config));
            let top = provider_path(config.provider_id);
            &&& after.contains_pair(
                seq!["model_provider"@],
                ConfigValueView::Text(config.provider_id),
            )
            &&& after.contains_pair(seq!["model"@], ConfigValueView::Text(config.model))
            &&& forall|path: ConfigPath, value: ConfigValueView|
                is_under(path, top) ==> (after.contains_pair(path, value) <==> provider_table(
                    config,
                ).contains_pair(path, value))
            &&& forall|path: ConfigPath, value: ConfigValueView|
                !is_under(path, top) && path != seq!["model_provider"@] && path != seq!["model"@]
                    ==> (after.contains_pair(path, value) <==> table.contains_pair(path, value))
        }),
{
    let id = config.provider_id;
    let edits = provider_edits(config);
    let after = all_edited(table, edits);
    reveal_strlit("model");
    reveal_strlit("model_provider");
    reveal_strlit("name");
    reveal_strlit("base_url");
    reveal_strlit("wire_api");
    reveal_strlit("experimental_bearer_token");
    reveal_strlit("requires_openai_auth");
    assert("model_provider"@.len() != "model"@.len());
    let cleared = edited(table, edits[0]);
    let selected = cleared.insert(
        seq!["model_provider"@],
        ConfigValueView::Text(id),
    ).insert(seq!["model"@], ConfigValueView::Text(config.model));
    assert(after == selected.insert(
        provider_entry(id, "name"@),
        ConfigValueView::Text(id),
    ).insert(provider_entry(id, "base_url"@), ConfigValueView::Text(config.base_url)).insert(
        provider_entry(id, "wire_api"@),
        ConfigValueView::Text(config.wire_api.name()),
    ).insert(
        provider_entry(id, "experimental_bearer_token"@),
        ConfigValueView::Text(config.api_key),
    ).insert(provider_entry(id, "requires_openai_auth"@), ConfigValueView::Flag(false))) by {
        lemma_prefixes_edited(table, edits);
    }
    let top = provider_path(id);
    assert(seq!["model_provider"@][0] != seq!["model"@][0]);
    assert forall|key: Seq<char>| is_under(#[trigger] provider_entry(id, key), top) by {
        assert(provider_entry(id, key).take(2) =~= top);
    }
    assert forall|a: Seq<char>, b: Seq<char>|
        #[trigger] provider_entry(id, a) == #[trigger] provider_entry(id, b) implies a == b by {
        assert(provider_entry(id, a)[2] == provider_entry(id, b)[2]);
    }
}

/// Eight edits, applied one after the other.
proof fn lemma_prefixes_edited(table: ConfigTable, edits: Seq<ConfigEditView>)
    requires
        edits.len() == 8,
    ensures
        all_edited(table, edits) == edited(
            edited(
                edited(
                    edited(
                        edited(
                            edited(edited(edited(table, edits[0]), edits[1]), edits[2]),
                            edits[3],
                        ),
                        edits[4],
                    ),
                    edits[5],
                ),
                edits[6],
            ),
            edits[7],
        ),
{
    reveal_with_fuel(all_edited, 9);
    assert(edits.drop_last().last() == edits[6]);
}

/// The edits in the order in which they are applied: an earlier table of the provider goes first,
/// and nothing is written that does not come from the settings.
pub proof fn law_edits_in_their_order(config: CustomProviderView)
    ensures
        ({
            let edits = provider_edits(config);
            let id = config.provider_id;
            let top = "model_providers"@;
            let chosen = match config.wire_api {
                ApiProviderWireApi::Chat => "chat"@,
                ApiProviderWireApi::Responses => "responses"@,
            };
            &&& edits.len() == 8
            &&& edits[0] == ConfigEditView::Cleared(seq![top, id])
            &&& edits[1] == ConfigEditView::Written(
                seq!["model_provider"@],
                ConfigValueView::Text(id),
            )
            &&& edits[2] == ConfigEditView::Written(
                seq!["model"@],
                ConfigValueView::Text(config.model),
            )
            &&& edits[3] == ConfigEditView::Written(
                seq![top, id, "name"@],
                ConfigValueView::Text(id),
            )
            &&& edits[4] == ConfigEditView::Written(
                seq![top, id, "base_url"@],
                ConfigValueView::Text(config.base_url),
            )
            &&& edits[5] == ConfigEditView::Written(
                seq![top, id, "wire_api"@],
                ConfigValueView::Text(chosen),
            )
            &&& edits[6] == ConfigEditView::Written(
                seq![top, id, "experimental_bearer_token"@],
                ConfigValueView::Text(config.api_key),
            )
            &&& edits[7] == ConfigEditView::Written(
                seq![top, id, "requires_openai_auth"@],
                ConfigValueView::Flag(false),
            )
        }),
{
}

/// A provider that was refused has nothing written, and its error is reported as it is; one that
/// was accepted has all its edits written.
pub proof fn law_refused_provider_is_not_written(config: CustomProviderView, error: Seq<char>)
    ensures
        edits_to_write(config, Some(error)) == Err::<Seq<ConfigEditView>, _>(error),
        edits_to_write(config, None) == Ok::<_, Seq<char>>(provider_edits(config)),
{
}

/// What is reported of edits that were applied is nothing, and of those that were not, why.
pub proof fn law_report_of_the_edits(applied: Result<(), String>, outcome: Result<(), String>)
    requires
        call_ensures(written_outcome, (applied,), outcome),
    ensures
        applied is Ok <==> outcome is Ok,
        applied matches Err(error) ==> {
            &&& outcome matches Err(reported)
            &&& reported@ == "Failed to write config.toml: "@ + error@
        },
{
}

/// An edit names the places and the value that its fields spell, and a list of edits keeps its
/// order.
pub proof fn law_content_of_edits(
    segments: Vec<String>,
    text: String,
    flag: bool,
    edits: Seq<ConfigEdit>,
)
    ensures
        (ConfigEdit::ClearPath { segments })@ matches ConfigEditView::Cleared(path) && path.len()
            == segments@.len() && forall|i: int|
            0 <= i < path.len() ==> #[trigger] path[i] == segments@[i]@,
        (ConfigEdit::SetPath { segments, value: ConfigValue::Text(text) })@
            matches ConfigEditView::Written(path, value) && value == ConfigValueView::Text(text@)
            && path.len() == segments@.len() && forall|i: int|
            0 <= i < path.len() ==> #[trigger] path[i] == segments@[i]@,
        (ConfigEdit::SetPath { segments, value: ConfigValue::Flag(flag) })@
            matches ConfigEditView::Written(_, value) && value == ConfigValueView::Flag(flag),
        edits_view(edits).len() == edits.len(),
        forall|i: int| 0 <= i < edits.len() ==> edits_view(edits)[i] == (#[trigger] edits[i])@,
{
}

} // verus!
