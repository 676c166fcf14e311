//! The settings of a custom provider: how they are validated and taken out of the wizard.

use crate::onboarding::wizard::{
    ApiKeyInputState, ApiKeyInputView, ApiProviderWireApi, ApiProviderWizardStep,
};
use crate::text::{joined, law_trim_is_idempotent, same_text, trimmed};
use vstd::prelude::*;

verus! {

/// The error that a validation reports, if any.
pub open spec fn error_text(outcome: Result<(), String>) -> Option<Seq<char>> {
    match outcome {
        Ok(_) => None,
        Err(error) => Some(error@),
    }
}

/// A field must not be empty.
pub open spec fn non_empty_error(value: Seq<char>, field_name: Seq<char>) -> Option<Seq<char>> {
    if value.len() == 0 {
        Some(field_name + " cannot be empty"@)
    } else {
        None
    }
}

/// A character that a provider ID may hold: an ASCII letter or digit, `_` or `-`.
pub open spec fn provider_id_char(c: char) -> bool {
    ||| 'a' <= c <= 'z'
    ||| 'A' <= c <= 'Z'
    ||| '0' <= c <= '9'
    ||| c == '_'
    ||| c == '-'
}

/// What is wrong with a provider ID.
pub open spec fn provider_id_error(provider_id: Seq<char>) -> Option<Seq<char>> {
    if provider_id.len() == 0 {
        non_empty_error(provider_id, "Provider ID"@)
    } else if forall|i: int| 0 <= i < provider_id.len() ==> provider_id_char(provider_id[i]) {
        None
    } else {
        Some("Provider ID can only contain letters, numbers, '_' or '-'"@)
    }
}

/// The value of a field must not be empty; the error names the field.
pub fn validate_non_empty(value: &str, field_name: &str) -> (outcome: Result<(), String>)
    ensures
        error_text(outcome) == non_empty_error(value@, field_name@),
{
    if value.is_empty() {
        Err(joined(field_name, " cannot be empty"))
    } else {
        Ok(())
    }
}

/// A provider ID is non-empty and made of ASCII letters, digits, `_` and `-`.
pub fn validate_provider_id(provider_id: &str) -> (outcome: Result<(), String>)
    ensures
        error_text(outcome) == provider_id_error(provider_id@),
{
    if provider_id.is_empty() {
        return validate_non_empty(provider_id, "Provider ID");
    }
    for c in it: provider_id.chars()
        invariant
            it.seq() == provider_id@,
            provider_id@.len() > 0,
            forall|i: int| 0 <= i < it.index() ==> provider_id_char(provider_id@[i]),
    {
        let allowed = ('a' <= c && c <= 'z') || ('A' <= c && c <= 'Z') || ('0' <= c && c <= '9')
            || c == '_' || c == '-';
        if !allowed {
            assert(!provider_id_char(provider_id@[it.index()]));
            return Err("Provider ID can only contain letters, numbers, '_' or '-'".to_string());
        }
    }
    Ok(())
}

/// What `url::Url::parse` makes of a text: the scheme of the URL, or the message of the
/// parse error.
pub uninterp spec fn url_scheme(text: Seq<char>) -> Result<Seq<char>, Seq<char>>;

/// The characters of a text or of the message that stands in its place.
pub open spec fn text_or_message(outcome: Result<String, String>) -> Result<Seq<char>, Seq<char>> {
    match outcome {
        Ok(text) => Ok(text@),
        Err(message) => Err(message@),
    }
}

/// Parses `text` with `url::Url::parse` and reads the scheme with `Url::scheme`, or the
/// message of the `ParseError`. Both depend on the text alone, which is all that is claimed.
#[verifier::external_body]
fn parse_url_scheme(text: &str) -> (scheme: Result<String, String>)
    ensures
        text_or_message(scheme) == url_scheme(text@),
{
    match url::Url::parse(text) {
        Ok(url) => Ok(url.scheme().to_string()),
        Err(error) => Err(error.to_string()),
    }
}

/// What is wrong with a base URL that was parsed to `scheme`.
pub open spec fn scheme_error(scheme: Result<Seq<char>, Seq<char>>) -> Option<Seq<char>> {
    match scheme {
        Ok(scheme) => if scheme == "http"@ || scheme == "https"@ {
            None
        } else {
            Some("Base URL must use http or https, got "@ + scheme)
        },
        Err(message) => Some("Invalid base URL: "@ + message),
    }
}

/// What is wrong with a base URL.
pub open spec fn base_url_error(base_url: Seq<char>) -> Option<Seq<char>> {
    if base_url.len() == 0 {
        non_empty_error(base_url, "Base URL"@)
    } else {
        scheme_error(url_scheme(base_url))
    }
}

/// A parsed base URL is used over `http` or `https`; one that did not parse is refused with
/// the parser's message.
pub fn validate_scheme(scheme: Result<String, String>) -> (outcome: Result<(), String>)
    ensures
        error_text(outcome) == scheme_error(text_or_message(scheme)),
{
    match scheme {
        Ok(scheme) => if same_text(&scheme, "http") || same_text(&scheme, "https") {
            Ok(())
        } else {
            Err(joined("Base URL must use http or https, got ", &scheme))
        },
        Err(message) => Err(joined("Invalid base URL: ", &message)),
    }
}

/// A base URL is a non-empty URL with the scheme `http` or `https`.
pub fn validate_base_url(base_url: &str) -> (outcome: Result<(), String>)
    ensures
        error_text(outcome) == base_url_error(base_url@),
{
    if base_url.is_empty() {
        return validate_non_empty(base_url, "Base URL");
    }
    validate_scheme(parse_url_scheme(base_url))
}

/// What is wrong with the input at the wizard's current step.
pub open spec fn step_error(input: ApiKeyInputView) -> Option<Seq<char>> {
    match input.step {
        ApiProviderWizardStep::ProviderId => provider_id_error(trimmed(input.provider_id)),
        ApiProviderWizardStep::WireApi => None,
        ApiProviderWizardStep::BaseUrl => base_url_error(trimmed(input.base_url)),
        ApiProviderWizardStep::ApiKey => non_empty_error(trimmed(input.api_key), "API key"@),
        ApiProviderWizardStep::Model => non_empty_error(trimmed(input.model), "Model"@),
    }
}

/// Validates what was typed at the wizard's current step, without the white space around it.
pub fn validate_current_step(state: &ApiKeyInputState) -> (outcome: Result<(), String>)
    ensures
        error_text(outcome) == step_error(state@),
{
    match state.step {
        ApiProviderWizardStep::ProviderId => validate_provider_id(state.provider_id.trim()),
        ApiProviderWizardStep::WireApi => Ok(()),
        ApiProviderWizardStep::BaseUrl => validate_base_url(state.base_url.trim()),
        ApiProviderWizardStep::ApiKey => validate_non_empty(state.api_key.trim(), "API key"),
        ApiProviderWizardStep::Model => validate_non_empty(state.model.trim(), "Model"),
    }
}

/// The settings of a custom provider.
#[derive(Debug, PartialEq, Eq)]
pub struct CustomProviderConfig {
    pub provider_id: String,
    pub wire_api: ApiProviderWireApi,
    pub base_url: String,
    pub api_key: String,
    pub model: String,
}

/// The characters of a [`CustomProviderConfig`].
pub struct CustomProviderView {
    pub provider_id: Seq<char>,
    pub wire_api: ApiProviderWireApi,
    pub base_url: Seq<char>,
    pub api_key: Seq<char>,
    pub model: Seq<char>,
}

impl View for CustomProviderConfig {
    type V = CustomProviderView;

    open spec fn view(&self) -> CustomProviderView {
        CustomProviderView {
            provider_id: self.provider_id@,
            wire_api: self.wire_api,
            base_url: self.base_url@,
            api_key: self.api_key@,
            model: self.model@,
        }
    }
}

impl CustomProviderView {
    /// The first thing that is wrong with the settings.
    pub open spec fn error(self) -> Option<Seq<char>> {
        if provider_id_error(self.provider_id) is Some {
            provider_id_error(self.provider_id)
        } else if base_url_error(self.base_url) is Some {
            base_url_error(self.base_url)
        } else if self.api_key.len() == 0 {
            non_empty_error(self.api_key, "API key"@)
        } else {
            non_empty_error(self.model, "Model"@)
        }
    }
}

/// The settings that were typed into the wizard, without the white space around each.
pub open spec fn typed_settings(input: ApiKeyInputView) -> CustomProviderView {
    CustomProviderView {
        provider_id: trimmed(input.provider_id),
        wire_api: input.wire_api,
        base_url: trimmed(input.base_url),
        api_key: trimmed(input.api_key),
        model: trimmed(input.model),
    }
}

/// The settings that the wizard yields, or what is wrong with them.
pub open spec fn settings(input: ApiKeyInputView) -> Result<CustomProviderView, Seq<char>> {
    match typed_settings(input).error() {
        Some(error) => Err(error),
        None => Ok(typed_settings(input)),
    }
}

/// The characters of settings or of the error that stands in their place.
pub open spec fn settings_view(
    outcome: Result<CustomProviderConfig, String>,
) -> Result<CustomProviderView, Seq<char>> {
    match outcome {
        Ok(config) => Ok(config@),
        Err(error) => Err(error@),
    }
}

/// Takes the settings out of the wizard, trimmed and validated.
pub fn snapshot_custom_provider_config(
    state: &ApiKeyInputState,
) -> (outcome: Result<CustomProviderConfig, String>)
    ensures
        settings_view(outcome) == settings(state@),
{
    let provider_id = state.provider_id.trim().to_string();
    let base_url = state.base_url.trim().to_string();
    let api_key = state.api_key.trim().to_string();
    let model = state.model.trim().to_string();

    if let Err(error) = validate_provider_id(&provider_id) {
        return Err(error);
    }
    if let Err(error) = validate_base_url(&base_url) {
        return Err(error);
    }
    if let Err(error) = validate_non_empty(&api_key, "API key") {
        return Err(error);
    }
    if let Err(error) = validate_non_empty(&model, "Model") {
        return Err(error);
    }
    Ok(CustomProviderConfig { provider_id, wire_api: state.wire_api, base_url, api_key, model })
}

/// The wizard yields settings exactly when the input of every step passes that step's
/// validation.
pub proof fn law_settings_need_every_step(input: ApiKeyInputView)
    ensures
        settings(input) is Ok <==> forall|step: ApiProviderWizardStep|
            step_error(#[trigger] at_step(input, step)) is None,
{
    if forall|step: ApiProviderWizardStep| step_error(#[trigger] at_step(input, step)) is None {
        assert(step_error(at_step(input, ApiProviderWizardStep::ProviderId)) is None);
        assert(step_error(at_step(input, ApiProviderWizardStep::BaseUrl)) is None);
        assert(step_error(at_step(input, ApiProviderWizardStep::ApiKey)) is None);
        assert(step_error(at_step(input, ApiProviderWizardStep::Model)) is None);
    }
}

/// The same input with the wizard at `step`.
pub open spec fn at_step(input: ApiKeyInputView, step: ApiProviderWizardStep) -> ApiKeyInputView {
    ApiKeyInputView { step, ..input }
}

/// The wizard filled with settings, as it is shown again when they could not be saved.
pub open spec fn refilled(config: CustomProviderView, error: Seq<char>) -> ApiKeyInputView {
    ApiKeyInputView {
        provider_id: config.provider_id,
        wire_api: config.wire_api,
        base_url: config.base_url,
        api_key: config.api_key,
        model: config.model,
        step: ApiProviderWizardStep::Model,
        validating: false,
        error: Some(error),
    }
}

/// Settings that came out of the wizard once come out unchanged when they are put back.
pub proof fn law_settings_survive_refilling(input: ApiKeyInputView, error: Seq<char>)
    requires
        settings(input) is Ok,
    ensures
        settings(refilled(settings(input)->Ok_0, error)) == settings(input),
{
    law_trim_is_idempotent(input.provider_id);
    law_trim_is_idempotent(input.base_url);
    law_trim_is_idempotent(input.api_key);
    law_trim_is_idempotent(input.model);
}

/// A provider ID is accepted exactly if it is not empty and each of its characters is an ASCII
/// letter, an ASCII digit, an underscore or a hyphen.
pub proof fn law_accepted_provider_ids(provider_id: Seq<char>)
    ensures
        provider_id_error(provider_id) is None <==> provider_id.len() > 0 && forall|i: int|
            #![trigger provider_id[i]]
            0 <= i < provider_id.len() ==> {
                ||| 'a' <= provider_id[i] <= 'z'
                ||| 'A' <= provider_id[i] <= 'Z'
                ||| '0' <= provider_id[i] <= '9'
                ||| provider_id[i] == '_'
                ||| provider_id[i] == '-'
            },
        provider_id.len() == 0 ==> provider_id_error(provider_id) == Some(
            "Provider ID cannot be empty"@,
        ),
        provider_id.len() > 0 && provider_id_error(provider_id) is Some ==> provider_id_error(
            provider_id,
        ) == Some("Provider ID can only contain letters, numbers, '_' or '-'"@),
{
    reveal_strlit("Provider ID");
    reveal_strlit(" cannot be empty");
    reveal_strlit("Provider ID cannot be empty");
    assert("Provider ID"@ + " cannot be empty"@ =~= "Provider ID cannot be empty"@);
    if provider_id_error(provider_id) is None {
        assert forall|i: int|
            #![trigger provider_id[i]]
            0 <= i < provider_id.len() implies {
                ||| 'a' <= provider_id[i] <= 'z'
                ||| 'A' <= provider_id[i] <= 'Z'
                ||| '0' <= provider_id[i] <= '9'
                ||| provider_id[i] == '_'
                ||| provider_id[i] == '-'
            } by {
            assert(provider_id_char(provider_id[i]));
        }
    }
}

/// A field that must be filled in is accepted exactly if it holds a character; otherwise the
/// error starts with the field's name.
pub proof fn law_required_fields(value: Seq<char>, field_name: Seq<char>)
    ensures
        value.len() > 0 ==> non_empty_error(value, field_name) is None,
        value.len() == 0 ==> {
            &&& non_empty_error(value, field_name) matches Some(error)
            &&& error.len() == field_name.len() + " cannot be empty"@.len()
            &&& error.take(field_name.len() as int) == field_name
            &&& error.skip(field_name.len() as int) == " cannot be empty"@
        },
{
    let error = field_name + " cannot be empty"@;
    assert(error.take(field_name.len() as int) =~= field_name);
    assert(error.skip(field_name.len() as int) =~= " cannot be empty"@);
}

/// A base URL is accepted exactly if it is not empty and parses to one with the scheme `http` or
/// `https`. The error of another one names its scheme, or what the parser said.
pub proof fn law_accepted_base_urls(base_url: Seq<char>)
    ensures
        base_url.len() == 0 ==> base_url_error(base_url) == Some("Base URL cannot be empty"@),
        base_url.len() > 0 ==> match url_scheme(base_url) {
            Ok(scheme) => {
                &&& scheme == "http"@ ==> base_url_error(base_url) is None
                &&& scheme == "https"@ ==> base_url_error(base_url) is None
                &&& scheme != "http"@ && scheme != "https"@ ==> base_url_error(base_url) == Some(
                    "Base URL must use http or https, got "@ + scheme,
                )
            },
            Err(message) => base_url_error(base_url) == Some("Invalid base URL: "@ + message),
        },
{
    reveal_strlit("Base URL");
    reveal_strlit(" cannot be empty");
    reveal_strlit("Base URL cannot be empty");
    assert("Base URL"@ + " cannot be empty"@ =~= "Base URL cannot be empty"@);
}

/// A parsed scheme is accepted exactly if it is `http` or `https`.
pub proof fn law_accepted_schemes(scheme: Seq<char>, message: Seq<char>)
    ensures
        scheme_error(Ok(scheme)) is None <==> scheme == "http"@ || scheme == "https"@,
        scheme_error(Ok(scheme)) matches Some(error) ==> error
            == "Base URL must use http or https, got "@ + scheme,
        scheme_error(Err(message)) == Some("Invalid base URL: "@ + message),
{
}

/// Each question is checked by its own rule, on the text without the white space around it; the
/// wire format is always valid.
pub proof fn law_each_question_has_its_check(input: ApiKeyInputView)
    ensures
        input.step is ProviderId ==> step_error(input) == provider_id_error(
            trimmed(input.provider_id),
        ),
        input.step is WireApi ==> step_error(input) is None,
        input.step is BaseUrl ==> step_error(input) == base_url_error(trimmed(input.base_url)),
        input.step is ApiKey ==> step_error(input) == (if trimmed(input.api_key).len() > 0 {
            None::<Seq<char>>
        } else {
            Some("API key cannot be empty"@)
        }),
        input.step is Model ==> step_error(input) == (if trimmed(input.model).len() > 0 {
            None::<Seq<char>>
        } else {
            Some("Model cannot be empty"@)
        }),
{
    lemma_empty_field_texts();
}

proof fn lemma_empty_field_texts()
    ensures
        "API key"@ + " cannot be empty"@ == "API key cannot be empty"@,
        "Model"@ + " cannot be empty"@ == "Model cannot be empty"@,
{
    reveal_strlit("API key");
    reveal_strlit("Model");
    reveal_strlit(" cannot be empty");
    reveal_strlit("API key cannot be empty");
    reveal_strlit("Model cannot be empty");
    assert("API key"@ + " cannot be empty"@ =~= "API key cannot be empty"@);
    assert("Model"@ + " cannot be empty"@ =~= "Model cannot be empty"@);
}

/// The settings that the wizard yields hold each field without the white space around it. What
/// is reported of settings that are wrong is about the first question, in their order, whose
/// answer is wrong.
pub proof fn law_settings_field_by_field(input: ApiKeyInputView)
    ensures
        settings(input) matches Ok(config) ==> {
            &&& config.provider_id == trimmed(input.provider_id)
            &&& config.wire_api == input.wire_api
            &&& config.base_url == trimmed(input.base_url)
            &&& config.api_key == trimmed(input.api_key)
            &&& config.model == trimmed(input.model)
        },
        ({
            let of_id = provider_id_error(trimmed(input.provider_id));
            let of_url = base_url_error(trimmed(input.base_url));
            let has_key = trimmed(input.api_key).len() > 0;
            let has_model = trimmed(input.model).len() > 0;
            &&& of_id matches Some(error) ==> settings(input) == Err::<CustomProviderView, _>(error)
            &&& of_id is None ==> (of_url matches Some(error) ==> settings(input) == Err::<
                CustomProviderView,
                _,
            >(error))
            &&& of_id is None && of_url is None && !has_key ==> settings(input) == Err::<
                CustomProviderView,
                _,
            >("API key cannot be empty"@)
            &&& of_id is None && of_url is None && has_key && !has_model ==> settings(input)
                == Err::<CustomProviderView, _>("Model cannot be empty"@)
            &&& of_id is None && of_url is None && has_key && has_model ==> settings(input) is Ok
        }),
{
    lemma_empty_field_texts();
}

/// A wizard that is filled in again holds the settings, stands at its last question, is ready
/// for input and shows the error.
pub proof fn law_refilled_wizard(config: CustomProviderView, error: Seq<char>)
    ensures
        ({
            let input = refilled(config, error);
            &&& input.provider_id == config.provider_id
            &&& input.wire_api == config.wire_api
            &&& input.base_url == config.base_url
            &&& input.api_key == config.api_key
            &&& input.model == config.model
            &&& input.step is Model
            &&& !input.validating
            &&& input.error == Some(error)
        }),
{
}

/// What is reported of an outcome, and what settings are made of.
pub proof fn law_reported_outcomes(
    outcome: Result<(), String>,
    parsed: Result<String, String>,
    config: CustomProviderConfig,
)
    ensures
        outcome is Ok ==> error_text(outcome) is None,
        outcome matches Err(error) ==> error_text(outcome) == Some(error@),
        parsed matches Ok(text) ==> text_or_message(parsed) == Ok::<_, Seq<char>>(text@),
        parsed matches Err(message) ==> text_or_message(parsed) == Err::<Seq<char>, _>(message@),
        settings_view(Ok(config)) == Ok::<_, Seq<char>>(config@),
        outcome matches Err(error) ==> settings_view(Err(error)) == Err::<CustomProviderView, _>(
            error@,
        ),
        config@.provider_id == config.provider_id@,
        config@.wire_api == config.wire_api,
        config@.base_url == config.base_url@,
        config@.api_key == config.api_key@,
        config@.model == config.model@,
{
}

/// Checking the answer to a question looks at that question's field alone, without the white
/// space around it, and any wire format passes.
pub proof fn law_checking_an_answer(state: ApiKeyInputState, outcome: Result<(), String>)
    requires
        call_ensures(validate_current_step, (&state,), outcome),
    ensures
        state.step is WireApi ==> outcome is Ok,
        state.step is ProviderId ==> (outcome is Ok <==> provider_id_error(
            trimmed(state.provider_id@),
        ) is None),
        state.step is BaseUrl ==> (outcome is Ok <==> base_url_error(
            trimmed(state.base_url@),
        ) is None),
        state.step is ApiKey ==> (outcome is Ok <==> trimmed(state.api_key@).len() > 0),
        state.step is Model ==> (outcome is Ok <==> trimmed(state.model@).len() > 0),
{
}

/// Taking the settings out of the wizard succeeds exactly if each answer is right, whatever
/// question it stands at, and yields the answers without the white space around them.
pub proof fn law_taking_the_settings_out(
    state: ApiKeyInputState,
    outcome: Result<CustomProviderConfig, String>,
)
    requires
        call_ensures(snapshot_custom_provider_config, (&state,), outcome),
    ensures
        outcome is Ok <==> {
            &&& provider_id_error(trimmed(state.provider_id@)) is None
            &&& base_url_error(trimmed(state.base_url@)) is None
            &&& trimmed(state.api_key@).len() > 0
            &&& trimmed(state.model@).len() > 0
        },
        outcome matches Ok(config) ==> {
            &&& config.provider_id@ == trimmed(state.provider_id@)
            &&& config.wire_api == state.wire_api
            &&& config.base_url@ == trimmed(state.base_url@)
            &&& config.api_key@ == trimmed(state.api_key@)
            &&& config.model@ == trimmed(state.model@)
        },
{
}

} // verus!
