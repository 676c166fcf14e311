//! The steps of the wizard that configures a custom API provider, and what has been typed
//! into it so far.

use crate::text::optional;
use vstd::prelude::*;

verus! {

/// The steps of the wizard, in the order in which they are taken.
#[derive(Clone, Copy, Debug, PartialEq, Eq, Structural)]
pub enum ApiProviderWizardStep {
    ProviderId,
    WireApi,
    BaseUrl,
    ApiKey,
    Model,
}

impl Default for ApiProviderWizardStep {
    /// The wizard opens at its first step.
    fn default() -> (step: Self)
        ensures
            step == ApiProviderWizardStep::ProviderId,
    {
        ApiProviderWizardStep::ProviderId
    }
}

impl ApiProviderWizardStep {
    /// The number under which a step is shown, counting from one.
    pub open spec fn number(self) -> int {
        match self {
            ApiProviderWizardStep::ProviderId => 1,
            ApiProviderWizardStep::WireApi => 2,
            ApiProviderWizardStep::BaseUrl => 3,
            ApiProviderWizardStep::ApiKey => 4,
            ApiProviderWizardStep::Model => 5,
        }
    }

    /// The heading of a step.
    pub open spec fn heading(self) -> Seq<char> {
        match self {
            ApiProviderWizardStep::ProviderId => "Provider ID"@,
            ApiProviderWizardStep::WireApi => "Wire API"@,
            ApiProviderWizardStep::BaseUrl => "Base URL"@,
            ApiProviderWizardStep::ApiKey => "API Key"@,
            ApiProviderWizardStep::Model => "Model"@,
        }
    }

    /// What an input box shows while nothing has been typed.
    pub open spec fn hint(self) -> Seq<char> {
        match self {
            ApiProviderWizardStep::ProviderId => "my-provider"@,
            ApiProviderWizardStep::WireApi => ""@,
            ApiProviderWizardStep::BaseUrl => "https://example.com/v1"@,
            ApiProviderWizardStep::ApiKey => "Paste or type your API key"@,
            ApiProviderWizardStep::Model => "gpt-4.1"@,
        }
    }

    /// The step before this one.
    pub open spec fn before(self) -> Option<Self> {
        match self {
            ApiProviderWizardStep::ProviderId => None,
            ApiProviderWizardStep::WireApi => Some(ApiProviderWizardStep::ProviderId),
            ApiProviderWizardStep::BaseUrl => Some(ApiProviderWizardStep::WireApi),
            ApiProviderWizardStep::ApiKey => Some(ApiProviderWizardStep::BaseUrl),
            ApiProviderWizardStep::Model => Some(ApiProviderWizardStep::ApiKey),
        }
    }

    /// The step after this one.
    pub open spec fn after(self) -> Option<Self> {
        match self {
            ApiProviderWizardStep::ProviderId => Some(ApiProviderWizardStep::WireApi),
            ApiProviderWizardStep::WireApi => Some(ApiProviderWizardStep::BaseUrl),
            ApiProviderWizardStep::BaseUrl => Some(ApiProviderWizardStep::ApiKey),
            ApiProviderWizardStep::ApiKey => Some(ApiProviderWizardStep::Model),
            ApiProviderWizardStep::Model => None,
        }
    }

    /// The number under which this step is shown.
    pub fn index(self) -> (index: usize)
        ensures
            index == self.number(),
    {
        match self {
            ApiProviderWizardStep::ProviderId => 1,
            ApiProviderWizardStep::WireApi => 2,
            ApiProviderWizardStep::BaseUrl => 3,
            ApiProviderWizardStep::ApiKey => 4,
            ApiProviderWizardStep::Model => 5,
        }
    }

    /// The heading of this step.
    pub fn title(self) -> (title: &'static str)
        ensures
            title@ == self.heading(),
    {
        match self {
            ApiProviderWizardStep::ProviderId => "Provider ID",
            ApiProviderWizardStep::WireApi => "Wire API",
            ApiProviderWizardStep::BaseUrl => "Base URL",
            ApiProviderWizardStep::ApiKey => "API Key",
            ApiProviderWizardStep::Model => "Model",
        }
    }

    /// What this step's input box shows while it is empty.
    pub fn placeholder(self) -> (placeholder: &'static str)
        ensures
            placeholder@ == self.hint(),
    {
        match self {
            ApiProviderWizardStep::ProviderId => "my-provider",
            ApiProviderWizardStep::WireApi => "",
            ApiProviderWizardStep::BaseUrl => "https://example.com/v1",
            ApiProviderWizardStep::ApiKey => "Paste or type your API key",
            ApiProviderWizardStep::Model => "gpt-4.1",
        }
    }

    /// The step to go back to, if any.
    pub fn previous(self) -> (step: Option<Self>)
        ensures
            step == self.before(),
    {
        match self {
            ApiProviderWizardStep::ProviderId => None,
            ApiProviderWizardStep::WireApi => Some(ApiProviderWizardStep::ProviderId),
            ApiProviderWizardStep::BaseUrl => Some(ApiProviderWizardStep::WireApi),
            ApiProviderWizardStep::ApiKey => Some(ApiProviderWizardStep::BaseUrl),
            ApiProviderWizardStep::Model => Some(ApiProviderWizardStep::ApiKey),
        }
    }

    /// The step to go on to, if any.
    pub fn next(self) -> (step: Option<Self>)
        ensures
            step == self.after(),
    {
        match self {
            ApiProviderWizardStep::ProviderId => Some(ApiProviderWizardStep::WireApi),
            ApiProviderWizardStep::WireApi => Some(ApiProviderWizardStep::BaseUrl),
            ApiProviderWizardStep::BaseUrl => Some(ApiProviderWizardStep::ApiKey),
            ApiProviderWizardStep::ApiKey => Some(ApiProviderWizardStep::Model),
            ApiProviderWizardStep::Model => None,
        }
    }
}

/// Going on and then back, or back and then on, returns to the same step, and each move
/// changes the number by one.
pub proof fn law_steps_are_in_line(step: ApiProviderWizardStep)
    ensures
        step.after() matches Some(later) ==> later.before() == Some(step) && later.number()
            == step.number() + 1,
        step.before() matches Some(earlier) ==> earlier.after() == Some(step) && earlier.number()
            == step.number() - 1,
        step.before() is None <==> step.number() == 1,
        step.after() is None <==> step.number() == 5,
{
}

/// The wire format that a provider speaks.
#[derive(Clone, Copy, Debug, PartialEq, Eq, Structural)]
pub enum ApiProviderWireApi {
    Chat,
    Responses,
}

/// The wire format as the API client names it.
#[derive(Clone, Copy, Debug, PartialEq, Eq, Structural)]
pub enum ApiWireApi {
    Chat,
    Responses,
}

impl Default for ApiProviderWireApi {
    /// A new provider is taken to speak the Responses format.
    fn default() -> (wire_api: Self)
        ensures
            wire_api == ApiProviderWireApi::Responses,
    {
        ApiProviderWireApi::Responses
    }
}

impl ApiProviderWireApi {
    /// The format that is not this one.
    pub open spec fn other(self) -> Self {
        match self {
            ApiProviderWireApi::Chat => ApiProviderWireApi::Responses,
            ApiProviderWireApi::Responses => ApiProviderWireApi::Chat,
        }
    }

    /// The name of the format, in the configuration file and on screen.
    pub open spec fn name(self) -> Seq<char> {
        match self {
            ApiProviderWireApi::Chat => "chat"@,
            ApiProviderWireApi::Responses => "responses"@,
        }
    }

    /// One line on what the format is compatible with.
    pub open spec fn summary(self) -> Seq<char> {
        match self {
            ApiProviderWireApi::Chat => "Compatible with chat completions style APIs"@,
            ApiProviderWireApi::Responses => "Compatible with Responses API style backends"@,
        }
    }

    /// Switches to the other format.
    pub fn toggle(&mut self)
        ensures
            *final(self) == old(self).other(),
    {
        *self = match *self {
            ApiProviderWireApi::Chat => ApiProviderWireApi::Responses,
            ApiProviderWireApi::Responses => ApiProviderWireApi::Chat,
        };
    }

    /// The format's name in the configuration file.
    pub fn as_config_value(self) -> (value: &'static str)
        ensures
            value@ == self.name(),
    {
        match self {
            ApiProviderWireApi::Chat => "chat",
            ApiProviderWireApi::Responses => "responses",
        }
    }

    /// The same format, as the API client names it.
    pub fn as_api_wire(self) -> (wire: ApiWireApi)
        ensures
            wire == ApiWireApi::Chat <==> self == ApiProviderWireApi::Chat,
            wire == ApiWireApi::Responses <==> self == ApiProviderWireApi::Responses,
    {
        match self {
            ApiProviderWireApi::Chat => ApiWireApi::Chat,
            ApiProviderWireApi::Responses => ApiWireApi::Responses,
        }
    }

    /// The format's name on screen.
    pub fn label(self) -> (label: &'static str)
        ensures
            label@ == self.name(),
    {
        match self {
            ApiProviderWireApi::Chat => "chat",
            ApiProviderWireApi::Responses => "responses",
        }
    }

    /// One line on what the format is compatible with.
    pub fn description(self) -> (description: &'static str)
        ensures
            description@ == self.summary(),
    {
        match self {
            ApiProviderWireApi::Chat => "Compatible with chat completions style APIs",
            ApiProviderWireApi::Responses => "Compatible with Responses API style backends",
        }
    }
}

/// Toggling twice gives the format one started with.
pub proof fn law_toggle_is_an_involution(wire_api: ApiProviderWireApi)
    ensures
        wire_api.other() != wire_api,
        wire_api.other().other() == wire_api,
{
}

/// What has been typed into the wizard.
#[derive(Debug, PartialEq, Eq)]
pub struct ApiKeyInputState {
    pub provider_id: String,
    pub wire_api: ApiProviderWireApi,
    pub base_url: String,
    pub api_key: String,
    pub model: String,
    pub step: ApiProviderWizardStep,
    pub validating: bool,
    pub error: Option<String>,
}

/// The characters of an [`ApiKeyInputState`].
#[verifier::ext_equal]
pub struct ApiKeyInputView {
    pub provider_id: Seq<char>,
    pub wire_api: ApiProviderWireApi,
    pub base_url: Seq<char>,
    pub api_key: Seq<char>,
    pub model: Seq<char>,
    pub step: ApiProviderWizardStep,
    pub validating: bool,
    pub error: Option<Seq<char>>,
}

impl View for ApiKeyInputState {
    type V = ApiKeyInputView;

    open spec fn view(&self) -> ApiKeyInputView {
        ApiKeyInputView {
            provider_id: self.provider_id@,
            wire_api: self.wire_api,
            base_url: self.base_url@,
            api_key: self.api_key@,
            model: self.model@,
            step: self.step,
            validating: self.validating,
            error: optional(self.error),
        }
    }
}

impl ApiKeyInputView {
    /// The wizard as it opens: nothing typed, at the first step.
    pub open spec fn blank() -> Self {
        ApiKeyInputView {
            provider_id: Seq::empty(),
            wire_api: ApiProviderWireApi::Responses,
            base_url: Seq::empty(),
            api_key: Seq::empty(),
            model: Seq::empty(),
            step: ApiProviderWizardStep::ProviderId,
            validating: false,
            error: None,
        }
    }

    /// The text typed at the current step; the wire format is chosen, not typed.
    pub open spec fn step_value(self) -> Option<Seq<char>> {
        match self.step {
            ApiProviderWizardStep::ProviderId => Some(self.provider_id),
            ApiProviderWizardStep::WireApi => None,
            ApiProviderWizardStep::BaseUrl => Some(self.base_url),
            ApiProviderWizardStep::ApiKey => Some(self.api_key),
            ApiProviderWizardStep::Model => Some(self.model),
        }
    }

    /// The same input with `value` typed at the current step.
    pub open spec fn with_step_value(self, value: Seq<char>) -> Self {
        match self.step {
            ApiProviderWizardStep::ProviderId => ApiKeyInputView { provider_id: value, ..self },
            ApiProviderWizardStep::WireApi => self,
            ApiProviderWizardStep::BaseUrl => ApiKeyInputView { base_url: value, ..self },
            ApiProviderWizardStep::ApiKey => ApiKeyInputView { api_key: value, ..self },
            ApiProviderWizardStep::Model => ApiKeyInputView { model: value, ..self },
        }
    }

    /// The same input without an error.
    pub open spec fn cleared(self) -> Self {
        ApiKeyInputView { error: None, ..self }
    }

    /// The same input with `error` shown.
    pub open spec fn failed(self, error: Seq<char>) -> Self {
        ApiKeyInputView { error: Some(error), ..self }
    }
}

impl Default for ApiKeyInputState {
    /// The wizard as it opens.
    fn default() -> (state: Self)
        ensures
            state@ == ApiKeyInputView::blank(),
    {
        ApiKeyInputState {
            provider_id: String::new(),
            wire_api: ApiProviderWireApi::default(),
            base_url: String::new(),
            api_key: String::new(),
            model: String::new(),
            step: ApiProviderWizardStep::default(),
            validating: false,
            error: None,
        }
    }
}

/// The text that typing changes at the current step; none while the wire format is chosen.
pub fn current_step_value_mut(state: &mut ApiKeyInputState) -> (value: Option<&mut String>)
    ensures
        value is Some <==> old(state)@.step_value() is Some,
        value matches Some(text) ==> {
            &&& old(state)@.step_value() == Some(text@)
            &&& final(state)@ == old(state)@.with_step_value(final(text)@)
        },
        value is None ==> *final(state) == *old(state),
{
    match state.step {
        ApiProviderWizardStep::ProviderId => Some(&mut state.provider_id),
        ApiProviderWizardStep::WireApi => None,
        ApiProviderWizardStep::BaseUrl => Some(&mut state.base_url),
        ApiProviderWizardStep::ApiKey => Some(&mut state.api_key),
        ApiProviderWizardStep::Model => Some(&mut state.model),
    }
}

/// The wizard asks for the provider's name, its wire format, its address, its key and its model,
/// in this order, and numbers the questions from one.
pub proof fn law_order_of_the_questions()
    ensures
        ApiProviderWizardStep::ProviderId.number() == 1,
        ApiProviderWizardStep::WireApi.number() == 2,
        ApiProviderWizardStep::BaseUrl.number() == 3,
        ApiProviderWizardStep::ApiKey.number() == 4,
        ApiProviderWizardStep::Model.number() == 5,
        forall|step: ApiProviderWizardStep, later: ApiProviderWizardStep|
            #![trigger step.number(), later.number()]
            step.after() == Some(later) <==> later.number() == step.number() + 1,
        forall|step: ApiProviderWizardStep, earlier: ApiProviderWizardStep|
            #![trigger step.number(), earlier.number()]
            step.before() == Some(earlier) <==> earlier.number() == step.number() - 1,
{
}

/// How each question is headed, and what its input box suggests.
pub proof fn law_texts_of_the_questions(step: ApiProviderWizardStep)
    ensures
        step is ProviderId ==> step.heading() == "Provider ID"@ && step.hint() == "my-provider"@,
        step is WireApi ==> step.heading() == "Wire API"@ && step.hint().len() == 0,
        step is BaseUrl ==> step.heading() == "Base URL"@ && step.hint()
            == "https://example.com/v1"@,
        step is ApiKey ==> step.heading() == "API Key"@ && step.hint()
            == "Paste or type your API key"@,
        step is Model ==> step.heading() == "Model"@ && step.hint() == "gpt-4.1"@,
{
    reveal_strlit("");
}

/// How each wire format is named and described.
pub proof fn law_texts_of_the_wire_formats(wire_api: ApiProviderWireApi)
    ensures
        wire_api is Chat ==> wire_api.name() == "chat"@ && wire_api.summary()
            == "Compatible with chat completions style APIs"@,
        wire_api is Responses ==> wire_api.name() == "responses"@ && wire_api.summary()
            == "Compatible with Responses API style backends"@,
{
}

/// The wizard opens at its first question with nothing typed, the Responses format chosen, and
/// ready for input.
pub proof fn law_wizard_opens_blank()
    ensures
        ({
            let input = ApiKeyInputView::blank();
            &&& input.provider_id.len() == 0
            &&& input.base_url.len() == 0
            &&& input.api_key.len() == 0
            &&& input.model.len() == 0
            &&& input.wire_api is Responses
            &&& input.step is ProviderId
            &&& !input.validating
            &&& input.error is None
        }),
{
}

/// The text of the current question is the field that the question is about, and writing it
/// writes that field alone; the wire format has no text.
pub proof fn law_each_question_has_its_field(input: ApiKeyInputView, value: Seq<char>)
    ensures
        input.step is ProviderId ==> input.step_value() == Some(input.provider_id)
            && input.with_step_value(value) == (ApiKeyInputView { provider_id: value, ..input }),
        input.step is WireApi ==> input.step_value() is None && input.with_step_value(value)
            == input,
        input.step is BaseUrl ==> input.step_value() == Some(input.base_url)
            && input.with_step_value(value) == (ApiKeyInputView { base_url: value, ..input }),
        input.step is ApiKey ==> input.step_value() == Some(input.api_key)
            && input.with_step_value(value) == (ApiKeyInputView { api_key: value, ..input }),
        input.step is Model ==> input.step_value() == Some(input.model) && input.with_step_value(
            value,
        ) == (ApiKeyInputView { model: value, ..input }),
{
}

/// Showing an error, or none, changes nothing else.
pub proof fn law_errors_stand_beside_the_input(input: ApiKeyInputView, error: Seq<char>)
    ensures
        input.cleared().error is None,
        input.failed(error).error == Some(error),
        (ApiKeyInputView { error: input.error, ..input.cleared() }) == input,
        (ApiKeyInputView { error: input.error, ..input.failed(error) }) == input,
{
}

/// What a wizard shows of each of its fields is what was typed into it.
pub proof fn law_typed_fields(state: ApiKeyInputState)
    ensures
        state@.provider_id == state.provider_id@,
        state@.wire_api == state.wire_api,
        state@.base_url == state.base_url@,
        state@.api_key == state.api_key@,
        state@.model == state.model@,
        state@.step == state.step,
        state@.validating == state.validating,
        state.error is None <==> state@.error is None,
        state.error matches Some(error) ==> state@.error == Some(error@),
{
}

} // verus!
