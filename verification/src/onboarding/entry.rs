//! How the wizard for a custom provider reacts to keys and pasted text.

use crate::onboarding::keys::{KeyCode, KeyEvent};
use crate::onboarding::provider::{
    settings, snapshot_custom_provider_config, step_error, typed_settings, validate_current_step,
    CustomProviderConfig, CustomProviderView,
};
use crate::onboarding::wizard::{
    current_step_value_mut, ApiKeyInputState, ApiKeyInputView, ApiProviderWireApi,
    ApiProviderWizardStep,
};
use crate::text::trimmed;
use vstd::prelude::*;

verus! {

/// What the screen has to do after the wizard took a key.
#[derive(Debug, PartialEq, Eq)]
pub enum EntryReaction {
    /// Nothing changed.
    Ignored,
    /// The input changed and has to be drawn again.
    Changed,
    /// The wizard was left.
    Left,
    /// The settings are complete and have to be saved.
    Submitted(CustomProviderConfig),
}

/// What a key does to the wizard.
pub enum EntryStep {
    Ignored,
    Changed(ApiKeyInputView),
    Left,
    Submitted(ApiKeyInputView, CustomProviderView),
}

/// The wire format that a key chooses while the wizard is at that step.
pub open spec fn chosen_wire_api(
    current: ApiProviderWireApi,
    key: KeyEvent,
) -> Option<ApiProviderWireApi> {
    match key.code {
        KeyCode::Up => Some(ApiProviderWireApi::Chat),
        KeyCode::Down => Some(ApiProviderWireApi::Responses),
        KeyCode::Left | KeyCode::Right => Some(current.other()),
        KeyCode::Char(c) => if c == 'k' || c == '1' {
            Some(ApiProviderWireApi::Chat)
        } else if c == 'j' || c == '2' {
            Some(ApiProviderWireApi::Responses)
        } else if key.types() && (c == 'c' || c == 'C') {
            Some(ApiProviderWireApi::Chat)
        } else if key.types() && (c == 'r' || c == 'R') {
            Some(ApiProviderWireApi::Responses)
        } else {
            None
        },
        _ => None,
    }
}

/// Enter shows what is wrong with the current step, goes on to the next one, or submits the
/// settings at the last one.
pub open spec fn entered(input: ApiKeyInputView) -> EntryStep {
    match (step_error(input), input.step.after()) {
        (Some(error), _) => EntryStep::Changed(input.failed(error)),
        (None, Some(step)) => EntryStep::Changed(ApiKeyInputView { step, ..input.cleared() }),
        (None, None) => match settings(input) {
            Ok(config) => EntryStep::Submitted(
                ApiKeyInputView { validating: true, ..input.cleared() },
                config,
            ),
            Err(error) => EntryStep::Changed(input.failed(error)),
        },
    }
}

/// Esc goes one step back, and out of the wizard at the first one.
pub open spec fn escaped(input: ApiKeyInputView) -> EntryStep {
    match input.step.before() {
        Some(step) => EntryStep::Changed(ApiKeyInputView { step, ..input.cleared() }),
        None => EntryStep::Left,
    }
}

/// The text without its last character; nothing stays nothing.
pub open spec fn backspaced(text: Seq<char>) -> Seq<char> {
    if text.len() == 0 {
        text
    } else {
        text.drop_last()
    }
}

/// What a key does to the wizard. While the settings are being checked it does nothing.
pub open spec fn key_step(input: ApiKeyInputView, key: KeyEvent) -> EntryStep {
    if input.validating {
        EntryStep::Ignored
    } else {
        match (key.code, input.step_value()) {
            (KeyCode::Esc, _) => escaped(input),
            (KeyCode::Enter, _) => entered(input),
            (KeyCode::Backspace, Some(text)) => EntryStep::Changed(
                input.cleared().with_step_value(backspaced(text)),
            ),
            (KeyCode::Char(c), Some(text)) => if key.types() {
                EntryStep::Changed(input.cleared().with_step_value(text.push(c)))
            } else {
                EntryStep::Ignored
            },
            (_, Some(_)) => EntryStep::Ignored,
            (_, None) => match chosen_wire_api(input.wire_api, key) {
                Some(wire_api) => EntryStep::Changed(ApiKeyInputView { wire_api, ..input.cleared() }),
                None => EntryStep::Ignored,
            },
        }
    }
}

/// The input and the reaction are what `step` says of an input that was `before`.
pub open spec fn takes_step(
    step: EntryStep,
    before: ApiKeyInputView,
    after: ApiKeyInputView,
    reaction: EntryReaction,
) -> bool {
    match step {
        EntryStep::Ignored => reaction is Ignored && after == before,
        EntryStep::Changed(input) => reaction is Changed && after == input,
        EntryStep::Left => reaction is Left && after == before,
        EntryStep::Submitted(input, config) => {
            &&& after == input
            &&& reaction matches EntryReaction::Submitted(submitted) && submitted@ == config
        },
    }
}

/// Enter at the current step.
fn take_enter(state: &mut ApiKeyInputState) -> (reaction: EntryReaction)
    ensures
        takes_step(entered(old(state)@), old(state)@, final(state)@, reaction),
{
    if let Err(error) = validate_current_step(state) {
        state.error = Some(error);
        return EntryReaction::Changed;
    }
    match state.step.next() {
        Some(step) => {
            state.step = step;
            state.error = None;
            EntryReaction::Changed
        },
        None => match snapshot_custom_provider_config(state) {
            Ok(config) => {
                state.validating = true;
                state.error = None;
                EntryReaction::Submitted(config)
            },
            Err(error) => {
                state.error = Some(error);
                EntryReaction::Changed
            },
        },
    }
}

/// Esc at the current step.
fn take_esc(state: &mut ApiKeyInputState) -> (reaction: EntryReaction)
    ensures
        takes_step(escaped(old(state)@), old(state)@, final(state)@, reaction),
{
    match state.step.previous() {
        Some(step) => {
            state.step = step;
            state.error = None;
            EntryReaction::Changed
        },
        None => EntryReaction::Left,
    }
}

/// The wire format that `key` chooses.
fn choose_wire_api(
    current: ApiProviderWireApi,
    key: &KeyEvent,
) -> (chosen: Option<ApiProviderWireApi>)
    ensures
        chosen == chosen_wire_api(current, *key),
{
    let types = key.is_press && !key.with_super && !key.with_control && !key.with_alt;
    match key.code {
        KeyCode::Up => Some(ApiProviderWireApi::Chat),
        KeyCode::Down => Some(ApiProviderWireApi::Responses),
        KeyCode::Left | KeyCode::Right => {
            let mut wire_api = current;
            wire_api.toggle();
            Some(wire_api)
        },
        KeyCode::Char(c) => if c == 'k' || c == '1' {
            Some(ApiProviderWireApi::Chat)
        } else if c == 'j' || c == '2' {
            Some(ApiProviderWireApi::Responses)
        } else if types && (c == 'c' || c == 'C') {
            Some(ApiProviderWireApi::Chat)
        } else if types && (c == 'r' || c == 'R') {
            Some(ApiProviderWireApi::Responses)
        } else {
            None
        },
        _ => None,
    }
}

/// Lets the wizard take a key.
pub fn take_key(state: &mut ApiKeyInputState, key: &KeyEvent) -> (reaction: EntryReaction)
    ensures
        takes_step(key_step(old(state)@, *key), old(state)@, final(state)@, reaction),
{
    if state.validating {
        return EntryReaction::Ignored;
    }
    match key.code {
        KeyCode::Esc => return take_esc(state),
        KeyCode::Enter => return take_enter(state),
        _ => {},
    }
    if state.step == ApiProviderWizardStep::WireApi {
        return match choose_wire_api(state.wire_api, key) {
            Some(wire_api) => {
                state.wire_api = wire_api;
                state.error = None;
                EntryReaction::Changed
            },
            None => EntryReaction::Ignored,
        };
    }
    let types = key.is_press && !key.with_super && !key.with_control && !key.with_alt;
    match key.code {
        KeyCode::Backspace => {
            if let Some(field) = current_step_value_mut(state) {
                field.pop();
            }
        },
        KeyCode::Char(c) => {
            if !types {
                return EntryReaction::Ignored;
            }
            if let Some(field) = current_step_value_mut(state) {
                field.push(c);
            }
        },
        _ => return EntryReaction::Ignored,
    }
    state.error = None;
    EntryReaction::Changed
}

/// What pasting does to the wizard: the text is appended without the white space around it,
/// unless the settings are being checked or the step is not typed.
pub open spec fn paste_step(input: ApiKeyInputView, pasted: Seq<char>) -> EntryStep {
    match input.step_value() {
        Some(text) if !input.validating => EntryStep::Changed(
            input.cleared().with_step_value(text + trimmed(pasted)),
        ),
        _ => EntryStep::Ignored,
    }
}

/// Lets the wizard take pasted text.
pub fn take_paste(state: &mut ApiKeyInputState, pasted: &str) -> (reaction: EntryReaction)
    ensures
        takes_step(paste_step(old(state)@, pasted@), old(state)@, final(state)@, reaction),
{
    if state.validating {
        return EntryReaction::Ignored;
    }
    if state.step == ApiProviderWizardStep::WireApi {
        return EntryReaction::Ignored;
    }
    if let Some(field) = current_step_value_mut(state) {
        field.append(pasted.trim());
    }
    state.error = None;
    EntryReaction::Changed
}

/// While the settings are being checked, neither a key nor a paste does anything.
pub proof fn law_checking_freezes_the_wizard(
    input: ApiKeyInputView,
    key: KeyEvent,
    pasted: Seq<char>,
)
    requires
        input.validating,
    ensures
        key_step(input, key) is Ignored,
        paste_step(input, pasted) is Ignored,
{
}

/// A typed character is taken back by Backspace; only a shown error is gone.
pub proof fn law_backspace_undoes_typing(input: ApiKeyInputView, c: char, typed: KeyEvent, backspace: KeyEvent)
    requires
        !input.validating,
        input.step_value() is Some,
        typed.code == KeyCode::Char(c),
        typed.types(),
        backspace.code == KeyCode::Backspace,
    ensures
        key_step(input, typed) is Changed,
        key_step(key_step(input, typed)->Changed_0, backspace) == EntryStep::Changed(
            input.cleared(),
        ),
{
    let text = input.step_value()->0;
    assert(text.push(c).drop_last() =~= text);
}

/// Nothing is submitted but trimmed settings that passed every validation, and only from the
/// last step with Enter.
pub proof fn law_submitted_settings_are_valid(input: ApiKeyInputView, key: KeyEvent)
    requires
        key_step(input, key) is Submitted,
    ensures
        key.code == KeyCode::Enter,
        input.step == ApiProviderWizardStep::Model,
        key_step(input, key)->Submitted_1 == typed_settings(input),
        typed_settings(input).error() is None,
        key_step(input, key)->Submitted_0.validating,
{
}

/// Every key but Enter and Esc leaves the wizard at its step, and Enter moves on only past an
/// input that is valid.
pub proof fn law_only_valid_input_moves_on(input: ApiKeyInputView, key: KeyEvent)
    requires
        key_step(input, key) is Changed,
    ensures
        ({
            let after = key_step(input, key)->Changed_0;
            &&& after.step != input.step ==> key.code == KeyCode::Enter || key.code == KeyCode::Esc
            &&& after.step.number() > input.step.number() ==> step_error(input) is None
                && after.step.number() == input.step.number() + 1
            &&& after.step.number() < input.step.number() ==> after.step.number()
                == input.step.number() - 1
        }),
{
}

/// Settings in which every step is valid are led through by Enter: at each step but the last it
/// goes on to the next with the same settings, and at the last it submits them.
pub proof fn law_valid_settings_go_through(input: ApiKeyInputView, enter: KeyEvent)
    requires
        !input.validating,
        settings(input) is Ok,
        enter.code == KeyCode::Enter,
    ensures
        match input.step.after() {
            Some(step) => key_step(input, enter) matches EntryStep::Changed(moved) && moved.step
                == step && !moved.validating && settings(moved) == settings(input),
            None => key_step(input, enter) matches EntryStep::Submitted(_, config) && config
                == settings(input)->Ok_0,
        },
{
}

/// A character that is typed goes to the end of the text of the current question, whichever that
/// is. A shown error disappears, and nothing else changes.
pub proof fn law_typed_character_goes_to_the_end(input: ApiKeyInputView, key: KeyEvent, c: char)
    requires
        !input.validating,
        !(input.step is WireApi),
        key.code == KeyCode::Char(c),
        key.is_press,
        !key.with_super && !key.with_control && !key.with_alt,
    ensures
        key_step(input, key) matches EntryStep::Changed(after) && after == match input.step {
            ApiProviderWizardStep::ProviderId => ApiKeyInputView {
                provider_id: input.provider_id + seq![c],
                error: None,
                ..input
            },
            ApiProviderWizardStep::BaseUrl => ApiKeyInputView {
                base_url: input.base_url + seq![c],
                error: None,
                ..input
            },
            ApiProviderWizardStep::ApiKey => ApiKeyInputView {
                api_key: input.api_key + seq![c],
                error: None,
                ..input
            },
            _ => ApiKeyInputView { model: input.model + seq![c], error: None, ..input },
        },
{
    assert(input.provider_id.push(c) =~= input.provider_id + seq![c]);
    assert(input.base_url.push(c) =~= input.base_url + seq![c]);
    assert(input.api_key.push(c) =~= input.api_key + seq![c]);
    assert(input.model.push(c) =~= input.model + seq![c]);
}

/// Typing two characters one after the other puts both at the end, in their order.
pub proof fn law_characters_stay_in_order(
    input: ApiKeyInputView,
    first: KeyEvent,
    second: KeyEvent,
    a: char,
    b: char,
)
    requires
        !input.validating,
        input.step_value() is Some,
        first.code == KeyCode::Char(a),
        first.types(),
        second.code == KeyCode::Char(b),
        second.types(),
    ensures
        key_step(input, first) is Changed,
        key_step(key_step(input, first)->Changed_0, second) matches EntryStep::Changed(after)
            && after.step == input.step && after.step_value() == Some(
            input.step_value()->0 + seq![a, b],
        ),
{
    let text = input.step_value()->0;
    assert(text.push(a).push(b) =~= text + seq![a, b]);
}

/// A key that is released, repeated or held with super, control or alt types nothing.
pub proof fn law_only_plain_presses_type(input: ApiKeyInputView, key: KeyEvent)
    requires
        !(input.step is WireApi),
        key.code is Char,
        !key.is_press || key.with_super || key.with_control || key.with_alt,
    ensures
        key_step(input, key) is Ignored,
{
}

/// Backspace takes the last character off the text of the current question, if there is one. A
/// shown error disappears, and nothing else changes.
pub proof fn law_backspace_takes_the_last_character(input: ApiKeyInputView, key: KeyEvent)
    requires
        !input.validating,
        !(input.step is WireApi),
        key.code == KeyCode::Backspace,
    ensures
        key_step(input, key) matches EntryStep::Changed(after) && {
            let (was, is, rest) = match input.step {
                ApiProviderWizardStep::ProviderId => (
                    input.provider_id,
                    after.provider_id,
                    ApiKeyInputView { provider_id: input.provider_id, ..after },
                ),
                ApiProviderWizardStep::BaseUrl => (
                    input.base_url,
                    after.base_url,
                    ApiKeyInputView { base_url: input.base_url, ..after },
                ),
                ApiProviderWizardStep::ApiKey => (
                    input.api_key,
                    after.api_key,
                    ApiKeyInputView { api_key: input.api_key, ..after },
                ),
                _ => (
                    input.model,
                    after.model,
                    ApiKeyInputView { model: input.model, ..after },
                ),
            };
            &&& after.error is None
            &&& (ApiKeyInputView { error: input.error, ..rest }) == input
            &&& was.len() == 0 ==> is.len() == 0
            &&& was.len() > 0 ==> is + seq![was.last()] == was
        },
{
    let (was, is) = match input.step {
        ApiProviderWizardStep::ProviderId => (
            input.provider_id,
            key_step(input, key)->Changed_0.provider_id,
        ),
        ApiProviderWizardStep::BaseUrl => (
            input.base_url,
            key_step(input, key)->Changed_0.base_url,
        ),
        ApiProviderWizardStep::ApiKey => (input.api_key, key_step(input, key)->Changed_0.api_key),
        _ => (input.model, key_step(input, key)->Changed_0.model),
    };
    if was.len() > 0 {
        assert(is + seq![was.last()] =~= was);
    }
}

/// Where the wire format is chosen, Up, `k`, `1` and a typed `c` or `C` choose Chat; Down, `j`,
/// `2` and a typed `r` or `R` choose Responses; Left and Right choose the other one. Only the
/// format and a shown error change. Every other key but Enter and Esc does nothing.
pub proof fn law_keys_that_choose_the_wire_format(input: ApiKeyInputView, key: KeyEvent)
    requires
        !input.validating,
        input.step is WireApi,
        !(key.code is Enter) && !(key.code is Esc),
    ensures
        ({
            let plain = key.is_press && !key.with_super && !key.with_control && !key.with_alt;
            let chat = EntryStep::Changed(
                ApiKeyInputView { wire_api: ApiProviderWireApi::Chat, error: None, ..input },
            );
            let responses = EntryStep::Changed(
                ApiKeyInputView { wire_api: ApiProviderWireApi::Responses, error: None, ..input },
            );
            let step = key_step(input, key);
            &&& key.code is Up ==> step == chat
            &&& key.code == KeyCode::Char('k') || key.code == KeyCode::Char('1') ==> step == chat
            &&& plain && (key.code == KeyCode::Char('c') || key.code == KeyCode::Char('C'))
                ==> step == chat
            &&& key.code is Down ==> step == responses
            &&& key.code == KeyCode::Char('j') || key.code == KeyCode::Char('2') ==> step
                == responses
            &&& plain && (key.code == KeyCode::Char('r') || key.code == KeyCode::Char('R'))
                ==> step == responses
            &&& (key.code is Left || key.code is Right) && input.wire_api is Responses ==> step
                == chat
            &&& (key.code is Left || key.code is Right) && input.wire_api is Chat ==> step
                == responses
            &&& key.code is Backspace || key.code is Other ==> step is Ignored
            &&& key.code matches KeyCode::Char(c) ==> {
                ||| c == 'k' || c == '1' || c == 'j' || c == '2'
                ||| plain && (c == 'c' || c == 'C' || c == 'r' || c == 'R')
                ||| step is Ignored
            }
        }),
{
}

/// Where text is typed, keys that neither type, erase, go on nor go back do nothing.
pub proof fn law_other_keys_type_nothing(input: ApiKeyInputView, key: KeyEvent)
    requires
        !(input.step is WireApi),
        key.code is Up || key.code is Down || key.code is Left || key.code is Right
            || key.code is Other,
    ensures
        key_step(input, key) is Ignored,
{
}

/// Esc leaves the wizard at the first question, and at any other goes back to the one before it.
/// What was typed stays, and a shown error disappears.
pub proof fn law_esc_goes_one_question_back(input: ApiKeyInputView, key: KeyEvent)
    requires
        !input.validating,
        key.code is Esc,
    ensures
        input.step is ProviderId ==> key_step(input, key) is Left,
        !(input.step is ProviderId) ==> key_step(input, key) == EntryStep::Changed(
            ApiKeyInputView {
                step: match input.step {
                    ApiProviderWizardStep::Model => ApiProviderWizardStep::ApiKey,
                    ApiProviderWizardStep::ApiKey => ApiProviderWizardStep::BaseUrl,
                    ApiProviderWizardStep::BaseUrl => ApiProviderWizardStep::WireApi,
                    _ => ApiProviderWizardStep::ProviderId,
                },
                error: None,
                ..input
            },
        ),
{
}

/// Enter stays at a question whose answer is wrong and shows why. From a right answer it goes on
/// to the next question, and at the last one submits the settings if they all are right, or
/// shows why they are not. What was typed stays.
pub proof fn law_enter_goes_one_question_on(input: ApiKeyInputView, key: KeyEvent)
    requires
        !input.validating,
        key.code is Enter,
    ensures
        step_error(input) matches Some(error) ==> key_step(input, key) == EntryStep::Changed(
            ApiKeyInputView { error: Some(error), ..input },
        ),
        step_error(input) is None && !(input.step is Model) ==> key_step(input, key)
            == EntryStep::Changed(
            ApiKeyInputView {
                step: match input.step {
                    ApiProviderWizardStep::ProviderId => ApiProviderWizardStep::WireApi,
                    ApiProviderWizardStep::WireApi => ApiProviderWizardStep::BaseUrl,
                    ApiProviderWizardStep::BaseUrl => ApiProviderWizardStep::ApiKey,
                    _ => ApiProviderWizardStep::Model,
                },
                error: None,
                ..input
            },
        ),
        step_error(input) is None && input.step is Model ==> match settings(input) {
            Ok(config) => key_step(input, key) == EntryStep::Submitted(
                ApiKeyInputView { validating: true, error: None, ..input },
                config,
            ),
            Err(error) => key_step(input, key) == EntryStep::Changed(
                ApiKeyInputView { error: Some(error), ..input },
            ),
        },
{
}

/// Pasted text goes to the end of the text of the current question, without the white space
/// around it. A shown error disappears, and nothing else changes. Nothing is pasted where the
/// wire format is chosen.
pub proof fn law_pasted_text_goes_to_the_end(input: ApiKeyInputView, pasted: Seq<char>)
    requires
        !input.validating,
    ensures
        input.step is WireApi ==> paste_step(input, pasted) is Ignored,
        !(input.step is WireApi) ==> paste_step(input, pasted) == EntryStep::Changed(
            match input.step {
                ApiProviderWizardStep::ProviderId => ApiKeyInputView {
                    provider_id: input.provider_id + trimmed(pasted),
                    error: None,
                    ..input
                },
                ApiProviderWizardStep::BaseUrl => ApiKeyInputView {
                    base_url: input.base_url + trimmed(pasted),
                    error: None,
                    ..input
                },
                ApiProviderWizardStep::ApiKey => ApiKeyInputView {
                    api_key: input.api_key + trimmed(pasted),
                    error: None,
                    ..input
                },
                _ => ApiKeyInputView { model: input.model + trimmed(pasted), error: None, ..input },
            },
        ),
{
}

/// The reaction to a key or a paste tells what was done to the input: it changed only if it is
/// reported as changed or submitted, and what is submitted is what was checked.
pub proof fn law_reactions_tell_the_change(
    step: EntryStep,
    before: ApiKeyInputView,
    after: ApiKeyInputView,
    reaction: EntryReaction,
)
    requires
        takes_step(step, before, after, reaction),
    ensures
        step is Ignored <==> reaction is Ignored,
        step is Changed <==> reaction is Changed,
        step is Left <==> reaction is Left,
        step is Submitted <==> reaction is Submitted,
        reaction is Ignored || reaction is Left ==> after == before,
        step matches EntryStep::Changed(input) ==> after == input,
        step matches EntryStep::Submitted(input, config) ==> after == input && (reaction
            matches EntryReaction::Submitted(submitted) ==> submitted@ == config),
{
}

/// Typing a character: the wizard has it at the end of the field that the current question is
/// about, and of its other fields only the error has changed, to none.
pub proof fn law_typing_a_character(
    state: &mut ApiKeyInputState,
    key: KeyEvent,
    c: char,
    reaction: EntryReaction,
)
    requires
        !old(state).validating,
        !(old(state).step is WireApi),
        key.code == KeyCode::Char(c),
        key.is_press,
        !key.with_super && !key.with_control && !key.with_alt,
        call_ensures(take_key, (state, &key), reaction),
    ensures
        ({
            let step = old(state).step;
            &&& reaction is Changed
            &&& final(state).provider_id@ == old(state).provider_id@ + (
            if step is ProviderId {
                seq![c]
            } else {
                Seq::empty()
            })
            &&& final(state).base_url@ == old(state).base_url@ + (if step is BaseUrl {
                seq![c]
            } else {
                Seq::empty()
            })
            &&& final(state).api_key@ == old(state).api_key@ + (if step is ApiKey {
                seq![c]
            } else {
                Seq::empty()
            })
            &&& final(state).model@ == old(state).model@ + (if step is Model {
                seq![c]
            } else {
                Seq::empty()
            })
            &&& final(state).wire_api == old(state).wire_api
            &&& final(state).step == step
            &&& !final(state).validating
            &&& final(state).error is None
        }),
{
    law_typed_character_goes_to_the_end(old(state)@, key, c);
    let before = old(state)@;
    let none = Seq::<char>::empty();
    assert(before.provider_id + none =~= before.provider_id);
    assert(before.base_url + none =~= before.base_url);
    assert(before.api_key + none =~= before.api_key);
    assert(before.model + none =~= before.model);
}

/// Pasting a text: the wizard has it, without the white space around it, at the end of the field
/// that the current question is about, and of its other fields only the error has changed, to
/// none. Where the wire format is chosen, nothing changes.
pub proof fn law_pasting_a_text(state: &mut ApiKeyInputState, pasted: &str, reaction: EntryReaction)
    requires
        !old(state).validating,
        call_ensures(take_paste, (state, pasted), reaction),
    ensures
        ({
            let step = old(state).step;
            let added = trimmed(pasted@);
            &&& step is WireApi ==> reaction is Ignored && final(state)@ == old(state)@
            &&& !(step is WireApi) ==> {
                &&& reaction is Changed
                &&& final(state).provider_id@ == old(state).provider_id@ + (
                if step is ProviderId {
                    added
                } else {
                    Seq::empty()
                })
                &&& final(state).base_url@ == old(state).base_url@ + (if step is BaseUrl {
                    added
                } else {
                    Seq::empty()
                })
                &&& final(state).api_key@ == old(state).api_key@ + (if step is ApiKey {
                    added
                } else {
                    Seq::empty()
                })
                &&& final(state).model@ == old(state).model@ + (if step is Model {
                    added
                } else {
                    Seq::empty()
                })
                &&& final(state).wire_api == old(state).wire_api
                &&& final(state).step == step
                &&& !final(state).validating
                &&& final(state).error is None
            }
        }),
{
    let before = old(state)@;
    let none = Seq::<char>::empty();
    assert(before.provider_id + none =~= before.provider_id);
    assert(before.base_url + none =~= before.base_url);
    assert(before.api_key + none =~= before.api_key);
    assert(before.model + none =~= before.model);
}

/// While the settings are being checked, neither a key nor a paste changes the wizard.
pub proof fn law_nothing_changes_while_checking(
    state: &mut ApiKeyInputState,
    key: KeyEvent,
    pasted: &str,
    reaction: EntryReaction,
)
    requires
        old(state).validating,
        call_ensures(take_key, (state, &key), reaction) || call_ensures(
            take_paste,
            (state, pasted),
            reaction,
        ),
    ensures
        reaction is Ignored,
        final(state)@ == old(state)@,
{
}

} // verus!
