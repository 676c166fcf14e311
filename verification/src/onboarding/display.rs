//! How single values are shown, and how much room they take.

use crate::onboarding::sign_in::AuthModeWidget;
use crate::onboarding::wizard::{
    ApiKeyInputState, ApiKeyInputView, ApiProviderWireApi, ApiProviderWizardStep,
};
use crate::text::{joined, trimmed};
use vstd::prelude::*;

verus! {

/// The most characters a secret is shown with.
pub const MASK_LIMIT: usize = 32;

/// A secret as it is shown: an asterisk for each of its first characters.
pub open spec fn masked(secret: Seq<char>) -> Seq<char> {
    if secret.len() == 0 {
        "<not set>"@
    } else {
        Seq::new(
            if secret.len() < MASK_LIMIT {
                secret.len()
            } else {
                MASK_LIMIT as nat
            },
            |i: int| '*',
        )
    }
}

/// Shows a secret without revealing it.
pub fn mask_secret(value: &str) -> (shown: String)
    ensures
        shown@ == masked(value@),
{
    if value.is_empty() {
        return "<not set>".to_string();
    }
    let length: usize = value.unicode_len();
    let count: usize = if length < MASK_LIMIT {
        length
    } else {
        MASK_LIMIT
    };
    let mut shown = String::new();
    for i in 0..count
        invariant
            shown@.len() == i,
            forall|j: int| 0 <= j < i ==> shown@[j] == '*',
    {
        shown.push('*');
    }
    assert(shown@ =~= masked(value@));
    shown
}

/// Two secrets of the same length are shown alike, and so are all long ones.
pub proof fn law_mask_shows_no_more_than_length(one: Seq<char>, other: Seq<char>)
    requires
        one.len() == other.len() || (one.len() >= MASK_LIMIT && other.len() >= MASK_LIMIT),
    ensures
        masked(one) == masked(other),
{
    assert(masked(one) =~= masked(other));
}

/// A value, or `fallback` in place of a blank one.
pub open spec fn shown_or(value: Seq<char>, fallback: Seq<char>) -> Seq<char> {
    if trimmed(value).len() == 0 {
        fallback
    } else {
        value
    }
}

/// Shows a value, or `fallback` in place of a blank one.
pub fn display_optional_value<'a>(value: &'a str, fallback: &'a str) -> (shown: &'a str)
    ensures
        shown@ == shown_or(value@, fallback@),
{
    if value.trim().is_empty() {
        fallback
    } else {
        value
    }
}

/// The lines that `textwrap::wrap` breaks a text into at a width.
pub uninterp spec fn wrapped_lines(text: Seq<char>, width: usize) -> Seq<Seq<char>>;

/// Breaks `text` into lines with `textwrap::wrap` and its default options at `width`. Claimed
/// is that the lines depend on the text and the width alone, and that there always is one.
#[verifier::external_body]
fn wrap_text(text: &str, width: usize) -> (lines: Vec<String>)
    ensures
        Seq::new(lines@.len(), |i: int| lines@[i]@) == wrapped_lines(text@, width),
        lines@.len() > 0,
{
    textwrap::wrap(text, width).into_iter().map(|line| line.into_owned()).collect()
}

/// A count as a height on screen: the largest height stands for anything larger.
pub open spec fn capped(count: int) -> int {
    if count < u16::MAX {
        count
    } else {
        u16::MAX as int
    }
}

/// The rows that `text` takes when it is wrapped at `width`, taken as at least one column.
pub open spec fn wrapped_height(text: Seq<char>, width: u16) -> int {
    capped(
        wrapped_lines(
            text,
            if width == 0 {
                1
            } else {
                width as usize
            },
        ).len() as int,
    )
}

/// A number of lines as a height on screen.
pub fn line_count_height(count: usize) -> (height: u16)
    ensures
        height == capped(count as int),
{
    if count < u16::MAX as usize {
        count as u16
    } else {
        u16::MAX
    }
}

/// What is shown in front of the wire format at a place in the list.
pub open spec fn wire_api_prefix(wire_api: ApiProviderWireApi) -> Seq<char> {
    match wire_api {
        ApiProviderWireApi::Chat => "  1. "@,
        ApiProviderWireApi::Responses => "  2. "@,
    }
}

/// The rows that one wire format takes in the list: its label and its description.
pub open spec fn wire_api_height(wire_api: ApiProviderWireApi, width: u16) -> int {
    wrapped_height(wire_api_prefix(wire_api) + wire_api.name(), width) + wrapped_height(
        "     "@ + wire_api.summary(),
        width,
    )
}

/// What the input box shows of the value typed at the current step.
pub open spec fn step_value_shown(input: ApiKeyInputView) -> Seq<char> {
    match input.step {
        ApiProviderWizardStep::ApiKey => masked(input.api_key),
        _ => match input.step_value() {
            Some(text) => text,
            None => Seq::empty(),
        },
    }
}

/// The columns inside a box of the given width.
pub open spec fn inner_width(width: u16) -> u16 {
    if width <= 3 {
        1
    } else {
        (width - 2) as u16
    }
}

/// The rows of the input box, its frame included.
pub open spec fn entry_input_height(width: u16, input: ApiKeyInputView) -> int {
    let inner = inner_width(width);
    match input.step {
        ApiProviderWizardStep::WireApi => capped(
            wire_api_height(ApiProviderWireApi::Chat, inner) + wire_api_height(
                ApiProviderWireApi::Responses,
                inner,
            ) + 2,
        ),
        _ => capped(
            wrapped_height(
                if step_value_shown(input).len() == 0 {
                    input.step.hint()
                } else {
                    step_value_shown(input)
                },
                inner,
            ) + 2,
        ),
    }
}

impl AuthModeWidget {
    /// The rows that `text` takes when it is wrapped at `width`.
    pub fn wrapped_line_count(text: &str, width: u16) -> (height: u16)
        ensures
            height == wrapped_height(text@, width),
            height > 0,
    {
        let usable_width: usize = if width == 0 {
            1
        } else {
            width as usize
        };
        let lines = wrap_text(text, usable_width);
        proof {
            assert(lines@.len() == wrapped_lines(text@, usable_width).len());
        }
        line_count_height(lines.len())
    }

    /// What the input box shows of the value typed at the current step; an API key is masked.
    pub fn current_step_value_for_display(&self, state: &ApiKeyInputState) -> (shown: String)
        ensures
            shown@ == step_value_shown(state@),
    {
        match state.step {
            ApiProviderWizardStep::ProviderId => state.provider_id.clone(),
            ApiProviderWizardStep::WireApi => String::new(),
            ApiProviderWizardStep::BaseUrl => state.base_url.clone(),
            ApiProviderWizardStep::ApiKey => mask_secret(&state.api_key),
            ApiProviderWizardStep::Model => state.model.clone(),
        }
    }

    /// The rows of the input box at the given screen width, its frame included. There is room
    /// for at least one row of content, and for two rows to each wire format.
    pub fn api_key_entry_input_height(&self, width: u16, state: &ApiKeyInputState) -> (height: u16)
        ensures
            height == entry_input_height(width, state@),
            height >= 3,
            state.step == ApiProviderWizardStep::WireApi ==> height >= 6,
    {
        let inner: u16 = if width <= 3 {
            1
        } else {
            width - 2
        };
        match state.step {
            ApiProviderWizardStep::WireApi => {
                let chat = ApiProviderWireApi::Chat;
                let responses = ApiProviderWireApi::Responses;
                Self::wrapped_line_count(&joined("  1. ", chat.label()), inner).saturating_add(
                    Self::wrapped_line_count(&joined("     ", chat.description()), inner),
                ).saturating_add(
                    Self::wrapped_line_count(&joined("  2. ", responses.label()), inner),
                ).saturating_add(
                    Self::wrapped_line_count(&joined("     ", responses.description()), inner),
                ).saturating_add(2)
            },
            _ => {
                let value = self.current_step_value_for_display(state);
                let content = if value.as_str().is_empty() {
                    state.step.placeholder().to_string()
                } else {
                    value
                };
                Self::wrapped_line_count(&content, inner).saturating_add(2)
            },
        }
    }
}

/// A secret is shown with as many asterisks as it has characters, up to 32, and nothing else; an
/// empty one is said to be missing.
pub proof fn law_mask_is_made_of_asterisks(secret: Seq<char>)
    ensures
        secret.len() == 0 ==> masked(secret) == "<not set>"@,
        0 < secret.len() <= 32 ==> masked(secret).len() == secret.len(),
        secret.len() > 32 ==> masked(secret).len() == 32,
        secret.len() > 0 ==> forall|i: int|
            0 <= i < masked(secret).len() ==> #[trigger] masked(secret)[i] == '*',
{
}

/// A value that holds more than white space is shown as it is, any other by what stands for it.
pub proof fn law_blank_values_are_replaced(value: Seq<char>, fallback: Seq<char>)
    ensures
        trimmed(value).len() > 0 ==> shown_or(value, fallback) == value,
        trimmed(value).len() == 0 ==> shown_or(value, fallback) == fallback,
{
}

/// Heights are counts of lines up to 65535, and text is wrapped at the width, or at one column
/// where there is none.
pub proof fn law_heights_on_screen(count: int, text: Seq<char>, width: u16)
    ensures
        count <= 65535 ==> capped(count) == count,
        count >= 65535 ==> capped(count) == 65535,
        width > 0 ==> wrapped_height(text, width) == capped(
            wrapped_lines(text, width as usize).len() as int,
        ),
        width == 0 ==> wrapped_height(text, width) == capped(wrapped_lines(text, 1).len() as int),
{
}

/// The frame takes a column on either side, and at least one column is left inside.
pub proof fn law_columns_inside_a_box(width: u16)
    ensures
        width >= 3 ==> inner_width(width) + 2 == width,
        width < 3 ==> inner_width(width) == 1,
{
}

/// The input box shows what was typed at the current question, but of an API key the mask.
pub proof fn law_value_in_the_box(input: ApiKeyInputView)
    ensures
        input.step is ProviderId ==> step_value_shown(input) == input.provider_id,
        input.step is WireApi ==> step_value_shown(input).len() == 0,
        input.step is BaseUrl ==> step_value_shown(input) == input.base_url,
        input.step is ApiKey ==> step_value_shown(input) == masked(input.api_key),
        input.step is Model ==> step_value_shown(input) == input.model,
{
}

/// The box is two rows higher than what it shows: the value, the hint in place of an empty one,
/// or the name and the description of each wire format, all wrapped inside the frame.
pub proof fn law_height_of_the_box(width: u16, input: ApiKeyInputView)
    ensures
        ({
            let inner = inner_width(width);
            let shown = if step_value_shown(input).len() > 0 {
                step_value_shown(input)
            } else {
                input.step.hint()
            };
            let formats = wrapped_height("  1. "@ + "chat"@, inner) + wrapped_height(
                "     "@ + "Compatible with chat completions style APIs"@,
                inner,
            ) + wrapped_height("  2. "@ + "responses"@, inner) + wrapped_height(
                "     "@ + "Compatible with Responses API style backends"@,
                inner,
            );
            &&& input.step is WireApi ==> entry_input_height(width, input) == capped(formats + 2)
            &&& !(input.step is WireApi) ==> entry_input_height(width, input) == capped(
                wrapped_height(shown, inner) + 2,
            )
        }),
{
}

} // verus!
