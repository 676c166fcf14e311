//! What the sign-in widget shows in each of its states.

use crate::auth::ForcedLoginMethod;
use crate::onboarding::display::{
    display_optional_value, entry_input_height, mask_secret, masked, shown_or, step_value_shown,
};
use crate::onboarding::lines::{
    line_of_two, lines_view, on_style, over, raw, raw_line, spans_view, styled, styled_line,
    two_spans, TextColor, TextLine, TextLineView, TextSpan, TextSpanView, TextStyle,
};
use crate::onboarding::sign_in::{
    AuthModeView, AuthModeWidget, SignInOption, SignInState, SignInView,
};
use crate::onboarding::wizard::{
    ApiKeyInputState, ApiKeyInputView, ApiProviderWireApi, ApiProviderWizardStep,
};
use crate::text::{joined, optional};
use vstd::prelude::*;

verus! {

/// What is asked of the user while a login goes on in the browser.
pub const BROWSER_PROMPT: &'static str = "Finish signing in via your browser";

/// The pause between two frames of the animation, in milliseconds.
pub const ANIMATION_FRAME_MS: u64 = 100;

/// How many rows a part of a screen takes.
#[derive(Clone, Copy, Debug, PartialEq, Eq, Structural)]
pub enum RowHeight {
    /// So many rows, or more where there is room.
    AtLeast(u16),
    /// So many rows.
    Exactly(u16),
}

/// What a part of a screen shows.
#[derive(Debug, PartialEq, Eq)]
pub enum PartContent {
    Blank,
    Lines(Vec<TextLine>),
    /// Lines in a frame with a title. The frame takes the first and the last row and column.
    Boxed { title: String, lines: Vec<TextLine> },
}

/// A part of a screen: it takes all columns.
#[derive(Debug, PartialEq, Eq)]
pub struct ScreenPart {
    pub height: RowHeight,
    pub content: PartContent,
}

/// The content of a [`PartContent`].
pub enum PartContentView {
    Blank,
    Lines(Seq<TextLineView>),
    Boxed { title: Seq<char>, lines: Seq<TextLineView> },
}

/// The content of a [`ScreenPart`].
pub struct ScreenPartView {
    pub height: RowHeight,
    pub content: PartContentView,
}

impl View for PartContent {
    type V = PartContentView;

    open spec fn view(&self) -> PartContentView {
        match self {
            PartContent::Blank => PartContentView::Blank,
            PartContent::Lines(lines) => PartContentView::Lines(lines_view(lines@)),
            PartContent::Boxed { title, lines } => PartContentView::Boxed {
                title: title@,
                lines: lines_view(lines@),
            },
        }
    }
}

impl View for ScreenPart {
    type V = ScreenPartView;

    open spec fn view(&self) -> ScreenPartView {
        ScreenPartView { height: self.height, content: self.content@ }
    }
}

/// The contents of a list of parts.
pub open spec fn parts_view(parts: Seq<ScreenPart>) -> Seq<ScreenPartView> {
    Seq::new(parts.len(), |i: int| parts[i]@)
}

/// What to draw.
#[derive(Debug, PartialEq, Eq)]
pub enum Screen {
    /// Lines of text, and after how many milliseconds to draw the next frame, if at all.
    Lines { lines: Vec<TextLine>, next_frame_ms: Option<u64> },
    /// Parts from top to bottom, each below the one before.
    Parts(Vec<ScreenPart>),
    /// The screen of the login with a device code, which that login draws itself.
    DeviceCode,
}

/// The content of a [`Screen`].
pub enum ScreenView {
    Lines { lines: Seq<TextLineView>, next_frame_ms: Option<u64> },
    Parts(Seq<ScreenPartView>),
    DeviceCode,
}

impl View for Screen {
    type V = ScreenView;

    open spec fn view(&self) -> ScreenView {
        match self {
            Screen::Lines { lines, next_frame_ms } => ScreenView::Lines {
                lines: lines_view(lines@),
                next_frame_ms: *next_frame_ms,
            },
            Screen::Parts(parts) => ScreenView::Parts(parts_view(parts@)),
            Screen::DeviceCode => ScreenView::DeviceCode,
        }
    }
}

/// Unstyled.
pub open spec fn plain() -> TextStyle {
    TextStyle::plain()
}

/// Dimmed.
pub open spec fn dim() -> TextStyle {
    TextStyle::plain().dimmed()
}

/// In one colour.
pub open spec fn in_color(color: TextColor) -> TextStyle {
    TextStyle::plain().colored(color)
}

/// The number of a place in a list of two.
pub open spec fn place_number(index: int) -> Seq<char> {
    if index == 0 {
        "1. "@
    } else {
        "2. "@
    }
}

fn place(index: usize) -> (number: &'static str)
    ensures
        number@ == place_number(index as int),
{
    if index == 0 {
        "1. "
    } else {
        "2. "
    }
}

/// An entry of a list to choose from; the selected one has a caret and stands out.
pub open spec fn choice_line(index: int, text: Seq<char>, selected: bool) -> TextLineView {
    if selected {
        line_of_two(
            ("> "@ + place_number(index), in_color(TextColor::Cyan).dimmed()),
            (text, in_color(TextColor::Cyan)),
        )
    } else {
        raw_line("  "@ + place_number(index) + text)
    }
}

fn choice(index: usize, text: &str, selected: bool) -> (line: TextLine)
    ensures
        line@ == choice_line(index as int, text@, selected),
{
    if selected {
        two_spans(
            &joined("> ", place(index)),
            TextStyle::unstyled().fg(TextColor::Cyan).dim(),
            text,
            TextStyle::unstyled().fg(TextColor::Cyan),
        )
    } else {
        raw(&joined(&joined("  ", place(index)), text))
    }
}

/// The style of the description of an entry.
pub open spec fn description_style(selected: bool) -> TextStyle {
    if selected {
        in_color(TextColor::Cyan).dimmed()
    } else {
        dim()
    }
}

fn style_of_description(selected: bool) -> (style: TextStyle)
    ensures
        style == description_style(selected),
{
    if selected {
        TextStyle::unstyled().fg(TextColor::Cyan).dim()
    } else {
        TextStyle::unstyled().dim()
    }
}

/// What an option is called.
pub open spec fn option_title(option: SignInOption) -> Seq<char> {
    match option {
        SignInOption::ChatGpt => "Sign in with ChatGPT"@,
        SignInOption::ApiKey => "Provide your own API key"@,
    }
}

/// What is said about an option.
pub open spec fn option_description(option: SignInOption) -> Seq<char> {
    match option {
        SignInOption::ChatGpt => "Usage included with Plus, Pro, Team, and Enterprise plans"@,
        SignInOption::ApiKey => "Pay for what you use"@,
    }
}

/// The lines of one option, with an empty one below.
pub open spec fn option_lines(widget: AuthModeView, index: int) -> Seq<TextLineView> {
    let option = widget.options()[index];
    let selected = widget.highlighted_mode == option;
    seq![
        choice_line(index, option_title(option), selected),
        on_style(raw_line("     "@ + option_description(option)), description_style(selected)),
        raw_line(""@),
    ]
}

/// The lines of the first `count` options.
pub open spec fn options_lines(widget: AuthModeView, count: int) -> Seq<TextLineView>
    decreases count,
{
    if count <= 0 {
        Seq::empty()
    } else {
        options_lines(widget, count - 1) + option_lines(widget, count - 1)
    }
}

/// The lines above the options.
pub open spec fn pick_mode_heading() -> Seq<TextLineView> {
    seq![
        line_of_two(
            ("  "@, plain()),
            ("Sign in with ChatGPT to use Codex as part of your paid plan"@, plain()),
        ),
        line_of_two(
            ("  "@, plain()),
            ("or connect an API key for usage-based billing"@, plain()),
        ),
        raw_line(""@),
    ]
}

/// An error below an empty line, if there is one.
pub open spec fn error_lines(error: Option<Seq<char>>) -> Seq<TextLineView> {
    match error {
        Some(error) => seq![raw_line(""@), styled_line(error, in_color(TextColor::Red))],
        None => Seq::empty(),
    }
}

/// The lines below the options.
pub open spec fn pick_mode_footer(widget: AuthModeView) -> Seq<TextLineView> {
    (if widget.api_login_allowed() {
        Seq::empty()
    } else {
        seq![
            styled_line(
                "  API key login is disabled by this workspace. Sign in with ChatGPT to continue."@,
                dim(),
            ),
            raw_line(""@),
        ]
    }) + seq![styled_line("  Press Enter to continue"@, dim())] + error_lines(widget.error)
}

/// The choice of options.
pub open spec fn pick_mode_lines(widget: AuthModeView) -> Seq<TextLineView> {
    pick_mode_heading() + options_lines(widget, widget.options().len() as int) + pick_mode_footer(
        widget,
    )
}

/// The login that goes on in the browser. `shimmer` is the animated prompt.
pub open spec fn browser_lines(
    widget: AuthModeView,
    shimmer: Seq<TextSpanView>,
) -> Seq<TextLineView> {
    let prompt = if widget.animations_enabled {
        shimmer
    } else {
        seq![TextSpanView { text: BROWSER_PROMPT@, style: plain() }]
    };
    let heading = seq![
        TextLineView::Spans {
            spans: seq![TextSpanView { text: "  "@, style: plain() }] + prompt,
            style: plain(),
        },
        raw_line(""@),
    ];
    let link = match widget.sign_in_state {
        SignInView::ContinueInBrowser { auth_url, .. } if auth_url.len() > 0 => seq![
            raw_line(
                "  If the link doesn't open automatically, open the following link to authenticate:"@,
            ),
            raw_line(""@),
            line_of_two(
                ("  "@, plain()),
                (auth_url, in_color(TextColor::Cyan).with_underline()),
            ),
            raw_line(""@),
        ],
        _ => Seq::empty(),
    };
    heading + link + seq![styled_line("  Press Esc to cancel"@, dim())]
}

/// The message after a successful login.
pub open spec fn success_message_lines() -> Seq<TextLineView> {
    seq![
        styled_line("✓ Signed in with your ChatGPT account"@, in_color(TextColor::Green)),
        raw_line(""@),
        raw_line("  Before you start:"@),
        raw_line(""@),
        raw_line("  Decide how much autonomy you want to grant Codex"@),
        on_style(
            line_of_two(
                ("  For more details see the "@, plain()),
                (
                    "\u{1b}]8;;https://github.com/openai/codex\u{7}Codex docs\u{1b}]8;;\u{7}"@,
                    plain().with_underline(),
                ),
            ),
            dim(),
        ),
        raw_line(""@),
        raw_line("  Codex can make mistakes"@),
        styled_line("  Review the code it writes and commands it runs"@, dim()),
        raw_line(""@),
        raw_line("  Powered by your ChatGPT account"@),
        on_style(
            line_of_two(
                ("  Uses your plan's rate limits and "@, plain()),
                (
                    "\u{1b}]8;;https://chatgpt.com/#settings\u{7}training data preferences\u{1b}]8;;\u{7}"@,
                    plain().with_underline(),
                ),
            ),
            dim(),
        ),
        raw_line(""@),
        styled_line("  Press Enter to continue"@, in_color(TextColor::Cyan)),
    ]
}

/// The line left over once the message was acknowledged.
pub open spec fn success_lines() -> Seq<TextLineView> {
    seq![styled_line("✓ Signed in with your ChatGPT account"@, in_color(TextColor::Green))]
}

/// The message after a custom provider was saved.
pub open spec fn api_key_configured_lines() -> Seq<TextLineView> {
    seq![
        styled_line("✓ Custom provider configured"@, in_color(TextColor::Green)),
        raw_line(""@),
        raw_line("  Codey will use the provider saved in config.toml."@),
    ]
}

/// A step's number out of all steps.
pub open spec fn step_progress(step: ApiProviderWizardStep) -> Seq<char> {
    match step {
        ApiProviderWizardStep::ProviderId => "  Step 1/5: "@,
        ApiProviderWizardStep::WireApi => "  Step 2/5: "@,
        ApiProviderWizardStep::BaseUrl => "  Step 3/5: "@,
        ApiProviderWizardStep::ApiKey => "  Step 4/5: "@,
        ApiProviderWizardStep::Model => "  Step 5/5: "@,
    }
}

fn progress(step: ApiProviderWizardStep) -> (text: &'static str)
    ensures
        text@ == step_progress(step),
{
    match step {
        ApiProviderWizardStep::ProviderId => "  Step 1/5: ",
        ApiProviderWizardStep::WireApi => "  Step 2/5: ",
        ApiProviderWizardStep::BaseUrl => "  Step 3/5: ",
        ApiProviderWizardStep::ApiKey => "  Step 4/5: ",
        ApiProviderWizardStep::Model => "  Step 5/5: ",
    }
}

/// The wizard's overview of what has been typed; the API key is masked.
pub open spec fn entry_intro(input: ApiKeyInputView) -> Seq<TextLineView> {
    let overview = seq![
        line_of_two(("> "@, plain()), ("Configure a custom API provider"@, plain().in_bold())),
        raw_line(""@),
        raw_line(step_progress(input.step) + input.step.heading()),
        raw_line(
            "  This will be written to ~/.codey/config.toml and used as the default provider."@,
        ),
        raw_line(""@),
        raw_line("  Provider ID: "@ + shown_or(input.provider_id, "<not set>"@)),
        raw_line("  Wire API: "@ + input.wire_api.name()),
        raw_line("  Base URL: "@ + shown_or(input.base_url, "<not set>"@)),
        raw_line("  API key: "@ + masked(input.api_key)),
        raw_line("  Model: "@ + shown_or(input.model, "<not set>"@)),
    ];
    if input.validating {
        overview + seq![
            raw_line(""@),
            styled_line(
                "  Validating provider settings and saving config.toml..."@,
                in_color(TextColor::Cyan),
            ),
        ]
    } else {
        overview
    }
}

/// One wire format in the list to choose from.
pub open spec fn wire_api_lines(
    index: int,
    wire_api: ApiProviderWireApi,
    chosen: ApiProviderWireApi,
) -> Seq<TextLineView> {
    seq![
        choice_line(index, wire_api.name(), wire_api == chosen),
        styled_line("     "@ + wire_api.summary(), description_style(wire_api == chosen)),
    ]
}

/// What the input box shows: the list of wire formats, what has been typed, or a hint.
pub open spec fn entry_input(input: ApiKeyInputView) -> Seq<TextLineView> {
    match input.step {
        ApiProviderWizardStep::WireApi => wire_api_lines(
            0,
            ApiProviderWireApi::Chat,
            input.wire_api,
        ) + wire_api_lines(1, ApiProviderWireApi::Responses, input.wire_api),
        _ => if step_value_shown(input).len() == 0 {
            seq![styled_line(input.step.hint(), dim())]
        } else {
            seq![raw_line(step_value_shown(input))]
        },
    }
}

/// The key hints, and the error if there is one.
pub open spec fn entry_footer(input: ApiKeyInputView) -> Seq<TextLineView> {
    seq![
        styled_line(
            if input.validating {
                "  Saving..."@
            } else if input.step == ApiProviderWizardStep::Model {
                "  Press Enter to validate and save"@
            } else {
                "  Press Enter to continue"@
            },
            dim(),
        ),
        styled_line(
            if input.step == ApiProviderWizardStep::WireApi {
                "  Press 1/2 or Up/Down to choose"@
            } else {
                "  Type or paste to edit"@
            },
            dim(),
        ),
        styled_line("  Press Esc to go back"@, dim()),
    ] + error_lines(input.error)
}

/// The wizard's screen at the given width: the overview, a blank row, the input box, and the key
/// hints. The box has a fixed height; the overview and the hints share what is left.
pub open spec fn entry_parts(width: u16, input: ApiKeyInputView) -> Seq<ScreenPartView> {
    seq![
        ScreenPartView {
            height: RowHeight::AtLeast(
                if input.validating {
                    12
                } else {
                    10
                },
            ),
            content: PartContentView::Lines(entry_intro(input)),
        },
        ScreenPartView { height: RowHeight::Exactly(1), content: PartContentView::Blank },
        ScreenPartView {
            height: RowHeight::Exactly(entry_input_height(width, input) as u16),
            content: PartContentView::Boxed {
                title: input.step.heading(),
                lines: entry_input(input),
            },
        },
        ScreenPartView {
            height: RowHeight::AtLeast(4),
            content: PartContentView::Lines(entry_footer(input)),
        },
    ]
}

/// What the widget shows at the given width. `shimmer` is the animated prompt.
pub open spec fn screen(
    widget: AuthModeView,
    width: u16,
    shimmer: Seq<TextSpanView>,
) -> ScreenView {
    match widget.sign_in_state {
        SignInView::PickMode => ScreenView::Lines {
            lines: pick_mode_lines(widget),
            next_frame_ms: None,
        },
        SignInView::ContinueInBrowser { .. } => ScreenView::Lines {
            lines: browser_lines(widget, shimmer),
            next_frame_ms: if widget.animations_enabled {
                Some(ANIMATION_FRAME_MS)
            } else {
                None
            },
        },
        SignInView::DeviceCode { .. } => ScreenView::DeviceCode,
        SignInView::SuccessMessage => ScreenView::Lines {
            lines: success_message_lines(),
            next_frame_ms: None,
        },
        SignInView::Success => ScreenView::Lines { lines: success_lines(), next_frame_ms: None },
        SignInView::ApiKeyEntry(input) => ScreenView::Parts(entry_parts(width, input)),
        SignInView::ApiKeyConfigured => ScreenView::Lines {
            lines: api_key_configured_lines(),
            next_frame_ms: None,
        },
    }
}

/// Appends the error below an empty line, if there is one.
fn push_error(lines: &mut Vec<TextLine>, error: &Option<String>)
    ensures
        lines_view(final(lines)@) == lines_view(old(lines)@) + error_lines(optional(*error)),
{
    if let Some(error) = error {
        lines.push(raw(""));
        lines.push(styled(error, TextStyle::unstyled().fg(TextColor::Red)));
    }
    assert(lines_view(lines@) =~= lines_view(old(lines)@) + error_lines(optional(*error)));
}

impl AuthModeWidget {
    /// Appends the lines of the option shown at `index`.
    fn push_option(&self, lines: &mut Vec<TextLine>, index: usize, option: SignInOption)
        requires
            index < self@.options().len(),
            option == self@.options()[index as int],
        ensures
            lines_view(final(lines)@) == lines_view(old(lines)@) + option_lines(
                self@,
                index as int,
            ),
    {
        let selected = self.highlighted_mode == option;
        let (title, description) = match option {
            SignInOption::ChatGpt => (
                "Sign in with ChatGPT",
                "Usage included with Plus, Pro, Team, and Enterprise plans",
            ),
            SignInOption::ApiKey => ("Provide your own API key", "Pay for what you use"),
        };
        lines.push(choice(index, title, selected));
        lines.push(over(raw(&joined("     ", description)), style_of_description(selected)));
        lines.push(raw(""));
        assert(lines_view(lines@) =~= lines_view(old(lines)@) + option_lines(self@, index as int));
    }

    /// The choice of options.
    pub fn render_pick_mode(&self) -> (lines: Vec<TextLine>)
        ensures
            lines_view(lines@) == pick_mode_lines(self@),
    {
        let mut lines = vec![
            two_spans(
                "  ",
                TextStyle::unstyled(),
                "Sign in with ChatGPT to use Codex as part of your paid plan",
                TextStyle::unstyled(),
            ),
            two_spans(
                "  ",
                TextStyle::unstyled(),
                "or connect an API key for usage-based billing",
                TextStyle::unstyled(),
            ),
            raw(""),
        ];
        assert(lines_view(lines@) =~= pick_mode_heading());
        let options = self.displayed_sign_in_options();
        for index in 0..options.len()
            invariant
                options@ == self@.options(),
                lines_view(lines@) == pick_mode_heading() + options_lines(self@, index as int),
        {
            self.push_option(&mut lines, index, options[index]);
            assert(lines_view(lines@) =~= pick_mode_heading() + options_lines(self@, index + 1));
        }
        let ghost above = lines_view(lines@);
        if !self.is_api_login_allowed() {
            lines.push(
                styled(
                    "  API key login is disabled by this workspace. Sign in with ChatGPT to continue.",
                    TextStyle::unstyled().dim(),
                ),
            );
            lines.push(raw(""));
        }
        lines.push(styled("  Press Enter to continue", TextStyle::unstyled().dim()));
        push_error(&mut lines, &self.error);
        assert(lines_view(lines@) =~= above + pick_mode_footer(self@));
        lines
    }

    /// The login that goes on in the browser. `shimmer` is the animated prompt.
    pub fn render_continue_in_browser(&self, shimmer: Vec<TextSpan>) -> (lines: Vec<TextLine>)
        ensures
            lines_view(lines@) == browser_lines(self@, spans_view(shimmer@)),
    {
        let mut shimmer = shimmer;
        let ghost animated = spans_view(shimmer@);
        let mut spans = vec![TextSpan { text: "  ".to_string(), style: TextStyle::unstyled() }];
        if self.animations_enabled {
            spans.append(&mut shimmer);
        } else {
            spans.push(
                TextSpan { text: BROWSER_PROMPT.to_string(), style: TextStyle::unstyled() },
            );
        }
        proof {
            let prompt = if self.animations_enabled {
                animated
            } else {
                seq![TextSpanView { text: BROWSER_PROMPT@, style: plain() }]
            };
            assert(spans_view(spans@) =~= seq![TextSpanView { text: "  "@, style: plain() }]
                + prompt);
        }
        let mut lines = vec![
            TextLine::Spans { spans, style: TextStyle::unstyled() },
            raw(""),
        ];
        if let SignInState::ChatGptContinueInBrowser(state) = &self.sign_in_state {
            if !state.auth_url.as_str().is_empty() {
                lines.push(
                    raw(
                        "  If the link doesn't open automatically, open the following link to authenticate:",
                    ),
                );
                lines.push(raw(""));
                lines.push(
                    two_spans(
                        "  ",
                        TextStyle::unstyled(),
                        &state.auth_url,
                        TextStyle::unstyled().fg(TextColor::Cyan).underlined(),
                    ),
                );
                lines.push(raw(""));
            }
        }
        lines.push(styled("  Press Esc to cancel", TextStyle::unstyled().dim()));
        assert(lines_view(lines@) =~= browser_lines(self@, animated));
        lines
    }

    /// The message after a successful login.
    pub fn render_chatgpt_success_message(&self) -> (lines: Vec<TextLine>)
        ensures
            lines_view(lines@) == success_message_lines(),
    {
        let dimmed = TextStyle::unstyled().dim();
        let lines = vec![
            styled(
                "✓ Signed in with your ChatGPT account",
                TextStyle::unstyled().fg(TextColor::Green),
            ),
            raw(""),
            raw("  Before you start:"),
            raw(""),
            raw("  Decide how much autonomy you want to grant Codex"),
            over(
                two_spans(
                    "  For more details see the ",
                    TextStyle::unstyled(),
                    "\u{1b}]8;;https://github.com/openai/codex\u{7}Codex docs\u{1b}]8;;\u{7}",
                    TextStyle::unstyled().underlined(),
                ),
                dimmed,
            ),
            raw(""),
            raw("  Codex can make mistakes"),
            styled("  Review the code it writes and commands it runs", dimmed),
            raw(""),
            raw("  Powered by your ChatGPT account"),
            over(
                two_spans(
                    "  Uses your plan's rate limits and ",
                    TextStyle::unstyled(),
                    "\u{1b}]8;;https://chatgpt.com/#settings\u{7}training data preferences\u{1b}]8;;\u{7}",
                    TextStyle::unstyled().underlined(),
                ),
                dimmed,
            ),
            raw(""),
            styled("  Press Enter to continue", TextStyle::unstyled().fg(TextColor::Cyan)),
        ];
        assert(lines_view(lines@) =~= success_message_lines());
        lines
    }

    /// The line left over once the message was acknowledged.
    pub fn render_chatgpt_success(&self) -> (lines: Vec<TextLine>)
        ensures
            lines_view(lines@) == success_lines(),
    {
        let lines = vec![
            styled(
                "✓ Signed in with your ChatGPT account",
                TextStyle::unstyled().fg(TextColor::Green),
            ),
        ];
        assert(lines_view(lines@) =~= success_lines());
        lines
    }

    /// The message after a custom provider was saved.
    pub fn render_api_key_configured(&self) -> (lines: Vec<TextLine>)
        ensures
            lines_view(lines@) == api_key_configured_lines(),
    {
        let lines = vec![
            styled("✓ Custom provider configured", TextStyle::unstyled().fg(TextColor::Green)),
            raw(""),
            raw("  Codey will use the provider saved in config.toml."),
        ];
        assert(lines_view(lines@) =~= api_key_configured_lines());
        lines
    }

    /// The wizard's overview of what has been typed.
    fn render_entry_intro(state: &ApiKeyInputState) -> (lines: Vec<TextLine>)
        ensures
            lines_view(lines@) == entry_intro(state@),
    {
        let mut lines = vec![
            two_spans(
                "> ",
                TextStyle::unstyled(),
                "Configure a custom API provider",
                TextStyle::unstyled().bold(),
            ),
            raw(""),
            raw(&joined(progress(state.step), state.step.title())),
            raw("  This will be written to ~/.codey/config.toml and used as the default provider."),
            raw(""),
            raw(
                &joined(
                    "  Provider ID: ",
                    display_optional_value(&state.provider_id, "<not set>"),
                ),
            ),
            raw(&joined("  Wire API: ", state.wire_api.label())),
            raw(&joined("  Base URL: ", display_optional_value(&state.base_url, "<not set>"))),
            raw(&joined("  API key: ", &mask_secret(&state.api_key))),
            raw(&joined("  Model: ", display_optional_value(&state.model, "<not set>"))),
        ];
        if state.validating {
            lines.push(raw(""));
            lines.push(
                styled(
                    "  Validating provider settings and saving config.toml...",
                    TextStyle::unstyled().fg(TextColor::Cyan),
                ),
            );
        }
        assert(lines_view(lines@) =~= entry_intro(state@));
        lines
    }

    /// What the input box shows.
    fn render_entry_input(&self, state: &ApiKeyInputState) -> (lines: Vec<TextLine>)
        ensures
            lines_view(lines@) == entry_input(state@),
    {
        let lines = match state.step {
            ApiProviderWizardStep::WireApi => {
                let chat = ApiProviderWireApi::Chat;
                let responses = ApiProviderWireApi::Responses;
                let chat_chosen = state.wire_api == chat;
                let responses_chosen = state.wire_api == responses;
                vec![
                    choice(0, chat.label(), chat_chosen),
                    styled(
                        &joined("     ", chat.description()),
                        style_of_description(chat_chosen),
                    ),
                    choice(1, responses.label(), responses_chosen),
                    styled(
                        &joined("     ", responses.description()),
                        style_of_description(responses_chosen),
                    ),
                ]
            },
            _ => {
                let value = self.current_step_value_for_display(state);
                if value.as_str().is_empty() {
                    vec![styled(state.step.placeholder(), TextStyle::unstyled().dim())]
                } else {
                    vec![raw(&value)]
                }
            },
        };
        assert(lines_view(lines@) =~= entry_input(state@));
        lines
    }

    /// The key hints, and the error if there is one.
    fn render_entry_footer(state: &ApiKeyInputState) -> (lines: Vec<TextLine>)
        ensures
            lines_view(lines@) == entry_footer(state@),
    {
        let dimmed = TextStyle::unstyled().dim();
        let enter_hint = if state.validating {
            "  Saving..."
        } else if state.step == ApiProviderWizardStep::Model {
            "  Press Enter to validate and save"
        } else {
            "  Press Enter to continue"
        };
        let edit_hint = if state.step == ApiProviderWizardStep::WireApi {
            "  Press 1/2 or Up/Down to choose"
        } else {
            "  Type or paste to edit"
        };
        let mut lines = vec![
            styled(enter_hint, dimmed),
            styled(edit_hint, dimmed),
            styled("  Press Esc to go back", dimmed),
        ];
        push_error(&mut lines, &state.error);
        assert(lines_view(lines@) =~= entry_footer(state@));
        lines
    }

    /// The wizard's screen at the given width, from top to bottom.
    pub fn render_api_key_entry(
        &self,
        width: u16,
        state: &ApiKeyInputState,
    ) -> (parts: Vec<ScreenPart>)
        ensures
            parts_view(parts@) == entry_parts(width, state@),
    {
        let input_height: u16 = self.api_key_entry_input_height(width, state);
        let intro_min_height: u16 = if state.validating {
            12
        } else {
            10
        };
        let parts = vec![
            ScreenPart {
                height: RowHeight::AtLeast(intro_min_height),
                content: PartContent::Lines(Self::render_entry_intro(state)),
            },
            ScreenPart { height: RowHeight::Exactly(1), content: PartContent::Blank },
            ScreenPart {
                height: RowHeight::Exactly(input_height),
                content: PartContent::Boxed {
                    title: state.step.title().to_string(),
                    lines: self.render_entry_input(state),
                },
            },
            ScreenPart {
                height: RowHeight::AtLeast(4),
                content: PartContent::Lines(Self::render_entry_footer(state)),
            },
        ];
        assert(parts_view(parts@) =~= entry_parts(width, state@));
        parts
    }

    /// What to draw at the given width. `shimmer` is the animated prompt.
    pub fn render_ref(&self, width: u16, shimmer: Vec<TextSpan>) -> (shown: Screen)
        ensures
            shown@ == screen(self@, width, spans_view(shimmer@)),
    {
        match &self.sign_in_state {
            SignInState::PickMode => Screen::Lines {
                lines: self.render_pick_mode(),
                next_frame_ms: None,
            },
            SignInState::ChatGptContinueInBrowser(_) => Screen::Lines {
                lines: self.render_continue_in_browser(shimmer),
                next_frame_ms: if self.animations_enabled {
                    Some(ANIMATION_FRAME_MS)
                } else {
                    None
                },
            },
            SignInState::ChatGptDeviceCode(_) => Screen::DeviceCode,
            SignInState::ChatGptSuccessMessage => Screen::Lines {
                lines: self.render_chatgpt_success_message(),
                next_frame_ms: None,
            },
            SignInState::ChatGptSuccess => Screen::Lines {
                lines: self.render_chatgpt_success(),
                next_frame_ms: None,
            },
            SignInState::ApiKeyEntry(state) => Screen::Parts(
                self.render_api_key_entry(width, state),
            ),
            SignInState::ApiKeyConfigured => Screen::Lines {
                lines: self.render_api_key_configured(),
                next_frame_ms: None,
            },
        }
    }
}

/// Of the API key the wizard's screen shows at most the length: keys of the same length give
/// the same screen.
pub proof fn law_screen_does_not_reveal_the_key(width: u16, input: ApiKeyInputView, key: Seq<char>)
    requires
        key.len() == input.api_key.len(),
    ensures
        entry_parts(width, ApiKeyInputView { api_key: key, ..input }) == entry_parts(width, input),
{
    crate::onboarding::display::law_mask_shows_no_more_than_length(key, input.api_key);
}

/// The overview asks for as many rows as it has lines. Its last line, which is that of the model
/// unless the settings are being checked, is followed by one blank row and then by the box.
pub proof fn law_one_blank_row_before_the_box(width: u16, input: ApiKeyInputView)
    ensures
        ({
            let parts = entry_parts(width, input);
            &&& parts.len() == 4
            &&& parts[0].height == RowHeight::AtLeast(entry_intro(input).len() as u16)
            &&& parts[0].content == PartContentView::Lines(entry_intro(input))
            &&& !input.validating ==> entry_intro(input).last() == raw_line(
                "  Model: "@ + shown_or(input.model, "<not set>"@),
            )
            &&& parts[1].height == RowHeight::Exactly(1)
            &&& parts[1].content is Blank
            &&& parts[2].height is Exactly
            &&& parts[2].content is Boxed
        }),
{
}

/// In a list of two, the selected entry has a caret and is cyan, its number dimmed, and the other
/// is plain; both start with their number. The description follows the selection.
pub proof fn law_selection_stands_out(index: int, text: Seq<char>)
    requires
        0 <= index < 2,
    ensures
        ({
            let cyan = TextStyle {
                fg: Some(TextColor::Cyan),
                dim: false,
                bold: false,
                underlined: false,
            };
            let dim_cyan = TextStyle { dim: true, ..cyan };
            let number = if index == 0 {
                "1. "@
            } else {
                "2. "@
            };
            &&& choice_line(index, text, true) == line_of_two(
                ("> "@ + number, dim_cyan),
                (text, cyan),
            )
            &&& choice_line(index, text, false) == raw_line("  "@ + number + text)
            &&& description_style(true) == dim_cyan
            &&& description_style(false) == (TextStyle { fg: None, ..dim_cyan })
        }),
{
}

/// How the ways to sign in are called and described.
pub proof fn law_texts_of_the_options(option: SignInOption)
    ensures
        option is ChatGpt ==> option_title(option) == "Sign in with ChatGPT"@ && option_description(
            option,
        ) == "Usage included with Plus, Pro, Team, and Enterprise plans"@,
        option is ApiKey ==> option_title(option) == "Provide your own API key"@
            && option_description(option) == "Pay for what you use"@,
{
}

/// The choice of options from top to bottom: two lines of introduction, each allowed option with
/// its description, the one that is highlighted selected, then what to press and the error. A
/// note stands before that where API keys are not allowed.
pub proof fn law_lines_of_the_choice(widget: AuthModeView)
    ensures
        ({
            let lines = pick_mode_lines(widget);
            let forced = widget.forced_login_method;
            let none = TextStyle { fg: None, dim: false, bold: false, underlined: false };
            let dimmed = TextStyle { dim: true, ..none };
            let on_chatgpt = widget.highlighted_mode is ChatGpt;
            let on_key = widget.highlighted_mode is ApiKey;
            let about_chatgpt = raw_line(
                "     "@ + "Usage included with Plus, Pro, Team, and Enterprise plans"@,
            );
            let about_key = raw_line("     "@ + "Pay for what you use"@);
            let enter = styled_line("  Press Enter to continue"@, dimmed);
            let note = styled_line(
                "  API key login is disabled by this workspace. Sign in with ChatGPT to continue."@,
                dimmed,
            );
            let above: int = match forced {
                None => 9,
                Some(ForcedLoginMethod::Chatgpt) => 8,
                Some(ForcedLoginMethod::Api) => 6,
            };
            &&& lines[0] == line_of_two(
                ("  "@, none),
                ("Sign in with ChatGPT to use Codex as part of your paid plan"@, none),
            )
            &&& lines[1] == line_of_two(
                ("  "@, none),
                ("or connect an API key for usage-based billing"@, none),
            )
            &&& lines[2] == raw_line(""@)
            &&& forced != Some(ForcedLoginMethod::Api) ==> {
                &&& lines[3] == choice_line(0, "Sign in with ChatGPT"@, on_chatgpt)
                &&& lines[4] == on_style(about_chatgpt, description_style(on_chatgpt))
                &&& lines[5] == raw_line(""@)
            }
            &&& forced == Some(ForcedLoginMethod::Api) ==> {
                &&& lines[3] == choice_line(0, "Provide your own API key"@, on_key)
                &&& lines[4] == on_style(about_key, description_style(on_key))
                &&& lines[5] == raw_line(""@)
            }
            &&& forced is None ==> {
                &&& lines[6] == choice_line(1, "Provide your own API key"@, on_key)
                &&& lines[7] == on_style(about_key, description_style(on_key))
                &&& lines[8] == raw_line(""@)
            }
            &&& forced == Some(ForcedLoginMethod::Chatgpt) ==> lines[6] == note && lines[7]
                == raw_line(""@)
            &&& lines[above] == enter
            &&& lines.skip(above + 1) == error_lines(widget.error)
        }),
{
    reveal_with_fuel(options_lines, 3);
    let lines = pick_mode_lines(widget);
    let count = widget.options().len() as int;
    let options = options_lines(widget, count);
    let footer = pick_mode_footer(widget);
    let above: int = match widget.forced_login_method {
        None => 9,
        Some(ForcedLoginMethod::Chatgpt) => 8,
        Some(ForcedLoginMethod::Api) => 6,
    };
    assert(option_lines(widget, 0).len() == 3);
    if count == 2 {
        assert(options =~= option_lines(widget, 0) + option_lines(widget, 1));
    } else {
        assert(options =~= option_lines(widget, 0));
    }
    assert(forall|i: int| 0 <= i < options.len() ==> lines[3 + i] == #[trigger] options[i]);
    assert(lines[3] == options[0] && lines[4] == options[1] && lines[5] == options[2]);
    if count == 2 {
        assert(lines[6] == options[3] && lines[7] == options[4] && lines[8] == options[5]);
    }
    assert(lines.skip(3 + options.len() as int) =~= footer);
    assert(lines.skip(above + 1) =~= error_lines(widget.error));
}

/// An error is shown in red below an empty line; without one nothing is shown.
pub proof fn law_errors_are_shown_in_red(error: Option<Seq<char>>)
    ensures
        error is None ==> error_lines(error).len() == 0,
        error matches Some(text) ==> {
            &&& error_lines(error).len() == 2
            &&& error_lines(error)[0] == raw_line(""@)
            &&& error_lines(error)[1] == styled_line(
                text,
                TextStyle {
                    fg: Some(TextColor::Red),
                    dim: false,
                    bold: false,
                    underlined: false,
                },
            )
        },
{
}

/// A login in the browser shows the prompt, animated where that is enabled, then the address
/// where one is known, and how to cancel.
pub proof fn law_lines_of_the_browser_login(widget: AuthModeView, shimmer: Seq<TextSpanView>)
    ensures
        ({
            let lines = browser_lines(widget, shimmer);
            let none = TextStyle { fg: None, dim: false, bold: false, underlined: false };
            let link = TextStyle { fg: Some(TextColor::Cyan), underlined: true, ..none };
            let cancel = styled_line("  Press Esc to cancel"@, TextStyle { dim: true, ..none });
            &&& lines[0] matches TextLineView::Spans { spans, style } && style == none
                && spans.len() > 0 && spans[0] == (TextSpanView { text: "  "@, style: none }) && (
            if widget.animations_enabled {
                spans.skip(1) == shimmer
            } else {
                spans.skip(1) == seq![
                    TextSpanView { text: "Finish signing in via your browser"@, style: none },
                ]
            })
            &&& lines[1] == raw_line(""@)
            &&& lines.last() == cancel
            &&& match widget.sign_in_state {
                SignInView::ContinueInBrowser { auth_url, .. } => {
                    &&& auth_url.len() > 0 ==> lines.len() == 7 && lines[2] == raw_line(
                        "  If the link doesn't open automatically, open the following link to authenticate:"@,
                    ) && lines[3] == raw_line(""@) && lines[4] == line_of_two(
                        ("  "@, none),
                        (auth_url, link),
                    ) && lines[5] == raw_line(""@)
                    &&& auth_url.len() == 0 ==> lines.len() == 3
                },
                _ => lines.len() == 3,
            }
        }),
{
    let prompt = if widget.animations_enabled {
        shimmer
    } else {
        seq![TextSpanView { text: BROWSER_PROMPT@, style: plain() }]
    };
    let spans = seq![TextSpanView { text: "  "@, style: plain() }] + prompt;
    assert(spans.skip(1) =~= prompt);
}

/// The message after a login, line by line.
pub proof fn law_lines_of_the_success_message()
    ensures
        ({
            let lines = success_message_lines();
            let none = TextStyle { fg: None, dim: false, bold: false, underlined: false };
            let dimmed = TextStyle { dim: true, ..none };
            let linked = TextStyle { underlined: true, ..none };
            let signed_in = styled_line(
                "✓ Signed in with your ChatGPT account"@,
                TextStyle { fg: Some(TextColor::Green), ..none },
            );
            &&& lines.len() == 14
            &&& lines[0] == signed_in
            &&& lines[1] == raw_line(""@)
            &&& lines[2] == raw_line("  Before you start:"@)
            &&& lines[3] == raw_line(""@)
            &&& lines[4] == raw_line("  Decide how much autonomy you want to grant Codex"@)
            &&& lines[5] == on_style(
                line_of_two(
                    ("  For more details see the "@, none),
                    (
                        "\u{1b}]8;;https://github.com/openai/codex\u{7}Codex docs\u{1b}]8;;\u{7}"@,
                        linked,
                    ),
                ),
                dimmed,
            )
            &&& lines[6] == raw_line(""@)
            &&& lines[7] == raw_line("  Codex can make mistakes"@)
            &&& lines[8] == styled_line(
                "  Review the code it writes and commands it runs"@,
                dimmed,
            )
            &&& lines[9] == raw_line(""@)
            &&& lines[10] == raw_line("  Powered by your ChatGPT account"@)
            &&& lines[11] == on_style(
                line_of_two(
                    ("  Uses your plan's rate limits and "@, none),
                    (
                        "\u{1b}]8;;https://chatgpt.com/#settings\u{7}training data preferences\u{1b}]8;;\u{7}"@,
                        linked,
                    ),
                ),
                dimmed,
            )
            &&& lines[12] == raw_line(""@)
            &&& lines[13] == styled_line(
                "  Press Enter to continue"@,
                TextStyle { fg: Some(TextColor::Cyan), ..none },
            )
            &&& success_lines() == seq![signed_in]
        }),
{
}

/// The message after a custom provider was saved, line by line.
pub proof fn law_lines_of_the_configured_message()
    ensures
        ({
            let lines = api_key_configured_lines();
            let green = TextStyle {
                fg: Some(TextColor::Green),
                dim: false,
                bold: false,
                underlined: false,
            };
            &&& lines.len() == 3
            &&& lines[0] == styled_line("✓ Custom provider configured"@, green)
            &&& lines[1] == raw_line(""@)
            &&& lines[2] == raw_line("  Codey will use the provider saved in config.toml."@)
        }),
{
}

/// The overview numbers the question, names what will be written, and shows each answer on its
/// own line, of the key the mask. While the settings are checked, it says so in cyan.
pub proof fn law_lines_of_the_overview(input: ApiKeyInputView)
    ensures
        ({
            let lines = entry_intro(input);
            let none = TextStyle { fg: None, dim: false, bold: false, underlined: false };
            &&& lines.len() == if input.validating {
                12int
            } else {
                10
            }
            &&& lines[0] == line_of_two(
                ("> "@, none),
                ("Configure a custom API provider"@, TextStyle { bold: true, ..none }),
            )
            &&& lines[1] == raw_line(""@)
            &&& lines[2] == raw_line(
                match input.step {
                    ApiProviderWizardStep::ProviderId => "  Step 1/5: "@ + "Provider ID"@,
                    ApiProviderWizardStep::WireApi => "  Step 2/5: "@ + "Wire API"@,
                    ApiProviderWizardStep::BaseUrl => "  Step 3/5: "@ + "Base URL"@,
                    ApiProviderWizardStep::ApiKey => "  Step 4/5: "@ + "API Key"@,
                    ApiProviderWizardStep::Model => "  Step 5/5: "@ + "Model"@,
                },
            )
            &&& lines[3] == raw_line(
                "  This will be written to ~/.codey/config.toml and used as the default provider."@,
            )
            &&& lines[4] == raw_line(""@)
            &&& lines[5] == raw_line("  Provider ID: "@ + shown_or(input.provider_id, "<not set>"@))
            &&& input.wire_api is Chat ==> lines[6] == raw_line("  Wire API: "@ + "chat"@)
            &&& input.wire_api is Responses ==> lines[6] == raw_line("  Wire API: "@ + "responses"@)
            &&& lines[7] == raw_line("  Base URL: "@ + shown_or(input.base_url, "<not set>"@))
            &&& lines[8] == raw_line("  API key: "@ + masked(input.api_key))
            &&& lines[9] == raw_line("  Model: "@ + shown_or(input.model, "<not set>"@))
            &&& input.validating ==> lines[10] == raw_line(""@) && lines[11] == styled_line(
                "  Validating provider settings and saving config.toml..."@,
                TextStyle { fg: Some(TextColor::Cyan), ..none },
            )
        }),
{
}

/// The box shows both wire formats where one is chosen, the chosen one selected. Elsewhere it
/// shows what was typed, or the question's hint, dimmed, in place of nothing.
pub proof fn law_lines_in_the_box(input: ApiKeyInputView)
    ensures
        ({
            let lines = entry_input(input);
            let dimmed = TextStyle { fg: None, dim: true, bold: false, underlined: false };
            let on_chat = input.wire_api is Chat;
            let shown = step_value_shown(input);
            &&& input.step is WireApi ==> {
                &&& lines.len() == 4
                &&& lines[0] == choice_line(0, "chat"@, on_chat)
                &&& lines[1] == styled_line(
                    "     "@ + "Compatible with chat completions style APIs"@,
                    description_style(on_chat),
                )
                &&& lines[2] == choice_line(1, "responses"@, !on_chat)
                &&& lines[3] == styled_line(
                    "     "@ + "Compatible with Responses API style backends"@,
                    description_style(!on_chat),
                )
            }
            &&& !(input.step is WireApi) ==> lines.len() == 1
            &&& !(input.step is WireApi) && shown.len() > 0 ==> lines[0] == raw_line(shown)
            &&& !(input.step is WireApi) && shown.len() == 0 ==> lines[0] == styled_line(
                input.step.hint(),
                dimmed,
            )
        }),
{
}

/// Below the box stand what Enter does, how to answer and how to go back, all dimmed, and then
/// the error.
pub proof fn law_lines_below_the_box(input: ApiKeyInputView)
    ensures
        ({
            let lines = entry_footer(input);
            let dimmed = TextStyle { fg: None, dim: true, bold: false, underlined: false };
            &&& input.validating ==> lines[0] == styled_line("  Saving..."@, dimmed)
            &&& !input.validating && input.step is Model ==> lines[0] == styled_line(
                "  Press Enter to validate and save"@,
                dimmed,
            )
            &&& !input.validating && !(input.step is Model) ==> lines[0] == styled_line(
                "  Press Enter to continue"@,
                dimmed,
            )
            &&& input.step is WireApi ==> lines[1] == styled_line(
                "  Press 1/2 or Up/Down to choose"@,
                dimmed,
            )
            &&& !(input.step is WireApi) ==> lines[1] == styled_line(
                "  Type or paste to edit"@,
                dimmed,
            )
            &&& lines[2] == styled_line("  Press Esc to go back"@, dimmed)
            &&& lines.skip(3) == error_lines(input.error)
        }),
{
    assert(entry_footer(input).skip(3) =~= error_lines(input.error));
}

/// The wizard's screen is the overview, a blank row, the box under the question's heading, and
/// the hints with at least four rows.
pub proof fn law_parts_of_the_wizard(width: u16, input: ApiKeyInputView)
    ensures
        ({
            let parts = entry_parts(width, input);
            &&& parts.len() == 4
            &&& input.validating ==> parts[0].height == RowHeight::AtLeast(12)
            &&& !input.validating ==> parts[0].height == RowHeight::AtLeast(10)
            &&& parts[0].content == PartContentView::Lines(entry_intro(input))
            &&& parts[1].height == RowHeight::Exactly(1)
            &&& parts[1].content is Blank
            &&& parts[2].height matches RowHeight::Exactly(rows) && (0 <= entry_input_height(
                width,
                input,
            ) <= 65535 ==> rows == entry_input_height(width, input))
            &&& parts[2].content == (PartContentView::Boxed {
                title: input.step.heading(),
                lines: entry_input(input),
            })
            &&& parts[3].height == RowHeight::AtLeast(4)
            &&& parts[3].content == PartContentView::Lines(entry_footer(input))
        }),
{
}

/// Each state has its own screen. Only an animated login in the browser is drawn again by itself,
/// ten times a second.
pub proof fn law_screen_of_each_state(
    widget: AuthModeView,
    width: u16,
    shimmer: Seq<TextSpanView>,
)
    ensures
        ({
            let shown = screen(widget, width, shimmer);
            let none: Option<u64> = None;
            match widget.sign_in_state {
                SignInView::PickMode => shown == (ScreenView::Lines {
                    lines: pick_mode_lines(widget),
                    next_frame_ms: none,
                }),
                SignInView::ContinueInBrowser { .. } => {
                    &&& widget.animations_enabled ==> shown == (ScreenView::Lines {
                        lines: browser_lines(widget, shimmer),
                        next_frame_ms: Some(100),
                    })
                    &&& !widget.animations_enabled ==> shown == (ScreenView::Lines {
                        lines: browser_lines(widget, shimmer),
                        next_frame_ms: none,
                    })
                },
                SignInView::DeviceCode { .. } => shown is DeviceCode,
                SignInView::SuccessMessage => shown == (ScreenView::Lines {
                    lines: success_message_lines(),
                    next_frame_ms: none,
                }),
                SignInView::Success => shown == (ScreenView::Lines {
                    lines: success_lines(),
                    next_frame_ms: none,
                }),
                SignInView::ApiKeyEntry(input) => shown == ScreenView::Parts(
                    entry_parts(width, input),
                ),
                SignInView::ApiKeyConfigured => shown == (ScreenView::Lines {
                    lines: api_key_configured_lines(),
                    next_frame_ms: none,
                }),
            }
        }),
{
}

/// What a screen shows are its lines, or its parts from top to bottom.
pub proof fn law_content_of_screens(shown: Screen, parts: Seq<ScreenPart>)
    ensures
        match shown {
            Screen::Lines { lines, next_frame_ms } => shown@ == (ScreenView::Lines {
                lines: lines_view(lines@),
                next_frame_ms,
            }),
            Screen::Parts(parts) => shown@ == ScreenView::Parts(parts_view(parts@)),
            Screen::DeviceCode => shown@ is DeviceCode,
        },
        parts_view(parts).len() == parts.len(),
        forall|i: int|
            0 <= i < parts.len() ==> parts_view(parts)[i].height == (#[trigger] parts[i]).height
                && match parts[i].content {
                PartContent::Blank => parts_view(parts)[i].content is Blank,
                PartContent::Lines(lines) => parts_view(parts)[i].content
                    == PartContentView::Lines(lines_view(lines@)),
                PartContent::Boxed { title, lines } => parts_view(parts)[i].content == (
                PartContentView::Boxed { title: title@, lines: lines_view(lines@) }),
            },
{
}

} // verus!
