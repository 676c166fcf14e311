use codey::auth::{ForcedLoginMethod, LoginStatus};
use codey::onboarding::lines::{TextColor, TextLine, TextSpan, TextStyle};
use codey::onboarding::screen::{PartContent, RowHeight, Screen, ScreenPart};
use codey::onboarding::sign_in::{
    AuthModeWidget, ContinueInBrowserState, ContinueWithDeviceCodeState, SignInOption, SignInState,
};
use codey::onboarding::wizard::{ApiKeyInputState, ApiProviderWireApi, ApiProviderWizardStep};
use ratatui::buffer::Buffer;
use ratatui::layout::{Constraint, Layout, Rect};
use ratatui::text::Line;
use ratatui::widgets::{Block, BorderType, Borders, Paragraph, Widget, Wrap};

fn widget(state: SignInState) -> AuthModeWidget {
    AuthModeWidget {
        highlighted_mode: SignInOption::ChatGpt,
        error: None,
        sign_in_state: state,
        login_status: LoginStatus::NotAuthenticated,
        forced_chatgpt_workspace_id: None,
        forced_login_method: None,
        animations_enabled: true,
    }
}

fn text(line: &TextLine) -> String {
    match line {
        TextLine::Raw { text, .. } => text.clone(),
        TextLine::Spans { spans, .. } => spans.iter().map(|span| span.text.as_str()).collect(),
    }
}

fn texts(lines: &[TextLine]) -> Vec<String> {
    lines.iter().map(text).collect()
}

fn lines(screen: Screen) -> Vec<TextLine> {
    match screen {
        Screen::Lines { lines, .. } => lines,
        _ => panic!("lines expected"),
    }
}

/// The wizard's screen, taken apart.
#[derive(Debug, PartialEq)]
struct Entry {
    heights: Vec<RowHeight>,
    title: String,
    intro: Vec<TextLine>,
    input: Vec<TextLine>,
    footer: Vec<TextLine>,
}

fn entry(state: ApiKeyInputState) -> Entry {
    let parts = match widget(SignInState::ApiKeyEntry(state)).render_ref(120, Vec::new()) {
        Screen::Parts(parts) => parts,
        _ => panic!("the wizard expected"),
    };
    let heights = parts.iter().map(|part| part.height).collect();
    let mut contents = parts.into_iter().map(|part| part.content);
    let mut next = || contents.next().expect("four parts");
    match (next(), next(), next(), next()) {
        (
            PartContent::Lines(intro),
            PartContent::Blank,
            PartContent::Boxed {
                title,
                lines: input,
            },
            PartContent::Lines(footer),
        ) => Entry {
            heights,
            title,
            intro,
            input,
            footer,
        },
        _ => panic!("overview, blank, box and hints expected"),
    }
}

fn paragraph(lines: &[TextLine]) -> Paragraph<'static> {
    let lines: Vec<Line<'static>> = lines.iter().map(|line| Line::from(text(line))).collect();
    Paragraph::new(lines).wrap(Wrap { trim: false })
}

fn row_text(buf: &Buffer, row: u16, width: u16) -> String {
    (0..width)
        .map(|col| buf[(col, row)].symbol())
        .collect::<String>()
        .trim_end()
        .to_string()
}

#[test]
fn custom_provider_entry_keeps_blank_line_before_input_box() {
    let area = Rect::new(0, 0, 160, 20);
    let mut buf = Buffer::empty(area);
    let widget = widget(SignInState::ApiKeyEntry(ApiKeyInputState::default()));
    let parts: Vec<ScreenPart> = match widget.render_ref(area.width, Vec::new()) {
        Screen::Parts(parts) => parts,
        _ => panic!("the wizard expected"),
    };
    let areas = Layout::vertical(parts.iter().map(|part| match part.height {
        RowHeight::AtLeast(rows) => Constraint::Min(rows),
        RowHeight::Exactly(rows) => Constraint::Length(rows),
    }))
    .split(area);
    for (part, area) in parts.iter().zip(areas.iter()) {
        match &part.content {
            PartContent::Blank => {}
            PartContent::Lines(lines) => paragraph(lines).render(*area, &mut buf),
            PartContent::Boxed { title, lines } => paragraph(lines)
                .block(
                    Block::default()
                        .title(title.clone())
                        .borders(Borders::ALL)
                        .border_type(BorderType::Rounded),
                )
                .render(*area, &mut buf),
        }
    }

    let lines = (0..area.height)
        .map(|row| row_text(&buf, row, area.width))
        .collect::<Vec<String>>();

    let model_row = lines
        .iter()
        .position(|line| line.contains("  Model: <not set>"))
        .expect("model summary row");
    let border_row = lines
        .iter()
        .position(|line| line.starts_with("╭Provider ID"))
        .expect("input border row");

    assert_eq!(border_row, model_row + 2);
    assert_eq!(lines[model_row + 1], "");
}

#[test]
fn options_are_numbered_and_the_highlighted_one_stands_out() {
    let shown = lines(widget(SignInState::PickMode).render_ref(80, Vec::new()));
    assert_eq!(
        texts(&shown),
        vec![
            "  Sign in with ChatGPT to use Codex as part of your paid plan",
            "  or connect an API key for usage-based billing",
            "",
            "> 1. Sign in with ChatGPT",
            "     Usage included with Plus, Pro, Team, and Enterprise plans",
            "",
            "  2. Provide your own API key",
            "     Pay for what you use",
            "",
            "  Press Enter to continue",
        ]
    );
    let cyan = TextStyle::unstyled().fg(TextColor::Cyan);
    assert_eq!(
        shown[3],
        TextLine::Spans {
            spans: vec![
                TextSpan {
                    text: "> 1. ".to_string(),
                    style: cyan.dim()
                },
                TextSpan {
                    text: "Sign in with ChatGPT".to_string(),
                    style: cyan
                },
            ],
            style: TextStyle::unstyled(),
        }
    );
    assert_eq!(
        shown[4],
        TextLine::Raw {
            text: "     Usage included with Plus, Pro, Team, and Enterprise plans".to_string(),
            style: cyan.dim(),
        }
    );
    assert_eq!(
        shown[7],
        TextLine::Raw {
            text: "     Pay for what you use".to_string(),
            style: TextStyle::unstyled().dim(),
        }
    );
}

#[test]
fn forced_method_and_error_are_shown() {
    let mut forced = widget(SignInState::PickMode);
    forced.forced_login_method = Some(ForcedLoginMethod::Chatgpt);
    forced.error = Some("API key login is disabled.".to_string());
    let shown = lines(forced.render_ref(80, Vec::new()));
    assert_eq!(
        texts(&shown[3..]),
        vec![
            "> 1. Sign in with ChatGPT",
            "     Usage included with Plus, Pro, Team, and Enterprise plans",
            "",
            "  API key login is disabled by this workspace. Sign in with ChatGPT to continue.",
            "",
            "  Press Enter to continue",
            "",
            "API key login is disabled.",
        ]
    );
    assert_eq!(
        shown[shown.len() - 1],
        TextLine::Spans {
            spans: vec![TextSpan {
                text: "API key login is disabled.".to_string(),
                style: TextStyle::unstyled().fg(TextColor::Red),
            }],
            style: TextStyle::unstyled(),
        }
    );

    let mut api = widget(SignInState::PickMode);
    api.forced_login_method = Some(ForcedLoginMethod::Api);
    let shown = lines(api.render_ref(80, Vec::new()));
    assert_eq!(
        texts(&shown[3..6]),
        vec!["  1. Provide your own API key", "     Pay for what you use", ""]
    );
}

fn browser(auth_url: &str, animations_enabled: bool) -> (Vec<String>, Option<u64>) {
    let mut widget = widget(SignInState::ChatGptContinueInBrowser(
        ContinueInBrowserState {
            auth_url: auth_url.to_string(),
            shutdown_flag: None,
        },
    ));
    widget.animations_enabled = animations_enabled;
    let shimmer = vec![
        TextSpan {
            text: "shim".to_string(),
            style: TextStyle::unstyled().bold(),
        },
        TextSpan {
            text: "mer".to_string(),
            style: TextStyle::unstyled(),
        },
    ];
    match widget.render_ref(80, shimmer) {
        Screen::Lines {
            lines,
            next_frame_ms,
        } => (texts(&lines), next_frame_ms),
        _ => panic!("lines expected"),
    }
}

#[test]
fn login_in_the_browser_shows_its_link() {
    let link = "  If the link doesn't open automatically, open the following link to authenticate:";
    assert_eq!(
        browser("https://auth.example", false),
        (
            vec![
                "  Finish signing in via your browser".to_string(),
                "".to_string(),
                link.to_string(),
                "".to_string(),
                "  https://auth.example".to_string(),
                "".to_string(),
                "  Press Esc to cancel".to_string(),
            ],
            None
        )
    );
    assert_eq!(
        browser("", true),
        (
            vec![
                "  shimmer".to_string(),
                "".to_string(),
                "  Press Esc to cancel".to_string(),
            ],
            Some(100)
        )
    );
}

#[test]
fn success_screens() {
    let message = lines(widget(SignInState::ChatGptSuccessMessage).render_ref(80, Vec::new()));
    assert_eq!(message.len(), 14);
    assert_eq!(text(&message[0]), "✓ Signed in with your ChatGPT account");
    assert_eq!(
        text(&message[5]),
        "  For more details see the \
         \u{1b}]8;;https://github.com/openai/codex\u{7}Codex docs\u{1b}]8;;\u{7}"
    );
    assert_eq!(
        message[13],
        TextLine::Spans {
            spans: vec![TextSpan {
                text: "  Press Enter to continue".to_string(),
                style: TextStyle::unstyled().fg(TextColor::Cyan),
            }],
            style: TextStyle::unstyled(),
        }
    );
    let success = lines(widget(SignInState::ChatGptSuccess).render_ref(80, Vec::new()));
    assert_eq!(
        texts(&success),
        vec!["✓ Signed in with your ChatGPT account"]
    );
    let configured = lines(widget(SignInState::ApiKeyConfigured).render_ref(80, Vec::new()));
    assert_eq!(
        texts(&configured),
        vec![
            "✓ Custom provider configured",
            "",
            "  Codey will use the provider saved in config.toml."
        ]
    );
    let device = widget(SignInState::ChatGptDeviceCode(ContinueWithDeviceCodeState {
        cancel: None,
    }));
    assert_eq!(device.render_ref(80, Vec::new()), Screen::DeviceCode);
}

#[test]
fn wizard_shows_what_was_typed_with_the_key_masked() {
    let screen = entry(ApiKeyInputState {
        provider_id: "custom_1".to_string(),
        wire_api: ApiProviderWireApi::Chat,
        base_url: " ".to_string(),
        api_key: "secret".to_string(),
        model: "model-x".to_string(),
        step: ApiProviderWizardStep::ApiKey,
        validating: false,
        error: Some("API key cannot be empty".to_string()),
    });
    assert_eq!(
        texts(&screen.intro),
        vec![
            "> Configure a custom API provider",
            "",
            "  Step 4/5: API Key",
            "  This will be written to ~/.codey/config.toml and used as the default provider.",
            "",
            "  Provider ID: custom_1",
            "  Wire API: chat",
            "  Base URL: <not set>",
            "  API key: ******",
            "  Model: model-x",
        ]
    );
    assert_eq!(screen.title, "API Key");
    assert_eq!(texts(&screen.input), vec!["******"]);
    assert_eq!(
        texts(&screen.footer),
        vec![
            "  Press Enter to continue",
            "  Type or paste to edit",
            "  Press Esc to go back",
            "",
            "API key cannot be empty",
        ]
    );
    assert_eq!(
        screen.heights,
        vec![
            RowHeight::AtLeast(10),
            RowHeight::Exactly(1),
            RowHeight::Exactly(3),
            RowHeight::AtLeast(4)
        ]
    );
}

#[test]
fn wizard_shows_that_it_is_checking() {
    let screen = entry(ApiKeyInputState {
        step: ApiProviderWizardStep::Model,
        validating: true,
        ..ApiKeyInputState::default()
    });
    assert_eq!(screen.heights[0], RowHeight::AtLeast(12));
    assert_eq!(screen.intro.len(), 12);
    assert_eq!(
        texts(&screen.intro[10..]),
        vec![
            "",
            "  Validating provider settings and saving config.toml..."
        ]
    );
    assert_eq!(texts(&screen.footer)[0], "  Saving...");
    assert_eq!(
        screen.input,
        vec![TextLine::Spans {
            spans: vec![TextSpan {
                text: "gpt-4.1".to_string(),
                style: TextStyle::unstyled().dim(),
            }],
            style: TextStyle::unstyled(),
        }]
    );
    let ready = entry(ApiKeyInputState {
        step: ApiProviderWizardStep::Model,
        ..ApiKeyInputState::default()
    });
    assert_eq!(
        texts(&ready.footer)[0],
        "  Press Enter to validate and save"
    );
}

#[test]
fn wizard_lists_the_wire_formats() {
    let screen = entry(ApiKeyInputState {
        step: ApiProviderWizardStep::WireApi,
        ..ApiKeyInputState::default()
    });
    assert_eq!(
        texts(&screen.input),
        vec![
            "  1. chat",
            "     Compatible with chat completions style APIs",
            "> 2. responses",
            "     Compatible with Responses API style backends",
        ]
    );
    assert_eq!(
        texts(&screen.footer)[1],
        "  Press 1/2 or Up/Down to choose"
    );
    assert_eq!(screen.heights[2], RowHeight::Exactly(6));
}

#[test]
fn screens_of_equally_long_keys_are_alike() {
    let with_key = |key: &str| {
        entry(ApiKeyInputState {
            step: ApiProviderWizardStep::ApiKey,
            api_key: key.to_string(),
            ..ApiKeyInputState::default()
        })
    };
    assert_eq!(with_key("abcdef"), with_key("uvwxyz"));
    assert_ne!(with_key("abcdef"), with_key("abc"));
}
