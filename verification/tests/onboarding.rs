use codey::auth::{AuthMode, ForcedLoginMethod, LoginStatus};
use codey::onboarding::config_edits::{
    build_custom_provider_edits, persist_custom_provider_config, written_outcome, ConfigEdit,
    ConfigValue,
};
use codey::onboarding::display::{display_optional_value, line_count_height, mask_secret};
use codey::onboarding::entry::{take_key, take_paste, EntryReaction};
use codey::onboarding::keys::{KeyCode, KeyEvent};
use codey::onboarding::probe::{
    provider_probe, validate_custom_provider_config, ApiError, TransportError,
};
use codey::onboarding::provider::{
    snapshot_custom_provider_config, validate_base_url, validate_current_step, validate_non_empty,
    validate_provider_id, validate_scheme, CustomProviderConfig,
};
use codey::onboarding::sign_in::{
    AuthModeWidget, ContinueInBrowserState, ContinueWithDeviceCodeState, SignInEffect,
    SignInOption, SignInState, StepState, API_KEY_DISABLED_MESSAGE,
};
use codey::onboarding::wizard::{
    current_step_value_mut, ApiKeyInputState, ApiProviderWireApi, ApiProviderWizardStep, ApiWireApi,
};

const STEPS: [ApiProviderWizardStep; 5] = [
    ApiProviderWizardStep::ProviderId,
    ApiProviderWizardStep::WireApi,
    ApiProviderWizardStep::BaseUrl,
    ApiProviderWizardStep::ApiKey,
    ApiProviderWizardStep::Model,
];

fn widget(forced_login_method: Option<ForcedLoginMethod>, state: SignInState) -> AuthModeWidget {
    AuthModeWidget {
        highlighted_mode: SignInOption::ChatGpt,
        error: None,
        sign_in_state: state,
        login_status: LoginStatus::NotAuthenticated,
        forced_chatgpt_workspace_id: None,
        forced_login_method,
        animations_enabled: true,
    }
}

fn widget_forced_chatgpt() -> AuthModeWidget {
    widget(Some(ForcedLoginMethod::Chatgpt), SignInState::PickMode)
}

fn widget_custom_provider_entry() -> AuthModeWidget {
    AuthModeWidget {
        highlighted_mode: SignInOption::ApiKey,
        ..widget(None, SignInState::ApiKeyEntry(ApiKeyInputState::default()))
    }
}

fn press(code: KeyCode) -> KeyEvent {
    KeyEvent {
        code,
        is_press: true,
        with_super: false,
        with_control: false,
        with_alt: false,
    }
}

fn filled() -> ApiKeyInputState {
    ApiKeyInputState {
        provider_id: " custom_1 ".to_string(),
        wire_api: ApiProviderWireApi::Chat,
        base_url: " https://example.com/v1/ ".to_string(),
        api_key: " secret ".to_string(),
        model: " model-x ".to_string(),
        step: ApiProviderWizardStep::Model,
        validating: false,
        error: None,
    }
}

fn custom_provider() -> CustomProviderConfig {
    CustomProviderConfig {
        provider_id: "custom_1".to_string(),
        wire_api: ApiProviderWireApi::Chat,
        base_url: "https://example.com/v1/".to_string(),
        api_key: "secret".to_string(),
        model: "model-x".to_string(),
    }
}

fn in_browser() -> SignInState {
    SignInState::ChatGptContinueInBrowser(ContinueInBrowserState {
        auth_url: "https://auth.example".to_string(),
        shutdown_flag: Some(7),
    })
}

#[test]
fn api_key_flow_disabled_when_chatgpt_forced() {
    let mut widget = widget_forced_chatgpt();

    widget.start_api_key_entry();

    assert_eq!(widget.error.as_deref(), Some(API_KEY_DISABLED_MESSAGE));
    assert!(matches!(&widget.sign_in_state, SignInState::PickMode));
}

#[test]
fn saving_api_key_is_blocked_when_chatgpt_forced() {
    let mut widget = widget_forced_chatgpt();

    let effects = widget.begin_custom_provider_save(CustomProviderConfig {
        provider_id: "test".to_string(),
        wire_api: ApiProviderWireApi::Responses,
        base_url: "https://example.com/v1".to_string(),
        api_key: "sk-test".to_string(),
        model: "gpt-test".to_string(),
    });

    assert_eq!(widget.error.as_deref(), Some(API_KEY_DISABLED_MESSAGE));
    assert!(matches!(&widget.sign_in_state, SignInState::PickMode));
    assert_eq!(widget.login_status, LoginStatus::NotAuthenticated);
    assert_eq!(effects, vec![SignInEffect::ScheduleFrame]);
}

#[test]
fn provider_id_validation_rejects_invalid_characters() {
    assert_eq!(
        validate_provider_id("my provider").unwrap_err(),
        "Provider ID can only contain letters, numbers, '_' or '-'"
    );
    assert!(validate_provider_id("custom_1").is_ok());
}

#[test]
fn provider_id_validation_edges() {
    assert_eq!(
        validate_provider_id("").unwrap_err(),
        "Provider ID cannot be empty"
    );
    assert!(validate_provider_id("A-z_09").is_ok());
    assert!(validate_provider_id("caf\u{e9}").is_err());
    assert!(validate_provider_id("a.b").is_err());
    assert_eq!(
        validate_non_empty("", "Model").unwrap_err(),
        "Model cannot be empty"
    );
    assert!(validate_non_empty(" ", "Model").is_ok());
}

#[test]
fn base_url_needs_http_or_https() {
    assert!(validate_base_url("https://example.com/v1").is_ok());
    assert!(validate_base_url("HTTP://example.com").is_ok());
    assert_eq!(
        validate_base_url("").unwrap_err(),
        "Base URL cannot be empty"
    );
    assert_eq!(
        validate_base_url("ftp://example.com").unwrap_err(),
        "Base URL must use http or https, got ftp"
    );
    assert_eq!(
        validate_base_url("FTP://example.com").unwrap_err(),
        "Base URL must use http or https, got ftp"
    );
    assert_eq!(
        validate_base_url("example.com").unwrap_err(),
        "Invalid base URL: relative URL without a base"
    );
}

#[test]
fn parsed_schemes_are_judged() {
    assert!(validate_scheme(Ok("http".to_string())).is_ok());
    assert!(validate_scheme(Ok("https".to_string())).is_ok());
    assert_eq!(
        validate_scheme(Ok("file".to_string())).unwrap_err(),
        "Base URL must use http or https, got file"
    );
    assert_eq!(
        validate_scheme(Err("empty host".to_string())).unwrap_err(),
        "Invalid base URL: empty host"
    );
}

#[test]
fn snapshot_custom_provider_config_trims_values() {
    let state = filled();

    let config = snapshot_custom_provider_config(&state).unwrap();

    assert_eq!(config, custom_provider());
}

#[test]
fn snapshot_reports_the_first_error() {
    let empty = ApiKeyInputState::default();
    assert_eq!(
        snapshot_custom_provider_config(&empty).unwrap_err(),
        "Provider ID cannot be empty"
    );
    let mut state = filled();
    state.model = String::new();
    assert_eq!(
        snapshot_custom_provider_config(&state).unwrap_err(),
        "Model cannot be empty"
    );
    state.api_key = "\u{a0}".to_string();
    assert_eq!(
        snapshot_custom_provider_config(&state).unwrap_err(),
        "API key cannot be empty"
    );
    state.base_url = "mailto:a@example.com".to_string();
    assert_eq!(
        snapshot_custom_provider_config(&state).unwrap_err(),
        "Base URL must use http or https, got mailto"
    );
}

#[test]
fn each_step_validates_its_own_field() {
    let mut state = ApiKeyInputState::default();
    let errors: Vec<Option<String>> = STEPS
        .into_iter()
        .map(|step| {
            state.step = step;
            validate_current_step(&state).err()
        })
        .collect();
    assert_eq!(
        errors,
        vec![
            Some("Provider ID cannot be empty".to_string()),
            None,
            Some("Base URL cannot be empty".to_string()),
            Some("API key cannot be empty".to_string()),
            Some("Model cannot be empty".to_string()),
        ]
    );
}

#[test]
fn steps_are_in_line() {
    for (i, step) in STEPS.into_iter().enumerate() {
        assert_eq!(step.index(), i + 1);
        assert_eq!(step.next(), STEPS.get(i + 1).copied());
        assert_eq!(step.previous(), if i == 0 { None } else { Some(STEPS[i - 1]) });
    }
    let titles: Vec<&str> = STEPS.into_iter().map(|step| step.title()).collect();
    assert_eq!(
        titles,
        vec!["Provider ID", "Wire API", "Base URL", "API Key", "Model"]
    );
    let placeholders: Vec<&str> = STEPS.into_iter().map(|step| step.placeholder()).collect();
    assert_eq!(
        placeholders,
        vec![
            "my-provider",
            "",
            "https://example.com/v1",
            "Paste or type your API key",
            "gpt-4.1"
        ]
    );
}

#[test]
fn wire_api_toggles_and_is_named() {
    let mut wire_api = ApiProviderWireApi::default();
    assert_eq!(wire_api, ApiProviderWireApi::Responses);
    assert_eq!(wire_api.as_config_value(), "responses");
    assert_eq!(wire_api.as_api_wire(), ApiWireApi::Responses);
    wire_api.toggle();
    assert_eq!(wire_api, ApiProviderWireApi::Chat);
    assert_eq!(wire_api.label(), "chat");
    assert_eq!(wire_api.as_api_wire(), ApiWireApi::Chat);
    assert_eq!(
        wire_api.description(),
        "Compatible with chat completions style APIs"
    );
    wire_api.toggle();
    assert_eq!(wire_api, ApiProviderWireApi::Responses);
    assert_eq!(
        wire_api.description(),
        "Compatible with Responses API style backends"
    );
}

#[test]
fn current_step_value_is_the_typed_field() {
    let mut state = ApiKeyInputState::default();
    for step in STEPS {
        state.step = step;
        if let Some(value) = current_step_value_mut(&mut state) {
            value.push_str(step.title());
        }
    }
    assert_eq!(state.provider_id, "Provider ID");
    assert_eq!(state.base_url, "Base URL");
    assert_eq!(state.api_key, "API Key");
    assert_eq!(state.model, "Model");
    state.step = ApiProviderWizardStep::WireApi;
    assert_eq!(current_step_value_mut(&mut state), None);
}

#[test]
fn custom_provider_edits_write_expected_config() {
    let config = CustomProviderConfig {
        provider_id: "custom_1".to_string(),
        wire_api: ApiProviderWireApi::Responses,
        base_url: "https://example.com/v1".to_string(),
        api_key: "sk-test".to_string(),
        model: "gpt-test".to_string(),
    };

    let mut document = toml_edit::DocumentMut::new();
    for edit in build_custom_provider_edits(&config) {
        apply(&mut document, edit);
    }

    assert_eq!(
        document.to_string(),
        r#"model_provider = "custom_1"
model = "gpt-test"

[model_providers.custom_1]
name = "custom_1"
base_url = "https://example.com/v1"
wire_api = "responses"
experimental_bearer_token = "sk-test"
requires_openai_auth = false
"#
    );
}

fn apply(document: &mut toml_edit::DocumentMut, edit: ConfigEdit) {
    match edit {
        ConfigEdit::ClearPath { segments } => {
            let mut table: &mut dyn toml_edit::TableLike = document.as_table_mut();
            for segment in &segments[..segments.len() - 1] {
                table = match table.get_mut(segment).and_then(|item| item.as_table_like_mut()) {
                    Some(below) => below,
                    None => return,
                };
            }
            table.remove(&segments[segments.len() - 1]);
        }
        ConfigEdit::SetPath { segments, value } => {
            let mut table = document.as_table_mut();
            for segment in &segments[..segments.len() - 1] {
                table = table
                    .entry(segment)
                    .or_insert_with(|| {
                        let mut below = toml_edit::Table::new();
                        below.set_implicit(true);
                        toml_edit::Item::Table(below)
                    })
                    .as_table_mut()
                    .expect("a table");
            }
            table.insert(
                &segments[segments.len() - 1],
                match value {
                    ConfigValue::Text(text) => toml_edit::value(text),
                    ConfigValue::Flag(flag) => toml_edit::value(flag),
                },
            );
        }
    }
}

#[test]
fn edits_replace_the_table_and_keep_the_rest() {
    let mut document: toml_edit::DocumentMut = "model = \"old\"\nother = 1\n\n\
        [model_providers.custom_1]\nname = \"old\"\nquery = \"gone\"\n\n\
        [model_providers.second]\nname = \"kept\"\n"
        .parse()
        .expect("valid file");
    for edit in build_custom_provider_edits(&custom_provider()) {
        apply(&mut document, edit);
    }
    assert_eq!(document["model"].as_str(), Some("model-x"));
    assert_eq!(document["model_provider"].as_str(), Some("custom_1"));
    assert_eq!(document["other"].as_integer(), Some(1));
    let providers = &document["model_providers"];
    assert_eq!(providers["second"]["name"].as_str(), Some("kept"));
    assert_eq!(providers["custom_1"]["name"].as_str(), Some("custom_1"));
    assert_eq!(providers["custom_1"]["wire_api"].as_str(), Some("chat"));
    assert!(providers["custom_1"].get("query").is_none());
}

#[test]
fn refused_provider_is_not_written() {
    let config = custom_provider();
    assert_eq!(
        persist_custom_provider_config(&config, Err("refused".to_string())),
        Err("refused".to_string())
    );
    assert_eq!(
        persist_custom_provider_config(&config, Ok(())),
        Ok(build_custom_provider_edits(&config))
    );
    assert_eq!(written_outcome(Ok(())), Ok(()));
    assert_eq!(
        written_outcome(Err("disk full".to_string())),
        Err("Failed to write config.toml: disk full".to_string())
    );
}

#[test]
fn probe_is_one_request_with_the_typed_key() {
    let probe = provider_probe(&custom_provider());
    assert_eq!(probe.name, "custom_1");
    assert_eq!(probe.base_url, "https://example.com/v1/");
    assert_eq!(probe.bearer_token, "secret");
    assert_eq!(probe.wire, ApiWireApi::Chat);
    assert_eq!(probe.max_attempts, 1);
    assert_eq!(probe.base_delay_ms, 200);
    assert_eq!(probe.stream_idle_timeout_secs, 5);
    assert!(!probe.retry_429 && !probe.retry_5xx && !probe.retry_transport);
}

#[test]
fn probe_replies_are_judged() {
    let http = |status: u16| {
        validate_custom_provider_config(Err(ApiError::Transport(TransportError::Http { status })))
    };
    assert!(validate_custom_provider_config(Ok(())).is_ok());
    for status in [404, 405, 501, 500, 429, 418] {
        assert!(http(status).is_ok());
    }
    for status in [401, 403] {
        assert_eq!(
            http(status).unwrap_err(),
            "Authentication failed while checking the provider. Verify the API key."
        );
        assert_eq!(
            validate_custom_provider_config(Err(ApiError::Api {
                status,
                message: "bad key".to_string()
            }))
            .unwrap_err(),
            "Authentication failed while checking the provider: bad key"
        );
    }
    assert!(validate_custom_provider_config(Err(ApiError::Api {
        status: 500,
        message: "oops".to_string()
    }))
    .is_ok());
    let transport = |error: TransportError| {
        validate_custom_provider_config(Err(ApiError::Transport(error))).unwrap_err()
    };
    assert_eq!(
        transport(TransportError::Timeout),
        "Timed out while connecting to the provider."
    );
    assert_eq!(
        transport(TransportError::RetryLimit),
        "Could not connect to the provider after retrying."
    );
    assert_eq!(
        transport(TransportError::Network("refused".to_string())),
        "Could not connect to the provider: refused"
    );
    assert_eq!(
        transport(TransportError::Build("bad header".to_string())),
        "Could not connect to the provider: bad header"
    );
    for error in [
        ApiError::Stream,
        ApiError::ContextWindowExceeded,
        ApiError::QuotaExceeded,
        ApiError::UsageNotIncluded,
        ApiError::Retryable,
        ApiError::RateLimit,
        ApiError::InvalidRequest,
    ] {
        assert!(validate_custom_provider_config(Err(error)).is_ok());
    }
}

#[test]
fn typing_and_backspace() {
    let mut state = ApiKeyInputState::default();
    state.error = Some("old".to_string());
    assert_eq!(
        take_key(&mut state, &press(KeyCode::Char('k'))),
        EntryReaction::Changed
    );
    assert_eq!(state.provider_id, "k");
    assert_eq!(state.error, None);
    assert_eq!(
        take_key(&mut state, &press(KeyCode::Backspace)),
        EntryReaction::Changed
    );
    assert_eq!(state.provider_id, "");
    assert_eq!(
        take_key(&mut state, &press(KeyCode::Backspace)),
        EntryReaction::Changed
    );
    let with_control = KeyEvent {
        with_control: true,
        ..press(KeyCode::Char('c'))
    };
    let with_alt = KeyEvent {
        with_alt: true,
        ..press(KeyCode::Char('c'))
    };
    let with_super = KeyEvent {
        with_super: true,
        ..press(KeyCode::Char('c'))
    };
    let repeat = KeyEvent {
        is_press: false,
        ..press(KeyCode::Char('c'))
    };
    for key in [
        with_control,
        with_alt,
        with_super,
        repeat,
        press(KeyCode::Up),
        press(KeyCode::Left),
        press(KeyCode::Other),
    ] {
        assert_eq!(take_key(&mut state, &key), EntryReaction::Ignored);
        assert_eq!(state, ApiKeyInputState::default());
    }
}

#[test]
fn wire_api_is_chosen_by_keys() {
    let mut state = ApiKeyInputState {
        step: ApiProviderWizardStep::WireApi,
        ..ApiKeyInputState::default()
    };
    let chat = [
        KeyCode::Up,
        KeyCode::Char('k'),
        KeyCode::Char('1'),
        KeyCode::Char('c'),
        KeyCode::Char('C'),
    ];
    let responses = [
        KeyCode::Down,
        KeyCode::Char('j'),
        KeyCode::Char('2'),
        KeyCode::Char('r'),
        KeyCode::Char('R'),
    ];
    for (up, down) in chat.into_iter().zip(responses) {
        take_key(&mut state, &press(up));
        assert_eq!(state.wire_api, ApiProviderWireApi::Chat);
        take_key(&mut state, &press(down));
        assert_eq!(state.wire_api, ApiProviderWireApi::Responses);
    }
    take_key(&mut state, &press(KeyCode::Left));
    assert_eq!(state.wire_api, ApiProviderWireApi::Chat);
    take_key(&mut state, &press(KeyCode::Right));
    assert_eq!(state.wire_api, ApiProviderWireApi::Responses);
    // The digits work with modifiers, the letters do not.
    let alt = |code| KeyEvent {
        with_alt: true,
        ..press(code)
    };
    assert_eq!(
        take_key(&mut state, &alt(KeyCode::Char('c'))),
        EntryReaction::Ignored
    );
    assert_eq!(
        take_key(&mut state, &alt(KeyCode::Char('1'))),
        EntryReaction::Changed
    );
    assert_eq!(
        take_key(&mut state, &press(KeyCode::Backspace)),
        EntryReaction::Ignored
    );
    assert_eq!(take_paste(&mut state, "chat"), EntryReaction::Ignored);
}

#[test]
fn pasted_text_is_appended_trimmed() {
    let mut state = ApiKeyInputState {
        provider_id: "my".to_string(),
        ..ApiKeyInputState::default()
    };
    assert_eq!(
        take_paste(&mut state, "\u{2003}-provider one\r\n"),
        EntryReaction::Changed
    );
    assert_eq!(state.provider_id, "my-provider one");
}

#[test]
fn enter_leads_through_valid_settings() {
    let mut state = ApiKeyInputState {
        step: ApiProviderWizardStep::ProviderId,
        ..filled()
    };
    for step in &STEPS[1..] {
        assert_eq!(
            take_key(&mut state, &press(KeyCode::Enter)),
            EntryReaction::Changed
        );
        assert_eq!(state.step, *step);
    }
    assert_eq!(
        take_key(&mut state, &press(KeyCode::Enter)),
        EntryReaction::Submitted(custom_provider())
    );
    assert!(state.validating);
    assert_eq!(
        take_key(&mut state, &press(KeyCode::Esc)),
        EntryReaction::Ignored
    );
    assert_eq!(take_paste(&mut state, "x"), EntryReaction::Ignored);
}

#[test]
fn enter_stops_at_the_first_error() {
    let mut state = ApiKeyInputState::default();
    assert_eq!(
        take_key(&mut state, &press(KeyCode::Enter)),
        EntryReaction::Changed
    );
    assert_eq!(state.step, ApiProviderWizardStep::ProviderId);
    assert_eq!(state.error.as_deref(), Some("Provider ID cannot be empty"));

    // The last step checks the earlier ones once more.
    let mut state = ApiKeyInputState {
        base_url: "nowhere".to_string(),
        ..filled()
    };
    assert_eq!(
        take_key(&mut state, &press(KeyCode::Enter)),
        EntryReaction::Changed
    );
    assert_eq!(
        state.error.as_deref(),
        Some("Invalid base URL: relative URL without a base")
    );
    assert!(!state.validating);
}

#[test]
fn esc_goes_back_and_out() {
    let mut state = filled();
    for step in STEPS[..4].iter().rev() {
        assert_eq!(
            take_key(&mut state, &press(KeyCode::Esc)),
            EntryReaction::Changed
        );
        assert_eq!(state.step, *step);
    }
    assert_eq!(
        take_key(&mut state, &press(KeyCode::Esc)),
        EntryReaction::Left
    );
}

#[test]
fn options_follow_the_forced_method() {
    let both = widget(None, SignInState::PickMode);
    assert_eq!(
        both.displayed_sign_in_options(),
        vec![SignInOption::ChatGpt, SignInOption::ApiKey]
    );
    assert_eq!(
        widget_forced_chatgpt().selectable_sign_in_options(),
        vec![SignInOption::ChatGpt]
    );
    let api = widget(Some(ForcedLoginMethod::Api), SignInState::PickMode);
    assert_eq!(
        api.displayed_sign_in_options(),
        vec![SignInOption::ApiKey]
    );
    assert!(api.is_api_login_allowed() && !api.is_chatgpt_login_allowed());
}

#[test]
fn highlight_wraps_around() {
    let mut both = widget(None, SignInState::PickMode);
    for key in [KeyCode::Up, KeyCode::Char('j')] {
        let effects = both.handle_key_event(press(key));
        assert!(effects.is_empty());
        assert_eq!(
            both.highlighted_mode,
            if key == KeyCode::Up {
                SignInOption::ApiKey
            } else {
                SignInOption::ChatGpt
            }
        );
    }
    both.move_highlight(-5);
    assert_eq!(both.highlighted_mode, SignInOption::ApiKey);
    both.move_highlight(5);
    assert_eq!(both.highlighted_mode, SignInOption::ChatGpt);
    let mut api = widget(Some(ForcedLoginMethod::Api), SignInState::PickMode);
    api.move_highlight(0);
    assert_eq!(api.highlighted_mode, SignInOption::ApiKey);
}

#[test]
fn enter_starts_the_highlighted_option() {
    let mut widget = AuthModeWidget {
        forced_chatgpt_workspace_id: Some("workspace".to_string()),
        error: Some("old".to_string()),
        ..widget(None, SignInState::PickMode)
    };
    assert_eq!(
        widget.handle_key_event(press(KeyCode::Enter)),
        vec![SignInEffect::StartLoginServer(Some(
            "workspace".to_string()
        ))]
    );
    assert_eq!(widget.error, None);
    assert_eq!(
        widget.start_device_code_login(),
        vec![SignInEffect::StartDeviceCodeLogin(Some(
            "workspace".to_string()
        ))]
    );

    assert_eq!(
        widget.handle_key_event(press(KeyCode::Char('2'))),
        vec![SignInEffect::ScheduleFrame]
    );
    assert_eq!(
        widget.sign_in_state,
        SignInState::ApiKeyEntry(ApiKeyInputState::default())
    );
}

#[test]
fn second_number_does_nothing_with_one_option() {
    let mut widget = widget_forced_chatgpt();
    assert!(widget
        .handle_key_event(press(KeyCode::Char('2')))
        .is_empty());
    assert_eq!(widget, widget_forced_chatgpt());
    assert_eq!(
        widget.handle_key_event(press(KeyCode::Char('1'))),
        vec![SignInEffect::StartLoginServer(None)]
    );
}

#[test]
fn existing_login_is_not_repeated() {
    for mode in [AuthMode::Chatgpt, AuthMode::ChatgptAuthTokens] {
        let mut widget = AuthModeWidget {
            login_status: LoginStatus::AuthMode(mode),
            ..widget(None, SignInState::PickMode)
        };
        assert_eq!(
            widget.handle_key_event(press(KeyCode::Enter)),
            vec![SignInEffect::ScheduleFrame]
        );
        assert_eq!(widget.sign_in_state, SignInState::ChatGptSuccess);
        assert_eq!(widget.get_step_state(), StepState::Complete);
    }
    let mut widget = AuthModeWidget {
        login_status: LoginStatus::AuthMode(AuthMode::ApiKey),
        ..widget(None, SignInState::PickMode)
    };
    assert_eq!(widget.handle_existing_chatgpt_login(), None);
}

#[test]
fn login_runs_from_start_to_message() {
    let mut widget = widget(None, SignInState::PickMode);
    assert_eq!(
        widget.login_server_started("https://auth.example".to_string(), 7),
        vec![SignInEffect::ScheduleFrame]
    );
    assert_eq!(widget.sign_in_state, in_browser());
    assert_eq!(
        widget.login_ended(true),
        vec![
            SignInEffect::ReloadAuth,
            SignInEffect::ShutdownLogin(7),
            SignInEffect::ScheduleFrame
        ]
    );
    assert_eq!(widget.sign_in_state, SignInState::ChatGptSuccessMessage);
    assert_eq!(widget.get_step_state(), StepState::InProgress);
    assert!(widget.handle_key_event(press(KeyCode::Enter)).is_empty());
    assert_eq!(widget.get_step_state(), StepState::Complete);
}

#[test]
fn failed_login_returns_to_the_options() {
    let mut failed = widget(None, in_browser());
    assert_eq!(
        failed.login_ended(false),
        vec![SignInEffect::ShutdownLogin(7), SignInEffect::ScheduleFrame]
    );
    assert_eq!(failed.sign_in_state, SignInState::PickMode);
    assert_eq!(failed.error, None);

    let mut not_started = widget(None, SignInState::PickMode);
    assert_eq!(
        not_started.login_server_failed("port in use".to_string()),
        vec![SignInEffect::ScheduleFrame]
    );
    assert_eq!(not_started.error.as_deref(), Some("port in use"));
}

#[test]
fn esc_calls_off_a_login() {
    let mut browser = widget(None, in_browser());
    assert_eq!(
        browser.handle_key_event(press(KeyCode::Esc)),
        vec![SignInEffect::ShutdownLogin(7), SignInEffect::ScheduleFrame]
    );
    assert_eq!(browser.sign_in_state, SignInState::PickMode);

    let mut device = widget(
        None,
        SignInState::ChatGptDeviceCode(ContinueWithDeviceCodeState { cancel: Some(3) }),
    );
    assert_eq!(
        device.handle_key_event(press(KeyCode::Esc)),
        vec![SignInEffect::CancelDeviceCode(3), SignInEffect::ScheduleFrame]
    );
    assert_eq!(device.sign_in_state, SignInState::PickMode);
    assert!(device.handle_key_event(press(KeyCode::Esc)).is_empty());
}

#[test]
fn enter_shuts_the_login_in_the_browser_down() {
    let mut browser = widget(None, in_browser());
    assert_eq!(
        browser.handle_key_event(press(KeyCode::Enter)),
        vec![SignInEffect::ShutdownLogin(7)]
    );
    assert_eq!(browser.sign_in_state, in_browser());
}

#[test]
fn paste_goes_to_the_wizard_only() {
    let mut pick = widget(None, SignInState::PickMode);
    assert_eq!(
        pick.handle_api_key_entry_paste("text".to_string()),
        (false, Vec::new())
    );
    let mut entry = widget_custom_provider_entry();
    assert_eq!(
        entry.handle_api_key_entry_paste(" \n".to_string()),
        (false, Vec::new())
    );
    assert_eq!(
        entry.handle_paste(" pasted ".to_string()),
        vec![SignInEffect::ScheduleFrame]
    );
    match entry.sign_in_state {
        SignInState::ApiKeyEntry(state) => assert_eq!(state.provider_id, "pasted"),
        _ => unreachable!(),
    }
}

#[test]
fn complete_settings_are_handed_over() {
    let mut widget = widget(None, SignInState::ApiKeyEntry(filled()));
    assert_eq!(
        widget.handle_key_event(press(KeyCode::Enter)),
        vec![
            SignInEffect::SaveProvider(custom_provider()),
            SignInEffect::ScheduleFrame
        ]
    );
    assert!(widget.handle_key_event(press(KeyCode::Esc)).is_empty());
    assert_eq!(
        widget.custom_provider_save_ended(custom_provider(), Ok(())),
        vec![SignInEffect::ScheduleFrame]
    );
    assert_eq!(widget.sign_in_state, SignInState::ApiKeyConfigured);
    assert_eq!(widget.get_step_state(), StepState::Complete);
}

#[test]
fn failed_save_reopens_the_wizard() {
    let checking = ApiKeyInputState {
        validating: true,
        ..filled()
    };
    let mut open = widget(None, SignInState::ApiKeyEntry(checking));
    open.custom_provider_save_ended(custom_provider(), Err("refused".to_string()));
    assert_eq!(
        open.sign_in_state,
        SignInState::ApiKeyEntry(ApiKeyInputState {
            error: Some("refused".to_string()),
            ..filled()
        })
    );

    let mut left = widget(None, SignInState::PickMode);
    left.custom_provider_save_ended(custom_provider(), Err("refused".to_string()));
    assert_eq!(
        left.sign_in_state,
        SignInState::ApiKeyEntry(ApiKeyInputState {
            provider_id: "custom_1".to_string(),
            wire_api: ApiProviderWireApi::Chat,
            base_url: "https://example.com/v1/".to_string(),
            api_key: "secret".to_string(),
            model: "model-x".to_string(),
            step: ApiProviderWizardStep::Model,
            validating: false,
            error: Some("refused".to_string()),
        })
    );
}

#[test]
fn leaving_the_wizard_clears_the_error() {
    let mut widget = AuthModeWidget {
        error: Some("old".to_string()),
        ..widget_custom_provider_entry()
    };
    assert_eq!(
        widget.handle_key_event(press(KeyCode::Esc)),
        vec![SignInEffect::ScheduleFrame]
    );
    assert_eq!(widget.sign_in_state, SignInState::PickMode);
    assert_eq!(widget.error, None);
}

#[test]
fn forced_chatgpt_blocks_settings_that_were_typed() {
    let mut widget = widget(
        Some(ForcedLoginMethod::Chatgpt),
        SignInState::ApiKeyEntry(filled()),
    );
    assert_eq!(
        widget.handle_key_event(press(KeyCode::Enter)),
        vec![SignInEffect::ScheduleFrame]
    );
    assert_eq!(widget.sign_in_state, SignInState::PickMode);
    assert_eq!(widget.error.as_deref(), Some("API key login is disabled."));
    assert_eq!(
        widget.handle_sign_in_option(SignInOption::ApiKey),
        vec![SignInEffect::ScheduleFrame]
    );
}

#[test]
fn secrets_are_masked() {
    assert_eq!(mask_secret(""), "<not set>");
    assert_eq!(mask_secret("abc"), "***");
    assert_eq!(mask_secret("\u{e9}\u{e9}"), "**");
    assert_eq!(mask_secret(&"x".repeat(32)), "*".repeat(32));
    assert_eq!(mask_secret(&"x".repeat(33)), "*".repeat(32));
}

#[test]
fn blank_values_are_shown_as_the_fallback() {
    assert_eq!(display_optional_value(" \t", "<not set>"), "<not set>");
    assert_eq!(display_optional_value(" a ", "<not set>"), " a ");
}

#[test]
fn wire_api_entry_uses_dynamic_input_height() {
    let widget = widget_custom_provider_entry();
    let state = ApiKeyInputState {
        step: ApiProviderWizardStep::WireApi,
        ..ApiKeyInputState::default()
    };

    let input_height = widget.api_key_entry_input_height(120, &state);

    assert_eq!(input_height, 6);
}

#[test]
fn input_height_follows_the_wrapped_text() {
    let widget = widget_custom_provider_entry();
    let wire_api = ApiKeyInputState {
        step: ApiProviderWizardStep::WireApi,
        ..ApiKeyInputState::default()
    };
    // Each description takes two rows of 28 columns.
    assert_eq!(widget.api_key_entry_input_height(30, &wire_api), 8);
    let typed = ApiKeyInputState {
        provider_id: "abcdefgh".to_string(),
        ..ApiKeyInputState::default()
    };
    assert_eq!(widget.api_key_entry_input_height(10, &typed), 3);
    assert_eq!(widget.api_key_entry_input_height(6, &typed), 4);
    assert_eq!(widget.api_key_entry_input_height(0, &typed), 10);
    assert_eq!(AuthModeWidget::wrapped_line_count("", 0), 1);
    assert_eq!(AuthModeWidget::wrapped_line_count("foo bar", 3), 2);
}

#[test]
fn line_counts_are_capped() {
    assert_eq!(line_count_height(0), 0);
    assert_eq!(line_count_height(65_534), 65_534);
    assert_eq!(line_count_height(65_535), 65_535);
    assert_eq!(line_count_height(1_000_000), 65_535);
}

#[test]
fn step_values_are_shown_with_the_key_masked() {
    let widget = widget_custom_provider_entry();
    let shown: Vec<String> = STEPS
        .into_iter()
        .map(|step| {
            widget.current_step_value_for_display(&ApiKeyInputState {
                step,
                api_key: "abc".to_string(),
                ..filled()
            })
        })
        .collect();
    assert_eq!(
        shown,
        vec![
            " custom_1 ",
            "",
            " https://example.com/v1/ ",
            "***",
            " model-x "
        ]
    );
}

#[test]
fn settings_survive_being_put_back() {
    let mut left = widget(None, SignInState::PickMode);
    left.custom_provider_save_ended(custom_provider(), Err("refused".to_string()));
    match &left.sign_in_state {
        SignInState::ApiKeyEntry(state) => assert_eq!(
            snapshot_custom_provider_config(state),
            Ok(custom_provider())
        ),
        _ => unreachable!(),
    }
}

#[test]
fn settings_need_every_step_to_be_valid() {
    let spoiled: [fn(&mut ApiKeyInputState); 4] = [
        |state| state.provider_id = "a b".to_string(),
        |state| state.base_url = "ftp://example.com".to_string(),
        |state| state.api_key = " ".to_string(),
        |state| state.model = "".to_string(),
    ];
    let steps = [STEPS[0], STEPS[2], STEPS[3], STEPS[4]];
    for (spoil, step) in spoiled.into_iter().zip(steps) {
        let mut state = filled();
        spoil(&mut state);
        state.step = step;
        assert_eq!(
            snapshot_custom_provider_config(&state).unwrap_err(),
            validate_current_step(&state).unwrap_err()
        );
    }
}

#[test]
fn numbers_choose_like_enter() {
    let keys = [KeyCode::Char('1'), KeyCode::Char('2')];
    for (key, option) in keys.into_iter().zip([SignInOption::ChatGpt, SignInOption::ApiKey]) {
        let mut by_number = widget(None, SignInState::PickMode);
        by_number.highlighted_mode = option;
        let mut by_enter = widget(None, SignInState::PickMode);
        by_enter.highlighted_mode = option;
        assert_eq!(
            by_number.handle_key_event(press(key)),
            by_enter.handle_key_event(press(KeyCode::Enter))
        );
        assert_eq!(by_number, by_enter);
    }
}

#[test]
fn forced_api_starts_no_chatgpt_login() {
    let mut api = widget(Some(ForcedLoginMethod::Api), SignInState::PickMode);
    assert!(api.handle_key_event(press(KeyCode::Enter)).is_empty());
    assert_eq!(api.sign_in_state, SignInState::PickMode);
    assert_eq!(
        api.handle_key_event(press(KeyCode::Char('1'))),
        vec![SignInEffect::ScheduleFrame]
    );
    assert_eq!(
        api.sign_in_state,
        SignInState::ApiKeyEntry(ApiKeyInputState::default())
    );
}

#[test]
fn dropped_widget_shuts_its_login_down() {
    assert_eq!(
        widget(None, in_browser()).dropped_effects(),
        vec![SignInEffect::ShutdownLogin(7)]
    );
    assert!(widget(None, SignInState::PickMode)
        .dropped_effects()
        .is_empty());
}
