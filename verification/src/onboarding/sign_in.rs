//! The sign-in widget: what keys and the outcomes of background work do to it, and what they
//! make the program do.

use crate::auth::{AuthMode, ForcedLoginMethod, LoginStatus};
use crate::onboarding::entry::{
    key_step, paste_step, take_key, take_paste, EntryReaction, EntryStep,
};
use crate::onboarding::keys::{KeyCode, KeyEvent};
use crate::onboarding::provider::{error_text, refilled, CustomProviderConfig, CustomProviderView};
use crate::onboarding::wizard::{ApiKeyInputState, ApiKeyInputView, ApiProviderWizardStep};
use crate::text::{copy_optional, optional, trimmed};
use vstd::prelude::*;

verus! {

/// The ways to sign in.
#[derive(Clone, Copy, Debug, PartialEq, Eq, Structural)]
pub enum SignInOption {
    ChatGpt,
    ApiKey,
}

/// Shown when the API key was chosen although it is not allowed.
pub const API_KEY_DISABLED_MESSAGE: &'static str = "API key login is disabled.";

/// A login that goes on in the browser. `shutdown_flag` names the login server that is shut
/// down when this state is dropped.
#[derive(Debug, PartialEq, Eq)]
pub struct ContinueInBrowserState {
    pub auth_url: String,
    pub shutdown_flag: Option<u64>,
}

/// A login with a device code. `cancel` names the poll that is told to stop on Esc.
#[derive(Debug, PartialEq, Eq)]
pub struct ContinueWithDeviceCodeState {
    pub cancel: Option<u64>,
}

/// Where the sign-in stands.
#[derive(Debug, PartialEq, Eq)]
pub enum SignInState {
    PickMode,
    ChatGptContinueInBrowser(ContinueInBrowserState),
    ChatGptDeviceCode(ContinueWithDeviceCodeState),
    ChatGptSuccessMessage,
    ChatGptSuccess,
    ApiKeyEntry(ApiKeyInputState),
    ApiKeyConfigured,
}

/// The content of a [`SignInState`].
pub enum SignInView {
    PickMode,
    ContinueInBrowser { auth_url: Seq<char>, shutdown_flag: Option<u64> },
    DeviceCode { cancel: Option<u64> },
    SuccessMessage,
    Success,
    ApiKeyEntry(ApiKeyInputView),
    ApiKeyConfigured,
}

impl View for SignInState {
    type V = SignInView;

    open spec fn view(&self) -> SignInView {
        match self {
            SignInState::PickMode => SignInView::PickMode,
            SignInState::ChatGptContinueInBrowser(state) => SignInView::ContinueInBrowser {
                auth_url: state.auth_url@,
                shutdown_flag: state.shutdown_flag,
            },
            SignInState::ChatGptDeviceCode(state) => SignInView::DeviceCode {
                cancel: state.cancel,
            },
            SignInState::ChatGptSuccessMessage => SignInView::SuccessMessage,
            SignInState::ChatGptSuccess => SignInView::Success,
            SignInState::ApiKeyEntry(state) => SignInView::ApiKeyEntry(state@),
            SignInState::ApiKeyConfigured => SignInView::ApiKeyConfigured,
        }
    }
}

/// What the program has to do after the widget took an event, in the order given.
#[derive(Debug, PartialEq, Eq)]
pub enum SignInEffect {
    /// Draw the screen again.
    ScheduleFrame,
    /// Start the local login server, restricted to a workspace if one is forced.
    StartLoginServer(Option<String>),
    /// Start a login with a device code, restricted to a workspace if one is forced.
    StartDeviceCodeLogin(Option<String>),
    /// Shut down the login server of that name.
    ShutdownLogin(u64),
    /// Tell the device code poll of that name to stop.
    CancelDeviceCode(u64),
    /// Load the new credentials.
    ReloadAuth,
    /// Try out and save the settings of a custom provider.
    SaveProvider(CustomProviderConfig),
}

/// The content of a [`SignInEffect`].
pub enum SignInEffectView {
    ScheduleFrame,
    StartLoginServer(Option<Seq<char>>),
    StartDeviceCodeLogin(Option<Seq<char>>),
    ShutdownLogin(u64),
    CancelDeviceCode(u64),
    ReloadAuth,
    SaveProvider(CustomProviderView),
}

impl View for SignInEffect {
    type V = SignInEffectView;

    open spec fn view(&self) -> SignInEffectView {
        match self {
            SignInEffect::ScheduleFrame => SignInEffectView::ScheduleFrame,
            SignInEffect::StartLoginServer(workspace) => SignInEffectView::StartLoginServer(
                optional(*workspace),
            ),
            SignInEffect::StartDeviceCodeLogin(workspace) => SignInEffectView::StartDeviceCodeLogin(
                optional(*workspace),
            ),
            SignInEffect::ShutdownLogin(login) => SignInEffectView::ShutdownLogin(*login),
            SignInEffect::CancelDeviceCode(poll) => SignInEffectView::CancelDeviceCode(*poll),
            SignInEffect::ReloadAuth => SignInEffectView::ReloadAuth,
            SignInEffect::SaveProvider(config) => SignInEffectView::SaveProvider(config@),
        }
    }
}

/// The contents of a list of effects.
pub open spec fn effects_view(effects: Seq<SignInEffect>) -> Seq<SignInEffectView> {
    Seq::new(effects.len(), |i: int| effects[i]@)
}

/// Whether the sign-in is done.
#[derive(Clone, Copy, Debug, PartialEq, Eq, Structural)]
pub enum StepState {
    InProgress,
    Complete,
}

/// The sign-in widget.
#[derive(Debug, PartialEq, Eq)]
pub struct AuthModeWidget {
    pub highlighted_mode: SignInOption,
    pub error: Option<String>,
    pub sign_in_state: SignInState,
    pub login_status: LoginStatus,
    pub forced_chatgpt_workspace_id: Option<String>,
    pub forced_login_method: Option<ForcedLoginMethod>,
    pub animations_enabled: bool,
}

/// The content of an [`AuthModeWidget`].
pub struct AuthModeView {
    pub highlighted_mode: SignInOption,
    pub error: Option<Seq<char>>,
    pub sign_in_state: SignInView,
    pub login_status: LoginStatus,
    pub forced_chatgpt_workspace_id: Option<Seq<char>>,
    pub forced_login_method: Option<ForcedLoginMethod>,
    pub animations_enabled: bool,
}

impl View for AuthModeWidget {
    type V = AuthModeView;

    open spec fn view(&self) -> AuthModeView {
        AuthModeView {
            highlighted_mode: self.highlighted_mode,
            error: optional(self.error),
            sign_in_state: self.sign_in_state@,
            login_status: self.login_status,
            forced_chatgpt_workspace_id: optional(self.forced_chatgpt_workspace_id),
            forced_login_method: self.forced_login_method,
            animations_enabled: self.animations_enabled,
        }
    }
}

/// What an event leads to: the widget afterwards, and what the program has to do.
#[verifier::ext_equal]
pub struct Outcome {
    pub widget: AuthModeView,
    pub effects: Seq<SignInEffectView>,
}

/// Dropping a login that goes on in the browser shuts its server down.
pub open spec fn dropped(state: SignInView) -> Seq<SignInEffectView> {
    match state {
        SignInView::ContinueInBrowser { shutdown_flag: Some(login), .. } => seq![
            SignInEffectView::ShutdownLogin(login),
        ],
        _ => Seq::empty(),
    }
}

impl AuthModeView {
    /// An API key may be used.
    pub open spec fn api_login_allowed(self) -> bool {
        self.forced_login_method != Some(ForcedLoginMethod::Chatgpt)
    }

    /// A ChatGPT account may be used.
    pub open spec fn chatgpt_login_allowed(self) -> bool {
        self.forced_login_method != Some(ForcedLoginMethod::Api)
    }

    /// The allowed ways to sign in, in the order in which they are shown.
    pub open spec fn options(self) -> Seq<SignInOption> {
        match self.forced_login_method {
            None => seq![SignInOption::ChatGpt, SignInOption::ApiKey],
            Some(ForcedLoginMethod::Chatgpt) => seq![SignInOption::ChatGpt],
            Some(ForcedLoginMethod::Api) => seq![SignInOption::ApiKey],
        }
    }

    /// Where the highlighted option is shown; the first place if it is not shown.
    pub open spec fn highlighted_index(self) -> int {
        match self.options().index_of_first(self.highlighted_mode) {
            Some(index) => index,
            None => 0,
        }
    }

    /// The highlight `delta` places further down, wrapping around at both ends.
    pub open spec fn highlight_moved(self, delta: int) -> Self {
        AuthModeView {
            highlighted_mode: self.options()[(self.highlighted_index() + delta)
                % (self.options().len() as int)],
            ..self
        }
    }

    /// Nothing happens.
    pub open spec fn unchanged(self) -> Outcome {
        Outcome { widget: self, effects: Seq::empty() }
    }

    /// The sign-in moves to `state`, and the screen is drawn again.
    pub open spec fn moved_to(self, state: SignInView) -> Outcome {
        Outcome {
            widget: AuthModeView { sign_in_state: state, ..self },
            effects: dropped(self.sign_in_state).push(SignInEffectView::ScheduleFrame),
        }
    }

    /// The same widget with `error` shown.
    pub open spec fn showing(self, error: Option<Seq<char>>) -> Self {
        AuthModeView { error, ..self }
    }

    /// Back to the choice of options, with the message that API keys are disabled.
    pub open spec fn api_login_refused(self) -> Outcome {
        AuthModeView {
            highlighted_mode: SignInOption::ChatGpt,
            ..self.showing(Some(API_KEY_DISABLED_MESSAGE@))
        }.moved_to(SignInView::PickMode)
    }

    /// The wizard for a custom provider is shown, blank unless it is already open.
    pub open spec fn api_key_entry_started(self) -> Outcome {
        if !self.api_login_allowed() {
            self.api_login_refused()
        } else {
            match self.sign_in_state {
                SignInView::ApiKeyEntry(input) => self.showing(None).moved_to(
                    SignInView::ApiKeyEntry(input),
                ),
                _ => self.showing(None).moved_to(
                    SignInView::ApiKeyEntry(ApiKeyInputView::blank()),
                ),
            }
        }
    }

    /// The settings of a custom provider are handed over for saving.
    pub open spec fn save_begun(self, config: CustomProviderView) -> Outcome {
        if !self.api_login_allowed() {
            self.api_login_refused()
        } else {
            Outcome {
                widget: self.showing(None),
                effects: seq![
                    SignInEffectView::SaveProvider(config),
                    SignInEffectView::ScheduleFrame,
                ],
            }
        }
    }

    /// A ChatGPT login was found at startup.
    pub open spec fn has_chatgpt_login(self) -> bool {
        ||| self.login_status == LoginStatus::AuthMode(AuthMode::Chatgpt)
        ||| self.login_status == LoginStatus::AuthMode(AuthMode::ChatgptAuthTokens)
    }

    /// A login with `effect` is started, unless there already is a ChatGPT login.
    pub open spec fn login_begun(self, effect: SignInEffectView) -> Outcome {
        if self.has_chatgpt_login() {
            self.moved_to(SignInView::Success)
        } else {
            Outcome { widget: self.showing(None), effects: seq![effect] }
        }
    }

    /// An option was chosen.
    pub open spec fn option_chosen(self, option: SignInOption) -> Outcome {
        match option {
            SignInOption::ChatGpt => if self.chatgpt_login_allowed() {
                self.login_begun(
                    SignInEffectView::StartLoginServer(self.forced_chatgpt_workspace_id),
                )
            } else {
                self.unchanged()
            },
            SignInOption::ApiKey => self.api_key_entry_started(),
        }
    }

    /// The option shown at `index` was chosen; there may be none.
    pub open spec fn index_chosen(self, index: int) -> Outcome {
        if 0 <= index < self.options().len() {
            self.option_chosen(self.options()[index])
        } else {
            self.unchanged()
        }
    }

    /// What a key does while the wizard is open, and whether it was taken by the wizard.
    pub open spec fn entry_key_taken(self, key: KeyEvent) -> (bool, Outcome) {
        match self.sign_in_state {
            SignInView::ApiKeyEntry(input) => (
                true,
                match key_step(input, key) {
                    EntryStep::Ignored => self.unchanged(),
                    EntryStep::Changed(changed) => self.moved_to(SignInView::ApiKeyEntry(changed)),
                    EntryStep::Left => self.showing(None).moved_to(SignInView::PickMode),
                    EntryStep::Submitted(checking, config) => AuthModeView {
                        sign_in_state: SignInView::ApiKeyEntry(checking),
                        ..self
                    }.save_begun(config),
                },
            ),
            _ => (false, self.unchanged()),
        }
    }

    /// What pasted text does, and whether it was taken by the wizard.
    pub open spec fn entry_paste_taken(self, pasted: Seq<char>) -> (bool, Outcome) {
        match self.sign_in_state {
            SignInView::ApiKeyEntry(input) if trimmed(pasted).len() > 0 => (
                true,
                match paste_step(input, pasted) {
                    EntryStep::Changed(changed) => self.moved_to(SignInView::ApiKeyEntry(changed)),
                    _ => self.unchanged(),
                },
            ),
            _ => (false, self.unchanged()),
        }
    }

    /// Enter outside the wizard starts the highlighted option, or leaves the success message.
    /// A login in the browser is shut down.
    pub open spec fn entered(self) -> Outcome {
        match self.sign_in_state {
            SignInView::PickMode => self.option_chosen(self.highlighted_mode),
            SignInView::SuccessMessage => Outcome {
                widget: AuthModeView { sign_in_state: SignInView::Success, ..self },
                effects: Seq::empty(),
            },
            _ => Outcome { widget: self, effects: dropped(self.sign_in_state) },
        }
    }

    /// Esc outside the wizard calls off a login that is going on.
    pub open spec fn escaped(self) -> Outcome {
        match self.sign_in_state {
            SignInView::ContinueInBrowser { .. } => self.moved_to(SignInView::PickMode),
            SignInView::DeviceCode { cancel } => Outcome {
                widget: AuthModeView { sign_in_state: SignInView::PickMode, ..self },
                effects: match cancel {
                    Some(poll) => seq![
                        SignInEffectView::CancelDeviceCode(poll),
                        SignInEffectView::ScheduleFrame,
                    ],
                    None => seq![SignInEffectView::ScheduleFrame],
                },
            },
            _ => self.unchanged(),
        }
    }

    /// What a key does.
    pub open spec fn key_taken(self, key: KeyEvent) -> Outcome {
        if self.sign_in_state is ApiKeyEntry {
            self.entry_key_taken(key).1
        } else {
            match key.code {
                KeyCode::Up | KeyCode::Char('k') => self.highlight_moved(-1).unchanged(),
                KeyCode::Down | KeyCode::Char('j') => self.highlight_moved(1).unchanged(),
                KeyCode::Char('1') => self.index_chosen(0),
                KeyCode::Char('2') => self.index_chosen(1),
                KeyCode::Enter => self.entered(),
                KeyCode::Esc => self.escaped(),
                _ => self.unchanged(),
            }
        }
    }

    /// The login server runs and its page is to be opened in the browser.
    pub open spec fn login_server_started(self, auth_url: Seq<char>, login: u64) -> Outcome {
        self.moved_to(
            SignInView::ContinueInBrowser { auth_url, shutdown_flag: Some(login) },
        )
    }

    /// The login server could not be started.
    pub open spec fn login_server_failed(self, error: Seq<char>) -> Outcome {
        self.showing(Some(error)).moved_to(SignInView::PickMode)
    }

    /// The login in the browser ended.
    pub open spec fn login_ended(self, succeeded: bool) -> Outcome {
        if succeeded {
            let moved = self.moved_to(SignInView::SuccessMessage);
            Outcome { effects: seq![SignInEffectView::ReloadAuth] + moved.effects, ..moved }
        } else {
            self.moved_to(SignInView::PickMode)
        }
    }

    /// The settings of a custom provider were saved, or could not be. The wizard shows the
    /// error; if it has been left meanwhile, it is filled in again.
    pub open spec fn save_ended(
        self,
        config: CustomProviderView,
        error: Option<Seq<char>>,
    ) -> Outcome {
        match (error, self.sign_in_state) {
            (None, _) => self.moved_to(SignInView::ApiKeyConfigured),
            (Some(error), SignInView::ApiKeyEntry(input)) => self.moved_to(
                SignInView::ApiKeyEntry(
                    ApiKeyInputView { validating: false, ..input.failed(error) },
                ),
            ),
            (Some(error), _) => self.moved_to(
                SignInView::ApiKeyEntry(refilled(config, error)),
            ),
        }
    }
}

/// The effect of drawing the screen again, alone.
fn frame() -> (effects: Vec<SignInEffect>)
    ensures
        effects_view(effects@) == seq![SignInEffectView::ScheduleFrame],
{
    let effects = vec![SignInEffect::ScheduleFrame];
    assert(effects_view(effects@) =~= seq![SignInEffectView::ScheduleFrame]);
    effects
}

/// No effect.
fn no_effects() -> (effects: Vec<SignInEffect>)
    ensures
        effects_view(effects@) == Seq::<SignInEffectView>::empty(),
{
    let effects: Vec<SignInEffect> = Vec::new();
    assert(effects_view(effects@) =~= Seq::<SignInEffectView>::empty());
    effects
}

impl AuthModeWidget {
    /// An API key may be used.
    pub fn is_api_login_allowed(&self) -> (allowed: bool)
        ensures
            allowed == self@.api_login_allowed(),
    {
        match self.forced_login_method {
            Some(ForcedLoginMethod::Chatgpt) => false,
            _ => true,
        }
    }

    /// A ChatGPT account may be used.
    pub fn is_chatgpt_login_allowed(&self) -> (allowed: bool)
        ensures
            allowed == self@.chatgpt_login_allowed(),
    {
        match self.forced_login_method {
            Some(ForcedLoginMethod::Api) => false,
            _ => true,
        }
    }

    /// The options that are shown: those that are allowed.
    pub fn displayed_sign_in_options(&self) -> (options: Vec<SignInOption>)
        ensures
            options@ == self@.options(),
    {
        let mut options: Vec<SignInOption> = Vec::new();
        if self.is_chatgpt_login_allowed() {
            options.push(SignInOption::ChatGpt);
        }
        if self.is_api_login_allowed() {
            options.push(SignInOption::ApiKey);
        }
        assert(options@ =~= self@.options());
        options
    }

    /// The options that the highlight moves over: those that are allowed.
    pub fn selectable_sign_in_options(&self) -> (options: Vec<SignInOption>)
        ensures
            options@ == self@.options(),
    {
        self.displayed_sign_in_options()
    }

    /// Moves the highlight `delta` options down, wrapping around.
    pub fn move_highlight(&mut self, delta: isize)
        requires
            isize::MIN <= old(self)@.highlighted_index() + delta <= isize::MAX,
        ensures
            final(self)@ == old(self)@.highlight_moved(delta as int),
    {
        let options = self.selectable_sign_in_options();
        let mut current_index: usize = 0;
        proof {
            options@.index_of_first_ensures(self.highlighted_mode);
        }
        if options.len() == 2 && options[1] == self.highlighted_mode {
            current_index = 1;
        }
        assert(current_index == self@.highlighted_index());
        let next_index = (current_index as isize + delta).checked_rem_euclid(
            options.len() as isize,
        );
        if let Some(next_index) = next_index {
            self.highlighted_mode = options[next_index as usize];
        }
    }

    /// What has to be done when the widget is dropped: a login in the browser is shut down.
    pub fn dropped_effects(&self) -> (effects: Vec<SignInEffect>)
        ensures
            effects_view(effects@) == dropped(self@.sign_in_state),
    {
        let mut effects: Vec<SignInEffect> = Vec::new();
        if let SignInState::ChatGptContinueInBrowser(browser) = &self.sign_in_state {
            if let Some(login) = browser.shutdown_flag {
                effects.push(SignInEffect::ShutdownLogin(login));
            }
        }
        assert(effects_view(effects@) =~= dropped(self@.sign_in_state));
        effects
    }

    /// Replaces the sign-in state; dropping a login in the browser shuts its server down.
    fn move_to(&mut self, state: SignInState) -> (effects: Vec<SignInEffect>)
        ensures
            (Outcome { widget: final(self)@, effects: effects_view(effects@) })
                == old(self)@.moved_to(state@),
    {
        let mut effects = self.dropped_effects();
        self.sign_in_state = state;
        effects.push(SignInEffect::ScheduleFrame);
        assert(effects_view(effects@) =~= old(self)@.moved_to(state@).effects);
        effects
    }

    /// Takes note that an API key was asked for although it is not allowed.
    pub fn disallow_api_login(&mut self) -> (effects: Vec<SignInEffect>)
        ensures
            (Outcome { widget: final(self)@, effects: effects_view(effects@) })
                == old(self)@.api_login_refused(),
    {
        self.highlighted_mode = SignInOption::ChatGpt;
        self.error = Some(API_KEY_DISABLED_MESSAGE.to_string());
        self.move_to(SignInState::PickMode)
    }

    /// Opens the wizard for a custom provider.
    pub fn start_api_key_entry(&mut self) -> (effects: Vec<SignInEffect>)
        ensures
            (Outcome { widget: final(self)@, effects: effects_view(effects@) })
                == old(self)@.api_key_entry_started(),
    {
        if !self.is_api_login_allowed() {
            return self.disallow_api_login();
        }
        self.error = None;
        if let SignInState::ApiKeyEntry(_) = &self.sign_in_state {
            let effects = frame();
            assert(effects_view(effects@) =~= old(self)@.api_key_entry_started().effects);
            effects
        } else {
            self.move_to(SignInState::ApiKeyEntry(ApiKeyInputState::default()))
        }
    }

    /// Hands the settings of a custom provider over for saving.
    pub fn begin_custom_provider_save(
        &mut self,
        config: CustomProviderConfig,
    ) -> (effects: Vec<SignInEffect>)
        ensures
            (Outcome { widget: final(self)@, effects: effects_view(effects@) })
                == old(self)@.save_begun(config@),
    {
        if !self.is_api_login_allowed() {
            return self.disallow_api_login();
        }
        self.error = None;
        let effects = vec![SignInEffect::SaveProvider(config), SignInEffect::ScheduleFrame];
        assert(effects_view(effects@) =~= old(self)@.save_begun(config@).effects);
        effects
    }

    /// Goes on to the success screen if there already is a ChatGPT login, and tells so.
    pub fn handle_existing_chatgpt_login(&mut self) -> (handled: Option<Vec<SignInEffect>>)
        ensures
            handled is Some <==> old(self)@.has_chatgpt_login(),
            handled matches Some(effects) ==> (Outcome {
                widget: final(self)@,
                effects: effects_view(effects@),
            }) == old(self)@.moved_to(SignInView::Success),
            handled is None ==> *final(self) == *old(self),
    {
        match self.login_status {
            LoginStatus::AuthMode(AuthMode::Chatgpt)
            | LoginStatus::AuthMode(AuthMode::ChatgptAuthTokens) => Some(
                self.move_to(SignInState::ChatGptSuccess),
            ),
            _ => None,
        }
    }

    /// Starts the login in the browser.
    pub fn start_chatgpt_login(&mut self) -> (effects: Vec<SignInEffect>)
        ensures
            (Outcome { widget: final(self)@, effects: effects_view(effects@) })
                == old(self)@.login_begun(
                SignInEffectView::StartLoginServer(old(self)@.forced_chatgpt_workspace_id),
            ),
    {
        if let Some(effects) = self.handle_existing_chatgpt_login() {
            return effects;
        }
        self.error = None;
        let effects = vec![
            SignInEffect::StartLoginServer(copy_optional(&self.forced_chatgpt_workspace_id)),
        ];
        assert(effects_view(effects@) =~= seq![
            SignInEffectView::StartLoginServer(old(self)@.forced_chatgpt_workspace_id),
        ]);
        effects
    }

    /// Starts the login with a device code.
    pub fn start_device_code_login(&mut self) -> (effects: Vec<SignInEffect>)
        ensures
            (Outcome { widget: final(self)@, effects: effects_view(effects@) })
                == old(self)@.login_begun(
                SignInEffectView::StartDeviceCodeLogin(old(self)@.forced_chatgpt_workspace_id),
            ),
    {
        if let Some(effects) = self.handle_existing_chatgpt_login() {
            return effects;
        }
        self.error = None;
        let effects = vec![
            SignInEffect::StartDeviceCodeLogin(copy_optional(&self.forced_chatgpt_workspace_id)),
        ];
        assert(effects_view(effects@) =~= seq![
            SignInEffectView::StartDeviceCodeLogin(old(self)@.forced_chatgpt_workspace_id),
        ]);
        effects
    }

    /// Starts what `option` stands for, if it is allowed.
    pub fn handle_sign_in_option(&mut self, option: SignInOption) -> (effects: Vec<SignInEffect>)
        ensures
            (Outcome { widget: final(self)@, effects: effects_view(effects@) })
                == old(self)@.option_chosen(option),
    {
        match option {
            SignInOption::ChatGpt => if self.is_chatgpt_login_allowed() {
                self.start_chatgpt_login()
            } else {
                no_effects()
            },
            SignInOption::ApiKey => if self.is_api_login_allowed() {
                self.start_api_key_entry()
            } else {
                self.disallow_api_login()
            },
        }
    }

    /// Starts what the option at `index` stands for, if there is one.
    pub fn select_option_by_index(&mut self, index: usize) -> (effects: Vec<SignInEffect>)
        ensures
            (Outcome { widget: final(self)@, effects: effects_view(effects@) })
                == old(self)@.index_chosen(index as int),
    {
        let options = self.displayed_sign_in_options();
        if index < options.len() {
            self.handle_sign_in_option(options[index])
        } else {
            no_effects()
        }
    }

    /// Lets the wizard take a key; tells whether the wizard is open.
    pub fn handle_api_key_entry_key_event(
        &mut self,
        key_event: &KeyEvent,
    ) -> (taken: (bool, Vec<SignInEffect>))
        ensures
            (taken.0, Outcome { widget: final(self)@, effects: effects_view(taken.1@) })
                == old(self)@.entry_key_taken(*key_event),
    {
        let reaction = match &mut self.sign_in_state {
            SignInState::ApiKeyEntry(state) => take_key(state, key_event),
            _ => return (false, no_effects()),
        };
        let effects = match reaction {
            EntryReaction::Ignored => no_effects(),
            EntryReaction::Changed => frame(),
            EntryReaction::Left => {
                self.error = None;
                self.move_to(SignInState::PickMode)
            },
            EntryReaction::Submitted(config) => self.begin_custom_provider_save(config),
        };
        assert(effects_view(effects@) =~= old(self)@.entry_key_taken(*key_event).1.effects);
        (true, effects)
    }

    /// Lets the wizard take pasted text; tells whether it did.
    pub fn handle_api_key_entry_paste(
        &mut self,
        pasted: String,
    ) -> (taken: (bool, Vec<SignInEffect>))
        ensures
            (taken.0, Outcome { widget: final(self)@, effects: effects_view(taken.1@) })
                == old(self)@.entry_paste_taken(pasted@),
    {
        if pasted.trim().is_empty() {
            return (false, no_effects());
        }
        let reaction = match &mut self.sign_in_state {
            SignInState::ApiKeyEntry(state) => take_paste(state, &pasted),
            _ => return (false, no_effects()),
        };
        let effects = match reaction {
            EntryReaction::Changed => frame(),
            _ => no_effects(),
        };
        assert(effects_view(effects@) =~= old(self)@.entry_paste_taken(pasted@).1.effects);
        (true, effects)
    }

    /// Enter outside the wizard.
    fn handle_enter(&mut self) -> (effects: Vec<SignInEffect>)
        ensures
            (Outcome { widget: final(self)@, effects: effects_view(effects@) })
                == old(self)@.entered(),
    {
        match &self.sign_in_state {
            SignInState::PickMode => self.handle_sign_in_option(self.highlighted_mode),
            SignInState::ChatGptSuccessMessage => {
                self.sign_in_state = SignInState::ChatGptSuccess;
                no_effects()
            },
            _ => self.dropped_effects(),
        }
    }

    /// Esc outside the wizard.
    fn handle_esc(&mut self) -> (effects: Vec<SignInEffect>)
        ensures
            (Outcome { widget: final(self)@, effects: effects_view(effects@) })
                == old(self)@.escaped(),
    {
        let mut effects: Vec<SignInEffect> = Vec::new();
        match &self.sign_in_state {
            SignInState::ChatGptContinueInBrowser(_) => return self.move_to(SignInState::PickMode),
            SignInState::ChatGptDeviceCode(state) => {
                if let Some(poll) = state.cancel {
                    effects.push(SignInEffect::CancelDeviceCode(poll));
                }
            },
            _ => return no_effects(),
        }
        self.sign_in_state = SignInState::PickMode;
        effects.push(SignInEffect::ScheduleFrame);
        assert(effects_view(effects@) =~= old(self)@.escaped().effects);
        effects
    }

    /// Takes a key.
    pub fn handle_key_event(&mut self, key_event: KeyEvent) -> (effects: Vec<SignInEffect>)
        ensures
            (Outcome { widget: final(self)@, effects: effects_view(effects@) })
                == old(self)@.key_taken(key_event),
    {
        let taken = self.handle_api_key_entry_key_event(&key_event);
        if taken.0 {
            return taken.1;
        }
        proof {
            lemma_highlighted_index(self@);
        }
        match key_event.code {
            KeyCode::Up | KeyCode::Char('k') => {
                self.move_highlight(-1);
                no_effects()
            },
            KeyCode::Down | KeyCode::Char('j') => {
                self.move_highlight(1);
                no_effects()
            },
            KeyCode::Char('1') => self.select_option_by_index(0),
            KeyCode::Char('2') => self.select_option_by_index(1),
            KeyCode::Enter => self.handle_enter(),
            KeyCode::Esc => self.handle_esc(),
            _ => no_effects(),
        }
    }

    /// Takes pasted text.
    pub fn handle_paste(&mut self, pasted: String) -> (effects: Vec<SignInEffect>)
        ensures
            (Outcome { widget: final(self)@, effects: effects_view(effects@) })
                == old(self)@.entry_paste_taken(pasted@).1,
    {
        self.handle_api_key_entry_paste(pasted).1
    }

    /// Takes note that the login server `login` runs and its page is at `auth_url`.
    pub fn login_server_started(
        &mut self,
        auth_url: String,
        login: u64,
    ) -> (effects: Vec<SignInEffect>)
        ensures
            (Outcome { widget: final(self)@, effects: effects_view(effects@) })
                == old(self)@.login_server_started(auth_url@, login),
    {
        self.move_to(
            SignInState::ChatGptContinueInBrowser(
                ContinueInBrowserState { auth_url, shutdown_flag: Some(login) },
            ),
        )
    }

    /// Takes note that the login server could not be started.
    pub fn login_server_failed(&mut self, error: String) -> (effects: Vec<SignInEffect>)
        ensures
            (Outcome { widget: final(self)@, effects: effects_view(effects@) })
                == old(self)@.login_server_failed(error@),
    {
        self.error = Some(error);
        self.move_to(SignInState::PickMode)
    }

    /// Takes note that the login in the browser ended.
    pub fn login_ended(&mut self, succeeded: bool) -> (effects: Vec<SignInEffect>)
        ensures
            (Outcome { widget: final(self)@, effects: effects_view(effects@) })
                == old(self)@.login_ended(succeeded),
    {
        if succeeded {
            let mut effects = vec![SignInEffect::ReloadAuth];
            let mut moved = self.move_to(SignInState::ChatGptSuccessMessage);
            let ghost moved_view = effects_view(moved@);
            effects.append(&mut moved);
            assert(effects_view(effects@) =~= seq![SignInEffectView::ReloadAuth] + moved_view);
            effects
        } else {
            self.move_to(SignInState::PickMode)
        }
    }

    /// Takes note that the settings of a custom provider were saved, or could not be.
    pub fn custom_provider_save_ended(
        &mut self,
        config: CustomProviderConfig,
        outcome: Result<(), String>,
    ) -> (effects: Vec<SignInEffect>)
        ensures
            (Outcome { widget: final(self)@, effects: effects_view(effects@) })
                == old(self)@.save_ended(config@, error_text(outcome)),
    {
        let error = match outcome {
            Ok(()) => return self.move_to(SignInState::ApiKeyConfigured),
            Err(error) => error,
        };
        match &mut self.sign_in_state {
            SignInState::ApiKeyEntry(state) => {
                state.validating = false;
                state.error = Some(error);
                let effects = frame();
                assert(effects_view(effects@) =~= old(self)@.save_ended(
                    config@,
                    error_text(outcome),
                ).effects);
                effects
            },
            _ => self.move_to(
                SignInState::ApiKeyEntry(
                    ApiKeyInputState {
                        provider_id: config.provider_id,
                        wire_api: config.wire_api,
                        base_url: config.base_url,
                        api_key: config.api_key,
                        model: config.model,
                        step: ApiProviderWizardStep::Model,
                        validating: false,
                        error: Some(error),
                    },
                ),
            ),
        }
    }

    /// The sign-in is complete once an account or a provider is in place.
    pub fn get_step_state(&self) -> (state: StepState)
        ensures
            state == StepState::Complete <==> self@.sign_in_state is Success
                || self@.sign_in_state is ApiKeyConfigured,
            state == StepState::InProgress <==> !(self@.sign_in_state is Success)
                && !(self@.sign_in_state is ApiKeyConfigured),
    {
        match &self.sign_in_state {
            SignInState::ChatGptSuccess | SignInState::ApiKeyConfigured => StepState::Complete,
            _ => StepState::InProgress,
        }
    }
}

proof fn lemma_highlighted_index(widget: AuthModeView)
    ensures
        0 <= widget.highlighted_index() < widget.options().len() <= 2,
        widget.options().contains(widget.highlighted_mode)
            ==> widget.options()[widget.highlighted_index()] == widget.highlighted_mode,
{
    widget.options().index_of_first_ensures(widget.highlighted_mode);
}

/// Wherever the highlight was, after a move it is on an allowed option.
pub proof fn law_highlight_is_on_an_allowed_option(widget: AuthModeView, delta: int)
    ensures
        widget.options().len() > 0,
        widget.options().contains(widget.highlight_moved(delta).highlighted_mode),
        forall|option: SignInOption| #[trigger]
            widget.options().contains(option) <==> match option {
                SignInOption::ChatGpt => widget.chatgpt_login_allowed(),
                SignInOption::ApiKey => widget.api_login_allowed(),
            },
{
    lemma_highlighted_index(widget);
    let options = widget.options();
    let index = (widget.highlighted_index() + delta) % (options.len() as int);
    assert(options.contains(options[index]));
    assert forall|option: SignInOption| #[trigger]
        widget.options().contains(option) <==> match option {
            SignInOption::ChatGpt => widget.chatgpt_login_allowed(),
            SignInOption::ApiKey => widget.api_login_allowed(),
        } by {
        match widget.forced_login_method {
            None => {
                assert(options[0] == SignInOption::ChatGpt);
                assert(options[1] == SignInOption::ApiKey);
            },
            Some(ForcedLoginMethod::Chatgpt) => {
                assert(options[0] == SignInOption::ChatGpt);
            },
            Some(ForcedLoginMethod::Api) => {
                assert(options[0] == SignInOption::ApiKey);
            },
        }
    }
}

/// Moving an allowed highlight and moving it back changes nothing.
pub proof fn law_highlight_moves_back(widget: AuthModeView, delta: int)
    requires
        widget.options().contains(widget.highlighted_mode),
    ensures
        widget.highlight_moved(delta).highlight_moved(-delta) == widget,
{
    let options = widget.options();
    let moved = widget.highlight_moved(delta);
    lemma_highlighted_index(widget);
    law_highlight_is_on_an_allowed_option(widget, delta);
    lemma_highlighted_index(moved);
    assert(options == moved.options());
    let from = widget.highlighted_index();
    let to = moved.highlighted_index();
    if options.len() == 2 {
        assert(options[0] != options[1]);
        assert(to == (from + delta) % 2);
        lemma_back_and_forth(from, to, delta);
    } else {
        assert((to - delta) % 1 == from);
    }
}

proof fn lemma_back_and_forth(from: int, to: int, delta: int)
    requires
        0 <= from < 2,
        to == (from + delta) % 2,
    ensures
        (to - delta) % 2 == from,
{
}

/// Where an administrator left only the ChatGPT login open, no key and no paste opens the
/// wizard for a custom provider, and none has settings saved.
pub proof fn law_forced_chatgpt_saves_no_provider(
    widget: AuthModeView,
    key: KeyEvent,
    pasted: Seq<char>,
    config: CustomProviderView,
)
    requires
        widget.forced_login_method == Some(ForcedLoginMethod::Chatgpt),
    ensures
        !widget.key_taken(key).effects.contains(SignInEffectView::SaveProvider(config)),
        !widget.entry_paste_taken(pasted).1.effects.contains(
            SignInEffectView::SaveProvider(config),
        ),
        !(widget.sign_in_state is ApiKeyEntry) ==> {
            &&& !(widget.key_taken(key).widget.sign_in_state is ApiKeyEntry)
            &&& !(widget.entry_paste_taken(pasted).1.widget.sign_in_state is ApiKeyEntry)
        },
{
}

/// A login in the browser does not outlive its screen: whichever event replaces it also shuts
/// its server down.
pub proof fn law_abandoned_login_is_shut_down(
    widget: AuthModeView,
    login: u64,
    key: KeyEvent,
    auth_url: Seq<char>,
    next_login: u64,
    error: Seq<char>,
    succeeded: bool,
    config: CustomProviderView,
    saved: Option<Seq<char>>,
)
    requires
        widget.sign_in_state matches SignInView::ContinueInBrowser { shutdown_flag, .. }
            && shutdown_flag == Some(login),
    ensures
        shuts_down_if_replaced(widget, widget.key_taken(key), login),
        shuts_down_if_replaced(widget, widget.login_server_started(auth_url, next_login), login),
        shuts_down_if_replaced(widget, widget.login_server_failed(error), login),
        shuts_down_if_replaced(widget, widget.login_ended(succeeded), login),
        shuts_down_if_replaced(widget, widget.save_ended(config, saved), login),
{
    let shut_down = seq![SignInEffectView::ShutdownLogin(login)];
    assert(dropped(widget.sign_in_state) == shut_down);
    let moved = shut_down.push(SignInEffectView::ScheduleFrame);
    assert(moved[0] == SignInEffectView::ShutdownLogin(login));
    let ended = seq![SignInEffectView::ReloadAuth] + moved;
    assert(ended[1] == SignInEffectView::ShutdownLogin(login));
}

/// The outcome keeps the sign-in where it was, or shuts the login server `login` down.
pub open spec fn shuts_down_if_replaced(
    before: AuthModeView,
    outcome: Outcome,
    login: u64,
) -> bool {
    ||| outcome.widget.sign_in_state == before.sign_in_state
    ||| outcome.effects.contains(SignInEffectView::ShutdownLogin(login))
}

/// A wizard whose save failed is open again for input and shows why.
pub proof fn law_failed_save_reopens_the_wizard(
    widget: AuthModeView,
    config: CustomProviderView,
    error: Seq<char>,
)
    ensures
        widget.save_ended(config, Some(error)).widget.sign_in_state matches SignInView::ApiKeyEntry(
            input,
        ) && !input.validating && input.error == Some(error),
{
}

/// No key starts a ChatGPT login where there already is one, nor where an administrator left
/// only API keys open.
pub proof fn law_needless_login_is_not_started(
    widget: AuthModeView,
    key: KeyEvent,
    workspace: Option<Seq<char>>,
)
    requires
        widget.has_chatgpt_login() || widget.forced_login_method == Some(ForcedLoginMethod::Api),
    ensures
        !widget.key_taken(key).effects.contains(SignInEffectView::StartLoginServer(workspace)),
{
}

/// Where the options are shown, the number of an option does what Enter does while it is
/// highlighted.
pub proof fn law_numbers_choose_like_enter(widget: AuthModeView, index: int)
    requires
        widget.sign_in_state is PickMode,
        0 <= index < widget.options().len(),
        widget.highlighted_mode == widget.options()[index],
    ensures
        widget.index_chosen(index) == widget.entered(),
{
}

/// Outside the wizard, Down and `j` move the highlight to the next allowed option and Up and `k`
/// to the one before, around the ends: with both options allowed each changes to the other one,
/// with one it ends on that one. Nothing else changes, and nothing else is done.
pub proof fn law_arrow_keys_move_the_highlight(widget: AuthModeView, key: KeyEvent)
    requires
        !(widget.sign_in_state is ApiKeyEntry),
        key.code is Up || key.code is Down || key.code == KeyCode::Char('k') || key.code
            == KeyCode::Char('j'),
    ensures
        ({
            let after = widget.key_taken(key).widget.highlighted_mode;
            &&& widget.forced_login_method is None && widget.highlighted_mode is ChatGpt
                ==> after is ApiKey
            &&& widget.forced_login_method is None && widget.highlighted_mode is ApiKey
                ==> after is ChatGpt
            &&& widget.forced_login_method == Some(ForcedLoginMethod::Chatgpt) ==> after is ChatGpt
            &&& widget.forced_login_method == Some(ForcedLoginMethod::Api) ==> after is ApiKey
            &&& widget.key_taken(key).widget == (AuthModeView { highlighted_mode: after, ..widget })
            &&& widget.key_taken(key).effects.len() == 0
        }),
{
    lemma_highlighted_index(widget);
    law_shown_options(widget);
}

/// With both options allowed, moving the highlight an odd number of places changes to the other
/// option and an even number to the same. With one allowed, any move ends on that one.
pub proof fn law_highlight_moves_around(widget: AuthModeView, delta: int)
    ensures
        ({
            let moved = widget.highlight_moved(delta);
            let both = widget.forced_login_method is None;
            &&& both && delta % 2 == 0 ==> moved.highlighted_mode == widget.highlighted_mode
            &&& both && delta % 2 != 0 ==> moved.highlighted_mode != widget.highlighted_mode
            &&& widget.forced_login_method == Some(ForcedLoginMethod::Chatgpt)
                ==> moved.highlighted_mode is ChatGpt
            &&& widget.forced_login_method == Some(ForcedLoginMethod::Api)
                ==> moved.highlighted_mode is ApiKey
            &&& (AuthModeView { highlighted_mode: widget.highlighted_mode, ..moved }) == widget
        }),
{
    lemma_highlighted_index(widget);
    law_shown_options(widget);
}

/// Where nothing is forced, both options are allowed, the ChatGPT account first; otherwise the
/// forced one alone. The highlight counts as being on the first if its option is not shown.
pub proof fn law_shown_options(widget: AuthModeView)
    ensures
        widget.forced_login_method is None ==> {
            &&& widget.options().len() == 2
            &&& widget.options()[0] is ChatGpt
            &&& widget.options()[1] is ApiKey
            &&& widget.chatgpt_login_allowed() && widget.api_login_allowed()
            &&& widget.highlighted_mode is ChatGpt ==> widget.highlighted_index() == 0
            &&& widget.highlighted_mode is ApiKey ==> widget.highlighted_index() == 1
        },
        widget.forced_login_method == Some(ForcedLoginMethod::Chatgpt) ==> {
            &&& widget.options().len() == 1
            &&& widget.options()[0] is ChatGpt
            &&& widget.chatgpt_login_allowed() && !widget.api_login_allowed()
            &&& widget.highlighted_index() == 0
        },
        widget.forced_login_method == Some(ForcedLoginMethod::Api) ==> {
            &&& widget.options().len() == 1
            &&& widget.options()[0] is ApiKey
            &&& !widget.chatgpt_login_allowed() && widget.api_login_allowed()
            &&& widget.highlighted_index() == 0
        },
{
    let options = widget.options();
    options.index_of_first_ensures(widget.highlighted_mode);
    lemma_highlighted_index(widget);
    if widget.forced_login_method is None {
        assert(options[0] is ChatGpt);
        assert(options[1] is ApiKey);
        if widget.highlighted_mode is ChatGpt {
            assert(options.contains(options[0]));
        } else {
            assert(options.contains(options[1]));
        }
    }
}

/// Choosing the ChatGPT account does nothing where only API keys are allowed. Where there already
/// is a login with such an account it is complete; otherwise a login server is started for the
/// forced workspace, if any, and a shown error disappears.
pub proof fn law_choosing_the_chatgpt_account(widget: AuthModeView)
    ensures
        ({
            let outcome = widget.option_chosen(SignInOption::ChatGpt);
            let allowed = widget.forced_login_method != Some(ForcedLoginMethod::Api);
            let signed_in = widget.login_status == LoginStatus::AuthMode(AuthMode::Chatgpt)
                || widget.login_status == LoginStatus::AuthMode(AuthMode::ChatgptAuthTokens);
            &&& !allowed ==> outcome.widget == widget && outcome.effects.len() == 0
            &&& allowed && signed_in ==> {
                &&& outcome.widget == (AuthModeView {
                    sign_in_state: SignInView::Success,
                    ..widget
                })
                &&& outcome.effects == dropped(widget.sign_in_state) + seq![
                    SignInEffectView::ScheduleFrame,
                ]
            }
            &&& allowed && !signed_in ==> {
                &&& outcome.widget == (AuthModeView { error: None, ..widget })
                &&& outcome.effects == seq![
                    SignInEffectView::StartLoginServer(widget.forced_chatgpt_workspace_id),
                ]
            }
        }),
{
    assert(dropped(widget.sign_in_state).push(SignInEffectView::ScheduleFrame) =~= dropped(
        widget.sign_in_state,
    ) + seq![SignInEffectView::ScheduleFrame]);
}

/// A login of any kind is begun with its one effect, unless there already is a ChatGPT login.
pub proof fn law_login_is_begun_once(widget: AuthModeView, effect: SignInEffectView)
    ensures
        ({
            let outcome = widget.login_begun(effect);
            let signed_in = widget.login_status == LoginStatus::AuthMode(AuthMode::Chatgpt)
                || widget.login_status == LoginStatus::AuthMode(AuthMode::ChatgptAuthTokens);
            &&& widget.has_chatgpt_login() <==> signed_in
            &&& signed_in ==> outcome.widget == (AuthModeView {
                sign_in_state: SignInView::Success,
                ..widget
            }) && outcome.effects.last() == SignInEffectView::ScheduleFrame
                && outcome.effects.drop_last() == dropped(widget.sign_in_state)
            &&& !signed_in ==> outcome.widget == (AuthModeView { error: None, ..widget })
                && outcome.effects == seq![effect]
        }),
{
    assert(widget.moved_to(SignInView::Success).effects.drop_last() =~= dropped(
        widget.sign_in_state,
    ));
}

/// Choosing the API key opens a blank wizard, or leaves an open one as it is, and a shown error
/// disappears. Where only the ChatGPT account is allowed, it leads back to the choice instead,
/// with the ChatGPT account highlighted and a message.
pub proof fn law_choosing_the_api_key(widget: AuthModeView)
    ensures
        ({
            let outcome = widget.option_chosen(SignInOption::ApiKey);
            let allowed = widget.forced_login_method != Some(ForcedLoginMethod::Chatgpt);
            &&& outcome == widget.api_key_entry_started()
            &&& !allowed ==> outcome == widget.api_login_refused() && outcome.widget == (
            AuthModeView {
                highlighted_mode: SignInOption::ChatGpt,
                error: Some("API key login is disabled."@),
                sign_in_state: SignInView::PickMode,
                ..widget
            })
            &&& allowed ==> match widget.sign_in_state {
                SignInView::ApiKeyEntry(_) => outcome.widget == (AuthModeView {
                    error: None,
                    ..widget
                }),
                _ => outcome.widget == (AuthModeView {
                    error: None,
                    sign_in_state: SignInView::ApiKeyEntry(ApiKeyInputView::blank()),
                    ..widget
                }),
            }
            &&& outcome.effects == dropped(widget.sign_in_state) + seq![
                SignInEffectView::ScheduleFrame,
            ]
        }),
{
    assert(dropped(widget.sign_in_state).push(SignInEffectView::ScheduleFrame) =~= dropped(
        widget.sign_in_state,
    ) + seq![SignInEffectView::ScheduleFrame]);
}

/// Whatever state it is in, a refused API key leads back to the choice with the ChatGPT account
/// highlighted and a message, and nothing else changes.
pub proof fn law_refused_api_key(widget: AuthModeView)
    ensures
        ({
            let outcome = widget.api_login_refused();
            &&& outcome.widget.highlighted_mode is ChatGpt
            &&& outcome.widget.error == Some("API key login is disabled."@)
            &&& outcome.widget.sign_in_state is PickMode
            &&& outcome.widget.login_status == widget.login_status
            &&& outcome.widget.forced_chatgpt_workspace_id == widget.forced_chatgpt_workspace_id
            &&& outcome.widget.forced_login_method == widget.forced_login_method
            &&& outcome.widget.animations_enabled == widget.animations_enabled
            &&& outcome.effects.last() is ScheduleFrame
            &&& outcome.effects.drop_last() == dropped(widget.sign_in_state)
        }),
{
    assert(widget.api_login_refused().effects.drop_last() =~= dropped(widget.sign_in_state));
}

/// Outside the wizard, `1` chooses the first option that is shown and `2` the second, if there is
/// one.
pub proof fn law_number_keys_choose_options(widget: AuthModeView, key: KeyEvent)
    requires
        !(widget.sign_in_state is ApiKeyEntry),
    ensures
        key.code == KeyCode::Char('1') ==> widget.key_taken(key) == widget.option_chosen(
            if widget.forced_login_method == Some(ForcedLoginMethod::Api) {
                SignInOption::ApiKey
            } else {
                SignInOption::ChatGpt
            },
        ),
        key.code == KeyCode::Char('2') && widget.forced_login_method is None ==> widget.key_taken(
            key,
        ) == widget.option_chosen(SignInOption::ApiKey),
        key.code == KeyCode::Char('2') && widget.forced_login_method is Some ==> widget.key_taken(
            key,
        ).widget == widget && widget.key_taken(key).effects.len() == 0,
{
    law_shown_options(widget);
}

/// An index chooses the option at that place, counting from zero, and otherwise nothing.
pub proof fn law_index_chooses_an_option(widget: AuthModeView, index: int)
    ensures
        0 <= index < widget.options().len() ==> widget.index_chosen(index) == widget.option_chosen(
            widget.options()[index],
        ),
        index < 0 || index >= widget.options().len() ==> widget.index_chosen(index).widget == widget
            && widget.index_chosen(index).effects.len() == 0,
{
}

/// Outside the wizard, Enter chooses the highlighted option while the options are shown, and
/// leaves the success message for the success screen. A login in the browser is shut down, and
/// otherwise Enter does nothing.
pub proof fn law_enter_outside_the_wizard(widget: AuthModeView, key: KeyEvent)
    requires
        key.code is Enter,
    ensures
        match widget.sign_in_state {
            SignInView::PickMode => widget.key_taken(key) == widget.option_chosen(
                widget.highlighted_mode,
            ),
            SignInView::SuccessMessage => widget.key_taken(key).widget == (AuthModeView {
                sign_in_state: SignInView::Success,
                ..widget
            }) && widget.key_taken(key).effects.len() == 0,
            SignInView::ContinueInBrowser { shutdown_flag: Some(login), .. } => widget.key_taken(
                key,
            ).widget == widget && widget.key_taken(key).effects == seq![
                SignInEffectView::ShutdownLogin(login),
            ],
            SignInView::ApiKeyEntry(_) => true,
            _ => widget.key_taken(key).widget == widget && widget.key_taken(key).effects.len() == 0,
        },
{
}

/// Outside the wizard, Esc calls off a login in the browser or with a device code and leads back
/// to the choice; what it calls off is told to stop before the screen is drawn. Otherwise it does
/// nothing.
pub proof fn law_esc_outside_the_wizard(widget: AuthModeView, key: KeyEvent)
    requires
        key.code is Esc,
    ensures
        ({
            let outcome = widget.key_taken(key);
            let back = AuthModeView { sign_in_state: SignInView::PickMode, ..widget };
            match widget.sign_in_state {
                SignInView::ContinueInBrowser { shutdown_flag: Some(login), .. } => outcome.widget
                    == back && outcome.effects == seq![
                    SignInEffectView::ShutdownLogin(login),
                    SignInEffectView::ScheduleFrame,
                ],
                SignInView::ContinueInBrowser { shutdown_flag: None, .. } => outcome.widget == back
                    && outcome.effects == seq![SignInEffectView::ScheduleFrame],
                SignInView::DeviceCode { cancel: Some(poll) } => outcome.widget == back
                    && outcome.effects == seq![
                    SignInEffectView::CancelDeviceCode(poll),
                    SignInEffectView::ScheduleFrame,
                ],
                SignInView::DeviceCode { cancel: None } => outcome.widget == back
                    && outcome.effects == seq![SignInEffectView::ScheduleFrame],
                SignInView::ApiKeyEntry(_) => true,
                _ => outcome.widget == widget && outcome.effects.len() == 0,
            }
        }),
{
    let outcome = widget.key_taken(key);
    match widget.sign_in_state {
        SignInView::ContinueInBrowser { shutdown_flag: Some(login), .. } => {
            assert(outcome.effects =~= seq![
                SignInEffectView::ShutdownLogin(login),
                SignInEffectView::ScheduleFrame,
            ]);
        },
        SignInView::ContinueInBrowser { shutdown_flag: None, .. } => {
            assert(outcome.effects =~= seq![SignInEffectView::ScheduleFrame]);
        },
        _ => {},
    }
}

/// Outside the wizard, no other key does anything.
pub proof fn law_other_keys_do_nothing(widget: AuthModeView, key: KeyEvent)
    requires
        !(widget.sign_in_state is ApiKeyEntry),
        match key.code {
            KeyCode::Up | KeyCode::Down | KeyCode::Enter | KeyCode::Esc => false,
            KeyCode::Char(c) => c != 'k' && c != 'j' && c != '1' && c != '2',
            _ => true,
        },
    ensures
        widget.key_taken(key).widget == widget,
        widget.key_taken(key).effects.len() == 0,
{
}

/// In the wizard a key goes to the wizard. What changes there is drawn, leaving it leads back to
/// the choice without a shown error, and submitted settings are handed over for saving while the
/// wizard stays on screen, or refused where API keys are.
pub proof fn law_keys_in_the_wizard(widget: AuthModeView, key: KeyEvent)
    ensures
        widget.entry_key_taken(key).0 <==> widget.sign_in_state is ApiKeyEntry,
        !(widget.sign_in_state is ApiKeyEntry) ==> widget.entry_key_taken(key).1.widget == widget
            && widget.entry_key_taken(key).1.effects.len() == 0,
        widget.sign_in_state matches SignInView::ApiKeyEntry(input) ==> {
            let outcome = widget.key_taken(key);
            &&& outcome == widget.entry_key_taken(key).1
            &&& match key_step(input, key) {
                EntryStep::Ignored => outcome.widget == widget && outcome.effects.len() == 0,
                EntryStep::Changed(changed) => outcome.widget == (AuthModeView {
                    sign_in_state: SignInView::ApiKeyEntry(changed),
                    ..widget
                }) && outcome.effects == seq![SignInEffectView::ScheduleFrame],
                EntryStep::Left => outcome.widget == (AuthModeView {
                    sign_in_state: SignInView::PickMode,
                    error: None,
                    ..widget
                }) && outcome.effects == seq![SignInEffectView::ScheduleFrame],
                EntryStep::Submitted(checking, config) => {
                    &&& widget.forced_login_method != Some(ForcedLoginMethod::Chatgpt)
                        ==> outcome.widget == (AuthModeView {
                        sign_in_state: SignInView::ApiKeyEntry(checking),
                        error: None,
                        ..widget
                    }) && outcome.effects == seq![
                        SignInEffectView::SaveProvider(config),
                        SignInEffectView::ScheduleFrame,
                    ]
                    &&& widget.forced_login_method == Some(ForcedLoginMethod::Chatgpt)
                        ==> outcome.widget == (AuthModeView {
                        highlighted_mode: SignInOption::ChatGpt,
                        sign_in_state: SignInView::PickMode,
                        error: Some("API key login is disabled."@),
                        ..widget
                    }) && outcome.effects == seq![SignInEffectView::ScheduleFrame]
                },
            }
        },
{
    assert(Seq::<SignInEffectView>::empty().push(SignInEffectView::ScheduleFrame) =~= seq![
        SignInEffectView::ScheduleFrame,
    ]);
}

/// Pasted text is taken exactly if the wizard is open and the text is not white space alone. It
/// goes to the wizard, and what changes there is drawn.
pub proof fn law_pasting_into_the_wizard(widget: AuthModeView, pasted: Seq<char>)
    ensures
        ({
            let taken = widget.entry_paste_taken(pasted);
            &&& taken.0 <==> widget.sign_in_state is ApiKeyEntry && trimmed(pasted).len() > 0
            &&& !taken.0 ==> taken.1.widget == widget && taken.1.effects.len() == 0
            &&& taken.0 ==> match paste_step(widget.sign_in_state->ApiKeyEntry_0, pasted) {
                EntryStep::Changed(changed) => taken.1.widget == (AuthModeView {
                    sign_in_state: SignInView::ApiKeyEntry(changed),
                    ..widget
                }) && taken.1.effects == seq![SignInEffectView::ScheduleFrame],
                _ => taken.1.widget == widget && taken.1.effects.len() == 0,
            }
        }),
{
    assert(Seq::<SignInEffectView>::empty().push(SignInEffectView::ScheduleFrame) =~= seq![
        SignInEffectView::ScheduleFrame,
    ]);
}

/// Dropping a state shuts down a login server exactly if the state holds one.
pub proof fn law_dropped_states(state: SignInView)
    ensures
        match state {
            SignInView::ContinueInBrowser { shutdown_flag: Some(login), .. } => dropped(state)
                == seq![SignInEffectView::ShutdownLogin(login)],
            _ => dropped(state).len() == 0,
        },
{
}

/// Moving to a state changes the state alone, and draws the screen after what was dropped.
pub proof fn law_moving_to_a_state(widget: AuthModeView, state: SignInView)
    ensures
        widget.moved_to(state).widget.sign_in_state == state,
        (AuthModeView {
            sign_in_state: widget.sign_in_state,
            ..widget.moved_to(state).widget
        }) == widget,
        widget.moved_to(state).effects.last() is ScheduleFrame,
        widget.moved_to(state).effects.drop_last() == dropped(widget.sign_in_state),
{
    assert(widget.moved_to(state).effects.drop_last() =~= dropped(widget.sign_in_state));
}

/// A login server that runs has its page shown and can be shut down. One that did not start
/// leads back to the choice with the error.
pub proof fn law_login_server_events(
    widget: AuthModeView,
    auth_url: Seq<char>,
    login: u64,
    error: Seq<char>,
)
    ensures
        ({
            let started = widget.login_server_started(auth_url, login);
            let failed = widget.login_server_failed(error);
            let redrawn = dropped(widget.sign_in_state) + seq![SignInEffectView::ScheduleFrame];
            &&& started.widget == (AuthModeView {
                sign_in_state: SignInView::ContinueInBrowser {
                    auth_url,
                    shutdown_flag: Some(login),
                },
                ..widget
            })
            &&& started.effects == redrawn
            &&& failed.widget == (AuthModeView {
                sign_in_state: SignInView::PickMode,
                error: Some(error),
                ..widget
            })
            &&& failed.effects == redrawn
        }),
{
    assert(dropped(widget.sign_in_state).push(SignInEffectView::ScheduleFrame) =~= dropped(
        widget.sign_in_state,
    ) + seq![SignInEffectView::ScheduleFrame]);
}

/// A login that succeeded has its credentials loaded first and its message shown. One that did
/// not leads back to the choice.
pub proof fn law_end_of_a_login(widget: AuthModeView)
    ensures
        ({
            let redrawn = dropped(widget.sign_in_state) + seq![SignInEffectView::ScheduleFrame];
            &&& widget.login_ended(true).widget == (AuthModeView {
                sign_in_state: SignInView::SuccessMessage,
                ..widget
            })
            &&& widget.login_ended(true).effects == seq![SignInEffectView::ReloadAuth] + redrawn
            &&& widget.login_ended(false).widget == (AuthModeView {
                sign_in_state: SignInView::PickMode,
                ..widget
            })
            &&& widget.login_ended(false).effects == redrawn
        }),
{
    assert(dropped(widget.sign_in_state).push(SignInEffectView::ScheduleFrame) =~= dropped(
        widget.sign_in_state,
    ) + seq![SignInEffectView::ScheduleFrame]);
}

/// Settings are handed over as they are, with no error shown, unless API keys are refused.
pub proof fn law_settings_are_handed_over(widget: AuthModeView, config: CustomProviderView)
    ensures
        ({
            let outcome = widget.save_begun(config);
            let refused = widget.forced_login_method == Some(ForcedLoginMethod::Chatgpt);
            &&& refused ==> outcome == widget.api_login_refused()
            &&& !refused ==> outcome.widget == (AuthModeView { error: None, ..widget })
                && outcome.effects == seq![
                SignInEffectView::SaveProvider(config),
                SignInEffectView::ScheduleFrame,
            ]
        }),
{
}

/// Saved settings lead to the last screen. Settings that were not saved lead to the wizard with
/// the error: an open one keeps what was typed and where it stands, a closed one is filled with
/// the settings.
pub proof fn law_end_of_a_save(
    widget: AuthModeView,
    config: CustomProviderView,
    error: Seq<char>,
)
    ensures
        widget.save_ended(config, None).widget == (AuthModeView {
            sign_in_state: SignInView::ApiKeyConfigured,
            ..widget
        }),
        widget.save_ended(config, Some(error)).widget == (AuthModeView {
            sign_in_state: match widget.sign_in_state {
                SignInView::ApiKeyEntry(input) => SignInView::ApiKeyEntry(
                    ApiKeyInputView { validating: false, error: Some(error), ..input },
                ),
                _ => SignInView::ApiKeyEntry(
                    ApiKeyInputView {
                        provider_id: config.provider_id,
                        wire_api: config.wire_api,
                        base_url: config.base_url,
                        api_key: config.api_key,
                        model: config.model,
                        step: ApiProviderWizardStep::Model,
                        validating: false,
                        error: Some(error),
                    },
                ),
            },
            ..widget
        }),
        forall|saved: Option<Seq<char>>| (#[trigger] widget.save_ended(config, saved)).effects
            == dropped(widget.sign_in_state) + seq![SignInEffectView::ScheduleFrame],
{
    assert(dropped(widget.sign_in_state).push(SignInEffectView::ScheduleFrame) =~= dropped(
        widget.sign_in_state,
    ) + seq![SignInEffectView::ScheduleFrame]);
}

/// The sign-in is complete on the two last screens alone.
pub proof fn law_complete_sign_in(widget: AuthModeWidget, state: StepState)
    requires
        call_ensures(AuthModeWidget::get_step_state, (&widget,), state),
    ensures
        state is Complete <==> widget.sign_in_state is ChatGptSuccess
            || widget.sign_in_state is ApiKeyConfigured,
{
}

/// What a widget shows of each of its fields is what the field holds.
pub proof fn law_fields_of_the_widget(widget: AuthModeWidget, effects: Seq<SignInEffect>)
    ensures
        widget@.highlighted_mode == widget.highlighted_mode,
        widget.error is None <==> widget@.error is None,
        widget.error matches Some(error) ==> widget@.error == Some(error@),
        widget@.login_status == widget.login_status,
        widget.forced_chatgpt_workspace_id is None <==> widget@.forced_chatgpt_workspace_id is None,
        widget.forced_chatgpt_workspace_id matches Some(workspace)
            ==> widget@.forced_chatgpt_workspace_id == Some(workspace@),
        widget@.forced_login_method == widget.forced_login_method,
        widget@.animations_enabled == widget.animations_enabled,
        match widget.sign_in_state {
            SignInState::PickMode => widget@.sign_in_state is PickMode,
            SignInState::ChatGptContinueInBrowser(state) => widget@.sign_in_state == (
            SignInView::ContinueInBrowser {
                auth_url: state.auth_url@,
                shutdown_flag: state.shutdown_flag,
            }),
            SignInState::ChatGptDeviceCode(state) => widget@.sign_in_state == (
            SignInView::DeviceCode { cancel: state.cancel }),
            SignInState::ChatGptSuccessMessage => widget@.sign_in_state is SuccessMessage,
            SignInState::ChatGptSuccess => widget@.sign_in_state is Success,
            SignInState::ApiKeyEntry(state) => widget@.sign_in_state == SignInView::ApiKeyEntry(
                state@,
            ),
            SignInState::ApiKeyConfigured => widget@.sign_in_state is ApiKeyConfigured,
        },
        effects_view(effects).len() == effects.len(),
        forall|i: int|
            0 <= i < effects.len() ==> match #[trigger] effects[i] {
                SignInEffect::ScheduleFrame => effects_view(effects)[i] is ScheduleFrame,
                SignInEffect::StartLoginServer(workspace) => effects_view(effects)[i]
                    == SignInEffectView::StartLoginServer(optional(workspace)),
                SignInEffect::StartDeviceCodeLogin(workspace) => effects_view(effects)[i]
                    == SignInEffectView::StartDeviceCodeLogin(optional(workspace)),
                SignInEffect::ShutdownLogin(login) => effects_view(effects)[i]
                    == SignInEffectView::ShutdownLogin(login),
                SignInEffect::CancelDeviceCode(poll) => effects_view(effects)[i]
                    == SignInEffectView::CancelDeviceCode(poll),
                SignInEffect::ReloadAuth => effects_view(effects)[i] is ReloadAuth,
                SignInEffect::SaveProvider(config) => effects_view(effects)[i]
                    == SignInEffectView::SaveProvider(config@),
            },
{
}

/// Pressing Up, Down, `k` or `j` outside the wizard: the highlight is on the other option where
/// both are allowed, and on the allowed one where one is. Everything else is as it was, and there
/// is nothing to do.
pub proof fn law_pressing_an_arrow_key(
    widget: &mut AuthModeWidget,
    key: KeyEvent,
    effects: Vec<SignInEffect>,
)
    requires
        !(old(widget).sign_in_state is ApiKeyEntry),
        key.code is Up || key.code is Down || key.code == KeyCode::Char('k') || key.code
            == KeyCode::Char('j'),
        call_ensures(AuthModeWidget::handle_key_event, (widget, key), effects),
    ensures
        old(widget).forced_login_method is None && old(widget).highlighted_mode is ChatGpt
            ==> final(widget).highlighted_mode is ApiKey,
        old(widget).forced_login_method is None && old(widget).highlighted_mode is ApiKey
            ==> final(widget).highlighted_mode is ChatGpt,
        old(widget).forced_login_method == Some(ForcedLoginMethod::Chatgpt) ==> final(widget).highlighted_mode is ChatGpt,
        old(widget).forced_login_method == Some(ForcedLoginMethod::Api) ==> final(widget).highlighted_mode is ApiKey,
        effects@.len() == 0,
        optional(final(widget).error) == optional(old(widget).error),
        final(widget).sign_in_state@ == old(widget).sign_in_state@,
        final(widget).login_status == old(widget).login_status,
        optional(final(widget).forced_chatgpt_workspace_id) == optional(
            old(widget).forced_chatgpt_workspace_id,
        ),
        final(widget).forced_login_method == old(widget).forced_login_method,
        final(widget).animations_enabled == old(widget).animations_enabled,
{
    law_arrow_keys_move_the_highlight(old(widget)@, key);
    assert(effects_view(effects@).len() == effects@.len());
}

/// Pressing Enter or a number where the options are shown: a chosen ChatGPT account has its login
/// server started, or is done if there already is one; a chosen API key opens a blank wizard.
pub proof fn law_pressing_a_key_to_choose(
    widget: &mut AuthModeWidget,
    key: KeyEvent,
    effects: Vec<SignInEffect>,
)
    requires
        old(widget).sign_in_state is PickMode,
        old(widget).forced_login_method is None,
        call_ensures(AuthModeWidget::handle_key_event, (widget, key), effects),
    ensures
        ({
            let to_chatgpt = key.code == KeyCode::Char('1') || (key.code is Enter && old(widget).highlighted_mode is ChatGpt);
            let to_key = key.code == KeyCode::Char('2') || (key.code is Enter && old(widget).highlighted_mode is ApiKey);
            let signed_in = old(widget).login_status == LoginStatus::AuthMode(AuthMode::Chatgpt)
                || old(widget).login_status == LoginStatus::AuthMode(AuthMode::ChatgptAuthTokens);
            &&& to_chatgpt && !signed_in ==> {
                &&& effects@.len() == 1
                &&& effects@[0]@ == SignInEffectView::StartLoginServer(
                    optional(old(widget).forced_chatgpt_workspace_id),
                )
                &&& final(widget).error is None
                &&& final(widget).sign_in_state is PickMode
            }
            &&& to_chatgpt && signed_in ==> {
                &&& effects@.len() == 1
                &&& effects@[0]@ is ScheduleFrame
                &&& final(widget).sign_in_state is ChatGptSuccess
            }
            &&& to_key ==> {
                &&& effects@.len() == 1
                &&& effects@[0]@ is ScheduleFrame
                &&& final(widget).error is None
                &&& final(widget).sign_in_state@ == SignInView::ApiKeyEntry(
                    ApiKeyInputView::blank(),
                )
            }
        }),
{
    let before = old(widget)@;
    law_shown_options(before);
    law_choosing_the_chatgpt_account(before);
    law_choosing_the_api_key(before);
    law_number_keys_choose_options(before, key);
    if key.code is Enter {
        law_enter_outside_the_wizard(before, key);
    }
    assert(effects_view(effects@).len() == effects@.len());
    if effects@.len() > 0 {
        assert(effects_view(effects@)[0] == effects@[0]@);
    }
}

/// Asking which options are allowed, and which are shown: both where nothing is forced, the
/// ChatGPT account first, and else the forced one alone.
pub proof fn law_asking_for_the_options(
    widget: AuthModeWidget,
    api_allowed: bool,
    chatgpt_allowed: bool,
    displayed: Vec<SignInOption>,
    selectable: Vec<SignInOption>,
)
    requires
        call_ensures(AuthModeWidget::is_api_login_allowed, (&widget,), api_allowed),
        call_ensures(AuthModeWidget::is_chatgpt_login_allowed, (&widget,), chatgpt_allowed),
        call_ensures(AuthModeWidget::displayed_sign_in_options, (&widget,), displayed),
        call_ensures(AuthModeWidget::selectable_sign_in_options, (&widget,), selectable),
    ensures
        api_allowed <==> widget.forced_login_method != Some(ForcedLoginMethod::Chatgpt),
        chatgpt_allowed <==> widget.forced_login_method != Some(ForcedLoginMethod::Api),
        widget.forced_login_method is None ==> displayed@ == seq![
            SignInOption::ChatGpt,
            SignInOption::ApiKey,
        ],
        widget.forced_login_method == Some(ForcedLoginMethod::Chatgpt) ==> displayed@ == seq![
            SignInOption::ChatGpt,
        ],
        widget.forced_login_method == Some(ForcedLoginMethod::Api) ==> displayed@ == seq![
            SignInOption::ApiKey,
        ],
        selectable@ == displayed@,
{
}

/// Starting a login in the browser or with a device code: where there already is a ChatGPT login
/// the sign-in is complete, and otherwise the login is started for the forced workspace and a
/// shown error disappears.
pub proof fn law_starting_a_login(
    widget: &mut AuthModeWidget,
    by_device_code: bool,
    effects: Vec<SignInEffect>,
)
    requires
        if by_device_code {
            call_ensures(AuthModeWidget::start_device_code_login, (widget,), effects)
        } else {
            call_ensures(AuthModeWidget::start_chatgpt_login, (widget,), effects)
        },
    ensures
        ({
            let signed_in = old(widget).login_status == LoginStatus::AuthMode(AuthMode::Chatgpt)
                || old(widget).login_status == LoginStatus::AuthMode(AuthMode::ChatgptAuthTokens);
            let workspace = optional(old(widget).forced_chatgpt_workspace_id);
            &&& signed_in ==> final(widget).sign_in_state is ChatGptSuccess
                && effects@.last()@ is ScheduleFrame && effects@.len() > 0
            &&& !signed_in ==> {
                &&& final(widget).error is None
                &&& final(widget).sign_in_state@ == old(widget).sign_in_state@
                &&& effects@.len() == 1
                &&& by_device_code ==> effects@[0]@ == SignInEffectView::StartDeviceCodeLogin(
                    workspace,
                )
                &&& !by_device_code ==> effects@[0]@ == SignInEffectView::StartLoginServer(
                    workspace,
                )
            }
            &&& final(widget).highlighted_mode == old(widget).highlighted_mode
            &&& final(widget).login_status == old(widget).login_status
            &&& final(widget).forced_login_method == old(widget).forced_login_method
            &&& optional(final(widget).forced_chatgpt_workspace_id) == workspace
        }),
{
    let before = old(widget)@;
    let workspace = before.forced_chatgpt_workspace_id;
    law_login_is_begun_once(before, SignInEffectView::StartDeviceCodeLogin(workspace));
    law_login_is_begun_once(before, SignInEffectView::StartLoginServer(workspace));
    let views = effects_view(effects@);
    assert(views.len() == effects@.len());
    assert(forall|i: int| 0 <= i < effects@.len() ==> views[i] == (#[trigger] effects@[i])@);
    assert(views.len() > 0);
    assert(views.last() == effects@[effects@.len() - 1]@);
}

/// Being told how a login server fared: one that runs is shown with its address and can be shut
/// down, and one that does not leads back to the choice with the error.
pub proof fn law_being_told_of_a_login_server(
    widget: &mut AuthModeWidget,
    auth_url: String,
    login: u64,
    error: String,
    runs: bool,
    effects: Vec<SignInEffect>,
)
    requires
        !(old(widget).sign_in_state is ChatGptContinueInBrowser),
        if runs {
            call_ensures(AuthModeWidget::login_server_started, (widget, auth_url, login), effects)
        } else {
            call_ensures(AuthModeWidget::login_server_failed, (widget, error), effects)
        },
    ensures
        effects@.len() == 1,
        effects@[0]@ is ScheduleFrame,
        runs ==> (final(widget).sign_in_state matches SignInState::ChatGptContinueInBrowser(browser)
            && browser.auth_url@ == auth_url@ && browser.shutdown_flag == Some(login)),
        runs ==> optional(final(widget).error) == optional(old(widget).error),
        !runs ==> final(widget).sign_in_state is PickMode && optional(final(widget).error) == Some(
            error@,
        ),
        final(widget).highlighted_mode == old(widget).highlighted_mode,
        final(widget).login_status == old(widget).login_status,
        final(widget).forced_login_method == old(widget).forced_login_method,
{
    let views = effects_view(effects@);
    assert(views.len() == effects@.len());
    assert(views[0] == effects@[0]@);
}

/// Being told that a login in the browser ended: its server is shut down, and on success the new
/// credentials are loaded before anything else and the message is shown.
pub proof fn law_being_told_of_the_end_of_a_login(
    widget: &mut AuthModeWidget,
    login: u64,
    succeeded: bool,
    effects: Vec<SignInEffect>,
)
    requires
        old(widget).sign_in_state matches SignInState::ChatGptContinueInBrowser(browser)
            && browser.shutdown_flag == Some(login),
        call_ensures(AuthModeWidget::login_ended, (widget, succeeded), effects),
    ensures
        succeeded ==> final(widget).sign_in_state is ChatGptSuccessMessage && effects_view(effects@)
            == seq![
            SignInEffectView::ReloadAuth,
            SignInEffectView::ShutdownLogin(login),
            SignInEffectView::ScheduleFrame,
        ],
        !succeeded ==> final(widget).sign_in_state is PickMode && effects_view(effects@) == seq![
            SignInEffectView::ShutdownLogin(login),
            SignInEffectView::ScheduleFrame,
        ],
        optional(final(widget).error) == optional(old(widget).error),
        final(widget).highlighted_mode == old(widget).highlighted_mode,
{
    law_end_of_a_login(old(widget)@);
    let stop = seq![SignInEffectView::ShutdownLogin(login), SignInEffectView::ScheduleFrame];
    assert(dropped(old(widget)@.sign_in_state) + seq![SignInEffectView::ScheduleFrame] =~= stop);
    assert(seq![SignInEffectView::ReloadAuth] + stop =~= seq![
        SignInEffectView::ReloadAuth,
        SignInEffectView::ShutdownLogin(login),
        SignInEffectView::ScheduleFrame,
    ]);
}

/// Being told that settings were saved leads to the last screen; being told that they were not
/// leads to the wizard, ready for input, with the error, and with what was typed if it is still
/// open.
pub proof fn law_being_told_of_the_end_of_a_save(
    widget: &mut AuthModeWidget,
    config: CustomProviderConfig,
    outcome: Result<(), String>,
    effects: Vec<SignInEffect>,
)
    requires
        call_ensures(
            AuthModeWidget::custom_provider_save_ended,
            (widget, config, outcome),
            effects,
        ),
    ensures
        outcome is Ok ==> final(widget).sign_in_state is ApiKeyConfigured,
        outcome matches Err(error) ==> {
            &&& final(widget).sign_in_state matches SignInState::ApiKeyEntry(after)
            &&& !after.validating
            &&& optional(after.error) == Some(error@)
            &&& match old(widget).sign_in_state {
                SignInState::ApiKeyEntry(input) => {
                    &&& after.provider_id@ == input.provider_id@
                    &&& after.wire_api == input.wire_api
                    &&& after.base_url@ == input.base_url@
                    &&& after.api_key@ == input.api_key@
                    &&& after.model@ == input.model@
                    &&& after.step == input.step
                },
                _ => {
                    &&& after.provider_id@ == config.provider_id@
                    &&& after.wire_api == config.wire_api
                    &&& after.base_url@ == config.base_url@
                    &&& after.api_key@ == config.api_key@
                    &&& after.model@ == config.model@
                    &&& after.step is Model
                },
            }
        },
        effects_view(effects@) == dropped(old(widget).sign_in_state@) + seq![
            SignInEffectView::ScheduleFrame,
        ],
        optional(final(widget).error) == optional(old(widget).error),
        final(widget).highlighted_mode == old(widget).highlighted_mode,
{
    law_end_of_a_save(
        old(widget)@,
        config@,
        match outcome {
            Ok(_) => Seq::empty(),
            Err(error) => error@,
        },
    );
}

} // verus!
