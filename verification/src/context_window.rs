//! The context window of a conversation grows in fixed steps, and a compaction may be
//! retried once per turn at each step.

use std::collections::HashSet;
use vstd::prelude::*;

verus! {

broadcast use vstd::std_specs::hash::group_hash_axioms;

/// The context windows a conversation can run with, smallest first.
pub const CONTEXT_WINDOW_STEPS: [i64; 3] = [32_000, 128_000, 200_000];

/// The pair that a context window is remembered under.
#[derive(Debug, Clone, PartialEq, Eq, Hash)]
pub struct DynamicContextWindowKey {
    pub model_provider_id: String,
    pub model: String,
}

impl DynamicContextWindowKey {
    /// Builds the key of `model` at the provider `model_provider_id`.
    pub fn new(model_provider_id: String, model: String) -> (key: Self)
        ensures
            key.model_provider_id@ == model_provider_id@,
            key.model@ == model@,
    {
        DynamicContextWindowKey { model_provider_id, model }
    }
}

/// What a [`DynamicContextWindowState`] stands for: the step the window is at, the turn in
/// which compactions were last recorded, and the windows recorded in that turn.
pub struct ContextWindowView {
    pub step: int,
    pub turn: Option<Seq<char>>,
    pub retried: Set<i64>,
}

impl ContextWindowView {
    /// The window of the current step.
    pub open spec fn window(self) -> i64 {
        CONTEXT_WINDOW_STEPS@[self.step]
    }

    /// The step is one of the supported ones, and no window beyond the current one has been
    /// recorded yet.
    pub open spec fn wf(self) -> bool {
        &&& 0 <= self.step < CONTEXT_WINDOW_STEPS@.len()
        &&& forall|window: i64| self.retried.contains(window) ==> window <= self.window()
    }

    /// The input outgrew the current window and there is a larger one.
    pub open spec fn upgrade_due(self, input_tokens: i64) -> bool {
        &&& input_tokens > self.window()
        &&& self.step + 1 < CONTEXT_WINDOW_STEPS@.len()
    }

    /// The state one step up.
    pub open spec fn upgraded(self) -> Self {
        ContextWindowView { step: self.step + 1, ..self }
    }

    /// The windows at which a compaction was already recorded in the turn `turn`.
    pub open spec fn retried_in(self, turn: Seq<char>) -> Set<i64> {
        if self.turn == Some(turn) {
            self.retried
        } else {
            Set::empty()
        }
    }

    /// A compaction in the turn `turn` is called for and has not been recorded at this window.
    pub open spec fn retry_granted(self, turn: Seq<char>, input_tokens: i64) -> bool {
        &&& input_tokens > self.window()
        &&& !self.retried_in(turn).contains(self.window())
    }

    /// The state after a compaction in the turn `turn` was asked for: an input that fits the
    /// window leaves no record.
    pub open spec fn recorded(self, turn: Seq<char>, input_tokens: i64) -> Self {
        if input_tokens > self.window() {
            ContextWindowView {
                turn: Some(turn),
                retried: self.retried_in(turn).insert(self.window()),
                ..self
            }
        } else {
            self
        }
    }
}

/// The stepped context window of one conversation.
#[derive(Debug)]
pub struct DynamicContextWindowState {
    current_step_index: usize,
    retry_state: RetryState,
}

/// The windows at which a compaction was retried within one turn.
#[derive(Debug)]
struct RetryState {
    turn_id: Option<String>,
    retried_windows: HashSet<i64>,
}

impl View for DynamicContextWindowState {
    type V = ContextWindowView;

    closed spec fn view(&self) -> ContextWindowView {
        ContextWindowView {
            step: self.current_step_index as int,
            turn: match self.retry_state.turn_id {
                Some(turn_id) => Some(turn_id@),
                None => None,
            },
            retried: self.retry_state.retried_windows@,
        }
    }
}

impl DynamicContextWindowState {
    /// A conversation starts at the smallest window with nothing recorded.
    pub fn new() -> (state: Self)
        ensures
            state@.wf(),
            state@ == (ContextWindowView { step: 0, turn: None, retried: Set::empty() }),
    {
        DynamicContextWindowState {
            current_step_index: 0,
            retry_state: RetryState { turn_id: None, retried_windows: HashSet::new() },
        }
    }

    /// The window of the current step, in tokens.
    pub fn current_context_window(&self) -> (window: i64)
        requires
            self@.wf(),
        ensures
            window == self@.window(),
    {
        CONTEXT_WINDOW_STEPS[self.current_step_index]
    }

    /// Moves one step up when `input_tokens` outgrew the window, and returns the new window.
    pub fn maybe_upgrade(&mut self, input_tokens: i64) -> (upgraded: Option<i64>)
        requires
            old(self)@.wf(),
        ensures
            final(self)@.wf(),
            old(self)@.upgrade_due(input_tokens) ==> {
                &&& final(self)@ == old(self)@.upgraded()
                &&& upgraded == Some(final(self)@.window())
            },
            !old(self)@.upgrade_due(input_tokens) ==> {
                &&& final(self)@ == old(self)@
                &&& upgraded is None
            },
    {
        let current: i64 = self.current_context_window();
        if input_tokens <= current || self.current_step_index + 1 >= CONTEXT_WINDOW_STEPS.len() {
            return None;
        }
        self.current_step_index = self.current_step_index + 1;
        Some(self.current_context_window())
    }

    /// Records a compaction in the turn `turn_id` and tells whether it may go ahead: an input
    /// that fits the window needs none, and each window allows one per turn.
    pub fn record_compact_retry(&mut self, turn_id: &str, input_tokens: i64) -> (granted: bool)
        requires
            old(self)@.wf(),
        ensures
            final(self)@.wf(),
            final(self)@ == old(self)@.recorded(turn_id@, input_tokens),
            granted == old(self)@.retry_granted(turn_id@, input_tokens),
    {
        let current: i64 = self.current_context_window();
        if input_tokens <= current {
            return false;
        }
        let same_turn = match &self.retry_state.turn_id {
            Some(recorded_turn) => *recorded_turn == turn_id.to_string(),
            None => false,
        };
        if !same_turn {
            self.retry_state.turn_id = Some(turn_id.to_string());
            self.retry_state.retried_windows.clear();
        }
        self.retry_state.retried_windows.insert(current)
    }
}

/// An upgrade only ever widens the window.
pub proof fn law_upgrade_widens(state: ContextWindowView, input_tokens: i64)
    requires
        state.wf(),
        state.upgrade_due(input_tokens),
    ensures
        state.upgraded().wf(),
        state.window() < state.upgraded().window(),
{
}

/// The widest window is never left: no input is large enough for a further upgrade.
pub proof fn law_widest_window_is_final(state: ContextWindowView, input_tokens: i64)
    requires
        state.wf(),
        state.step == CONTEXT_WINDOW_STEPS@.len() - 1,
    ensures
        !state.upgrade_due(input_tokens),
{
}

/// Within one turn a second compaction at the same window is refused, however large the two
/// inputs were.
pub proof fn law_one_retry_per_turn_and_window(
    state: ContextWindowView,
    turn: Seq<char>,
    first_tokens: i64,
    second_tokens: i64,
)
    requires
        state.wf(),
        first_tokens > state.window(),
    ensures
        !state.recorded(turn, first_tokens).retry_granted(turn, second_tokens),
        state.recorded(turn, first_tokens).recorded(turn, second_tokens) == state.recorded(
            turn,
            first_tokens,
        ),
{
    let once = state.recorded(turn, first_tokens);
    assert(once.recorded(turn, second_tokens).retried =~= once.retried);
}

/// A turn other than the recorded one may compact at any window that is too small.
pub proof fn law_new_turn_may_retry(state: ContextWindowView, turn: Seq<char>, input_tokens: i64)
    requires
        state.wf(),
        state.turn != Some(turn),
        input_tokens > state.window(),
    ensures
        state.retry_granted(turn, input_tokens),
{
}

/// After an upgrade a compaction is granted again, in the same turn too.
pub proof fn law_upgrade_renews_retry(
    state: ContextWindowView,
    outgrown_by: i64,
    turn: Seq<char>,
    input_tokens: i64,
)
    requires
        state.wf(),
        state.upgrade_due(outgrown_by),
        input_tokens > state.upgraded().window(),
    ensures
        state.upgraded().retry_granted(turn, input_tokens),
{
}

/// An input that fits the window is granted no compaction and leaves no record.
pub proof fn law_fitting_input_changes_nothing(
    state: ContextWindowView,
    turn: Seq<char>,
    input_tokens: i64,
)
    requires
        input_tokens <= state.window(),
    ensures
        !state.retry_granted(turn, input_tokens),
        state.recorded(turn, input_tokens) == state,
        !state.upgrade_due(input_tokens),
{
}

/// An input beyond the window moves the conversation to the next larger of the three windows and
/// keeps the record of compactions; in the largest window, or with an input that fits, nothing
/// moves.
pub proof fn law_windows_grow_in_order(state: ContextWindowView, input_tokens: i64)
    requires
        state.wf(),
    ensures
        state.window() == 32_000 || state.window() == 128_000 || state.window() == 200_000,
        state.upgrade_due(input_tokens) <==> {
            ||| state.window() == 32_000 && input_tokens > 32_000
            ||| state.window() == 128_000 && input_tokens > 128_000
        },
        state.window() == 32_000 ==> state.upgraded().window() == 128_000,
        state.window() == 128_000 ==> state.upgraded().window() == 200_000,
        state.upgraded().turn == state.turn,
        state.upgraded().retried == state.retried,
{
}

/// A compaction that is asked for with an input beyond the window is granted exactly if none was
/// recorded in the same turn at the same window, and is then on record. The record of another
/// turn is gone, and the window stays.
pub proof fn law_record_of_compactions(
    state: ContextWindowView,
    turn: Seq<char>,
    input_tokens: i64,
    window: i64,
)
    requires
        state.wf(),
        input_tokens > state.window(),
    ensures
        state.retry_granted(turn, input_tokens) <==> !(state.turn == Some(turn)
            && state.retried.contains(state.window())),
        ({
            let after = state.recorded(turn, input_tokens);
            &&& after.wf()
            &&& after.step == state.step
            &&& after.turn == Some(turn)
            &&& after.retried.contains(window) <==> window == state.window() || (state.turn
                == Some(turn) && state.retried.contains(window))
        }),
{
}

/// A conversation starts at 32 000 tokens with no compaction on record, so the first one in any
/// turn is granted as soon as the input is larger.
pub proof fn law_start_of_a_conversation(
    state: DynamicContextWindowState,
    turn: Seq<char>,
    input_tokens: i64,
)
    requires
        call_ensures(DynamicContextWindowState::new, (), state),
    ensures
        state@.wf(),
        state@.window() == 32_000,
        state@.retry_granted(turn, input_tokens) <==> input_tokens > 32_000,
{
}

/// Asking for a larger window returns the new one exactly if the input is beyond the current one
/// and that is not the largest; the new one is then the current one.
pub proof fn law_asking_for_a_larger_window(
    state: &mut DynamicContextWindowState,
    input_tokens: i64,
    upgraded: Option<i64>,
)
    requires
        old(state)@.wf(),
        call_ensures(DynamicContextWindowState::maybe_upgrade, (state, input_tokens), upgraded),
    ensures
        ({
            let before = old(state)@.window();
            let after = final(state)@.window();
            &&& before == 32_000 && input_tokens > 32_000 ==> upgraded == Some(128_000i64) && after
                == 128_000
            &&& before == 128_000 && input_tokens > 128_000 ==> upgraded == Some(200_000i64)
                && after == 200_000
            &&& before == 200_000 || input_tokens <= before ==> upgraded is None && after == before
            &&& final(state)@.turn == old(state)@.turn
            &&& final(state)@.retried == old(state)@.retried
        }),
{
}

/// Asking for a compaction grants it exactly if the input is beyond the window and none was
/// granted in the same turn at the same window; the window itself stays.
pub proof fn law_asking_for_a_compaction(
    state: &mut DynamicContextWindowState,
    turn_id: &str,
    input_tokens: i64,
    granted: bool,
)
    requires
        old(state)@.wf(),
        call_ensures(
            DynamicContextWindowState::record_compact_retry,
            (state, turn_id, input_tokens),
            granted,
        ),
    ensures
        ({
            let before = old(state)@;
            let after = final(state)@;
            let on_record = before.turn == Some(turn_id@) && before.retried.contains(
                before.window(),
            );
            &&& granted <==> input_tokens > before.window() && !on_record
            &&& after.step == before.step
            &&& input_tokens <= before.window() ==> after == before
            &&& input_tokens > before.window() ==> after.turn == Some(turn_id@)
                && after.retried.contains(before.window())
        }),
{
}

/// The window that is read is one of the three, the one of the current step.
pub proof fn law_window_that_is_read(state: DynamicContextWindowState, window: i64)
    requires
        state@.wf(),
        call_ensures(DynamicContextWindowState::current_context_window, (&state,), window),
    ensures
        state@.step == 0 ==> window == 32_000,
        state@.step == 1 ==> window == 128_000,
        state@.step == 2 ==> window == 200_000,
{
}

/// A key holds the provider and the model that it was made of.
pub proof fn law_parts_of_a_key(
    model_provider_id: String,
    model: String,
    key: DynamicContextWindowKey,
)
    requires
        call_ensures(DynamicContextWindowKey::new, (model_provider_id, model), key),
    ensures
        key.model_provider_id@ == model_provider_id@,
        key.model@ == model@,
{
}

} // verus!
