//! Top-level application state.  Every transition returns a fresh
//! `AppState`; the frame loop rebinds it each iteration.

use vstd::prelude::*;
use crate::agent::event::AgentEvent;
use crate::agent::loop_state::AgentEventView;
use crate::json::json_display;
use crate::newtype::{MessageBody, ToolName};
use crate::tui::history::{
    ChatHistory, EntryView, HistoryView, extend_partial_spec, finalize_spec, last_partial, lemma_last_partial, push_spec,
};
use crate::tui::input::{
    InputBuffer, InputView, backspace_spec, delete_word_spec, empty_input, insert_char_spec,
    insert_newline_spec, join_lines,
};
use crate::tui::key::KeyAction;

verus! {

/// Application mode.  Determines what `Esc` and `Enter` mean.
#[derive(Debug, Clone, Copy, PartialEq, Eq, Structural)]
pub enum Mode {
    /// No turn is in flight; the user can type and send.
    Idle,
    /// An assistant turn is streaming.
    Streaming,
    /// The user has asked to quit; the frame loop ends on the next iteration.
    Quitting,
}

/// Side effect the frame loop must perform after a transition.
#[derive(Debug, Clone, Copy, PartialEq, Eq, Structural)]
pub enum AppEffect {
    /// Signal the producer via the cancel channel.
    SignalCancel,
    /// Send the pending input to a new producer.
    SendInput,
}

/// The application state seen as plain data.
pub struct AppView {
    pub history: HistoryView,
    pub input: InputView,
    pub mode: Mode,
    pub pending: Option<Seq<char>>,
}

/// `s` with another history.
pub open spec fn with_history(s: AppView, h: HistoryView) -> AppView {
    AppView { history: h, ..s }
}

/// `s` with another input buffer.
pub open spec fn with_input(s: AppView, i: InputView) -> AppView {
    AppView { input: i, ..s }
}

/// `s` with another mode.
pub open spec fn with_mode(s: AppView, m: Mode) -> AppView {
    AppView { mode: m, ..s }
}

/// The input has no characters on any line.
pub open spec fn input_blank(i: InputView) -> bool {
    forall|k: int| 0 <= k < i.0.len() ==> #[trigger] i.0[k].len() == 0
}

/// The history scrolled up by `d` lines.
pub open spec fn scrolled_up(h: HistoryView, d: int) -> HistoryView {
    (h.0, h.1 + d)
}

/// The history scrolled down by `d` lines, stopping at the bottom.
pub open spec fn scrolled_down(h: HistoryView, d: int) -> HistoryView {
    (h.0, if h.1 >= d { h.1 - d } else { 0 })
}

/// What a key does while idle.
pub open spec fn key_idle(s: AppView, a: KeyAction) -> (AppView, Option<AppEffect>) {
    match a {
        KeyAction::Quit => (with_mode(s, Mode::Quitting), None),
        KeyAction::Send => if input_blank(s.input) {
            (AppView { mode: Mode::Idle, pending: None, ..s }, None)
        } else {
            let body = join_lines(s.input.0);
            (
                AppView {
                    history: push_spec(s.history, EntryView::User(body)),
                    input: empty_input(),
                    mode: Mode::Streaming,
                    pending: Some(body),
                },
                Some(AppEffect::SendInput),
            )
        },
        KeyAction::NewLine => (with_input(s, insert_newline_spec(s.input)), None),
        KeyAction::Backspace => (with_input(s, backspace_spec(s.input)), None),
        KeyAction::DeleteWord => (with_input(s, delete_word_spec(s.input)), None),
        KeyAction::Char(c) => (with_input(s, insert_char_spec(s.input, c)), None),
        KeyAction::Up => (with_history(s, scrolled_up(s.history, 1)), None),
        KeyAction::Down => (with_history(s, scrolled_down(s.history, 1)), None),
        KeyAction::PageUp => (with_history(s, scrolled_up(s.history, 10)), None),
        KeyAction::PageDown => (with_history(s, scrolled_down(s.history, 10)), None),
        KeyAction::Cancel | KeyAction::NoOp => (s, None),
    }
}

/// What a key does while a turn streams: only quitting, cancelling and
/// scrolling are possible.
pub open spec fn key_streaming(s: AppView, a: KeyAction) -> (AppView, Option<AppEffect>) {
    match a {
        KeyAction::Quit => (with_mode(s, Mode::Quitting), Some(AppEffect::SignalCancel)),
        KeyAction::Cancel => (
            AppView { history: finalize_spec(s.history), mode: Mode::Idle, ..s },
            Some(AppEffect::SignalCancel),
        ),
        KeyAction::Up => (with_history(s, scrolled_up(s.history, 1)), None),
        KeyAction::Down => (with_history(s, scrolled_down(s.history, 1)), None),
        KeyAction::PageUp => (with_history(s, scrolled_up(s.history, 10)), None),
        KeyAction::PageDown => (with_history(s, scrolled_down(s.history, 10)), None),
        _ => (s, None),
    }
}

/// What a key does in any mode.  Once quitting, keys are ignored.
pub open spec fn key_spec(s: AppView, a: KeyAction) -> (AppView, Option<AppEffect>) {
    match s.mode {
        Mode::Quitting => (s, None),
        Mode::Idle => key_idle(s, a),
        Mode::Streaming => key_streaming(s, a),
    }
}

/// The key can be applied without overflowing a counter: a scroll offset
/// or a cursor column at the top of `usize`.
pub open spec fn key_fits(s: AppView, a: KeyAction) -> bool {
    &&& (s.mode != Mode::Quitting && a == KeyAction::Up ==> s.history.1 + 1 <= usize::MAX)
    &&& (s.mode != Mode::Quitting && a == KeyAction::PageUp ==> s.history.1 + 10 <= usize::MAX)
    &&& (s.mode == Mode::Idle && a is Char ==> s.input.2 < usize::MAX)
}

/// The display line for a tool event: `[tool NAME VERB: TEXT]`.
pub open spec fn tool_summary(name: Seq<char>, verb: Seq<char>, text: Seq<char>) -> Seq<char> {
    "[tool "@ + name + " "@ + verb + ": "@ + text + "]"@
}

/// What an agent event does to the state (see `AppState::apply_agent_event`).
/// A tool row shows the JSON text of the call's arguments or result.
pub open spec fn agent_event_spec(s: AppView, e: AgentEventView, t: AppView) -> bool {
    &&& t.input == s.input
    &&& t.pending == s.pending
    &&& match e {
        AgentEventView::AssistantToken(b) => t.history == extend_partial_spec(s.history, b) && t.mode
            == Mode::Streaming,
        AgentEventView::TurnDone => t.history == finalize_spec(s.history) && t.mode == Mode::Idle,
        AgentEventView::ToolInvoked(name, args) => t.mode == s.mode && t.history == push_spec(
            s.history,
            EntryView::ToolInvoked(tool_summary(name, "invoked"@, args)),
        ),
        AgentEventView::ToolReturned(name, result) => t.mode == s.mode && t.history == push_spec(
            s.history,
            EntryView::ToolReturned(tool_summary(name, "returned"@, result)),
        ),
        AgentEventView::Failure(m) => t.history == push_spec(s.history, EntryView::Error(m)) && t.mode
            == Mode::Idle,
    }
}

/// The complete application state.
#[derive(Debug)]
pub struct AppState {
    history: ChatHistory,
    input: InputBuffer,
    mode: Mode,
    pending_send: Option<MessageBody>,
}

impl View for AppState {
    type V = AppView;

    closed spec fn view(&self) -> AppView {
        AppView {
            history: self.history@,
            input: self.input@,
            mode: self.mode,
            pending: match self.pending_send {
                Some(b) => Some(b@),
                None => None,
            },
        }
    }
}

impl Clone for AppState {
    fn clone(&self) -> (r: Self)
        ensures
            r@ == self@,
    {
        let pending_send = match &self.pending_send {
            Some(b) => Some(b.clone()),
            None => None,
        };
        AppState { history: self.history.clone(), input: self.input.clone(), mode: self.mode, pending_send }
    }
}

/// Build `[tool NAME VERB: TEXT]`.
fn summary(name: &ToolName, verb: &str, text: &str) -> (r: MessageBody)
    ensures
        r@ == tool_summary(name@, verb@, text@),
{
    let r = MessageBody::new("[tool ").append(name.as_str()).append(" ").append(verb).append(": ").append(
        text,
    ).append("]");
    r
}

impl AppState {
    /// Initial state: empty history, empty input, idle, no pending send.
    pub fn initial() -> (r: Self)
        ensures
            r@ == (AppView {
                history: (Seq::<EntryView>::empty(), 0int),
                input: empty_input(),
                mode: Mode::Idle,
                pending: None,
            }),
    {
        AppState {
            history: ChatHistory::empty(),
            input: InputBuffer::empty(),
            mode: Mode::Idle,
            pending_send: None,
        }
    }

    /// The history (for rendering).
    pub fn history(&self) -> (r: &ChatHistory)
        ensures
            r@ == self@.history,
    {
        &self.history
    }

    /// The input buffer (for rendering).
    pub fn input(&self) -> (r: &InputBuffer)
        ensures
            r@ == self@.input,
    {
        &self.input
    }

    /// Current mode.
    pub fn mode(&self) -> (r: Mode)
        ensures
            r == self@.mode,
    {
        self.mode
    }

    /// `true` if the frame loop should end after this frame.
    pub fn is_quit(&self) -> (r: bool)
        ensures
            r == (self@.mode == Mode::Quitting),
    {
        match self.mode {
            Mode::Quitting => true,
            _ => false,
        }
    }

    /// The body to hand to the next producer, and the state without it.
    pub fn take_pending_send(self) -> (r: (Option<MessageBody>, Self))
        ensures
            r.1@ == (AppView { pending: None, ..self@ }),
            r.0 matches Some(b) ==> self@.pending == Some(b@),
            r.0 is None ==> self@.pending is None,
    {
        let AppState { history, input, mode, pending_send } = self;
        (pending_send, AppState { history, input, mode, pending_send: None })
    }

    /// Whether `action` can be folded into the state without a counter
    /// overflowing (see `key_fits`).
    pub fn accepts_key(&self, action: KeyAction) -> (r: bool)
        ensures
            r == key_fits(self@, action),
    {
        let off = self.history.scroll_offset();
        let up_ok = !(self.mode != Mode::Quitting && action == KeyAction::Up) || off < usize::MAX;
        let page_ok = !(self.mode != Mode::Quitting && action == KeyAction::PageUp) || off <= usize::MAX - 10;
        let char_ok = match action {
            KeyAction::Char(_) => self.mode != Mode::Idle || self.input.cursor().1 < usize::MAX,
            _ => true,
        };
        up_ok && page_ok && char_ok
    }

    /// Fold a `KeyAction` into the state.  Returns the new state and the
    /// effect, if any, that the caller must perform.
    pub fn apply_key(self, action: KeyAction) -> (r: (Self, Option<AppEffect>))
        requires
            key_fits(self@, action),
        ensures
            (r.0@, r.1) == key_spec(self@, action),
    {
        match self.mode {
            Mode::Quitting => (self, None),
            Mode::Idle => self.apply_key_idle(action),
            Mode::Streaming => self.apply_key_streaming(action),
        }
    }

    fn apply_key_idle(self, action: KeyAction) -> (r: (Self, Option<AppEffect>))
        requires
            self@.mode == Mode::Idle,
            key_fits(self@, action),
        ensures
            (r.0@, r.1) == key_idle(self@, action),
    {
        let AppState { history, input, mode, pending_send } = self;
        match action {
            KeyAction::Quit => (AppState { history, input, mode: Mode::Quitting, pending_send }, None),
            KeyAction::Send => {
                if input.is_empty() {
                    (AppState { history, input, mode: Mode::Idle, pending_send: None }, None)
                } else {
                    let (body, next_input) = input.take();
                    let history = history.push_user(body.clone());
                    (
                        AppState {
                            history,
                            input: next_input,
                            mode: Mode::Streaming,
                            pending_send: Some(body),
                        },
                        Some(AppEffect::SendInput),
                    )
                }
            },
            KeyAction::NewLine => (AppState { history, input: input.insert_newline(), mode, pending_send }, None),
            KeyAction::Backspace => (AppState { history, input: input.backspace(), mode, pending_send }, None),
            KeyAction::DeleteWord => (AppState { history, input: input.delete_word(), mode, pending_send }, None),
            KeyAction::Char(c) => (AppState { history, input: input.insert_char(c), mode, pending_send }, None),
            KeyAction::Up => (AppState { history: history.scroll_up(1), input, mode, pending_send }, None),
            KeyAction::Down => (AppState { history: history.scroll_down(1), input, mode, pending_send }, None),
            KeyAction::PageUp => (AppState { history: history.scroll_up(10), input, mode, pending_send }, None),
            KeyAction::PageDown => (AppState { history: history.scroll_down(10), input, mode, pending_send }, None),
            KeyAction::Cancel | KeyAction::NoOp => (AppState { history, input, mode, pending_send }, None),
        }
    }

    fn apply_key_streaming(self, action: KeyAction) -> (r: (Self, Option<AppEffect>))
        requires
            self@.mode == Mode::Streaming,
            key_fits(self@, action),
        ensures
            (r.0@, r.1) == key_streaming(self@, action),
    {
        let AppState { history, input, mode, pending_send } = self;
        match action {
            KeyAction::Quit => (
                AppState { history, input, mode: Mode::Quitting, pending_send },
                Some(AppEffect::SignalCancel),
            ),
            KeyAction::Cancel => (
                AppState { history: history.finalize_assistant(), input, mode: Mode::Idle, pending_send },
                Some(AppEffect::SignalCancel),
            ),
            KeyAction::Up => (AppState { history: history.scroll_up(1), input, mode, pending_send }, None),
            KeyAction::Down => (AppState { history: history.scroll_down(1), input, mode, pending_send }, None),
            KeyAction::PageUp => (AppState { history: history.scroll_up(10), input, mode, pending_send }, None),
            KeyAction::PageDown => (AppState { history: history.scroll_down(10), input, mode, pending_send }, None),
            KeyAction::Send
            | KeyAction::NewLine
            | KeyAction::Backspace
            | KeyAction::DeleteWord
            | KeyAction::Char(_)
            | KeyAction::NoOp => (AppState { history, input, mode, pending_send }, None),
        }
    }

    /// Fold an `AgentEvent` from the producer into the state.  Tokens extend
    /// the streaming assistant turn; the end of a turn completes it; tool
    /// events add a `[tool NAME invoked|returned: JSON]` row, where JSON is
    /// the value's compact rendering; a failure adds an error row.  Tokens
    /// put the state in `Streaming`, the end of a turn and failures in
    /// `Idle`; tool events keep the mode.
    pub fn apply_agent_event(self, event: AgentEvent) -> (r: Self)
        ensures
            agent_event_spec(self@, event@, r@),
    {
        let ghost s0 = self@;
        let AppState { history, input, mode, pending_send } = self;
        let r = match event {
            AgentEvent::AssistantToken(body) => AppState {
                history: history.extend_assistant_partial(&body),
                input,
                mode: Mode::Streaming,
                pending_send,
            },
            AgentEvent::TurnDone => AppState {
                history: history.finalize_assistant(),
                input,
                mode: Mode::Idle,
                pending_send,
            },
            AgentEvent::ToolInvoked { name, args } => {
                let text = json_display(&args);
                let line = summary(&name, "invoked", text.as_str());
                let r = AppState { history: history.push_tool_invoked(line), input, mode, pending_send };
                proof {
                    assert(r@.history == push_spec(s0.history, EntryView::ToolInvoked(tool_summary(name@, "invoked"@, text@))));
                }
                r
            },
            AgentEvent::ToolReturned { name, result } => {
                let text = json_display(&result);
                let line = summary(&name, "returned", text.as_str());
                let r = AppState { history: history.push_tool_returned(line), input, mode, pending_send };
                proof {
                    assert(r@.history == push_spec(s0.history, EntryView::ToolReturned(tool_summary(name@, "returned"@, text@))));
                }
                r
            },
            AgentEvent::Failure(msg) => AppState {
                history: history.push_error(msg),
                input,
                mode: Mode::Idle,
                pending_send,
            },
        };
        r
    }
}

/// Quitting is final for keys: once the state is quitting, every key leaves
/// it unchanged and asks for no effect.
pub proof fn lemma_quitting_ignores_keys(s: AppView, a: KeyAction)
    requires
        s.mode == Mode::Quitting,
    ensures
        key_spec(s, a) == (s, None::<AppEffect>),
{
}

/// Ctrl+C / Ctrl+D always leads to quitting, and cancels a streaming turn.
pub proof fn lemma_quit_key_quits(s: AppView)
    ensures
        key_spec(s, KeyAction::Quit).0.mode == Mode::Quitting,
        s.mode == Mode::Streaming ==> key_spec(s, KeyAction::Quit).1 == Some(AppEffect::SignalCancel),
{
}

/// Sending a non-blank input records it as the user's turn, hands exactly
/// that text to the producer, clears the input and starts streaming.
pub proof fn lemma_send_records_turn(s: AppView)
    requires
        s.mode == Mode::Idle,
        !input_blank(s.input),
    ensures
        ({
            let (t, e) = key_spec(s, KeyAction::Send);
            &&& e == Some(AppEffect::SendInput)
            &&& t.mode == Mode::Streaming
            &&& t.pending == Some(join_lines(s.input.0))
            &&& t.history.0 == s.history.0.push(EntryView::User(join_lines(s.input.0)))
            &&& t.input == empty_input()
        }),
{
}

/// Esc during a stream completes the partial turn, returns to idle and
/// cancels the producer.
pub proof fn lemma_cancel_completes_turn(s: AppView)
    requires
        s.mode == Mode::Streaming,
    ensures
        ({
            let (t, e) = key_spec(s, KeyAction::Cancel);
            &&& e == Some(AppEffect::SignalCancel)
            &&& t.mode == Mode::Idle
            &&& t.history == finalize_spec(s.history)
        }),
{
}

/// Up and PageUp scroll the history towards older rows, one line or ten,
/// in any mode but quitting, and change nothing else; Down and PageDown
/// scroll back by as much, so each undoes the other.
pub proof fn lemma_scroll_keys(s: AppView)
    requires
        s.mode != Mode::Quitting,
        s.history.1 >= 0,
    ensures
        key_spec(s, KeyAction::Up) == (AppView { history: (s.history.0, s.history.1 + 1), ..s }, None::<AppEffect>),
        key_spec(s, KeyAction::PageUp) == (
            AppView { history: (s.history.0, s.history.1 + 10), ..s },
            None::<AppEffect>,
        ),
        key_spec(key_spec(s, KeyAction::Up).0, KeyAction::Down) == (s, None::<AppEffect>),
        key_spec(key_spec(s, KeyAction::PageUp).0, KeyAction::PageDown) == (s, None::<AppEffect>),
        key_spec(s, KeyAction::Down).0.history.1 == (if s.history.1 >= 1 { s.history.1 - 1 } else { 0 }),
        key_spec(s, KeyAction::Down).0.history.0 == s.history.0,
{
}

/// The body waiting to be sent, if any, is a prompt the user sent: it stands
/// in the history as a user row.
pub open spec fn pending_was_sent(s: AppView) -> bool {
    s.pending matches Some(b) ==> exists|i: int| 0 <= i < s.history.0.len() && s.history.0[i] == EntryView::User(b)
}

/// Every history transition keeps each user row where it is.
proof fn lemma_user_rows_kept(h: HistoryView, t: HistoryView, i: int, b: Seq<char>)
    requires
        0 <= i < h.0.len(),
        h.0[i] == EntryView::User(b),
        t == finalize_spec(h) || (exists|e: EntryView| t == push_spec(h, e)) || (exists|x: Seq<char>|
            t == extend_partial_spec(h, x)) || t.0 == h.0,
    ensures
        0 <= i < t.0.len(),
        t.0[i] == EntryView::User(b),
{
    lemma_last_partial(h.0);
    if t == finalize_spec(h) {
        match last_partial(h.0) {
            Some(j) => {
                assert(j != i);
            },
            None => {},
        }
    } else if exists|e: EntryView| t == push_spec(h, e) {
        let e = choose|e: EntryView| t == push_spec(h, e);
        assert(t.0 == h.0.push(e));
    } else if exists|x: Seq<char>| t == extend_partial_spec(h, x) {
        let x = choose|x: Seq<char>| t == extend_partial_spec(h, x);
        if h.0.len() > 0 && h.0.last() is AssistantPartial {
            assert(i != h.0.len() - 1);
        } else {
            assert(t.0 == h.0.push(EntryView::AssistantPartial(x)));
        }
    }
}

/// Keys keep the pending body a prompt the user sent: only sending sets it,
/// and sending records the same text as a user row.
pub proof fn lemma_keys_keep_pending_sent(s: AppView, a: KeyAction)
    requires
        pending_was_sent(s),
    ensures
        pending_was_sent(key_spec(s, a).0),
{
    let t = key_spec(s, a).0;
    if let Some(b) = t.pending {
        if s.mode == Mode::Idle && a == KeyAction::Send && !input_blank(s.input) {
            assert(t.history.0[s.history.0.len() as int] == EntryView::User(b));
        } else {
            assert(s.pending == Some(b));
            let i = choose|i: int| 0 <= i < s.history.0.len() && s.history.0[i] == EntryView::User(b);
            lemma_user_rows_kept(s.history, t.history, i, b);
        }
    }
}

/// Agent events keep the pending body a prompt the user sent.
pub proof fn lemma_events_keep_pending_sent(s: AppView, e: AgentEventView, t: AppView)
    requires
        pending_was_sent(s),
        agent_event_spec(s, e, t),
    ensures
        pending_was_sent(t),
{
    if let Some(b) = t.pending {
        let i = choose|i: int| 0 <= i < s.history.0.len() && s.history.0[i] == EntryView::User(b);
        match e {
            AgentEventView::AssistantToken(x) => {
                lemma_user_rows_kept(s.history, t.history, i, b);
            },
            AgentEventView::TurnDone => {
                lemma_user_rows_kept(s.history, t.history, i, b);
            },
            AgentEventView::ToolInvoked(name, x) => {
                lemma_user_rows_kept(s.history, t.history, i, b);
            },
            AgentEventView::ToolReturned(name, x) => {
                lemma_user_rows_kept(s.history, t.history, i, b);
            },
            AgentEventView::Failure(m) => {
                lemma_user_rows_kept(s.history, t.history, i, b);
            },
        }
    }
}

} // verus!
