//! The interactive session: conversation history, the text being composed,
//! and the decisions taken on each key press and on each finished exchange.
//!
//! The session never performs the exchange itself: a submit hands back the
//! request to send, and the reply (or the failure) is handed in afterwards.
//! While a reply is awaited no key is processed, so at most one exchange is
//! ever in flight.

use vstd::prelude::*;
use crate::client::{role_at, GPTClient};
use crate::editor::{edit_step, lemma_edit_step, removes, Edit, InputBuffer, InputView};
use crate::errors::GPTError;
use crate::models::ApiRequest;
use crate::text::trimmed;

verus! {

broadcast use vstd::seq::group_seq_axioms;

/// The line the history starts with, and returns to when cleared.
pub const GREETING: &'static str = "YandexGPT готов к диалогу.";

/// Number of history lines the viewport shows.
pub const VISIBLE_LINES: usize = 20;

/// Shown before the user's own lines.
pub const USER_PREFIX: &'static str = "Вы: ";

/// Starts the assistant line that reports a failed exchange.
pub const ERROR_PREFIX: &'static str = "Ошибка ответа модели: ";

/// Starts a line added by the application itself.
pub const SYSTEM_PREFIX: &'static str = "Система: ";

/// Who produced a line of the history.
#[derive(Debug, Clone, Copy, PartialEq, Eq, Structural)]
pub enum Role {
    System,
    User,
    Assistant,
}

/// One line of the history.
#[derive(Debug, Clone)]
pub struct Turn {
    pub role: Role,
    pub text: String,
}

pub struct TurnView {
    pub role: Role,
    pub text: Seq<char>,
}

impl View for Turn {
    type V = TurnView;

    open spec fn view(&self) -> TurnView {
        TurnView { role: self.role, text: self.text@ }
    }
}

impl Turn {
    /// The line as displayed: the user's lines carry a prefix.
    pub fn line(&self) -> (r: String)
        ensures
            r@ == line_of(self@),
    {
        match self.role {
            Role::User => String::from_str(USER_PREFIX).concat(self.text.as_str()),
            _ => self.text.clone(),
        }
    }
}

/// A key as the terminal reports it.
#[derive(Debug, Clone, Copy, PartialEq, Eq, Structural)]
pub enum KeyCode {
    Char(char),
    Enter,
    Esc,
    Backspace,
    Delete,
    Left,
    Right,
    Home,
    End,
    Other,
}

/// A key press; `control` is set when Control is the only modifier held.
#[derive(Debug, Clone, Copy, PartialEq, Eq, Structural)]
pub struct KeyPress {
    pub code: KeyCode,
    pub control: bool,
}

/// What a key press asks of the session.
#[derive(Debug, Clone, Copy, PartialEq, Eq, Structural)]
pub enum Command {
    Quit,
    ClearHistory,
    Submit,
    Edit(Edit),
    Ignore,
}

/// What the session asks of its driver after handling an event.
#[derive(Debug)]
pub enum Action {
    /// Render and wait for the next key.
    Continue,
    /// Perform this exchange, then hand its outcome to `receive_answer`.
    Send(ApiRequest),
    /// Stop: nothing more is rendered or read.
    Stop,
}

/// The state of the session loop.
#[derive(Debug, Clone, Copy, PartialEq, Eq, Structural)]
pub enum Phase {
    /// Waiting for a key, with nothing composed.
    Idle,
    /// Waiting for a key, with text composed.
    Composing,
    /// An exchange is in flight.
    Requesting,
    Stopped,
}

/// Escape, or Control with `c`, quits; Control with `r` clears the history;
/// Enter submits; Control with an arrow moves by words; other keys edit.
pub open spec fn command_spec(key: KeyPress) -> Command {
    match key.code {
        KeyCode::Esc => Command::Quit,
        KeyCode::Char(c) => if key.control && (c == 'c' || c == 'C') {
            Command::Quit
        } else if key.control && (c == 'r' || c == 'R') {
            Command::ClearHistory
        } else {
            Command::Edit(Edit::Insert(c))
        },
        KeyCode::Enter => Command::Submit,
        KeyCode::Left => if key.control {
            Command::Edit(Edit::WordLeft)
        } else {
            Command::Edit(Edit::Left)
        },
        KeyCode::Right => if key.control {
            Command::Edit(Edit::WordRight)
        } else {
            Command::Edit(Edit::Right)
        },
        KeyCode::Home => Command::Edit(Edit::Home),
        KeyCode::End => Command::Edit(Edit::End),
        KeyCode::Backspace => Command::Edit(Edit::Backspace),
        KeyCode::Delete => Command::Edit(Edit::Delete),
        KeyCode::Other => Command::Ignore,
    }
}

/// The command a key press stands for.
pub fn command_for(key: KeyPress) -> (r: Command)
    ensures
        r == command_spec(key),
{
    match key.code {
        KeyCode::Esc => Command::Quit,
        KeyCode::Char(c) => {
            if key.control && (c == 'c' || c == 'C') {
                Command::Quit
            } else if key.control && (c == 'r' || c == 'R') {
                Command::ClearHistory
            } else {
                Command::Edit(Edit::Insert(c))
            }
        },
        KeyCode::Enter => Command::Submit,
        KeyCode::Left => {
            if key.control {
                Command::Edit(Edit::WordLeft)
            } else {
                Command::Edit(Edit::Left)
            }
        },
        KeyCode::Right => {
            if key.control {
                Command::Edit(Edit::WordRight)
            } else {
                Command::Edit(Edit::Right)
            }
        },
        KeyCode::Home => Command::Edit(Edit::Home),
        KeyCode::End => Command::Edit(Edit::End),
        KeyCode::Backspace => Command::Edit(Edit::Backspace),
        KeyCode::Delete => Command::Edit(Edit::Delete),
        KeyCode::Other => Command::Ignore,
    }
}

pub open spec fn greeting_turn() -> TurnView {
    TurnView { role: Role::System, text: GREETING@ }
}

/// The history after the user submits `input`.
pub open spec fn submitted(history: Seq<TurnView>, input: Seq<char>) -> Seq<TurnView> {
    history.push(TurnView { role: Role::User, text: input })
}

/// The history after the assistant's line `reply` arrives.
pub open spec fn answered(history: Seq<TurnView>, reply: Seq<char>) -> Seq<TurnView> {
    history.push(TurnView { role: Role::Assistant, text: reply })
}

/// The assistant line an exchange ends with: the answer, or a description of
/// the failure.
pub open spec fn reply_text(outcome: Result<String, GPTError>) -> Seq<char> {
    match outcome {
        Ok(text) => text@,
        Err(e) => ERROR_PREFIX@ + e.message_spec(),
    }
}

/// The scroll offset once the history holds `len` lines: the most recent
/// lines are brought into view when they no longer fit.
pub open spec fn scroll_for(len: nat, scroll: nat) -> nat {
    if len > VISIBLE_LINES {
        (len - VISIBLE_LINES) as nat
    } else {
        scroll
    }
}

/// A history line as displayed and as sent: the user's lines carry a prefix.
pub open spec fn line_of(t: TurnView) -> Seq<char> {
    if t.role == Role::User {
        USER_PREFIX@ + t.text
    } else {
        t.text
    }
}

/// The history's lines as displayed, in order.
pub open spec fn lines_of(history: Seq<TurnView>) -> Seq<Seq<char>> {
    history.map_values(|t: TurnView| line_of(t))
}

/// The history after a submit of `inputs[i]` answered by `replies[i]`, for
/// each `i` in order.
pub open spec fn after_exchanges(
    history: Seq<TurnView>,
    inputs: Seq<Seq<char>>,
    replies: Seq<Seq<char>>,
) -> Seq<TurnView>
    decreases inputs.len(),
{
    if inputs.len() == 0 || replies.len() == 0 {
        history
    } else {
        after_exchanges(
            answered(submitted(history, inputs[0]), replies[0]),
            inputs.drop_first(),
            replies.drop_first(),
        )
    }
}

/// Each exchange adds exactly two lines, the user's and the assistant's:
/// after `n` of them a history that started with the greeting alone holds
/// `2 * n + 1` lines.
pub proof fn lemma_after_exchanges_len(
    history: Seq<TurnView>,
    inputs: Seq<Seq<char>>,
    replies: Seq<Seq<char>>,
)
    requires
        inputs.len() == replies.len(),
    ensures
        after_exchanges(history, inputs, replies).len() == history.len() + 2 * inputs.len(),
        after_exchanges(seq![greeting_turn()], inputs, replies).len() == 1 + 2 * inputs.len(),
    decreases inputs.len(),
{
    if inputs.len() > 0 {
        lemma_after_exchanges_len(
            answered(submitted(history, inputs[0]), replies[0]),
            inputs.drop_first(),
            replies.drop_first(),
        );
        lemma_after_exchanges_len(
            answered(submitted(seq![greeting_turn()], inputs[0]), replies[0]),
            inputs.drop_first(),
            replies.drop_first(),
        );
    }
}

/// The session as a value.
pub struct AppView {
    pub running: bool,
    pub history: Seq<TurnView>,
    pub input: InputView,
    pub scroll: nat,
    pub awaiting: bool,
}

pub open spec fn phase_of(v: AppView) -> Phase {
    if !v.running {
        Phase::Stopped
    } else if v.awaiting {
        Phase::Requesting
    } else if v.input.chars.len() > 0 {
        Phase::Composing
    } else {
        Phase::Idle
    }
}

/// State of an interactive chat session.
#[derive(Debug)]
pub struct App {
    running: bool,
    messages: Vec<Turn>,
    input: InputBuffer,
    scroll_offset: usize,
    awaiting_reply: bool,
    gpt_client: GPTClient,
}

impl View for App {
    type V = AppView;

    closed spec fn view(&self) -> AppView {
        AppView {
            running: self.running,
            history: self.messages@.map_values(|t: Turn| t@),
            input: self.input@,
            scroll: self.scroll_offset as nat,
            awaiting: self.awaiting_reply,
        }
    }
}

impl App {
    pub closed spec fn client_spec(&self) -> GPTClient {
        self.gpt_client
    }

    /// A running session whose history holds the greeting alone, with an
    /// empty buffer, that sends its requests through `gpt_client`.
    pub fn new(gpt_client: GPTClient) -> (r: App)
        ensures
            r@.running,
            r@.history == seq![greeting_turn()],
            r@.input.chars.len() == 0,
            r@.input.cursor == 0,
            r@.scroll == 0,
            !r@.awaiting,
            r.client_spec() == gpt_client,
    {
        let mut messages: Vec<Turn> = Vec::new();
        messages.push(Turn { role: Role::System, text: String::from_str(GREETING) });
        let r = App {
            running: true,
            messages,
            input: InputBuffer::new(),
            scroll_offset: 0,
            awaiting_reply: false,
            gpt_client,
        };
        assert(r@.history =~= seq![greeting_turn()]);
        r
    }

    pub fn is_running(&self) -> (r: bool)
        ensures
            r == self@.running,
    {
        self.running
    }

    pub fn is_awaiting_reply(&self) -> (r: bool)
        ensures
            r == self@.awaiting,
    {
        self.awaiting_reply
    }

    pub fn messages(&self) -> (r: &Vec<Turn>)
        ensures
            r@.map_values(|t: Turn| t@) == self@.history,
    {
        &self.messages
    }

    pub fn input(&self) -> (r: &InputBuffer)
        ensures
            r@ == self@.input,
    {
        &self.input
    }

    pub fn scroll_offset(&self) -> (r: usize)
        ensures
            r == self@.scroll,
    {
        self.scroll_offset
    }

    pub fn client(&self) -> (r: &GPTClient)
        ensures
            *r == self.client_spec(),
    {
        &self.gpt_client
    }

    pub fn phase(&self) -> (r: Phase)
        ensures
            r == phase_of(self@),
    {
        if !self.running {
            Phase::Stopped
        } else if self.awaiting_reply {
            Phase::Requesting
        } else if self.input.len() > 0 {
            Phase::Composing
        } else {
            Phase::Idle
        }
    }

    /// The history's lines as displayed.
    pub fn lines(&self) -> (r: Vec<String>)
        ensures
            r@.map_values(|l: String| l@) == lines_of(self@.history),
    {
        let mut r: Vec<String> = Vec::new();
        let mut i: usize = 0;
        while i < self.messages.len()
            invariant
                i <= self.messages@.len(),
                r@.len() == i,
                forall|j: int| 0 <= j < i ==> #[trigger] r@[j]@ == line_of(self.messages@[j]@),
            decreases self.messages@.len() - i,
        {
            r.push(self.messages[i].line());
            i = i + 1;
        }
        assert(r@.map_values(|l: String| l@) =~= lines_of(self@.history));
        r
    }

    /// Stops the session.
    pub fn quit(&mut self)
        ensures
            final(self)@ == (AppView { running: false, ..old(self)@ }),
            final(self).client_spec() == old(self).client_spec(),
    {
        self.running = false;
    }
}


/// The buffer emptied, with the cursor at the start.
pub open spec fn empty_input() -> InputView {
    InputView { chars: Seq::empty(), cursor: 0 }
}

/// The session once the outcome of the exchange in flight is handed in: the
/// reply line is added, the buffer emptied and the newest lines brought into
/// view. Without an exchange in flight nothing changes.
pub open spec fn receive_view(v: AppView, outcome: Result<String, GPTError>) -> AppView {
    if !v.awaiting {
        v
    } else {
        AppView {
            history: answered(v.history, reply_text(outcome)),
            input: empty_input(),
            scroll: scroll_for(v.history.len() + 1, v.scroll),
            awaiting: false,
            ..v
        }
    }
}

/// The session after a submit through `client`. While an exchange is in
/// flight, or when the buffer is blank, nothing changes. Otherwise the
/// buffer, untrimmed, joins the history as the user's line and the reply is
/// awaited; with incomplete credentials the exchange ends at once with
/// `InvalidCredential`.
pub open spec fn submit_view(v: AppView, client: GPTClient) -> AppView {
    if v.awaiting || trimmed(v.input.chars).len() == 0 {
        v
    } else {
        let sent = AppView { history: submitted(v.history, v.input.chars), awaiting: true, ..v };
        if client.access_spec().has_data_spec() {
            sent
        } else {
            receive_view(sent, Err(GPTError::InvalidCredential))
        }
    }
}

/// Whether `after` and `r` are the outcome of a submit on the session
/// `before` through `client`: a request is handed back exactly when one is
/// to be sent, and it carries the whole history as displayed, the new user
/// line last.
pub open spec fn submit_spec(before: AppView, client: GPTClient, after: AppView, r: Action) -> bool {
    &&& after == submit_view(before, client)
    &&& (r is Send <==> (!before.awaiting && trimmed(before.input.chars).len() > 0
        && client.access_spec().has_data_spec()))
    &&& !(r is Send) ==> r is Continue
    &&& r matches Action::Send(req) ==> client.is_request_for(
        req,
        lines_of(submitted(before.history, before.input.chars)),
        |i: int| role_at(i),
    )
}

/// The session after a key press other than a submit. While an exchange is
/// in flight, or once stopped, keys change nothing.
pub open spec fn key_step(v: AppView, key: KeyPress) -> AppView {
    if v.awaiting || !v.running {
        v
    } else {
        match command_spec(key) {
            Command::Quit => AppView { running: false, ..v },
            Command::ClearHistory => AppView { history: seq![greeting_turn()], scroll: 0, ..v },
            Command::Edit(edit) => AppView { input: edit_step(v.input, edit), ..v },
            Command::Submit => v,
            Command::Ignore => v,
        }
    }
}

/// Brings the most recent lines into view.
fn update_scroll_offset(app: &mut App)
    ensures
        final(app)@ == (AppView {
            scroll: scroll_for(old(app)@.history.len(), old(app)@.scroll),
            ..old(app)@
        }),
        final(app).client_spec() == old(app).client_spec(),
{
    if app.messages.len() > VISIBLE_LINES {
        app.scroll_offset = app.messages.len() - VISIBLE_LINES;
    }
}

/// Submits the composed text: see `submit_view` for the new state. When a
/// request is to be sent it is handed back, and its outcome is to be handed
/// to `receive_answer`.
pub fn send_message_to_gpt(app: &mut App) -> (r: Action)
    ensures
        final(app).client_spec() == old(app).client_spec(),
        submit_spec(old(app)@, old(app).client_spec(), final(app)@, r),
{
    if app.awaiting_reply || app.input.is_blank() {
        return Action::Continue;
    }
    let text = app.input.text();
    app.messages.push(Turn { role: Role::User, text });
    app.awaiting_reply = true;
    assert(app@.history =~= submitted(old(app)@.history, old(app)@.input.chars));
    let lines = app.lines();
    match app.gpt_client.prepare_chat(lines.as_slice()) {
        Ok(req) => Action::Send(req),
        Err(e) => {
            receive_answer(app, Err(e));
            Action::Continue
        },
    }
}

/// Hands in the outcome of the exchange in flight, the answer or the failure:
/// see `receive_view` for the new state.
pub fn receive_answer(app: &mut App, outcome: Result<String, GPTError>)
    ensures
        final(app)@ == receive_view(old(app)@, outcome),
        final(app).client_spec() == old(app).client_spec(),
{
    if app.awaiting_reply {
        let text = match outcome {
            Ok(answer) => answer,
            Err(e) => String::from_str(ERROR_PREFIX).concat(e.message().as_str()),
        };
        app.messages.push(Turn { role: Role::Assistant, text });
        app.input.clear();
        app.awaiting_reply = false;
        update_scroll_offset(app);
        assert(app@.history =~= answered(old(app)@.history, reply_text(outcome)));
    }
}

/// Adds a line of the application's own to the history.
pub fn add_system_message(app: &mut App, message: &str)
    ensures
        final(app)@ == (AppView {
            history: old(app)@.history.push(
                TurnView { role: Role::System, text: SYSTEM_PREFIX@ + message@ },
            ),
            ..old(app)@
        }),
        final(app).client_spec() == old(app).client_spec(),
{
    let text = String::from_str(SYSTEM_PREFIX).concat(message);
    app.messages.push(Turn { role: Role::System, text });
    assert(app@.history =~= old(app)@.history.push(
        TurnView { role: Role::System, text: SYSTEM_PREFIX@ + message@ },
    ));
}

/// Resets the history to the greeting alone and the scroll offset to zero;
/// the buffer is left as it is.
pub fn clear_messages(app: &mut App)
    ensures
        final(app)@ == (AppView { history: seq![greeting_turn()], scroll: 0, ..old(app)@ }),
        final(app).client_spec() == old(app).client_spec(),
{
    app.messages.clear();
    app.messages.push(Turn { role: Role::System, text: String::from_str(GREETING) });
    app.scroll_offset = 0;
    assert(app@.history =~= seq![greeting_turn()]);
}

/// Handles one key press: a submit as `send_message_to_gpt` does, any other
/// key as `key_step` says. `Stop` is returned exactly for a processed quit.
pub fn handle_key_event(app: &mut App, key: KeyPress) -> (r: Action)
    ensures
        final(app).client_spec() == old(app).client_spec(),
        if old(app)@.running && !old(app)@.awaiting && command_spec(key) is Submit {
            submit_spec(old(app)@, old(app).client_spec(), final(app)@, r)
        } else {
            &&& final(app)@ == key_step(old(app)@, key)
            &&& (r is Stop <==> (old(app)@.running && !old(app)@.awaiting && command_spec(
                key,
            ) is Quit))
            &&& !(r is Stop) ==> r is Continue
        },
{
    if app.awaiting_reply || !app.running {
        return Action::Continue;
    }
    match command_for(key) {
        Command::Quit => {
            app.quit();
            Action::Stop
        },
        Command::ClearHistory => {
            clear_messages(app);
            Action::Continue
        },
        Command::Submit => send_message_to_gpt(app),
        Command::Edit(edit) => {
            app.input.apply(edit);
            Action::Continue
        },
        Command::Ignore => Action::Continue,
    }
}

/// Whether `key`, pressed on the session `v`, inserts a character.
pub open spec fn key_inserts(v: AppView, key: KeyPress) -> bool {
    v.running && !v.awaiting && match command_spec(key) {
        Command::Edit(edit) => edit is Insert,
        _ => false,
    }
}

/// Whether `key`, pressed on the session `v`, removes a character.
pub open spec fn key_removes(v: AppView, key: KeyPress) -> bool {
    v.running && !v.awaiting && match command_spec(key) {
        Command::Edit(edit) => removes(v.input, edit),
        _ => false,
    }
}

/// The session after the key presses `keys`, in order.
pub open spec fn run_keys(v: AppView, keys: Seq<KeyPress>) -> AppView
    decreases keys.len(),
{
    if keys.len() == 0 {
        v
    } else {
        run_keys(key_step(v, keys[0]), keys.drop_first())
    }
}

/// Number of `keys` that insert a character when pressed in order on `v`.
pub open spec fn keys_inserted(v: AppView, keys: Seq<KeyPress>) -> nat
    decreases keys.len(),
{
    if keys.len() == 0 {
        0
    } else {
        (if key_inserts(v, keys[0]) { 1nat } else { 0nat }) + keys_inserted(
            key_step(v, keys[0]),
            keys.drop_first(),
        )
    }
}

/// Number of `keys` that remove a character when pressed in order on `v`.
pub open spec fn keys_removed(v: AppView, keys: Seq<KeyPress>) -> nat
    decreases keys.len(),
{
    if keys.len() == 0 {
        0
    } else {
        (if key_removes(v, keys[0]) { 1nat } else { 0nat }) + keys_removed(
            key_step(v, keys[0]),
            keys.drop_first(),
        )
    }
}

/// For every sequence of key presses other than Enter, handled one at a time,
/// the buffer's length is its initial length plus the characters inserted
/// minus the characters removed, and the cursor stays within the buffer.
pub proof fn lemma_keys_keep_length_and_cursor(v: AppView, keys: Seq<KeyPress>)
    requires
        v.input.cursor <= v.input.chars.len(),
        forall|i: int| 0 <= i < keys.len() ==> !(#[trigger] command_spec(keys[i]) is Submit),
    ensures
        run_keys(v, keys).input.chars.len() == v.input.chars.len() + keys_inserted(v, keys)
            - keys_removed(v, keys),
        run_keys(v, keys).input.cursor <= run_keys(v, keys).input.chars.len(),
    decreases keys.len(),
{
    if keys.len() > 0 {
        if v.running && !v.awaiting {
            if let Command::Edit(edit) = command_spec(keys[0]) {
                lemma_edit_step(v.input, edit);
            }
        }
        assert forall|i: int| 0 <= i < keys.drop_first().len() implies !(#[trigger] command_spec(
            keys.drop_first()[i],
        ) is Submit) by {
            assert(keys.drop_first()[i] == keys[i + 1]);
        }
        lemma_keys_keep_length_and_cursor(key_step(v, keys[0]), keys.drop_first());
    }
}

/// Clearing the history leaves the greeting alone, scrolled to the top, with
/// the buffer untouched, whatever came before; clearing again changes
/// nothing.
pub proof fn lemma_clear_history(v: AppView, key: KeyPress)
    requires
        command_spec(key) is ClearHistory,
        v.running,
        !v.awaiting,
    ensures
        key_step(v, key).history == seq![greeting_turn()],
        key_step(v, key).scroll == 0,
        key_step(v, key).input == v.input,
        key_step(key_step(v, key), key) == key_step(v, key),
{
}

/// The session `v` with `s` composed and the cursor at its end.
pub open spec fn with_input(v: AppView, s: Seq<char>) -> AppView {
    AppView { input: InputView { chars: s, cursor: s.len() }, ..v }
}

/// The key press that types `c`.
pub open spec fn typed_key(c: char) -> KeyPress {
    KeyPress { code: KeyCode::Char(c), control: false }
}

/// The key presses that type `s`.
pub open spec fn typing(s: Seq<char>) -> Seq<KeyPress> {
    s.map_values(|c: char| typed_key(c))
}

/// Typing `s` with the cursor at the end of the buffer appends `s` to it.
pub proof fn lemma_typing_appends(v: AppView, s: Seq<char>)
    requires
        v.running,
        !v.awaiting,
        v.input.cursor == v.input.chars.len(),
    ensures
        run_keys(v, typing(s)) == with_input(v, v.input.chars + s),
    decreases s.len(),
{
    if s.len() == 0 {
        assert(v.input.chars + s =~= v.input.chars);
    } else {
        let k = typed_key(s[0]);
        assert(typing(s).len() == s.len());
        assert(typing(s)[0] == k);
        assert(command_spec(k) == Command::Edit(Edit::Insert(s[0])));
        let v1 = key_step(v, k);
        assert(v.input.chars.insert(v.input.chars.len() as int, s[0]) =~= v.input.chars.push(
            s[0],
        ));
        assert forall|i: int| 0 <= i < s.len() - 1 implies #[trigger] typing(s).drop_first()[i]
            == typing(s.drop_first())[i] by {
            assert(typing(s)[i + 1] == typed_key(s[i + 1]));
        }
        assert(typing(s).drop_first() =~= typing(s.drop_first()));
        lemma_typing_appends(v1, s.drop_first());
        assert(v.input.chars.push(s[0]) + s.drop_first() =~= v.input.chars + s);
    }
}

/// The session after, for each `i` in order, `inputs[i]` is composed,
/// submitted through `client`, and answered with `outcomes[i]`.
pub open spec fn run_exchanges(
    v: AppView,
    client: GPTClient,
    inputs: Seq<Seq<char>>,
    outcomes: Seq<Result<String, GPTError>>,
) -> AppView
    decreases inputs.len(),
{
    if inputs.len() == 0 || outcomes.len() == 0 {
        v
    } else {
        run_exchanges(
            receive_view(submit_view(with_input(v, inputs[0]), client), outcomes[0]),
            client,
            inputs.drop_first(),
            outcomes.drop_first(),
        )
    }
}

/// After `n` exchanges of non-blank inputs through a client with complete
/// credentials, each input has joined the history as a user line followed
/// by its reply line, the history has grown by exactly `2 * n` (to
/// `2 * n + 1` from the greeting alone), and the session waits for keys.
pub proof fn lemma_exchanges_grow_history(
    v: AppView,
    client: GPTClient,
    inputs: Seq<Seq<char>>,
    outcomes: Seq<Result<String, GPTError>>,
)
    requires
        inputs.len() == outcomes.len(),
        v.running,
        !v.awaiting,
        client.access_spec().has_data_spec(),
        forall|i: int| 0 <= i < inputs.len() ==> trimmed(#[trigger] inputs[i]).len() > 0,
    ensures
        run_exchanges(v, client, inputs, outcomes).history == after_exchanges(
            v.history,
            inputs,
            outcomes.map_values(|o: Result<String, GPTError>| reply_text(o)),
        ),
        run_exchanges(v, client, inputs, outcomes).history.len() == v.history.len() + 2
            * inputs.len(),
        v.history == seq![greeting_turn()] ==> run_exchanges(
            v,
            client,
            inputs,
            outcomes,
        ).history.len() == 1 + 2 * inputs.len(),
        run_exchanges(v, client, inputs, outcomes).running,
        !run_exchanges(v, client, inputs, outcomes).awaiting,
    decreases inputs.len(),
{
    let replies = outcomes.map_values(|o: Result<String, GPTError>| reply_text(o));
    lemma_after_exchanges_len(v.history, inputs, replies);
    if inputs.len() > 0 {
        let v1 = receive_view(submit_view(with_input(v, inputs[0]), client), outcomes[0]);
        assert(v1.history == answered(submitted(v.history, inputs[0]), replies[0]));
        assert forall|i: int| 0 <= i < inputs.drop_first().len() implies trimmed(
            #[trigger] inputs.drop_first()[i],
        ).len() > 0 by {
            assert(inputs.drop_first()[i] == inputs[i + 1]);
        }
        assert(replies.drop_first() =~= outcomes.drop_first().map_values(
            |o: Result<String, GPTError>| reply_text(o),
        ));
        lemma_exchanges_grow_history(v1, client, inputs.drop_first(), outcomes.drop_first());
    }
}

} // verus!
