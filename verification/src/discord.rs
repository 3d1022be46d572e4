//! Discord Rich Presence: what the reader shows while a chapter is open.
//!
//! The connection lives on a worker thread of the application; this module
//! holds the worker's decisions (which call to make for each command, and
//! how its outcome changes the connection state) and the text it publishes.
use vstd::prelude::*;
use crate::text::{all_ascii_digits, append, copy_opt, owned, push_char, to_chars, trim, trimmed, string_of};
use std::sync::Arc;
use std::sync::atomic::AtomicU8;
use std::sync::mpsc::Sender;

verus! {

/// The most characters Discord accepts in an activity text field.
pub const MAX_TEXT_CHARS: usize = 128;

/// A chapter being read, as the reader reports it.
#[derive(Debug, Clone)]
pub struct ReadingActivity {
    pub title: String,
    pub chapter: String,
    pub cover_url: Option<String>,
    pub is_adult: bool,
    pub show_adult: bool,
}

/// State of the connection to the local Discord client.
#[derive(Debug, Clone, Copy, PartialEq, Eq, Structural)]
pub enum ConnectionStatus {
    Disconnected,
    Connecting,
    Connected,
}

/// The text published for one field: trimmed, cut to 128 characters, never
/// empty (`Bakeneko`) and never a single character (padded with U+3164,
/// because Discord rejects one-character fields).
pub open spec fn spec_discord_text(value: Seq<char>) -> Seq<char> {
    let t = trimmed(value);
    let cut = if t.len() > 128 { t.take(128) } else { t };
    if cut.len() == 0 {
        "Bakeneko"@
    } else if cut.len() == 1 {
        cut.push('\u{3164}')
    } else {
        cut
    }
}

/// A published text is never too short nor too long for Discord: between 2
/// and 128 characters, whatever the input.
pub proof fn discord_text_fits(value: Seq<char>)
    ensures
        2 <= spec_discord_text(value).len() <= MAX_TEXT_CHARS,
{
    reveal_strlit("Bakeneko");
    assert("Bakeneko"@.len() == 8);
}

/// Normalises one activity text field for Discord (see `spec_discord_text`).
pub fn discord_text(value: &str) -> (r: String)
    ensures
        r@ == spec_discord_text(value@),
{
    let t = trim(value);
    let v = to_chars(t);
    let n = if v.len() > MAX_TEXT_CHARS { MAX_TEXT_CHARS } else { v.len() };
    let mut text = string_of(&v, 0, n);
    assert(v@.subrange(0, n as int) == (if v@.len() > 128 { v@.take(128) } else { v@ }));
    if n == 0 {
        owned("Bakeneko")
    } else {
        if n == 1 {
            push_char(&mut text, '\u{3164}');
        }
        text
    }
}

/// The client id of the application in Discord, when `client_id` (trimmed)
/// is a non-empty string of ASCII digits.
pub open spec fn spec_client_id(client_id: Seq<char>) -> Option<Seq<char>> {
    let t = trimmed(client_id);
    if t.len() > 0 && all_ascii_digits(t) {
        Some(t)
    } else {
        None
    }
}

/// Validates the Discord client id given in the settings: `None` when it is
/// blank or holds anything but ASCII digits.
pub fn presence_client_id(client_id: &str) -> (r: Option<String>)
    ensures
        match r {
            Some(s) => spec_client_id(client_id@) == Some(s@),
            None => spec_client_id(client_id@) is None,
        },
{
    let t = trim(client_id);
    let v = to_chars(t);
    if v.len() == 0 {
        return None;
    }
    let mut i: usize = 0;
    while i < v.len()
        invariant
            0 <= i <= v.len(),
            v@ == t@,
            t@ == trimmed(client_id@),
            forall|j: int| 0 <= j < i ==> '0' <= #[trigger] v@[j] && v@[j] <= '9',
        decreases v.len() - i,
    {
        if !('0' <= v[i] && v[i] <= '9') {
            assert(!all_ascii_digits(v@)) by {
                assert(!('0' <= v@[i as int] && v@[i as int] <= '9'));
            }
            return None;
        }
        i += 1;
    }
    Some(owned(t))
}

/// The connection status kept as a small integer between the worker and the
/// interface: 2 is connected, 1 connecting, anything else disconnected.
pub open spec fn spec_status(code: u8) -> ConnectionStatus {
    if code == 2 {
        ConnectionStatus::Connected
    } else if code == 1 {
        ConnectionStatus::Connecting
    } else {
        ConnectionStatus::Disconnected
    }
}

/// Decodes the status code that the worker publishes.
pub fn status_from_code(code: u8) -> (r: ConnectionStatus)
    ensures
        r == spec_status(code),
{
    match code {
        2 => ConnectionStatus::Connected,
        1 => ConnectionStatus::Connecting,
        _ => ConnectionStatus::Disconnected,
    }
}

/// What is published for an activity.
#[derive(Debug, Clone)]
pub struct PresenceContent {
    pub title: String,
    pub chapter: String,
    pub cover_url: Option<String>,
}

/// Adult works whose owner hides adult content are published as private.
pub open spec fn is_private(a: ReadingActivity) -> bool {
    a.is_adult && !a.show_adult
}

/// The published title, chapter and cover of an activity: a private activity
/// shows neutral texts and no cover.
pub open spec fn presence_fields(a: ReadingActivity) -> (Seq<char>, Seq<char>, Option<String>) {
    if is_private(a) {
        (spec_discord_text("Leyendo una obra"@), spec_discord_text("Contenido privado"@), None)
    } else {
        (spec_discord_text(a.title@), spec_discord_text(a.chapter@), a.cover_url)
    }
}

/// Only adult works are hidden, and only when adult content is hidden: any
/// other work is published with its own title, chapter and cover (as
/// `discord_text` fits them), and a hidden one with neutral texts and no
/// cover.
pub proof fn only_hidden_adult_works_are_private(a: ReadingActivity)
    ensures
        !a.is_adult ==> presence_fields(a) == (spec_discord_text(a.title@), spec_discord_text(a.chapter@), a.cover_url),
        a.show_adult ==> presence_fields(a) == (spec_discord_text(a.title@), spec_discord_text(a.chapter@), a.cover_url),
        a.is_adult && !a.show_adult ==> presence_fields(a) == (
            spec_discord_text("Leyendo una obra"@),
            spec_discord_text("Contenido privado"@),
            None::<String>,
        ),
{
}

/// Builds what Discord shows for a reading activity.
pub fn presence_content(a: &ReadingActivity) -> (r: PresenceContent)
    ensures
        (r.title@, r.chapter@, r.cover_url) == presence_fields(*a),
        !a.is_adult || a.show_adult ==> r.title@ == spec_discord_text(a.title@)
            && r.chapter@ == spec_discord_text(a.chapter@) && r.cover_url == a.cover_url,
        a.is_adult && !a.show_adult ==> r.title@ == spec_discord_text("Leyendo una obra"@)
            && r.chapter@ == spec_discord_text("Contenido privado"@) && r.cover_url is None,
{
    let private = a.is_adult && !a.show_adult;
    if private {
        PresenceContent {
            title: discord_text("Leyendo una obra"),
            chapter: discord_text("Contenido privado"),
            cover_url: None,
        }
    } else {
        PresenceContent {
            title: discord_text(a.title.as_str()),
            chapter: discord_text(a.chapter.as_str()),
            cover_url: copy_opt(&a.cover_url),
        }
    }
}

/// A command sent to the worker by the interface.
#[derive(Debug, Clone)]
pub enum PresenceCommand {
    Show(ReadingActivity),
    Clear,
    Stop,
}

/// What the worker's wait for a command produced.
#[derive(Debug, Clone)]
pub enum WorkerInput {
    Command(PresenceCommand),
    /// No command arrived within the retry period.
    Timeout,
    /// The interface dropped its end of the channel.
    Closed,
}

/// The call the worker makes next.
#[derive(Debug, Clone)]
pub enum WorkerAction {
    Nothing,
    /// Clear the published activity; report the outcome to `on_clear_result`.
    ClearActivity,
    /// Connect to Discord; report the outcome to `on_connect_result`.
    Connect,
    /// Publish this activity; report the outcome to `on_publish_result`.
    Publish(PresenceContent),
    /// Leave the loop; when `close` holds, clear the activity and close the
    /// connection first.
    Shutdown { close: bool },
}

/// The worker's state: whether it is connected, the activity to keep
/// published, and the status code shown to the interface.
pub struct PresenceWorker {
    pub connected: bool,
    pub current: Option<ReadingActivity>,
    pub status: u8,
}

/// The published status agrees with the connection once the first attempt
/// has been made: 2 exactly when connected.
pub open spec fn worker_status_ok(w: PresenceWorker) -> bool {
    if w.connected { w.status == 2 } else { w.status == 0 || w.status == 1 }
}

/// The action that keeps `current` published: connect first when needed.
pub open spec fn refresh_action_is(w: PresenceWorker, a: WorkerAction) -> bool {
    match w.current {
        None => a is Nothing,
        Some(act) => if !w.connected {
            a is Connect
        } else {
            a matches WorkerAction::Publish(c) && (c.title@, c.chapter@, c.cover_url) == presence_fields(act)
        },
    }
}

/// A worker as it starts: not connected, nothing to publish, status
/// "connecting".
pub open spec fn fresh_worker(w: PresenceWorker) -> bool {
    !w.connected && w.current is None && w.status == 1
}

/// One step of the worker on what its wait produced: from `w` to `next`,
/// making the call `a`. The connection and the status never change here;
/// only the outcome of a call changes them.
pub open spec fn input_step(w: PresenceWorker, input: WorkerInput, next: PresenceWorker, a: WorkerAction) -> bool {
    &&& next.connected == w.connected
    &&& next.status == w.status
    &&& match input {
        WorkerInput::Command(PresenceCommand::Show(act)) => next.current == Some(act)
            && refresh_action_is(next, a),
        WorkerInput::Command(PresenceCommand::Clear) => next.current is None
            && (if w.connected { a is ClearActivity } else { a is Nothing }),
        WorkerInput::Command(PresenceCommand::Stop) | WorkerInput::Closed =>
            next.current == w.current
            && a == (WorkerAction::Shutdown { close: w.connected }),
        WorkerInput::Timeout => next.current == w.current
            && refresh_action_is(w, a),
    }
}

/// `states` and `actions` are a run of the worker over `inputs`: each state
/// follows the one before by `input_step`, making the matching call.
pub open spec fn worker_run(inputs: Seq<WorkerInput>, states: Seq<PresenceWorker>, actions: Seq<WorkerAction>) -> bool {
    &&& states.len() == inputs.len() + 1
    &&& actions.len() == inputs.len()
    &&& forall|i: int| 0 <= i < inputs.len() ==> #[trigger] input_step(states[i], inputs[i], states[i + 1], actions[i])
}

/// `input` is a command to show a reading activity.
pub open spec fn is_show(input: WorkerInput) -> bool {
    input matches WorkerInput::Command(PresenceCommand::Show(_))
}

/// The worker stays "connecting" until a reading activity has been shown:
/// from a fresh worker, as long as no `Show` command arrives (any number of
/// `Clear` commands, timeouts, or the end of the channel may), the state
/// stays fresh, so the published status is `Connecting`, and every call made
/// is `Nothing` or a shutdown that closes nothing. No call whose outcome
/// could change the status (connect, publish, clear) is ever made.
pub proof fn status_connecting_until_shown(
    inputs: Seq<WorkerInput>,
    states: Seq<PresenceWorker>,
    actions: Seq<WorkerAction>,
)
    requires
        worker_run(inputs, states, actions),
        fresh_worker(states[0]),
        forall|i: int| 0 <= i < inputs.len() ==> !is_show(#[trigger] inputs[i]),
    ensures
        forall|i: int| 0 <= i < states.len() ==> fresh_worker(#[trigger] states[i])
            && spec_status(states[i].status) == ConnectionStatus::Connecting,
        forall|i: int| 0 <= i < actions.len() ==> (#[trigger] actions[i] is Nothing
            || actions[i] == (WorkerAction::Shutdown { close: false })),
{
    assert forall|i: int| 0 <= i < states.len() implies fresh_worker(#[trigger] states[i]) by {
        fresh_prefix(inputs, states, actions, i);
    }
    assert forall|i: int| 0 <= i < actions.len() implies (#[trigger] actions[i] is Nothing
        || actions[i] == (WorkerAction::Shutdown { close: false })) by {
        fresh_prefix(inputs, states, actions, i);
        assert(input_step(states[i], inputs[i], states[i + 1], actions[i]));
        assert(!is_show(inputs[i]));
    }
}

proof fn fresh_prefix(
    inputs: Seq<WorkerInput>,
    states: Seq<PresenceWorker>,
    actions: Seq<WorkerAction>,
    k: int,
)
    requires
        worker_run(inputs, states, actions),
        fresh_worker(states[0]),
        forall|i: int| 0 <= i < inputs.len() ==> !is_show(#[trigger] inputs[i]),
        0 <= k < states.len(),
    ensures
        fresh_worker(states[k]),
    decreases k,
{
    if k > 0 {
        let j = k - 1;
        fresh_prefix(inputs, states, actions, j);
        assert(input_step(states[j], inputs[j], states[j + 1], actions[j]));
        assert(!is_show(inputs[j]));
    }
}

impl PresenceWorker {
    /// A worker that has not connected yet (status "connecting").
    pub fn new() -> (r: PresenceWorker)
        ensures
            fresh_worker(r),
    {
        PresenceWorker { connected: false, current: None, status: 1 }
    }

    fn refresh(&self) -> (r: WorkerAction)
        ensures
            refresh_action_is(*self, r),
    {
        match &self.current {
            None => WorkerAction::Nothing,
            Some(act) => if !self.connected {
                WorkerAction::Connect
            } else {
                WorkerAction::Publish(presence_content(act))
            },
        }
    }

    /// Handles what the wait for a command produced. `Set` replaces the
    /// activity and republishes it; `Clear` forgets it and clears what is
    /// published when connected; `Stop` and a closed channel end the worker,
    /// closing the connection when there is one; a timeout retries the
    /// publication of the kept activity.
    pub fn on_input(&mut self, input: WorkerInput) -> (r: WorkerAction)
        ensures
            input_step(*old(self), input, *final(self), r),
    {
        match input {
            WorkerInput::Command(PresenceCommand::Show(a)) => {
                self.current = Some(a);
                self.refresh()
            },
            WorkerInput::Command(PresenceCommand::Clear) => {
                self.current = None;
                if self.connected {
                    WorkerAction::ClearActivity
                } else {
                    WorkerAction::Nothing
                }
            },
            WorkerInput::Command(PresenceCommand::Stop) | WorkerInput::Closed => {
                WorkerAction::Shutdown { close: self.connected }
            },
            WorkerInput::Timeout => self.refresh(),
        }
    }

    /// Outcome of `ClearActivity`: a failure drops the connection.
    pub fn on_clear_result(&mut self, ok: bool)
        ensures
            final(self).current == old(self).current,
            if ok {
                final(self).connected == old(self).connected && final(self).status == old(self).status
            } else {
                !final(self).connected && final(self).status == 0
            },
    {
        if !ok {
            self.connected = false;
            self.status = 0;
        }
    }

    /// Outcome of `Connect`: the status follows it, and a live connection
    /// publishes the kept activity at once.
    pub fn on_connect_result(&mut self, ok: bool) -> (r: WorkerAction)
        ensures
            final(self).current == old(self).current,
            final(self).connected == ok,
            final(self).status == (if ok { 2u8 } else { 0u8 }),
            worker_status_ok(*final(self)),
            if ok { refresh_action_is(*final(self), r) } else { r is Nothing },
    {
        self.connected = ok;
        self.status = if ok { 2 } else { 0 };
        if ok {
            self.refresh()
        } else {
            WorkerAction::Nothing
        }
    }

    /// Outcome of `Publish`: a failure drops the connection.
    pub fn on_publish_result(&mut self, ok: bool)
        ensures
            final(self).current == old(self).current,
            if ok {
                final(self).connected == old(self).connected && final(self).status == old(self).status
            } else {
                !final(self).connected && final(self).status == 0
            },
    {
        if !ok {
            self.connected = false;
            self.status = 0;
        }
    }

    /// The status shown to the interface.
    pub fn connection_status(&self) -> (r: ConnectionStatus)
        ensures
            r == spec_status(self.status),
    {
        status_from_code(self.status)
    }
}

/// The sending end of a channel of std.
#[verifier::external_type_specification]
#[verifier::external_body]
#[verifier::reject_recursive_types(T)]
pub struct ExSender<T>(Sender<T>);

/// Calls `Sender::send`. A send fails only once the worker has left its loop;
/// the presence has nothing left to do then, so the outcome is dropped.
#[verifier::external_body]
fn send_command(tx: &Sender<PresenceCommand>, command: PresenceCommand) {
    let _ = tx.send(command);
}

/// The interface's handle on the presence worker: commands go through the
/// channel, and the worker publishes its status code in a shared byte.
pub struct DiscordPresence {
    tx: Sender<PresenceCommand>,
    status: Arc<AtomicU8>,
}

impl DiscordPresence {
    /// The channel on which the handle sends its commands.
    pub closed spec fn channel(&self) -> Sender<PresenceCommand> {
        self.tx
    }

    /// The shared byte from which the handle reads the worker's status.
    pub closed spec fn status_cell(&self) -> Arc<AtomicU8> {
        self.status
    }

    /// A handle on a worker started by the application: it sends on `tx` and
    /// reads the status from `status`.
    pub fn from_parts(tx: Sender<PresenceCommand>, status: Arc<AtomicU8>) -> (r: DiscordPresence)
        ensures
            r.channel() == tx,
            r.status_cell() == status,
    {
        DiscordPresence { tx, status }
    }

    /// Asks the worker to publish a reading activity.
    pub fn set_reading(&self, activity: ReadingActivity) {
        send_command(&self.tx, PresenceCommand::Show(activity));
    }

    /// Asks the worker to clear the published activity.
    pub fn clear(&self) {
        send_command(&self.tx, PresenceCommand::Clear);
    }

    /// Asks the worker to close the connection and stop.
    pub fn stop(&self) {
        send_command(&self.tx, PresenceCommand::Stop);
    }

    /// The connection status that the worker published last (the byte is
    /// written by another thread, so any code may be read).
    pub fn status(&self) -> (r: ConnectionStatus) {
        let code = self.status.load(std::sync::atomic::Ordering::Relaxed);
        status_from_code(code)
    }
}

} // verus!
