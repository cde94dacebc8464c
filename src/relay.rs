//! The relay connection: the shared connection state, and the decisions of
//! the background task that performs the handshake and then runs the
//! read/heartbeat loop. The task itself (its socket, timer and lock) lives
//! with the caller, which performs each returned action and feeds back
//! what happened as the next input.
use vstd::prelude::*;
use crate::events::{classified_view, classify, classify_text_spec, Classified, ClassifyError, WsEvent, WsEventView};
use crate::json::{json_document, parse_json, text_field, text_member, text_view};

verus! {

/// Process-wide record of the current relay's identity and liveness.
/// `generation` names the latest connection attempt; `abort_handle` is the
/// generation of the background task that is running for it, if any.
pub struct WsConnectionState {
    client_id: Option<String>,
    is_connected: bool,
    abort_handle: Option<u64>,
    generation: u64,
}

pub struct ConnectionView {
    pub client_id: Option<Seq<char>>,
    pub is_connected: bool,
    pub abort_handle: Option<u64>,
    pub generation: u64,
}

impl View for WsConnectionState {
    type V = ConnectionView;

    closed spec fn view(&self) -> ConnectionView {
        ConnectionView {
            client_id: text_view(self.client_id),
            is_connected: self.is_connected,
            abort_handle: self.abort_handle,
            generation: self.generation,
        }
    }
}

impl ConnectionView {
    /// A known client identity implies a live connection, and a running
    /// task always belongs to the latest attempt.
    pub open spec fn wf(self) -> bool {
        &&& (self.client_id.is_some() ==> self.is_connected)
        &&& (self.abort_handle.is_some() ==> self.abort_handle == Some(self.generation))
    }

    /// Empty and disconnected, within the same attempt.
    pub open spec fn reset(self) -> ConnectionView {
        ConnectionView { client_id: None, is_connected: false, abort_handle: None, ..self }
    }
}

pub open spec fn next_generation(g: u64) -> u64 {
    if g == u64::MAX {
        0
    } else {
        (g + 1) as u64
    }
}

/// The state right after a new connection attempt supersedes the old one.
pub open spec fn begin_spec(c: ConnectionView) -> ConnectionView {
    ConnectionView {
        client_id: None,
        is_connected: false,
        abort_handle: None,
        generation: next_generation(c.generation),
    }
}

/// Why a connection attempt failed before its background task started.
#[derive(PartialEq, Eq, Structural, Clone, Copy, Debug)]
pub enum ConnectError {
    /// The transport could not be established.
    DialFailed,
}

/// What a successful connection attempt answers at once.
pub open spec fn pending_marker() -> Seq<char> {
    "pending"@
}

/// What a new connection attempt is handed: its own generation, and the
/// task of the attempt it supersedes, which the caller must cancel.
#[derive(PartialEq, Eq, Structural, Clone, Copy, Debug)]
pub struct ConnectTicket {
    pub token: u64,
    pub supersedes: Option<u64>,
}

impl WsConnectionState {
    pub fn new() -> (r: Self)
        ensures
            r@ == (ConnectionView { client_id: None, is_connected: false, abort_handle: None, generation: 0 }),
            r@.wf(),
    {
        WsConnectionState { client_id: None, is_connected: false, abort_handle: None, generation: 0 }
    }

    /// Starts a new attempt: forgets the old identity, marks the relay
    /// disconnected and hands back the old task for cancellation.
    pub fn begin_connect(&mut self) -> (t: ConnectTicket)
        ensures
            final(self)@ == begin_spec(old(self)@),
            final(self)@.wf(),
            t.token == final(self)@.generation,
            t.token != old(self)@.generation,
            t.supersedes == old(self)@.abort_handle,
    {
        let supersedes = self.abort_handle;
        let token: u64 = if self.generation == u64::MAX {
            0
        } else {
            self.generation + 1
        };
        self.client_id = None;
        self.is_connected = false;
        self.abort_handle = None;
        self.generation = token;
        ConnectTicket { token, supersedes }
    }

    /// Records how dialling for attempt `token` went. An open transport
    /// marks the relay connected (for the latest attempt only) and answers
    /// with the pending marker; the real identity arrives with the
    /// handshake. A failed dial is reported and leaves the state alone.
    pub fn dial_finished(&mut self, token: u64, opened: bool) -> (r: Result<String, ConnectError>)
        requires
            old(self)@.wf(),
        ensures
            opened ==> (r matches Ok(m) && m@ == pending_marker()),
            !opened ==> r matches Err(ConnectError::DialFailed),
            final(self)@ == (if opened && token == old(self)@.generation {
                ConnectionView { is_connected: true, ..old(self)@ }
            } else {
                old(self)@
            }),
            final(self)@.wf(),
    {
        if !opened {
            return Err(ConnectError::DialFailed);
        }
        if token == self.generation {
            self.is_connected = true;
        }
        Ok(String::from_str("pending"))
    }

    /// The background task of attempt `token` was started; a superseded
    /// attempt changes nothing.
    pub fn task_started(&mut self, token: u64)
        requires
            old(self)@.wf(),
        ensures
            final(self)@ == (if token == old(self)@.generation {
                ConnectionView { abort_handle: Some(token), ..old(self)@ }
            } else {
                old(self)@
            }),
            final(self)@.wf(),
    {
        if token == self.generation {
            self.abort_handle = Some(token);
        }
    }

    /// Snapshot of the client identity and liveness.
    pub fn status(&self) -> (r: (Option<String>, bool))
        ensures
            text_view(r.0) == self@.client_id,
            r.1 == self@.is_connected,
    {
        (self.client_id.clone(), self.is_connected)
    }

    /// The live client identity, used to correlate job submissions.
    pub fn current_client_id(&self) -> (r: Option<String>)
        ensures
            text_view(r) == self@.client_id,
    {
        self.client_id.clone()
    }

    pub fn generation(&self) -> (r: u64)
        ensures
            r == self@.generation,
    {
        self.generation
    }

    pub fn active_task(&self) -> (r: Option<u64>)
        ensures
            r == self@.abort_handle,
    {
        self.abort_handle
    }
}

/// Seconds between two heartbeats of a running relay.
pub const HEARTBEAT_INTERVAL_SECS: u64 = 30;

/// The keepalive frame's text; no answer to it is awaited.
pub open spec fn heartbeat_spec() -> Seq<char> {
    "ping"@
}

pub fn heartbeat_text() -> (r: String)
    ensures
        r@ == heartbeat_spec(),
{
    String::from_str("ping")
}

/// Where the background task of one attempt stands.
#[derive(PartialEq, Eq, Structural, Clone, Copy, Debug)]
pub enum LoopPhase {
    /// Waiting for the first frame, which must name the client.
    AwaitingHandshake,
    /// Relaying messages and sending heartbeats.
    Active,
    /// The connection was closed or the stream ended.
    Closed,
    /// A read or a heartbeat failed.
    Errored,
    /// The first frame was not a valid handshake.
    HandshakeFailed,
    /// A newer attempt took over the connection state.
    Superseded,
}

pub open spec fn is_terminal(p: LoopPhase) -> bool {
    !(p == LoopPhase::AwaitingHandshake || p == LoopPhase::Active)
}

/// One frame, or the end of the stream, as the read half delivers it.
pub enum Frame {
    Text(String),
    Close,
    End,
    ReadError,
    Other,
}

pub enum FrameView {
    Text(Seq<char>),
    Close,
    End,
    ReadError,
    Other,
}

impl View for Frame {
    type V = FrameView;

    open spec fn view(&self) -> FrameView {
        match self {
            Frame::Text(t) => FrameView::Text(t@),
            Frame::Close => FrameView::Close,
            Frame::End => FrameView::End,
            Frame::ReadError => FrameView::ReadError,
            Frame::Other => FrameView::Other,
        }
    }
}

/// What the background task observed.
pub enum RelayInput {
    Frame(Frame),
    HeartbeatDue,
    HeartbeatFailed,
}

pub enum InputView {
    Frame(FrameView),
    HeartbeatDue,
    HeartbeatFailed,
}

impl View for RelayInput {
    type V = InputView;

    open spec fn view(&self) -> InputView {
        match self {
            RelayInput::Frame(f) => InputView::Frame(f@),
            RelayInput::HeartbeatDue => InputView::HeartbeatDue,
            RelayInput::HeartbeatFailed => InputView::HeartbeatFailed,
        }
    }
}

/// What the background task must do next.
pub enum RelayAction {
    Nothing,
    SendHeartbeat,
    Publish(WsEvent),
    /// A steady-state message that produced no event; worth a log line only.
    Rejected(ClassifyError),
}

pub enum ActionView {
    Nothing,
    SendHeartbeat,
    Publish(WsEventView),
    Rejected(ClassifyError),
}

impl View for RelayAction {
    type V = ActionView;

    open spec fn view(&self) -> ActionView {
        match self {
            RelayAction::Nothing => ActionView::Nothing,
            RelayAction::SendHeartbeat => ActionView::SendHeartbeat,
            RelayAction::Publish(e) => ActionView::Publish(e@),
            RelayAction::Rejected(e) => ActionView::Rejected(*e),
        }
    }
}

/// The background task of one attempt.
pub struct RelaySession {
    token: u64,
    phase: LoopPhase,
}

pub struct SessionView {
    pub token: u64,
    pub phase: LoopPhase,
}

impl View for RelaySession {
    type V = SessionView;

    closed spec fn view(&self) -> SessionView {
        SessionView { token: self.token, phase: self.phase }
    }
}

/// The type and client identity of a handshake message, when both are strings.
pub open spec fn connected_fields(text: Seq<char>) -> Option<(Seq<char>, Seq<char>)> {
    match json_document(text) {
        Some(v) => match (text_member(v, "type"@), text_member(v, "client_id"@)) {
            (Some(t), Some(c)) => Some((t, c)),
            _ => None,
        },
        None => None,
    }
}

/// The client identity that a handshake frame assigns, if it is one.
pub open spec fn handshake_client_id(text: Seq<char>) -> Option<Seq<char>> {
    match connected_fields(text) {
        Some((t, c)) => if t == "connected"@ {
            Some(c)
        } else {
            None
        },
        None => None,
    }
}

pub open spec fn end_with(
    s: SessionView,
    c: ConnectionView,
    phase: LoopPhase,
    a: ActionView,
) -> (SessionView, ConnectionView, ActionView) {
    (SessionView { phase, ..s }, c.reset(), a)
}

pub open spec fn frame_action(text: Seq<char>) -> ActionView {
    match classify_text_spec(text) {
        Ok(Some(e)) => ActionView::Publish(e),
        Ok(None) => ActionView::Nothing,
        Err(x) => ActionView::Rejected(x),
    }
}

/// One step of the background task: the next session, connection state and action.
pub open spec fn step_spec(s: SessionView, c: ConnectionView, i: InputView) -> (
    SessionView,
    ConnectionView,
    ActionView,
) {
    if is_terminal(s.phase) {
        (s, c, ActionView::Nothing)
    } else if s.token != c.generation {
        (SessionView { phase: LoopPhase::Superseded, ..s }, c, ActionView::Nothing)
    } else if s.phase == LoopPhase::AwaitingHandshake {
        match i {
            InputView::Frame(FrameView::Text(t)) => match handshake_client_id(t) {
                Some(id) => (
                    SessionView { phase: LoopPhase::Active, ..s },
                    ConnectionView { client_id: Some(id), is_connected: true, ..c },
                    ActionView::Publish(WsEventView::Connected { client_id: id }),
                ),
                None => end_with(s, c, LoopPhase::HandshakeFailed, ActionView::Nothing),
            },
            InputView::Frame(_) => end_with(s, c, LoopPhase::HandshakeFailed, ActionView::Nothing),
            _ => (s, c, ActionView::Nothing),
        }
    } else {
        match i {
            InputView::HeartbeatDue => (s, c, ActionView::SendHeartbeat),
            InputView::HeartbeatFailed => end_with(
                s,
                c,
                LoopPhase::Errored,
                ActionView::Publish(WsEventView::Disconnected),
            ),
            InputView::Frame(FrameView::Text(t)) => (s, c, frame_action(t)),
            InputView::Frame(FrameView::Close) | InputView::Frame(FrameView::End) => end_with(
                s,
                c,
                LoopPhase::Closed,
                ActionView::Publish(WsEventView::Disconnected),
            ),
            InputView::Frame(FrameView::ReadError) => end_with(
                s,
                c,
                LoopPhase::Errored,
                ActionView::Publish(WsEventView::Disconnected),
            ),
            InputView::Frame(FrameView::Other) => (s, c, ActionView::Nothing),
        }
    }
}

/// The handshake message of the server.
pub struct WsConnectedMessage {
    pub msg_type: String,
    pub client_id: String,
}

/// Reads a handshake message: both `type` and `client_id` must be strings.
pub fn parse_connected_message(text: &str) -> (r: Option<WsConnectedMessage>)
    ensures
        match r {
            Some(m) => connected_fields(text@) == Some((m.msg_type@, m.client_id@)),
            None => connected_fields(text@).is_none(),
        },
{
    let v = match parse_json(text) {
        Some(v) => v,
        None => return None,
    };
    match (text_field(&v, "type"), text_field(&v, "client_id")) {
        (Some(msg_type), Some(client_id)) => Some(WsConnectedMessage { msg_type, client_id }),
        _ => None,
    }
}

/// The client identity that a handshake frame assigns, if it is one.
pub fn handshake(text: &str) -> (r: Option<String>)
    ensures
        text_view(r) == handshake_client_id(text@),
{
    match parse_connected_message(text) {
        Some(m) => {
            let expected = String::from_str("connected");
            if m.msg_type == expected {
                Some(m.client_id)
            } else {
                None
            }
        },
        None => None,
    }
}

fn frame_outcome(c: Classified) -> (a: RelayAction)
    ensures
        match classified_view(c) {
            Ok(Some(e)) => a@ == ActionView::Publish(e),
            Ok(None) => a@ == ActionView::Nothing,
            Err(x) => a@ == ActionView::Rejected(x),
        },
{
    match c {
        Ok(Some(e)) => RelayAction::Publish(e),
        Ok(None) => RelayAction::Nothing,
        Err(x) => RelayAction::Rejected(x),
    }
}

impl WsConnectionState {
    fn end_session(&mut self)
        ensures
            final(self)@ == old(self)@.reset(),
    {
        self.client_id = None;
        self.is_connected = false;
        self.abort_handle = None;
    }
}

impl RelaySession {
    /// The task of attempt `token`, waiting for its handshake.
    pub fn new(token: u64) -> (r: Self)
        ensures
            r@ == (SessionView { token, phase: LoopPhase::AwaitingHandshake }),
    {
        RelaySession { token, phase: LoopPhase::AwaitingHandshake }
    }

    pub fn phase(&self) -> (r: LoopPhase)
        ensures
            r == self@.phase,
    {
        self.phase
    }

    /// Whether the task is over and its loop must stop.
    pub fn is_finished(&self) -> (r: bool)
        ensures
            r == is_terminal(self@.phase),
    {
        !(self.phase == LoopPhase::AwaitingHandshake || self.phase == LoopPhase::Active)
    }

    /// Handles one input of the background task. The connection state is
    /// changed only while the session belongs to the newest attempt.
    pub fn step(&mut self, conn: &mut WsConnectionState, input: RelayInput) -> (a: RelayAction)
        requires
            old(conn)@.wf(),
        ensures
            (final(self)@, final(conn)@, a@) == step_spec(old(self)@, old(conn)@, input@),
            final(conn)@.wf(),
    {
        if !(self.phase == LoopPhase::AwaitingHandshake || self.phase == LoopPhase::Active) {
            return RelayAction::Nothing;
        }
        if self.token != conn.generation {
            self.phase = LoopPhase::Superseded;
            return RelayAction::Nothing;
        }
        if self.phase == LoopPhase::AwaitingHandshake {
            match input {
                RelayInput::Frame(Frame::Text(t)) => match handshake(t.as_str()) {
                    Some(id) => {
                        self.phase = LoopPhase::Active;
                        conn.client_id = Some(id.clone());
                        conn.is_connected = true;
                        RelayAction::Publish(WsEvent::Connected { client_id: id })
                    },
                    None => {
                        self.phase = LoopPhase::HandshakeFailed;
                        conn.end_session();
                        RelayAction::Nothing
                    },
                },
                RelayInput::Frame(_) => {
                    self.phase = LoopPhase::HandshakeFailed;
                    conn.end_session();
                    RelayAction::Nothing
                },
                _ => RelayAction::Nothing,
            }
        } else {
            match input {
                RelayInput::HeartbeatDue => RelayAction::SendHeartbeat,
                RelayInput::HeartbeatFailed => {
                    self.phase = LoopPhase::Errored;
                    conn.end_session();
                    RelayAction::Publish(WsEvent::Disconnected)
                },
                RelayInput::Frame(Frame::Text(t)) => frame_outcome(classify(t.as_str())),
                RelayInput::Frame(Frame::Close) | RelayInput::Frame(Frame::End) => {
                    self.phase = LoopPhase::Closed;
                    conn.end_session();
                    RelayAction::Publish(WsEvent::Disconnected)
                },
                RelayInput::Frame(Frame::ReadError) => {
                    self.phase = LoopPhase::Errored;
                    conn.end_session();
                    RelayAction::Publish(WsEvent::Disconnected)
                },
                RelayInput::Frame(Frame::Other) => RelayAction::Nothing,
            }
        }
    }
}

/// Runs the background task over a sequence of inputs.
pub open spec fn run(s: SessionView, c: ConnectionView, inputs: Seq<InputView>) -> (
    SessionView,
    ConnectionView,
    Seq<ActionView>,
)
    decreases inputs.len(),
{
    if inputs.len() == 0 {
        (s, c, Seq::empty())
    } else {
        let first = step_spec(s, c, inputs[0]);
        let rest = run(first.0, first.1, inputs.drop_first());
        (rest.0, rest.1, seq![first.2] + rest.2)
    }
}

pub open spec fn is_disconnect(a: ActionView) -> bool {
    a == ActionView::Publish(WsEventView::Disconnected)
}

/// How many `Disconnected` events a sequence of actions publishes.
pub open spec fn count_disconnects(acts: Seq<ActionView>) -> nat
    decreases acts.len(),
{
    if acts.len() == 0 {
        0
    } else {
        (if is_disconnect(acts[0]) {
            1nat
        } else {
            0nat
        }) + count_disconnects(acts.drop_first())
    }
}

pub open spec fn all_nothing(acts: Seq<ActionView>) -> bool {
    forall|k: int| 0 <= k < acts.len() ==> #[trigger] acts[k] == ActionView::Nothing
}

/// A finished task does nothing more: it leaves the connection state alone
/// and every further input is answered with `Nothing`.
pub proof fn lemma_finished_task_is_silent(s: SessionView, c: ConnectionView, inputs: Seq<InputView>)
    requires
        is_terminal(s.phase),
    ensures
        run(s, c, inputs).0 == s,
        run(s, c, inputs).1 == c,
        all_nothing(run(s, c, inputs).2),
        count_disconnects(run(s, c, inputs).2) == 0,
    decreases inputs.len(),
{
    if inputs.len() > 0 {
        lemma_finished_task_is_silent(s, c, inputs.drop_first());
        let acts = run(s, c, inputs).2;
        let rest = run(s, c, inputs.drop_first()).2;
        assert(acts == seq![ActionView::Nothing] + rest);
        assert(acts.drop_first() =~= rest);
        assert forall|k: int| 0 <= k < acts.len() implies #[trigger] acts[k] == ActionView::Nothing by {
            if k > 0 {
                assert(acts[k] == rest[k - 1]);
            }
        }
    }
}

/// Every run of a task publishes at most one `Disconnected` event.
pub proof fn lemma_at_most_one_disconnect(s: SessionView, c: ConnectionView, inputs: Seq<InputView>)
    ensures
        count_disconnects(run(s, c, inputs).2) <= 1,
    decreases inputs.len(),
{
    if inputs.len() > 0 {
        let first = step_spec(s, c, inputs[0]);
        let acts = run(s, c, inputs).2;
        let rest = run(first.0, first.1, inputs.drop_first()).2;
        assert(acts.drop_first() =~= rest);
        if is_disconnect(first.2) {
            lemma_finished_task_is_silent(first.0, first.1, inputs.drop_first());
        } else {
            lemma_at_most_one_disconnect(first.0, first.1, inputs.drop_first());
        }
    }
}

/// A failed heartbeat ends a running task: it stops with `Errored`, the
/// connection state is emptied, and exactly one `Disconnected` event is
/// published, whatever inputs follow.
pub proof fn lemma_heartbeat_failure_disconnects_once(
    s: SessionView,
    c: ConnectionView,
    inputs: Seq<InputView>,
)
    requires
        s.phase == LoopPhase::Active,
        s.token == c.generation,
        inputs.len() > 0,
        inputs[0] == InputView::HeartbeatFailed,
    ensures
        step_spec(s, c, inputs[0]).0.phase == LoopPhase::Errored,
        step_spec(s, c, inputs[0]).2 == ActionView::Publish(WsEventView::Disconnected),
        count_disconnects(run(s, c, inputs).2) == 1,
        run(s, c, inputs).1 == c.reset(),
{
    let first = step_spec(s, c, inputs[0]);
    lemma_finished_task_is_silent(first.0, first.1, inputs.drop_first());
    assert(run(s, c, inputs).2.drop_first() =~= run(first.0, first.1, inputs.drop_first()).2);
}

/// After a successful handshake the status is `(Some(client_id), true)`.
pub proof fn lemma_handshake_sets_status(s: SessionView, c: ConnectionView, text: Seq<char>)
    requires
        s.phase == LoopPhase::AwaitingHandshake,
        s.token == c.generation,
        handshake_client_id(text).is_some(),
    ensures
        ({
            let r = step_spec(s, c, InputView::Frame(FrameView::Text(text)));
            &&& r.0.phase == LoopPhase::Active
            &&& r.1.client_id == handshake_client_id(text)
            &&& r.1.is_connected
            &&& r.2 == ActionView::Publish(
                WsEventView::Connected { client_id: handshake_client_id(text).unwrap() },
            )
        }),
{
}

/// Any step that ends a task leaves the status at `(None, false)`.
pub proof fn lemma_ending_clears_status(s: SessionView, c: ConnectionView, i: InputView)
    requires
        !is_terminal(s.phase),
        s.token == c.generation,
        is_terminal(step_spec(s, c, i).0.phase),
    ensures
        step_spec(s, c, i).1.client_id.is_none(),
        !step_spec(s, c, i).1.is_connected,
        step_spec(s, c, i).1.abort_handle.is_none(),
{
}

/// Once a new attempt has begun, the task of the attempt it superseded
/// can neither change the connection state nor publish anything, whatever
/// it goes on to read.
pub proof fn lemma_superseded_task_is_inert(s: SessionView, c: ConnectionView, inputs: Seq<InputView>)
    requires
        s.token == c.generation,
    ensures
        run(s, begin_spec(c), inputs).1 == begin_spec(c),
        all_nothing(run(s, begin_spec(c), inputs).2),
    decreases inputs.len(),
{
    let c2 = begin_spec(c);
    assert(s.token != c2.generation);
    if inputs.len() > 0 {
        let first = step_spec(s, c2, inputs[0]);
        assert(is_terminal(first.0.phase));
        assert(first.1 == c2);
        lemma_finished_task_is_silent(first.0, first.1, inputs.drop_first());
        let acts = run(s, c2, inputs).2;
        let rest = run(first.0, first.1, inputs.drop_first()).2;
        assert forall|k: int| 0 <= k < acts.len() implies #[trigger] acts[k] == ActionView::Nothing by {
            if k > 0 {
                assert(acts[k] == rest[k - 1]);
            }
        }
    }
}

/// A steady-state text frame whose message type is unknown (or that is
/// not JSON at all) never publishes an event.
pub proof fn lemma_unknown_messages_publish_nothing(s: SessionView, c: ConnectionView, text: Seq<char>)
    requires
        s.phase != LoopPhase::AwaitingHandshake,
        match json_document(text) {
            Some(v) => !crate::events::is_known_type(crate::events::message_type(v)),
            None => true,
        },
    ensures
        !(step_spec(s, c, InputView::Frame(FrameView::Text(text))).2 is Publish),
{
}

/// A text frame that is not JSON, or whose message type is unknown.
pub open spec fn is_unrecognized_frame(i: InputView) -> bool {
    match i {
        InputView::Frame(FrameView::Text(t)) => match json_document(t) {
            Some(v) => !crate::events::is_known_type(crate::events::message_type(v)),
            None => true,
        },
        _ => false,
    }
}

/// Over any sequence of inputs after the handshake, no unrecognized frame
/// publishes an event: the action answering it is never a `Publish`.
pub proof fn lemma_unrecognized_frames_never_publish(
    s: SessionView,
    c: ConnectionView,
    inputs: Seq<InputView>,
)
    requires
        s.phase != LoopPhase::AwaitingHandshake,
    ensures
        run(s, c, inputs).2.len() == inputs.len(),
        forall|k: int|
            0 <= k < inputs.len() && is_unrecognized_frame(#[trigger] inputs[k]) ==> !(run(
                s,
                c,
                inputs,
            ).2[k] is Publish),
    decreases inputs.len(),
{
    if inputs.len() > 0 {
        let first = step_spec(s, c, inputs[0]);
        let tail = inputs.drop_first();
        lemma_unrecognized_frames_never_publish(first.0, first.1, tail);
        let acts = run(s, c, inputs).2;
        let rest = run(first.0, first.1, tail).2;
        assert(acts == seq![first.2] + rest);
        assert forall|k: int|
            0 <= k < inputs.len() && is_unrecognized_frame(#[trigger] inputs[k]) implies !(
            acts[k] is Publish) by {
            if k == 0 {
                if let InputView::Frame(FrameView::Text(t)) = inputs[0] {
                    lemma_unknown_messages_publish_nothing(s, c, t);
                }
            } else {
                assert(tail[k - 1] == inputs[k]);
                assert(acts[k] == rest[k - 1]);
            }
        }
    }
}

} // verus!
