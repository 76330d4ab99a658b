//! The session actor: one per client connection.
//!
//! It parses client frames, owns the per-connection lifecycle
//! `Idle → Connecting → Connected → Closing → Closed`, keeps the heartbeat
//! clock, and translates between client frames and bridge commands. Every
//! transition is given by a specification function; the executable handlers
//! are proved to follow them exactly. The actor never blocks: each handler
//! only mutates local state and reports the frames to emit, the commands to
//! enqueue and the connect attempt to start; the surrounding process carries
//! those out.

use vstd::prelude::*;

use crate::CLIENT_TIMEOUT_MS;
use crate::bridge::{PtyCommand, PtyCommandS};
use crate::models::{SshCredentials, SshCredentialsS};
use crate::protocol::{
    ClientMessage, ClientMessageS, InboundText, InboundTextS, classify_text, disconnected_frame,
    error_frame, connected_frame, output_frame, spec_classify, spec_connected_frame,
    spec_disconnected_frame, spec_error_frame, spec_output_frame,
};
use crate::text::{lossy_decode, utf8_lossy};

verus! {

/// The lifecycle of a session. `Closed` is final: a new connection means a
/// new session.
#[derive(Clone, Copy, Debug, PartialEq, Eq, Structural)]
pub enum SessionState {
    /// No shell connection; a `connect` is accepted.
    Idle,
    /// A connect attempt is in flight.
    Connecting,
    /// The shell is live; input and resizes flow to the bridge.
    Connected,
    /// Teardown was requested; the bridge has not yet reported closure.
    Closing,
    /// Torn down for good.
    Closed,
}

/// Specification state of a session.
pub struct SessionS {
    pub state: SessionState,
    pub last_heartbeat_ms: u64,
    pub credentials: Option<SshCredentialsS>,
}

impl SessionS {
    /// While a connection is in flight or live, the credentials that opened
    /// it are kept for the `connected` frame.
    pub open spec fn inv(&self) -> bool {
        (self.state == SessionState::Connecting || self.state == SessionState::Connected)
            ==> self.credentials is Some
    }
}

/// One session and its connection state.
#[derive(Debug)]
pub struct Session {
    state: SessionState,
    last_heartbeat_ms: u64,
    credentials: Option<SshCredentials>,
}

impl View for Session {
    type V = SessionS;

    closed spec fn view(&self) -> SessionS {
        SessionS {
            state: self.state,
            last_heartbeat_ms: self.last_heartbeat_ms,
            credentials: match self.credentials {
                Some(c) => Some(c@),
                None => None,
            },
        }
    }
}

/// A connect attempt the surrounding process must start.
#[derive(Debug)]
pub struct ConnectRequest {
    pub credentials: SshCredentials,
    pub cols: u32,
    pub rows: u32,
}

/// What one inbound frame led to.
#[derive(Debug)]
pub struct Step {
    /// Frames to send to the client, in order; each is one complete message.
    pub frames: Vec<String>,
    /// Commands to enqueue for the bridge, in order.
    pub commands: Vec<PtyCommand>,
    /// A connect attempt to start, if the frame asked for one.
    pub connect: Option<ConnectRequest>,
}

/// Specification counterpart of [`Step`], together with the state after.
pub struct StepS {
    pub state: SessionS,
    pub frames: Seq<Seq<char>>,
    pub commands: Seq<PtyCommandS>,
    pub connect: Option<(SshCredentialsS, u32, u32)>,
}

/// The views of a vector of frames.
pub open spec fn frames_view(v: Seq<String>) -> Seq<Seq<char>> {
    Seq::new(v.len(), |i: int| v[i]@)
}

/// The views of a vector of commands.
pub open spec fn commands_view(v: Seq<PtyCommand>) -> Seq<PtyCommandS> {
    Seq::new(v.len(), |i: int| v[i]@)
}

/// What a heartbeat probe found.
#[derive(Debug)]
pub enum TickAction {
    /// The peer is alive; send a ping.
    Ping,
    /// The peer has been silent past the timeout: emit this frame, close the
    /// transport if one is bound, and stop.
    Timeout { frame: String, close_transport: bool },
    /// The session is already closed; nothing to probe.
    Stopped,
}

/// Specification counterpart of [`TickAction`].
pub enum TickActionS {
    Ping,
    Timeout { frame: Seq<char>, close_transport: bool },
    Stopped,
}

impl View for TickAction {
    type V = TickActionS;

    open spec fn view(&self) -> TickActionS {
        match self {
            TickAction::Ping => TickActionS::Ping,
            TickAction::Timeout { frame, close_transport } => TickActionS::Timeout {
                frame: frame@,
                close_transport: *close_transport,
            },
            TickAction::Stopped => TickActionS::Stopped,
        }
    }
}

/// The heartbeat has lapsed: more than the timeout has passed since the
/// last sign of life.
pub open spec fn spec_timeout_due(s: SessionS, now_ms: u64) -> bool {
    now_ms > s.last_heartbeat_ms + CLIENT_TIMEOUT_MS
}

/// One step that only touches terminal input: forwarded to the bridge when
/// connected, answered with an error frame when not.
pub open spec fn spec_input_step(s: SessionS, bytes: Seq<u8>) -> StepS {
    if s.state == SessionState::Connected {
        StepS {
            state: s,
            frames: Seq::empty(),
            commands: seq![PtyCommandS::Write(bytes)],
            connect: None,
        }
    } else {
        StepS {
            state: s,
            frames: seq![spec_error_frame("SSH连接未建立"@)],
            commands: Seq::empty(),
            connect: None,
        }
    }
}

/// The teardown step of an explicit `disconnect`: one `disconnected` frame,
/// a `Close` for the bridge when one is bound, and the final state.
pub open spec fn spec_disconnect_step(s: SessionS) -> StepS {
    if s.state == SessionState::Connected {
        StepS {
            state: SessionS {
                state: SessionState::Closing,
                last_heartbeat_ms: s.last_heartbeat_ms,
                credentials: None,
            },
            frames: seq![spec_disconnected_frame()],
            commands: seq![PtyCommandS::Close],
            connect: None,
        }
    } else {
        StepS {
            state: SessionS {
                state: SessionState::Closed,
                last_heartbeat_ms: s.last_heartbeat_ms,
                credentials: None,
            },
            frames: seq![spec_disconnected_frame()],
            commands: Seq::empty(),
            connect: None,
        }
    }
}

/// What one inbound text frame does to the session.
pub open spec fn spec_handle_text(s: SessionS, t: Seq<char>) -> StepS {
    match spec_classify(t) {
        InboundTextS::Empty => StepS {
            state: s,
            frames: Seq::empty(),
            commands: Seq::empty(),
            connect: None,
        },
        InboundTextS::Control(m) => match m {
            ClientMessageS::Connect { credentials, col_width, row_height } => {
                if s.state == SessionState::Idle {
                    StepS {
                        state: SessionS {
                            state: SessionState::Connecting,
                            last_heartbeat_ms: s.last_heartbeat_ms,
                            credentials: Some(credentials),
                        },
                        frames: Seq::empty(),
                        commands: Seq::empty(),
                        connect: Some(
                            (
                                credentials,
                                match col_width {
                                    Some(w) => w,
                                    None => 80,
                                },
                                match row_height {
                                    Some(h) => h,
                                    None => 24,
                                },
                            ),
                        ),
                    }
                } else {
                    StepS {
                        state: s,
                        frames: seq![spec_error_frame("已有活跃的SSH连接，请先断开"@)],
                        commands: Seq::empty(),
                        connect: None,
                    }
                }
            },
            ClientMessageS::Input { data } => spec_input_step(s, vstd::utf8::encode_utf8(data)),
            ClientMessageS::Resize { width, height } => {
                if s.state == SessionState::Connected {
                    StepS {
                        state: s,
                        frames: Seq::empty(),
                        commands: seq![PtyCommandS::Resize { width, height }],
                        connect: None,
                    }
                } else {
                    StepS {
                        state: s,
                        frames: seq![spec_error_frame("SSH连接未建立"@)],
                        commands: Seq::empty(),
                        connect: None,
                    }
                }
            },
            ClientMessageS::Disconnect => spec_disconnect_step(s),
        },
        InboundTextS::Raw(raw) => spec_input_step(s, vstd::utf8::encode_utf8(raw)),
    }
}

/// What a heartbeat probe does to the session.
pub open spec fn spec_tick(s: SessionS, now_ms: u64) -> (SessionS, TickActionS) {
    if s.state == SessionState::Closed {
        (s, TickActionS::Stopped)
    } else if spec_timeout_due(s, now_ms) {
        (
            SessionS {
                state: SessionState::Closed,
                last_heartbeat_ms: s.last_heartbeat_ms,
                credentials: None,
            },
            TickActionS::Timeout {
                frame: spec_disconnected_frame(),
                close_transport: s.state == SessionState::Connected,
            },
        )
    } else {
        (s, TickActionS::Ping)
    }
}

/// What the outcome of the connect attempt does to the session.
pub open spec fn spec_connect_result(s: SessionS, ok: bool, message: Seq<char>) -> (
    SessionS,
    Seq<Seq<char>>,
) {
    if ok {
        let c = s.credentials->Some_0;
        (
            SessionS {
                state: SessionState::Connected,
                last_heartbeat_ms: s.last_heartbeat_ms,
                credentials: s.credentials,
            },
            seq![spec_connected_frame(c.hostname, c.port, c.username)],
        )
    } else {
        (
            SessionS {
                state: SessionState::Idle,
                last_heartbeat_ms: s.last_heartbeat_ms,
                credentials: None,
            },
            seq![spec_error_frame(message)],
        )
    }
}

/// What the bridge's closure does to the session.
pub open spec fn spec_bridge_closed(s: SessionS) -> (SessionS, Seq<Seq<char>>) {
    if s.state == SessionState::Connected {
        (
            SessionS {
                state: SessionState::Closed,
                last_heartbeat_ms: s.last_heartbeat_ms,
                credentials: None,
            },
            seq![spec_disconnected_frame()],
        )
    } else if s.state == SessionState::Closing {
        (
            SessionS {
                state: SessionState::Closed,
                last_heartbeat_ms: s.last_heartbeat_ms,
                credentials: None,
            },
            Seq::empty(),
        )
    } else {
        (s, Seq::empty())
    }
}

impl Session {
    /// A fresh session: idle, with the heartbeat clock set to now.
    pub fn new(now_ms: u64) -> (r: Session)
        ensures
            r@.state == SessionState::Idle,
            r@.last_heartbeat_ms == now_ms,
            r@.credentials is None,
            r@.inv(),
    {
        Session { state: SessionState::Idle, last_heartbeat_ms: now_ms, credentials: None }
    }

    /// The session's lifecycle state.
    pub fn state(&self) -> (r: SessionState)
        ensures
            r == self@.state,
    {
        self.state
    }

    /// A sign of life arrived — a ping, a pong or any frame: the heartbeat
    /// clock is wound forward.
    pub fn record_activity(&mut self, now_ms: u64)
        ensures
            final(self)@ == (SessionS {
                last_heartbeat_ms: now_ms,
                ..old(self)@
            }),
            old(self)@.inv() ==> final(self)@.inv(),
    {
        self.last_heartbeat_ms = now_ms;
    }

    /// Handles one inbound text frame, exactly as [`spec_handle_text`]
    /// describes.
    pub fn handle_text(&mut self, text: &str) -> (r: Step)
        requires
            old(self)@.inv(),
        ensures
            final(self)@.inv(),
            ({
                let step = spec_handle_text(old(self)@, text@);
                &&& final(self)@ == step.state
                &&& frames_view(r.frames@) == step.frames
                &&& commands_view(r.commands@) == step.commands
                &&& match (r.connect, step.connect) {
                    (Some(cr), Some((c, cols, rows))) => cr.credentials@ == c && cr.cols == cols
                        && cr.rows == rows,
                    (None, None) => true,
                    _ => false,
                }
            }),
    {
        let parsed = classify_text(text);
        match parsed {
            InboundText::Empty => {
                let r = Step { frames: Vec::new(), commands: Vec::new(), connect: None };
                proof {
                    let step = spec_handle_text(old(self)@, text@);
                    assert(frames_view(r.frames@) =~= step.frames);
                    assert(commands_view(r.commands@) =~= step.commands);
                }
                r
            },
            InboundText::Control(ClientMessage::Connect { credentials, col_width, row_height }) => {
                if self.state == SessionState::Idle {
                    self.state = SessionState::Connecting;
                    let kept = SshCredentials {
                        hostname: credentials.hostname.clone(),
                        port: credentials.port,
                        username: credentials.username.clone(),
                        password: credentials.password.clone(),
                    };
                    self.credentials = Some(kept);
                    let cols: u32 = match col_width {
                        Some(w) => w,
                        None => 80,
                    };
                    let rows: u32 = match row_height {
                        Some(h) => h,
                        None => 24,
                    };
                    let r = Step {
                        frames: Vec::new(),
                        commands: Vec::new(),
                        connect: Some(ConnectRequest { credentials, cols, rows }),
                    };
                    proof {
                        let step = spec_handle_text(old(self)@, text@);
                        assert(frames_view(r.frames@) =~= step.frames);
                        assert(commands_view(r.commands@) =~= step.commands);
                    }
                    r
                } else {
                    let mut frames: Vec<String> = Vec::new();
                    frames.push(error_frame("已有活跃的SSH连接，请先断开"));
                    let r = Step { frames, commands: Vec::new(), connect: None };
                    proof {
                        let step = spec_handle_text(old(self)@, text@);
                        assert(frames_view(r.frames@) =~= step.frames);
                        assert(commands_view(r.commands@) =~= step.commands);
                    }
                    r
                }
            },
            InboundText::Control(ClientMessage::Input { data }) => self.input_step(data.as_str()),
            InboundText::Control(ClientMessage::Resize { width, height }) => {
                if self.state == SessionState::Connected {
                    let mut commands: Vec<PtyCommand> = Vec::new();
                    commands.push(PtyCommand::Resize { width, height });
                    let r = Step { frames: Vec::new(), commands, connect: None };
                    proof {
                        let step = spec_handle_text(old(self)@, text@);
                        assert(frames_view(r.frames@) =~= step.frames);
                        assert(commands_view(r.commands@) =~= step.commands);
                    }
                    r
                } else {
                    let mut frames: Vec<String> = Vec::new();
                    frames.push(error_frame("SSH连接未建立"));
                    let r = Step { frames, commands: Vec::new(), connect: None };
                    proof {
                        let step = spec_handle_text(old(self)@, text@);
                        assert(frames_view(r.frames@) =~= step.frames);
                        assert(commands_view(r.commands@) =~= step.commands);
                    }
                    r
                }
            },
            InboundText::Control(ClientMessage::Disconnect) => {
                let was_connected = self.state == SessionState::Connected;
                self.state = if was_connected {
                    SessionState::Closing
                } else {
                    SessionState::Closed
                };
                self.credentials = None;
                let mut frames: Vec<String> = Vec::new();
                frames.push(disconnected_frame());
                let mut commands: Vec<PtyCommand> = Vec::new();
                if was_connected {
                    commands.push(PtyCommand::Close);
                }
                let r = Step { frames, commands, connect: None };
                proof {
                    let step = spec_handle_text(old(self)@, text@);
                    assert(frames_view(r.frames@) =~= step.frames);
                    assert(commands_view(r.commands@) =~= step.commands);
                }
                r
            },
            InboundText::Raw(raw) => self.input_step(raw.as_str()),
        }
    }

    /// Forwards terminal input to the bridge when connected; answers an
    /// error frame when not.
    fn input_step(&mut self, data: &str) -> (r: Step)
        ensures
            ({
                let step = spec_input_step(old(self)@, vstd::utf8::encode_utf8(data@));
                &&& final(self)@ == step.state
                &&& *final(self) == *old(self)
                &&& frames_view(r.frames@) == step.frames
                &&& commands_view(r.commands@) == step.commands
                &&& r.connect is None
            }),
    {
        if self.state == SessionState::Connected {
            let bytes = data.as_bytes_vec();
            let mut commands: Vec<PtyCommand> = Vec::new();
            commands.push(PtyCommand::Write(bytes));
            let r = Step { frames: Vec::new(), commands, connect: None };
            proof {
                let step = spec_input_step(old(self)@, vstd::utf8::encode_utf8(data@));
                assert(frames_view(r.frames@) =~= step.frames);
                assert(commands_view(r.commands@) =~= step.commands);
            }
            r
        } else {
            let mut frames: Vec<String> = Vec::new();
            frames.push(error_frame("SSH连接未建立"));
            let r = Step { frames, commands: Vec::new(), connect: None };
            proof {
                let step = spec_input_step(old(self)@, vstd::utf8::encode_utf8(data@));
                assert(frames_view(r.frames@) =~= step.frames);
                assert(commands_view(r.commands@) =~= step.commands);
            }
            r
        }
    }

    /// Handles one inbound binary frame: the bytes are decoded leniently
    /// as text and handled exactly like a text frame.
    pub fn handle_binary(&mut self, data: &Vec<u8>) -> (r: Step)
        requires
            old(self)@.inv(),
        ensures
            final(self)@.inv(),
            ({
                let step = spec_handle_text(old(self)@, lossy_decode(data@));
                &&& final(self)@ == step.state
                &&& frames_view(r.frames@) == step.frames
                &&& commands_view(r.commands@) == step.commands
                &&& match (r.connect, step.connect) {
                    (Some(cr), Some((c, cols, rows))) => cr.credentials@ == c && cr.cols == cols
                        && cr.rows == rows,
                    (None, None) => true,
                    _ => false,
                }
            }),
    {
        let text = utf8_lossy(data);
        self.handle_text(text.as_str())
    }

    /// One heartbeat probe, exactly as [`spec_tick`] describes: a lapsed
    /// peer gets exactly one `disconnected` frame and the session closes for
    /// good; otherwise a ping goes out.
    pub fn heartbeat_tick(&mut self, now_ms: u64) -> (r: TickAction)
        requires
            old(self)@.inv(),
        ensures
            final(self)@.inv(),
            final(self)@ == spec_tick(old(self)@, now_ms).0,
            r@ == spec_tick(old(self)@, now_ms).1,
    {
        if self.state == SessionState::Closed {
            return TickAction::Stopped;
        }
        let lapsed = now_ms > self.last_heartbeat_ms && now_ms - self.last_heartbeat_ms
            > CLIENT_TIMEOUT_MS;
        if lapsed {
            let close_transport = self.state == SessionState::Connected;
            self.state = SessionState::Closed;
            self.credentials = None;
            TickAction::Timeout { frame: disconnected_frame(), close_transport }
        } else {
            TickAction::Ping
        }
    }

    /// Takes the outcome of the connect attempt: on success the session is
    /// connected and announces it; on failure it returns to `Idle` with
    /// exactly one error frame, ready for another attempt.
    pub fn on_connect_result(&mut self, ok: bool, message: &str) -> (r: Vec<String>)
        requires
            old(self)@.inv(),
            old(self)@.state == SessionState::Connecting,
        ensures
            final(self)@.inv(),
            final(self)@ == spec_connect_result(old(self)@, ok, message@).0,
            frames_view(r@) == spec_connect_result(old(self)@, ok, message@).1,
    {
        if ok {
            let c = match &self.credentials {
                Some(c) => c,
                None => {
                    proof {
                        assert(false);
                    }
                    unreached()
                },
            };
            let frame = connected_frame(c.hostname.as_str(), c.port, c.username.as_str());
            self.state = SessionState::Connected;
            let mut r: Vec<String> = Vec::new();
            r.push(frame);
            proof {
                assert(frames_view(r@) =~= spec_connect_result(old(self)@, ok, message@).1);
            }
            r
        } else {
            self.state = SessionState::Idle;
            self.credentials = None;
            let mut r: Vec<String> = Vec::new();
            r.push(error_frame(message));
            proof {
                assert(frames_view(r@) =~= spec_connect_result(old(self)@, ok, message@).1);
            }
            r
        }
    }

    /// Wraps one chunk of shell output into an `output` frame; the bytes
    /// pass through unmodified, decoded leniently as text.
    pub fn on_output(&self, data: &Vec<u8>) -> (r: String)
        ensures
            r@ == spec_output_frame(lossy_decode(data@)),
    {
        let text = utf8_lossy(data);
        output_frame(text.as_str())
    }

    /// The bridge reported closure — the remote shell exited or the
    /// transport failed: a session that believed itself connected emits
    /// exactly one `disconnected` frame; one already closing just closes.
    pub fn on_bridge_closed(&mut self) -> (r: Vec<String>)
        requires
            old(self)@.inv(),
        ensures
            final(self)@.inv(),
            final(self)@ == spec_bridge_closed(old(self)@).0,
            frames_view(r@) == spec_bridge_closed(old(self)@).1,
    {
        if self.state == SessionState::Connected {
            self.state = SessionState::Closed;
            self.credentials = None;
            let mut r: Vec<String> = Vec::new();
            r.push(disconnected_frame());
            proof {
                assert(frames_view(r@) =~= spec_bridge_closed(old(self)@).1);
            }
            r
        } else if self.state == SessionState::Closing {
            self.state = SessionState::Closed;
            self.credentials = None;
            let r: Vec<String> = Vec::new();
            proof {
                assert(frames_view(r@) =~= spec_bridge_closed(old(self)@).1);
            }
            r
        } else {
            let r: Vec<String> = Vec::new();
            proof {
                assert(frames_view(r@) =~= spec_bridge_closed(old(self)@).1);
            }
            r
        }
    }
}

/// A lapsed heartbeat closes the session with exactly one `disconnected`
/// frame; after that, every further probe is silent and any further
/// terminal input is answered with exactly one `error` frame — never a
/// crash, never a second `disconnected`.
pub proof fn lemma_timeout_once(s: SessionS, now_ms: u64, later_ms: u64, t: Seq<char>)
    requires
        s.state != SessionState::Closed,
        spec_timeout_due(s, now_ms),
        spec_classify(t) is Raw || (spec_classify(t) matches InboundTextS::Control(
            ClientMessageS::Input { .. },
        )),
    ensures
        spec_tick(s, now_ms).1 == (TickActionS::Timeout {
            frame: spec_disconnected_frame(),
            close_transport: s.state == SessionState::Connected,
        }),
        spec_tick(s, now_ms).0.state == SessionState::Closed,
        spec_tick(spec_tick(s, now_ms).0, later_ms).1 is Stopped,
        spec_handle_text(spec_tick(s, now_ms).0, t).frames =~= seq![
            spec_error_frame("SSH连接未建立"@),
        ],
        spec_handle_text(spec_tick(s, now_ms).0, t).state.state == SessionState::Closed,
{
}

/// A rejected connect leaves the session in `Idle` with exactly one `error`
/// frame, and a subsequent well-formed `connect` is accepted: it starts a
/// new attempt and is answered with no error frame.
pub proof fn lemma_failed_connect_allows_retry(
    s: SessionS,
    message: Seq<char>,
    t: Seq<char>,
    c: SshCredentialsS,
    cw: Option<u32>,
    rh: Option<u32>,
)
    requires
        s.inv(),
        s.state == SessionState::Connecting,
        spec_classify(t) == InboundTextS::Control(
            ClientMessageS::Connect { credentials: c, col_width: cw, row_height: rh },
        ),
    ensures
        spec_connect_result(s, false, message).1 =~= seq![spec_error_frame(message)],
        spec_connect_result(s, false, message).0.state == SessionState::Idle,
        spec_handle_text(spec_connect_result(s, false, message).0, t).connect is Some,
        spec_handle_text(spec_connect_result(s, false, message).0, t).frames =~= Seq::<
            Seq<char>,
        >::empty(),
        spec_handle_text(spec_connect_result(s, false, message).0, t).state.state
            == SessionState::Connecting,
{
}

/// When the remote shell exits — end of file on the channel — a connected
/// session emits exactly one `disconnected` frame and closes, without the
/// client having sent `disconnect`.
pub proof fn lemma_eof_disconnects(s: SessionS)
    requires
        s.state == SessionState::Connected,
    ensures
        spec_bridge_closed(s).1 =~= seq![spec_disconnected_frame()],
        spec_bridge_closed(s).0.state == SessionState::Closed,
{
}

} // verus!
