use vstd::prelude::*;
use crate::error::KvmError;

verus! {

/// How the session negotiates its RTC transport: over the trickled
/// WebSocket exchange, over the single-shot legacy POST, or trying the
/// WebSocket first and falling back to legacy.
#[derive(Clone, Copy, Debug, PartialEq, Eq, Structural)]
pub enum SignalingMethod {
    Auto,
    Legacy,
    WebSocket,
}

impl Default for SignalingMethod {
    fn default() -> (r: Self)
        ensures
            r == SignalingMethod::Auto,
    {
        SignalingMethod::Auto
    }
}

/// Connection settings of one appliance: where to reach it and how to
/// authenticate and sign off.
#[derive(Debug, Clone)]
pub struct JetKvmConfig {
    pub host: String,
    pub port: String,
    pub api: String,
    pub password: String,
    pub ca_cert_path: String,
    pub no_auto_logout: bool,
}

impl Default for JetKvmConfig {
    fn default() -> (r: Self)
        ensures
            r.host@ == Seq::<char>::empty(),
            r.port@ == "80"@,
            r.api@ == "/webrtc/session"@,
            r.password@ == Seq::<char>::empty(),
            r.ca_cert_path@ == "cert.pem"@,
            !r.no_auto_logout,
    {
        JetKvmConfig {
            host: String::new(),
            port: "80".to_owned(),
            api: "/webrtc/session".to_owned(),
            password: String::new(),
            ca_cert_path: "cert.pem".to_owned(),
            no_auto_logout: false,
        }
    }
}

impl JetKvmConfig {
    /// The URL of the legacy SDP exchange endpoint.
    pub fn session_url(&self) -> (r: String)
        ensures
            r@ == "http://"@ + self.host@ + ":"@ + self.port@ + self.api@,
    {
        let mut s = String::new();
        s.append("http://");
        s.append(self.host.as_str());
        s.append(":");
        s.append(self.port.as_str());
        s.append(self.api.as_str());
        proof {
            assert(s@ =~= "http://"@ + self.host@ + ":"@ + self.port@ + self.api@);
        }
        s
    }

    /// Whether the HTTP login request is made at all: a blank password
    /// selects an anonymous session and skips it.
    pub fn needs_login(&self) -> (r: bool)
        ensures
            r == (self.password@.len() != 0),
    {
        !self.password.as_str().is_empty()
    }
}

/// Classifies the HTTP login answer: any 2xx status retains the session,
/// anything else is `AuthFailed` carrying the status.
pub fn classify_login_status(status: u16) -> (r: Result<(), KvmError>)
    ensures
        (200 <= status < 300) ==> r == Ok::<(), KvmError>(()),
        !(200 <= status < 300) ==> r == Err::<(), KvmError>(KvmError::AuthFailed(status)),
{
    if 200 <= status && status < 300 {
        Ok(())
    } else {
        Err(KvmError::AuthFailed(status))
    }
}

/// The lifecycle of one session.
#[derive(Clone, Copy, Debug, PartialEq, Eq, Structural)]
pub enum SessionState {
    New,
    Authenticating,
    Signalling,
    Open,
    Closing,
    Closed,
}

/// What the facade observes while driving a session.
#[derive(Clone, Copy, Debug, PartialEq, Eq, Structural)]
pub enum SessionEvent {
    StartConnect,
    AuthOk,
    AuthRejected(u16),
    StreamOpen,
    SignallingFailed,
    StreamClosed,
    StartShutdown,
    ShutdownDone,
}

/// The state a session moves to on an event, with the error surfaced to
/// the caller, if any.
pub open spec fn spec_session_step(s: SessionState, e: SessionEvent) -> (
    SessionState,
    Option<KvmError>,
) {
    match (s, e) {
        (SessionState::New, SessionEvent::StartConnect) => (SessionState::Authenticating, None),
        (SessionState::Authenticating, SessionEvent::AuthOk) => (SessionState::Signalling, None),
        (SessionState::Authenticating, SessionEvent::AuthRejected(st)) => (
            SessionState::Closed,
            Some(KvmError::AuthFailed(st)),
        ),
        (SessionState::Signalling, SessionEvent::StreamOpen) => (SessionState::Open, None),
        (SessionState::Signalling, SessionEvent::SignallingFailed) => (
            SessionState::Closed,
            Some(KvmError::SignallingTransport),
        ),
        (SessionState::Open, SessionEvent::StreamClosed) => (
            SessionState::Closed,
            Some(KvmError::ChannelClosed),
        ),
        (SessionState::Open, SessionEvent::StartShutdown) => (SessionState::Closing, None),
        (SessionState::Closing, SessionEvent::ShutdownDone) => (SessionState::Closed, None),
        (SessionState::Closed, SessionEvent::StartShutdown) => (SessionState::Closed, None),
        (SessionState::Closing, SessionEvent::StartShutdown) => (SessionState::Closing, None),
        _ => (s, Some(KvmError::ConfigInvalid)),
    }
}

/// Advances the session lifecycle by one event, exactly as
/// `spec_session_step` lays it out. Authentication and signalling
/// failures are terminal for the session (state `Closed`); shutdown is
/// idempotent; an event that the current state does not accept leaves it
/// unchanged and surfaces `ConfigInvalid`.
pub fn session_step(s: SessionState, e: SessionEvent) -> (r: (SessionState, Option<KvmError>))
    ensures
        r == spec_session_step(s, e),
{
    match (s, e) {
        (SessionState::New, SessionEvent::StartConnect) => (SessionState::Authenticating, None),
        (SessionState::Authenticating, SessionEvent::AuthOk) => (SessionState::Signalling, None),
        (SessionState::Authenticating, SessionEvent::AuthRejected(st)) => (
            SessionState::Closed,
            Some(KvmError::AuthFailed(st)),
        ),
        (SessionState::Signalling, SessionEvent::StreamOpen) => (SessionState::Open, None),
        (SessionState::Signalling, SessionEvent::SignallingFailed) => (
            SessionState::Closed,
            Some(KvmError::SignallingTransport),
        ),
        (SessionState::Open, SessionEvent::StreamClosed) => (
            SessionState::Closed,
            Some(KvmError::ChannelClosed),
        ),
        (SessionState::Open, SessionEvent::StartShutdown) => (SessionState::Closing, None),
        (SessionState::Closing, SessionEvent::ShutdownDone) => (SessionState::Closed, None),
        (SessionState::Closed, SessionEvent::StartShutdown) => (SessionState::Closed, None),
        (SessionState::Closing, SessionEvent::StartShutdown) => (SessionState::Closing, None),
        _ => (s, Some(KvmError::ConfigInvalid)),
    }
}

/// Whether a connect attempt opens with the WebSocket exchange.
pub fn tries_websocket_first(m: SignalingMethod) -> (r: bool)
    ensures
        r == (m == SignalingMethod::Auto || m == SignalingMethod::WebSocket),
{
    match m {
        SignalingMethod::Auto => true,
        SignalingMethod::WebSocket => true,
        SignalingMethod::Legacy => false,
    }
}

/// Whether a WebSocket failure falls back to the legacy exchange: only in
/// `Auto` mode, and only for a failure before the primary stream opened.
pub fn falls_back_to_legacy(m: SignalingMethod, failed_before_open: bool) -> (r: bool)
    ensures
        r == (m == SignalingMethod::Auto && failed_before_open),
{
    match m {
        SignalingMethod::Auto => failed_before_open,
        _ => false,
    }
}

/// One step of the WebSocket signalling exchange, seen from the client.
#[derive(Clone, Copy, Debug, PartialEq, Eq, Structural)]
pub enum WsPhase {
    AwaitMetadata,
    AwaitAnswer,
    Streaming,
}

/// A frame kind arriving on the signalling socket.
#[derive(Clone, Copy, Debug, PartialEq, Eq, Structural)]
pub enum WsFrame {
    DeviceMetadata,
    Offer,
    Answer,
    NewIceCandidate,
}

/// What the WebSocket driver must do after a frame.
#[derive(Clone, Copy, Debug, PartialEq, Eq, Structural)]
pub enum WsAction {
    SendOffer,
    ApplyAnswer,
    AddCandidate,
    Ignore,
}

/// The WebSocket handshake rule: the first frame must be
/// `device-metadata` (then the offer goes out), the next awaited frame
/// must be the answer, and from then on only trickled ICE candidates are
/// acted on; candidates arriving while the answer is awaited are added
/// too. Any other frame in the two handshake phases is a protocol error.
pub open spec fn spec_ws_step(p: WsPhase, f: WsFrame) -> Result<(WsPhase, WsAction), KvmError> {
    match (p, f) {
        (WsPhase::AwaitMetadata, WsFrame::DeviceMetadata) => Ok(
            (WsPhase::AwaitAnswer, WsAction::SendOffer),
        ),
        (WsPhase::AwaitMetadata, _) => Err(KvmError::SignallingProtocol),
        (WsPhase::AwaitAnswer, WsFrame::Answer) => Ok((WsPhase::Streaming, WsAction::ApplyAnswer)),
        (WsPhase::AwaitAnswer, WsFrame::NewIceCandidate) => Ok(
            (WsPhase::AwaitAnswer, WsAction::AddCandidate),
        ),
        (WsPhase::AwaitAnswer, _) => Err(KvmError::SignallingProtocol),
        (WsPhase::Streaming, WsFrame::NewIceCandidate) => Ok(
            (WsPhase::Streaming, WsAction::AddCandidate),
        ),
        (WsPhase::Streaming, _) => Ok((WsPhase::Streaming, WsAction::Ignore)),
    }
}

/// Advances the WebSocket signalling exchange by one inbound frame,
/// exactly as `spec_ws_step` lays it out.
pub fn ws_step(p: WsPhase, f: WsFrame) -> (r: Result<(WsPhase, WsAction), KvmError>)
    ensures
        r == spec_ws_step(p, f),
{
    match (p, f) {
        (WsPhase::AwaitMetadata, WsFrame::DeviceMetadata) => Ok(
            (WsPhase::AwaitAnswer, WsAction::SendOffer),
        ),
        (WsPhase::AwaitMetadata, _) => Err(KvmError::SignallingProtocol),
        (WsPhase::AwaitAnswer, WsFrame::Answer) => Ok((WsPhase::Streaming, WsAction::ApplyAnswer)),
        (WsPhase::AwaitAnswer, WsFrame::NewIceCandidate) => Ok(
            (WsPhase::AwaitAnswer, WsAction::AddCandidate),
        ),
        (WsPhase::AwaitAnswer, _) => Err(KvmError::SignallingProtocol),
        (WsPhase::Streaming, WsFrame::NewIceCandidate) => Ok(
            (WsPhase::Streaming, WsAction::AddCandidate),
        ),
        (WsPhase::Streaming, _) => Ok((WsPhase::Streaming, WsAction::Ignore)),
    }
}

} // verus!
