//! The client-side session mirror: it follows the server's phases from the
//! responses arriving on `recv`, merges the capability dictionary into the
//! local stream configuration, and decides the next protocol-advancing
//! request — at most one in flight at a time.

use crate::broker::{ChannelEdcsRequest, ChannelEdcsResponse, ChannelRequestView,
    ChannelResponseView};
use crate::config::{clone_dict, ConnectionConfig, ConnectionConfigView, StreamConfigView};
use crate::schema::{EdcsResponsePayload, EdcsStatus, ResponsePayloadView};
use vstd::prelude::*;

verus! {

/// The mirror's phase: which step of the session setup the client is at.
#[derive(Clone, Copy, Debug, PartialEq, Eq, Structural)]
pub enum MirrorPhase {
    Idle,
    Connecting,
    AwaitSetupEdcs,
    AwaitSetupStream,
    Handoff,
}

/// Mathematical view of the mirror.
pub struct MirrorView {
    pub connection_config: Option<ConnectionConfigView>,
    pub phase: MirrorPhase,
    pub pending_recv: bool,
    pub sdp: Option<Seq<char>>,
}

/// What one response on `recv` does to the mirror.
pub open spec fn spec_mirror_after_response(m: MirrorView, r: ChannelResponseView) -> MirrorView {
    let m0 = MirrorView { pending_recv: false, ..m };
    match r {
        ChannelResponseView::EdcsClientInitialised => MirrorView {
            phase: MirrorPhase::AwaitSetupEdcs,
            ..m0
        },
        ChannelResponseView::EdcsClientInitError(_) => MirrorView {
            phase: MirrorPhase::Idle,
            ..m0
        },
        ChannelResponseView::InvalidClient => m0,
        ChannelResponseView::EdcsResponse(res) => match res {
            Err(_) => m0,
            Ok(resp) => {
                if resp.status != EdcsStatus::EdcsOk {
                    MirrorView { phase: MirrorPhase::Idle, ..m0 }
                } else {
                    match resp.payload {
                        Some(ResponsePayloadView::SetupEdcsData(dict)) => {
                            let cc2 = match m0.connection_config {
                                Some(cc) => Some(
                                    ConnectionConfigView {
                                        stream_config: StreamConfigView {
                                            cal_plugin_params: dict,
                                            ..cc.stream_config
                                        },
                                        ..cc
                                    },
                                ),
                                None => None,
                            };
                            MirrorView {
                                phase: MirrorPhase::AwaitSetupStream,
                                connection_config: cc2,
                                ..m0
                            }
                        },
                        Some(ResponsePayloadView::SetupStreamData(_, sdp)) => MirrorView {
                            phase: MirrorPhase::Handoff,
                            sdp: Some(sdp),
                            ..m0
                        },
                        _ => m0,
                    }
                }
            },
        },
    }
}

/// The next protocol-advancing request the mirror emits, if any, and the
/// mirror afterwards: nothing while one is already in flight.
pub open spec fn spec_mirror_next_request(m: MirrorView) -> (
    MirrorView,
    Option<ChannelRequestView>,
) {
    if m.pending_recv {
        (m, None)
    } else {
        match m.connection_config {
            None => (m, None),
            Some(cc) => match m.phase {
                MirrorPhase::Connecting => (
                    MirrorView { pending_recv: true, ..m },
                    Some(ChannelRequestView::NewClient(cc.client_config)),
                ),
                MirrorPhase::AwaitSetupEdcs => (
                    MirrorView { pending_recv: true, ..m },
                    Some(
                        ChannelRequestView::SetupEdcs {
                            bitrate: cc.stream_config.bitrate,
                            framerate: cc.stream_config.framerate,
                        },
                    ),
                ),
                MirrorPhase::AwaitSetupStream => (
                    MirrorView { pending_recv: true, ..m },
                    Some(ChannelRequestView::SetupStream(cc.stream_config.cal_plugin_params)),
                ),
                _ => (m, None),
            },
        }
    }
}

/// View of an optional broker request.
pub open spec fn view_opt_request(r: Option<ChannelEdcsRequest>) -> Option<ChannelRequestView> {
    match r {
        Some(req) => Some(req@),
        None => None,
    }
}

/// The client's mirror of the server session.
pub struct ClientMirror {
    connection_config: Option<ConnectionConfig>,
    phase: MirrorPhase,
    pending_recv: bool,
    sdp: Option<String>,
}

impl View for ClientMirror {
    type V = MirrorView;

    closed spec fn view(&self) -> MirrorView {
        MirrorView {
            connection_config: match &self.connection_config {
                Some(c) => Some(c@),
                None => None,
            },
            phase: self.phase,
            pending_recv: self.pending_recv,
            sdp: match &self.sdp {
                Some(s) => Some(s@),
                None => None,
            },
        }
    }
}

impl ClientMirror {
    /// A mirror with no connection underway.
    pub fn new() -> (r: ClientMirror)
        ensures
            r@.phase == MirrorPhase::Idle,
            !r@.pending_recv,
            r@.connection_config is None,
            r@.sdp is None,
    {
        ClientMirror { connection_config: None, phase: MirrorPhase::Idle, pending_recv: false, sdp: None }
    }

    /// The phase the mirror is at.
    pub fn phase(&self) -> (r: MirrorPhase)
        ensures
            r == self@.phase,
    {
        self.phase
    }

    /// Whether a protocol-advancing request is in flight.
    pub fn pending_recv(&self) -> (r: bool)
        ensures
            r == self@.pending_recv,
    {
        self.pending_recv
    }

    /// The SDP string handed off after stream setup, once present.
    pub fn sdp(&self) -> (r: Option<String>)
        ensures
            match r {
                Some(s) => self@.sdp == Some(s@),
                None => self@.sdp is None,
            },
    {
        match &self.sdp {
            Some(s) => Some(s.clone()),
            None => None,
        }
    }

    /// Begin a connection attempt with this configuration.
    pub fn connect(&mut self, cfg: ConnectionConfig)
        ensures
            final(self)@ == (MirrorView {
                connection_config: Some(cfg@),
                phase: MirrorPhase::Connecting,
                ..old(self)@
            }),
    {
        self.connection_config = Some(cfg);
        self.phase = MirrorPhase::Connecting;
    }

    /// Advance the mirror on one response from `recv`.
    pub fn handle_response(&mut self, resp: &ChannelEdcsResponse)
        ensures
            final(self)@ == spec_mirror_after_response(old(self)@, resp@),
    {
        self.pending_recv = false;
        match resp {
            ChannelEdcsResponse::EdcsClientInitialised => {
                self.phase = MirrorPhase::AwaitSetupEdcs;
            },
            ChannelEdcsResponse::EdcsClientInitError(_) => {
                self.phase = MirrorPhase::Idle;
            },
            ChannelEdcsResponse::InvalidClient => {},
            ChannelEdcsResponse::EdcsResponse(res) => match res {
                Err(_) => {},
                Ok(r) => {
                    let ok = match r.status {
                        EdcsStatus::EdcsOk => true,
                        _ => false,
                    };
                    if !ok {
                        self.phase = MirrorPhase::Idle;
                    } else {
                        match &r.payload {
                            Some(EdcsResponsePayload::SetupEdcsData(d)) => {
                                match &mut self.connection_config {
                                    Some(cc) => {
                                        cc.stream_config.cal_plugin_params = clone_dict(
                                            &d.cal_option_dict,
                                        );
                                    },
                                    None => {},
                                }
                                self.phase = MirrorPhase::AwaitSetupStream;
                            },
                            Some(EdcsResponsePayload::SetupStreamData(d)) => {
                                self.sdp = Some(d.sdp.clone());
                                self.phase = MirrorPhase::Handoff;
                            },
                            _ => {},
                        }
                    }
                },
            },
        }
    }

    /// The next protocol-advancing request to push, marking it in flight;
    /// nothing while one already is.
    pub fn next_request(&mut self) -> (r: Option<ChannelEdcsRequest>)
        ensures
            (final(self)@, view_opt_request(r)) == spec_mirror_next_request(old(self)@),
    {
        if self.pending_recv {
            return None;
        }
        match &self.connection_config {
            None => None,
            Some(cc) => match self.phase {
                MirrorPhase::Connecting => {
                    self.pending_recv = true;
                    Some(ChannelEdcsRequest::NewClient(cc.client_config.duplicate()))
                },
                MirrorPhase::AwaitSetupEdcs => {
                    self.pending_recv = true;
                    Some(
                        ChannelEdcsRequest::SetupEdcs {
                            bitrate: cc.stream_config.bitrate,
                            framerate: cc.stream_config.framerate,
                        },
                    )
                },
                MirrorPhase::AwaitSetupStream => {
                    self.pending_recv = true;
                    Some(
                        ChannelEdcsRequest::SetupStream(
                            clone_dict(&cc.stream_config.cal_plugin_params),
                        ),
                    )
                },
                _ => None,
            },
        }
    }
}

/// The response that marks the stream as started: a successful reply with
/// no payload, the answer to `StartStream`.
pub open spec fn spec_stream_start_response(r: ChannelResponseView) -> bool {
    match r {
        ChannelResponseView::EdcsResponse(res) => match res {
            Ok(resp) => resp.payload is None,
            Err(_) => false,
        },
        _ => false,
    }
}

/// After handoff, the control bar gates the stream start: it asks for
/// `StartStream` while the decoder is ready and the stream has not yet
/// started, and marks the stream started — the signal to begin decoding —
/// when the bare success response arrives.
pub struct ControlBarState {
    stream_started: bool,
}

impl View for ControlBarState {
    type V = bool;

    closed spec fn view(&self) -> bool {
        self.stream_started
    }
}

impl ControlBarState {
    /// The stream has not been started yet.
    pub fn new() -> (r: ControlBarState)
        ensures
            !r@,
    {
        ControlBarState { stream_started: false }
    }

    /// Whether the stream has started.
    pub fn stream_started(&self) -> (r: bool)
        ensures
            r == self@,
    {
        self.stream_started
    }

    /// Whether to push `StartStream` now: only while the decoder is ready
    /// and the stream has not started.
    pub fn should_request_start(&self, decoder_ready: bool) -> (r: bool)
        ensures
            r == (!self@ && decoder_ready),
    {
        !self.stream_started && decoder_ready
    }

    /// Note one response from `recv`: the stream counts as started once the
    /// bare success response has been seen.
    pub fn handle_response(&mut self, resp: &ChannelEdcsResponse)
        ensures
            final(self)@ == (old(self)@ || spec_stream_start_response(resp@)),
    {
        match resp {
            ChannelEdcsResponse::EdcsResponse(res) => match res {
                Ok(r) => {
                    if r.payload.is_none() {
                        self.stream_started = true;
                    }
                },
                Err(_) => {},
            },
            _ => {},
        }
    }
}

/// Law: while a protocol-advancing request is in flight, the mirror emits
/// nothing further; input events do not pass through the mirror at all, so
/// the pending flag never holds them back.
pub proof fn lemma_pending_blocks_requests(m: MirrorView)
    requires
        m.pending_recv,
    ensures
        spec_mirror_next_request(m) == (m, None::<ChannelRequestView>),
{
}

} // verus!
