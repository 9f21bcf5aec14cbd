//! The server-side session: one per accepted connection, owning at most one
//! adapter and enforcing the phase ordering setup, stream setup, start,
//! input events, close.
//!
//! The session never calls the CAL backend itself. Handling a message either
//! answers at once or names the one backend action the dispatcher must
//! perform; the dispatcher then feeds the outcome back, and the session
//! advances and produces the response. Illegal transitions are answered with
//! their status code and change nothing.

use crate::adapter::{base64_of, is_srtp_out_params, spec_map_mouse_event, spec_stream_setup_of,
    AdapterView, EdssAdapter, EdssError, EdssMouseEvent, EdssStreamConfig, StreamSetupView};
use crate::config::{clone_dict, EdcsConfig, EdssConfigView};
use crate::schema::{EdcsKeyData, EdcsMessage, EdcsMessagePayload, EdcsMessageType, EdcsResponse,
    EdcsResponsePayload, EdcsSetupEdcsData, EdcsSetupStreamData, EdcsStatus, EdcsStreamParams,
    MessagePayloadView, MessageView, ResponsePayloadView, ResponseView};
use vstd::prelude::*;

verus! {

/// The session lifecycle.
#[derive(Clone, Copy, Debug, PartialEq, Eq, Structural)]
pub enum Phase {
    Fresh,
    AdapterInitialised,
    StreamConfigured,
    Streaming,
    Closed,
}

/// One call the dispatcher must make into the CAL backend.
#[derive(Debug)]
pub enum BackendAction {
    OpenCal { plugin_name: String, bitrate: u32, framerate: u32 },
    InitServer(EdssStreamConfig),
    StartStream,
    CloseStream,
    UpdateStream(EdssStreamConfig),
    WriteMouse(EdssMouseEvent),
    WriteKeyboard(EdcsKeyData),
}

/// Mathematical view of a backend action.
pub enum BackendActionView {
    OpenCal { plugin_name: Seq<char>, bitrate: u32, framerate: u32 },
    InitServer(StreamSetupView),
    StartStream,
    CloseStream,
    UpdateStream(StreamSetupView),
    WriteMouse(EdssMouseEvent),
    WriteKeyboard(EdcsKeyData),
}

impl View for BackendAction {
    type V = BackendActionView;

    open spec fn view(&self) -> BackendActionView {
        match self {
            BackendAction::OpenCal { plugin_name, bitrate, framerate } => {
                BackendActionView::OpenCal {
                    plugin_name: plugin_name@,
                    bitrate: *bitrate,
                    framerate: *framerate,
                }
            },
            BackendAction::InitServer(c) => BackendActionView::InitServer(c@),
            BackendAction::StartStream => BackendActionView::StartStream,
            BackendAction::CloseStream => BackendActionView::CloseStream,
            BackendAction::UpdateStream(c) => BackendActionView::UpdateStream(c@),
            BackendAction::WriteMouse(e) => BackendActionView::WriteMouse(*e),
            BackendAction::WriteKeyboard(k) => BackendActionView::WriteKeyboard(*k),
        }
    }
}

/// What came back from one backend call.
#[derive(Debug)]
pub enum BackendOutcome {
    OpenedCal { cal_option_dict: Vec<(String, String)> },
    InitialisedServer { sdp: String },
    Done,
    Failed(EdssError),
}

/// Mathematical view of a backend outcome.
pub enum BackendOutcomeView {
    OpenedCal { cal_option_dict: Seq<(Seq<char>, Seq<char>)> },
    InitialisedServer { sdp: Seq<char> },
    Done,
    Failed(EdssError),
}

impl View for BackendOutcome {
    type V = BackendOutcomeView;

    open spec fn view(&self) -> BackendOutcomeView {
        match self {
            BackendOutcome::OpenedCal { cal_option_dict } => BackendOutcomeView::OpenedCal {
                cal_option_dict: cal_option_dict.deep_view(),
            },
            BackendOutcome::InitialisedServer { sdp } => BackendOutcomeView::InitialisedServer {
                sdp: sdp@,
            },
            BackendOutcome::Done => BackendOutcomeView::Done,
            BackendOutcome::Failed(e) => BackendOutcomeView::Failed(*e),
        }
    }
}

/// What handling a message asks of the dispatcher: answer at once (possibly
/// with nothing, for input events), or perform a backend action first.
#[derive(Debug)]
pub enum Step {
    Reply(Option<EdcsResponse>),
    Invoke(BackendAction),
}

/// Mathematical view of a step.
pub enum StepView {
    Reply(Option<ResponseView>),
    Invoke(BackendActionView),
}

impl View for Step {
    type V = StepView;

    open spec fn view(&self) -> StepView {
        match self {
            Step::Reply(r) => StepView::Reply(
                match r {
                    Some(resp) => Some(resp@),
                    None => None,
                },
            ),
            Step::Invoke(a) => StepView::Invoke(a@),
        }
    }
}

/// Mathematical view of a session.
pub struct HandlerView {
    pub adapter: Option<AdapterView>,
    pub phase: Phase,
}

impl HandlerView {
    /// The session invariant: the phase says exactly whether an adapter is
    /// held and where its lifecycle flags stand.
    pub open spec fn wf(self) -> bool {
        match self.phase {
            Phase::Fresh => self.adapter is None,
            Phase::Closed => self.adapter is None,
            Phase::AdapterInitialised => match self.adapter {
                Some(a) => a.wf() && !a.stream_setup && !a.streaming,
                None => false,
            },
            Phase::StreamConfigured => match self.adapter {
                Some(a) => a.wf() && a.stream_setup && !a.streaming,
                None => false,
            },
            Phase::Streaming => match self.adapter {
                Some(a) => a.wf() && a.stream_setup && a.streaming,
                None => false,
            },
        }
    }
}

/// A response carrying a bare status.
pub open spec fn spec_status_reply(st: EdcsStatus) -> StepView {
    StepView::Reply(Some(ResponseView { status: st, payload: None }))
}

/// The response to a request whose payload is missing or of the wrong
/// variant.
pub open spec fn spec_invalid_payload_reply() -> StepView {
    StepView::Reply(
        Some(
            ResponseView {
                status: EdcsStatus::InvalidRequest,
                payload: Some(
                    ResponsePayloadView::InvalidRequestData(
                        "The given payload is not of type SetupEdcsParams"@,
                    ),
                ),
            },
        ),
    )
}

/// The session state machine: what one message does to the session and what
/// the dispatcher must do next.
pub open spec fn spec_handle_message(h: HandlerView, cfg: EdssConfigView, m: MessageView) -> (
    HandlerView,
    StepView,
)
    recommends
        h.wf(),
{
    match m.message_type {
        EdcsMessageType::SetupEdcs => {
            if h.adapter is Some {
                (h, spec_status_reply(EdcsStatus::EdcsAlreadySetup))
            } else {
                match m.payload {
                    Some(MessagePayloadView::SetupEdcsParams(sp)) => (
                        h,
                        StepView::Invoke(
                            BackendActionView::OpenCal {
                                plugin_name: cfg.plugin_name,
                                bitrate: sp.bitrate,
                                framerate: sp.framerate,
                            },
                        ),
                    ),
                    _ => (h, spec_invalid_payload_reply()),
                }
            }
        },
        EdcsMessageType::SetupStream => {
            match h.phase {
                Phase::Fresh | Phase::Closed => (
                    h,
                    spec_status_reply(EdcsStatus::UninitialisedEdss),
                ),
                Phase::StreamConfigured | Phase::Streaming => (
                    h,
                    spec_status_reply(EdcsStatus::StreamAlreadySetup),
                ),
                Phase::AdapterInitialised => {
                    match m.payload {
                        Some(MessagePayloadView::SetupStreamParams(d)) => {
                            let a2 = AdapterView { cal_option_dict: d, ..h.adapter->Some_0 };
                            (
                                HandlerView { adapter: Some(a2), ..h },
                                StepView::Invoke(
                                    BackendActionView::InitServer(spec_stream_setup_of(a2)),
                                ),
                            )
                        },
                        _ => (h, spec_invalid_payload_reply()),
                    }
                },
            }
        },
        EdcsMessageType::StartStream => {
            match h.phase {
                Phase::Fresh | Phase::Closed => (
                    h,
                    spec_status_reply(EdcsStatus::UninitialisedEdss),
                ),
                Phase::Streaming => (h, spec_status_reply(EdcsStatus::StreamAlreadyStarted)),
                Phase::AdapterInitialised => (h, spec_status_reply(EdcsStatus::StreamNotStarted)),
                Phase::StreamConfigured => (h, StepView::Invoke(BackendActionView::StartStream)),
            }
        },
        EdcsMessageType::CloseStream => {
            match h.phase {
                Phase::Fresh | Phase::Closed => (
                    h,
                    spec_status_reply(EdcsStatus::UninitialisedEdss),
                ),
                Phase::Streaming => (h, StepView::Invoke(BackendActionView::CloseStream)),
                _ => (h, spec_status_reply(EdcsStatus::StreamNotStarted)),
            }
        },
        EdcsMessageType::UpdateStream => {
            match h.phase {
                Phase::Fresh | Phase::Closed => (
                    h,
                    spec_status_reply(EdcsStatus::UninitialisedEdss),
                ),
                Phase::Streaming => (
                    h,
                    StepView::Invoke(
                        BackendActionView::UpdateStream(spec_stream_setup_of(h.adapter->Some_0)),
                    ),
                ),
                _ => (h, spec_status_reply(EdcsStatus::StreamNotStarted)),
            }
        },
        EdcsMessageType::WriteMouseEvent => {
            if h.phase != Phase::Streaming {
                (h, spec_status_reply(EdcsStatus::StreamNotStarted))
            } else {
                match m.payload {
                    Some(MessagePayloadView::MouseEvent(e)) => match spec_map_mouse_event(e) {
                        Some(me) => (h, StepView::Invoke(BackendActionView::WriteMouse(me))),
                        None => (h, StepView::Reply(None)),
                    },
                    _ => (h, StepView::Reply(None)),
                }
            }
        },
        EdcsMessageType::WriteKeyboardEvent => {
            if h.phase != Phase::Streaming {
                (h, spec_status_reply(EdcsStatus::StreamNotStarted))
            } else {
                match m.payload {
                    Some(MessagePayloadView::KeyboardEvent(k)) => (
                        h,
                        StepView::Invoke(BackendActionView::WriteKeyboard(k)),
                    ),
                    _ => (h, StepView::Reply(None)),
                }
            }
        },
    }
}

/// The action may be performed in this session state.
pub open spec fn spec_action_enabled(h: HandlerView, a: BackendActionView) -> bool {
    match a {
        BackendActionView::OpenCal { .. } => h.phase == Phase::Fresh || h.phase == Phase::Closed,
        BackendActionView::InitServer(_) => h.phase == Phase::AdapterInitialised,
        BackendActionView::StartStream => h.phase == Phase::StreamConfigured,
        BackendActionView::CloseStream => h.phase == Phase::Streaming,
        BackendActionView::UpdateStream(_) => h.phase == Phase::Streaming,
        BackendActionView::WriteMouse(_) => h.phase == Phase::Streaming,
        BackendActionView::WriteKeyboard(_) => h.phase == Phase::Streaming,
    }
}

/// The outcome is one the action can produce.
pub open spec fn spec_outcome_matches(a: BackendActionView, o: BackendOutcomeView) -> bool {
    match o {
        BackendOutcomeView::OpenedCal { .. } => a is OpenCal,
        BackendOutcomeView::InitialisedServer { .. } => a is InitServer,
        BackendOutcomeView::Done => a is StartStream || a is CloseStream || a is UpdateStream
            || a is WriteMouse || a is WriteKeyboard,
        BackendOutcomeView::Failed(_) => true,
    }
}

/// How a backend outcome advances the session and what is answered.
///
/// `srtp` is the SRTP out-parameter string a successful open generates; it
/// is random, so it enters here as a parameter.
pub open spec fn spec_apply_outcome(
    h: HandlerView,
    cfg: EdssConfigView,
    a: BackendActionView,
    o: BackendOutcomeView,
    srtp: Seq<char>,
) -> (HandlerView, Option<ResponseView>)
    recommends
        h.wf(),
        spec_action_enabled(h, a),
        spec_outcome_matches(a, o),
{
    match o {
        BackendOutcomeView::Failed(e) => {
            if a is WriteMouse || a is WriteKeyboard {
                (h, None)
            } else {
                (
                    h,
                    Some(
                        ResponseView {
                            status: EdcsStatus::EdssErr,
                            payload: Some(ResponsePayloadView::EdssErrData(e.0)),
                        },
                    ),
                )
            }
        },
        BackendOutcomeView::OpenedCal { cal_option_dict } => {
            let av = AdapterView {
                ip: cfg.ip,
                port: cfg.port,
                bitrate: a->OpenCal_bitrate,
                framerate: a->OpenCal_framerate,
                srtp_out_params: srtp,
                cal_option_dict: cal_option_dict,
                sdp: None,
                streaming: false,
                stream_setup: false,
            };
            (
                HandlerView { adapter: Some(av), phase: Phase::AdapterInitialised },
                Some(
                    ResponseView {
                        status: EdcsStatus::EdcsOk,
                        payload: Some(ResponsePayloadView::SetupEdcsData(cal_option_dict)),
                    },
                ),
            )
        },
        BackendOutcomeView::InitialisedServer { sdp } => {
            let a0 = h.adapter->Some_0;
            let av = AdapterView { sdp: Some(sdp), stream_setup: true, ..a0 };
            (
                HandlerView { adapter: Some(av), phase: Phase::StreamConfigured },
                Some(
                    ResponseView {
                        status: EdcsStatus::EdcsOk,
                        payload: Some(
                            ResponsePayloadView::SetupStreamData(
                                Some(
                                    EdcsStreamParams {
                                        bitrate: a0.bitrate,
                                        framerate: a0.framerate,
                                    },
                                ),
                                sdp,
                            ),
                        ),
                    },
                ),
            )
        },
        BackendOutcomeView::Done => {
            match a {
                BackendActionView::StartStream => {
                    let a0 = h.adapter->Some_0;
                    let av = AdapterView { streaming: true, ..a0 };
                    (
                        HandlerView { adapter: Some(av), phase: Phase::Streaming },
                        Some(ResponseView { status: EdcsStatus::EdcsOk, payload: None }),
                    )
                },
                BackendActionView::CloseStream => (
                    HandlerView { adapter: None, phase: Phase::Closed },
                    Some(ResponseView { status: EdcsStatus::EdcsOk, payload: None }),
                ),
                BackendActionView::UpdateStream(_) => (
                    h,
                    Some(ResponseView { status: EdcsStatus::EdcsOk, payload: None }),
                ),
                _ => (h, None),
            }
        },
    }
}

/// What closing the connection does: a session still streaming has a
/// synthetic backend close issued for it; every session ends `Closed`.
pub open spec fn spec_on_disconnect(h: HandlerView) -> (HandlerView, Option<BackendActionView>) {
    if h.phase == Phase::Streaming {
        (HandlerView { adapter: None, phase: Phase::Closed }, Some(BackendActionView::CloseStream))
    } else {
        (HandlerView { adapter: None, phase: Phase::Closed }, None)
    }
}

/// View of an optional response.
pub open spec fn view_opt_response(r: Option<EdcsResponse>) -> Option<ResponseView> {
    match r {
        Some(resp) => Some(resp@),
        None => None,
    }
}

/// View of an optional backend action.
pub open spec fn view_opt_action(r: Option<BackendAction>) -> Option<BackendActionView> {
    match r {
        Some(a) => Some(a@),
        None => None,
    }
}

/// Per-connection session state: the phase and the adapter it may own.
pub struct EdcsHandler {
    adapter: Option<EdssAdapter>,
    phase: Phase,
}

impl View for EdcsHandler {
    type V = HandlerView;

    closed spec fn view(&self) -> HandlerView {
        HandlerView {
            adapter: match &self.adapter {
                Some(a) => Some(a@),
                None => None,
            },
            phase: self.phase,
        }
    }
}

impl Default for EdcsHandler {
    /// A fresh session: no adapter, phase `Fresh`.
    fn default() -> (r: EdcsHandler)
        ensures
            r@.phase == Phase::Fresh,
            r@.adapter is None,
            r@.wf(),
    {
        EdcsHandler { adapter: None, phase: Phase::Fresh }
    }
}

fn invalid_payload_response() -> (r: Step)
    ensures
        r@ == spec_invalid_payload_reply(),
{
    Step::Reply(
        Some(
            EdcsResponse {
                status: EdcsStatus::InvalidRequest,
                payload: Some(
                    EdcsResponsePayload::InvalidRequestData(
                        String::from_str("The given payload is not of type SetupEdcsParams"),
                    ),
                ),
            },
        ),
    )
}

fn status_response(st: EdcsStatus) -> (r: Step)
    ensures
        r@ == spec_status_reply(st),
{
    Step::Reply(Some(EdcsResponse { status: st, payload: None }))
}

impl EdcsHandler {
    /// Handle one decoded request: answer it, or name the backend action the
    /// dispatcher must perform before `apply_outcome` can answer it.
    pub fn handle_message(&mut self, cfg: &EdcsConfig, msg: &EdcsMessage) -> (r: Step)
        requires
            old(self)@.wf(),
        ensures
            final(self)@.wf(),
            (final(self)@, r@) == spec_handle_message(old(self)@, cfg.edss_config@, msg@),
    {
        match msg.message_type {
            EdcsMessageType::SetupEdcs => {
                if self.adapter.is_some() {
                    status_response(EdcsStatus::EdcsAlreadySetup)
                } else {
                    match &msg.payload {
                        Some(EdcsMessagePayload::SetupEdcsParams(sp)) => Step::Invoke(
                            BackendAction::OpenCal {
                                plugin_name: cfg.edss_config.plugin_name.clone(),
                                bitrate: sp.bitrate,
                                framerate: sp.framerate,
                            },
                        ),
                        _ => invalid_payload_response(),
                    }
                }
            },
            EdcsMessageType::SetupStream => {
                match self.phase {
                    Phase::Fresh | Phase::Closed => status_response(EdcsStatus::UninitialisedEdss),
                    Phase::StreamConfigured | Phase::Streaming => status_response(
                        EdcsStatus::StreamAlreadySetup,
                    ),
                    Phase::AdapterInitialised => {
                        match &msg.payload {
                            Some(EdcsMessagePayload::SetupStreamParams(cal)) => {
                                let d = clone_dict(&cal.cal_option_dict);
                                match &mut self.adapter {
                                    Some(a) => {
                                        a.set_cal_option_dict(d);
                                        Step::Invoke(
                                            BackendAction::InitServer(a.stream_config()),
                                        )
                                    },
                                    None => {
                                        // wf rules this arm out
                                        status_response(EdcsStatus::UninitialisedEdss)
                                    },
                                }
                            },
                            _ => invalid_payload_response(),
                        }
                    },
                }
            },
            EdcsMessageType::StartStream => {
                match self.phase {
                    Phase::Fresh | Phase::Closed => status_response(EdcsStatus::UninitialisedEdss),
                    Phase::Streaming => status_response(EdcsStatus::StreamAlreadyStarted),
                    Phase::AdapterInitialised => status_response(EdcsStatus::StreamNotStarted),
                    Phase::StreamConfigured => Step::Invoke(BackendAction::StartStream),
                }
            },
            EdcsMessageType::CloseStream => {
                match self.phase {
                    Phase::Fresh | Phase::Closed => status_response(EdcsStatus::UninitialisedEdss),
                    Phase::Streaming => Step::Invoke(BackendAction::CloseStream),
                    _ => status_response(EdcsStatus::StreamNotStarted),
                }
            },
            EdcsMessageType::UpdateStream => {
                match self.phase {
                    Phase::Fresh | Phase::Closed => status_response(EdcsStatus::UninitialisedEdss),
                    Phase::Streaming => {
                        match &self.adapter {
                            Some(a) => Step::Invoke(
                                BackendAction::UpdateStream(a.stream_config()),
                            ),
                            None => {
                                // wf rules this arm out
                                status_response(EdcsStatus::UninitialisedEdss)
                            },
                        }
                    },
                    _ => status_response(EdcsStatus::StreamNotStarted),
                }
            },
            EdcsMessageType::WriteMouseEvent => {
                match self.phase {
                    Phase::Streaming => {
                        match (&self.adapter, &msg.payload) {
                            (Some(a), Some(EdcsMessagePayload::MouseEvent(e))) => {
                                match a.write_mouse_event(e) {
                                    Some(me) => Step::Invoke(BackendAction::WriteMouse(me)),
                                    None => Step::Reply(None),
                                }
                            },
                            _ => Step::Reply(None),
                        }
                    },
                    _ => status_response(EdcsStatus::StreamNotStarted),
                }
            },
            EdcsMessageType::WriteKeyboardEvent => {
                match self.phase {
                    Phase::Streaming => {
                        match (&self.adapter, &msg.payload) {
                            (Some(a), Some(EdcsMessagePayload::KeyboardEvent(k))) => {
                                let kd = a.write_keyboard_event(k);
                                Step::Invoke(BackendAction::WriteKeyboard(kd))
                            },
                            _ => Step::Reply(None),
                        }
                    },
                    _ => status_response(EdcsStatus::StreamNotStarted),
                }
            },
        }
    }

    /// Feed back what the backend did for the action `handle_message` named,
    /// advancing the session and producing the response owed, if any.
    pub fn apply_outcome(
        &mut self,
        cfg: &EdcsConfig,
        action: &BackendAction,
        outcome: BackendOutcome,
    ) -> (r: Option<EdcsResponse>)
        requires
            old(self)@.wf(),
            spec_action_enabled(old(self)@, action@),
            spec_outcome_matches(action@, outcome@),
        ensures
            final(self)@.wf(),
            exists|b: Seq<u8>|
                b.len() == 40 && (final(self)@, view_opt_response(r)) == spec_apply_outcome(
                    old(self)@,
                    cfg.edss_config@,
                    action@,
                    outcome@,
                    base64_of(b),
                ),
            outcome@ is OpenedCal ==> match final(self)@.adapter {
                Some(a) => a.srtp_out_params.len() == 56 && is_srtp_out_params(a.srtp_out_params),
                None => false,
            },
    {
        let ghost some_b: Seq<u8> = Seq::new(40, |i: int| 0u8);
        match outcome {
            BackendOutcome::Failed(e) => {
                let r = match action {
                    BackendAction::WriteMouse(_) | BackendAction::WriteKeyboard(_) => None,
                    _ => Some(
                        EdcsResponse {
                            status: EdcsStatus::EdssErr,
                            payload: Some(EdcsResponsePayload::EdssErrData(e.0)),
                        },
                    ),
                };
                proof {
                    assert(some_b.len() == 40 && (final(self)@, view_opt_response(r))
                        == spec_apply_outcome(
                        old(self)@,
                        cfg.edss_config@,
                        action@,
                        outcome@,
                        base64_of(some_b),
                    ));
                }
                r
            },
            BackendOutcome::OpenedCal { cal_option_dict } => {
                let (bitrate, framerate) = match action {
                    BackendAction::OpenCal { bitrate, framerate, .. } => (*bitrate, *framerate),
                    _ => (0, 0),  // ruled out by spec_outcome_matches
                };
                let response_dict = clone_dict(&cal_option_dict);
                let adapter = EdssAdapter::new(
                    cfg.edss_config.ip.clone(),
                    cfg.edss_config.port,
                    bitrate,
                    framerate,
                    cal_option_dict,
                );
                let ghost b = choose|b: Seq<u8>|
                    b.len() == 40 && adapter@.srtp_out_params == base64_of(b);
                let ghost srtp = adapter@.srtp_out_params;
                self.adapter = Some(adapter);
                self.phase = Phase::AdapterInitialised;
                let r = Some(
                    EdcsResponse {
                        status: EdcsStatus::EdcsOk,
                        payload: Some(
                            EdcsResponsePayload::SetupEdcsData(
                                EdcsSetupEdcsData { cal_option_dict: response_dict },
                            ),
                        ),
                    },
                );
                proof {
                    assert(b.len() == 40 && srtp == base64_of(b));
                    assert((final(self)@, view_opt_response(r)) == spec_apply_outcome(
                        old(self)@,
                        cfg.edss_config@,
                        action@,
                        outcome@,
                        base64_of(b),
                    ));
                }
                r
            },
            BackendOutcome::InitialisedServer { sdp } => {
                let (bitrate, framerate) = match &self.adapter {
                    Some(a) => (a.bitrate(), a.framerate()),
                    None => (0, 0),  // ruled out by wf and spec_action_enabled
                };
                let response_sdp = sdp.clone();
                match &mut self.adapter {
                    Some(a) => {
                        a.init_server(sdp);
                    },
                    None => {},
                }
                self.phase = Phase::StreamConfigured;
                let r = Some(
                    EdcsResponse {
                        status: EdcsStatus::EdcsOk,
                        payload: Some(
                            EdcsResponsePayload::SetupStreamData(
                                EdcsSetupStreamData {
                                    out_stream_params: Some(
                                        EdcsStreamParams { bitrate, framerate },
                                    ),
                                    sdp: response_sdp,
                                },
                            ),
                        ),
                    },
                );
                proof {
                    assert(some_b.len() == 40 && (final(self)@, view_opt_response(r))
                        == spec_apply_outcome(
                        old(self)@,
                        cfg.edss_config@,
                        action@,
                        outcome@,
                        base64_of(some_b),
                    ));
                }
                r
            },
            BackendOutcome::Done => {
                match action {
                    BackendAction::StartStream => {
                        match &mut self.adapter {
                            Some(a) => {
                                a.init_streaming();
                            },
                            None => {},
                        }
                        self.phase = Phase::Streaming;
                        let r = Some(EdcsResponse { status: EdcsStatus::EdcsOk, payload: None });
                        proof {
                            assert(some_b.len() == 40 && (final(self)@, view_opt_response(r))
                                == spec_apply_outcome(
                                old(self)@,
                                cfg.edss_config@,
                                action@,
                                outcome@,
                                base64_of(some_b),
                            ));
                        }
                        r
                    },
                    BackendAction::CloseStream => {
                        self.adapter = None;
                        self.phase = Phase::Closed;
                        let r = Some(EdcsResponse { status: EdcsStatus::EdcsOk, payload: None });
                        proof {
                            assert(some_b.len() == 40 && (final(self)@, view_opt_response(r))
                                == spec_apply_outcome(
                                old(self)@,
                                cfg.edss_config@,
                                action@,
                                outcome@,
                                base64_of(some_b),
                            ));
                        }
                        r
                    },
                    BackendAction::UpdateStream(_) => {
                        let r = Some(EdcsResponse { status: EdcsStatus::EdcsOk, payload: None });
                        proof {
                            assert(some_b.len() == 40 && (final(self)@, view_opt_response(r))
                                == spec_apply_outcome(
                                old(self)@,
                                cfg.edss_config@,
                                action@,
                                outcome@,
                                base64_of(some_b),
                            ));
                        }
                        r
                    },
                    _ => {
                        proof {
                            assert(some_b.len() == 40 && (final(self)@, view_opt_response(
                                None::<EdcsResponse>,
                            )) == spec_apply_outcome(
                                old(self)@,
                                cfg.edss_config@,
                                action@,
                                outcome@,
                                base64_of(some_b),
                            ));
                        }
                        None
                    },
                }
            },
        }
    }

    /// The connection ended: drop the session's adapter, issuing the
    /// synthetic backend close exactly when the stream was still running.
    pub fn on_disconnect(&mut self) -> (r: Option<BackendAction>)
        requires
            old(self)@.wf(),
        ensures
            final(self)@.wf(),
            (final(self)@, view_opt_action(r)) == spec_on_disconnect(old(self)@),
    {
        let was_streaming = match self.phase {
            Phase::Streaming => true,
            _ => false,
        };
        self.adapter = None;
        self.phase = Phase::Closed;
        if was_streaming {
            Some(BackendAction::CloseStream)
        } else {
            None
        }
    }

    /// The phase the session is in.
    pub fn phase(&self) -> (r: Phase)
        ensures
            r == self@.phase,
    {
        self.phase
    }

    /// Whether the session's adapter is currently streaming.
    pub fn adapter_streaming(&self) -> (r: bool)
        ensures
            r == (self@.phase == Phase::Streaming),
    {
        match self.phase {
            Phase::Streaming => true,
            _ => false,
        }
    }
}

/// Law: handling a message keeps the session invariant, whatever the
/// message.
pub proof fn lemma_handle_message_preserves_wf(h: HandlerView, cfg: EdssConfigView, m: MessageView)
    requires
        h.wf(),
    ensures
        spec_handle_message(h, cfg, m).0.wf(),
{
}

/// Law: applying a backend outcome keeps the session invariant, whatever
/// the outcome.
pub proof fn lemma_apply_outcome_preserves_wf(
    h: HandlerView,
    cfg: EdssConfigView,
    a: BackendActionView,
    o: BackendOutcomeView,
    srtp: Seq<char>,
)
    requires
        h.wf(),
        spec_action_enabled(h, a),
        spec_outcome_matches(a, o),
    ensures
        spec_apply_outcome(h, cfg, a, o, srtp).0.wf(),
{
}

/// Law: in every well-formed session that holds an adapter, `streaming`
/// implies `stream_setup`.
pub proof fn lemma_streaming_implies_stream_setup(h: HandlerView)
    requires
        h.wf(),
    ensures
        match h.adapter {
            Some(a) => a.streaming ==> a.stream_setup,
            None => true,
        },
{
}

/// Law: a session torn down from `Streaming` issues the backend stop exactly
/// once. The synthetic close comes with the first teardown; the session left
/// behind is `Closed` and no teardown of it yields another; torn down from
/// any other phase, no stop is issued at all.
pub proof fn lemma_disconnect_stops_backend_once(h: HandlerView)
    requires
        h.wf(),
    ensures
        h.phase == Phase::Streaming ==> spec_on_disconnect(h).1 == Some(
            BackendActionView::CloseStream,
        ),
        h.phase != Phase::Streaming ==> spec_on_disconnect(h).1 is None,
        spec_on_disconnect(h).0.phase == Phase::Closed,
        spec_on_disconnect(spec_on_disconnect(h).0).1 is None,
{
}

/// Law: responses are one-to-one with requests, except for the input
/// events. A request that is not an input event is always answered, whether
/// directly, after the backend action it names, or on that action's
/// failure; an input event accepted while streaming is never answered.
pub proof fn lemma_responses_one_to_one(
    h: HandlerView,
    cfg: EdssConfigView,
    m: MessageView,
    o: BackendOutcomeView,
    srtp: Seq<char>,
)
    requires
        h.wf(),
    ensures
        !m.message_type.spec_is_input_event() ==> match spec_handle_message(h, cfg, m).1 {
            StepView::Reply(r) => r is Some,
            StepView::Invoke(a) => spec_outcome_matches(a, o) ==> spec_apply_outcome(
                spec_handle_message(h, cfg, m).0,
                cfg,
                a,
                o,
                srtp,
            ).1 is Some,
        },
        m.message_type.spec_is_input_event() && h.phase == Phase::Streaming
            ==> match spec_handle_message(h, cfg, m).1 {
            StepView::Reply(r) => r is None,
            StepView::Invoke(a) => spec_outcome_matches(a, o) ==> spec_apply_outcome(
                h,
                cfg,
                a,
                o,
                srtp,
            ).1 is None,
        },
{
}

/// Law: once a session holds an adapter, every `SetupEdcs` is answered
/// `EdcsAlreadySetup` and the session does not change, so after the first
/// successful `SetupEdcs` each repeat on the same connection is refused.
pub proof fn lemma_setup_edcs_repeat(h: HandlerView, cfg: EdssConfigView, m: MessageView)
    requires
        h.wf(),
        h.adapter is Some,
        m.message_type == EdcsMessageType::SetupEdcs,
    ensures
        spec_handle_message(h, cfg, m) == (h, spec_status_reply(EdcsStatus::EdcsAlreadySetup)),
{
}

/// Law: on a fresh session, `SetupEdcs` with its parameters asks for the
/// backend open, and a successful open answers `Ok` with the capability
/// dictionary and leaves a session that `lemma_setup_edcs_repeat` covers.
pub proof fn lemma_setup_edcs_first(
    h: HandlerView,
    cfg: EdssConfigView,
    sp: EdcsStreamParams,
    dict: Seq<(Seq<char>, Seq<char>)>,
    srtp: Seq<char>,
)
    requires
        h.wf(),
        h.phase == Phase::Fresh,
    ensures
        ({
            let m = MessageView {
                message_type: EdcsMessageType::SetupEdcs,
                payload: Some(MessagePayloadView::SetupEdcsParams(sp)),
            };
            let action = BackendActionView::OpenCal {
                plugin_name: cfg.plugin_name,
                bitrate: sp.bitrate,
                framerate: sp.framerate,
            };
            let outcome = BackendOutcomeView::OpenedCal { cal_option_dict: dict };
            let (h2, reply) = spec_apply_outcome(h, cfg, action, outcome, srtp);
            &&& spec_handle_message(h, cfg, m) == (h, StepView::Invoke(action))
            &&& reply == Some(
                ResponseView {
                    status: EdcsStatus::EdcsOk,
                    payload: Some(ResponsePayloadView::SetupEdcsData(dict)),
                },
            )
            &&& h2.adapter is Some
            &&& h2.phase == Phase::AdapterInitialised
        }),
{
}

/// Law: the session lifecycle. From a fresh session, `SetupEdcs`,
/// `SetupStream`, `StartStream` and `CloseStream`, each with a successful
/// backend outcome, walk the phases `Fresh`, `AdapterInitialised`,
/// `StreamConfigured`, `Streaming`, `Closed` in order, and every
/// intermediate session is well formed.
pub proof fn lemma_session_lifecycle(
    h: HandlerView,
    cfg: EdssConfigView,
    sp: EdcsStreamParams,
    open_dict: Seq<(Seq<char>, Seq<char>)>,
    client_dict: Seq<(Seq<char>, Seq<char>)>,
    sdp: Seq<char>,
    srtp: Seq<char>,
)
    requires
        h.wf(),
        h.phase == Phase::Fresh,
    ensures
        ({
            let m_setup = MessageView {
                message_type: EdcsMessageType::SetupEdcs,
                payload: Some(MessagePayloadView::SetupEdcsParams(sp)),
            };
            let m_stream = MessageView {
                message_type: EdcsMessageType::SetupStream,
                payload: Some(MessagePayloadView::SetupStreamParams(client_dict)),
            };
            let m_start = MessageView {
                message_type: EdcsMessageType::StartStream,
                payload: None,
            };
            let m_close = MessageView {
                message_type: EdcsMessageType::CloseStream,
                payload: None,
            };
            let (h0, s0) = spec_handle_message(h, cfg, m_setup);
            let (h1, _) = spec_apply_outcome(
                h0,
                cfg,
                s0->Invoke_0,
                BackendOutcomeView::OpenedCal { cal_option_dict: open_dict },
                srtp,
            );
            let (h1b, s1) = spec_handle_message(h1, cfg, m_stream);
            let (h2, _) = spec_apply_outcome(
                h1b,
                cfg,
                s1->Invoke_0,
                BackendOutcomeView::InitialisedServer { sdp },
                srtp,
            );
            let (h2b, s2) = spec_handle_message(h2, cfg, m_start);
            let (h3, _) = spec_apply_outcome(
                h2b,
                cfg,
                s2->Invoke_0,
                BackendOutcomeView::Done,
                srtp,
            );
            let (h3b, s3) = spec_handle_message(h3, cfg, m_close);
            let (h4, _) = spec_apply_outcome(
                h3b,
                cfg,
                s3->Invoke_0,
                BackendOutcomeView::Done,
                srtp,
            );
            &&& s0 is Invoke && h1.phase == Phase::AdapterInitialised && h1.wf()
            &&& s1 is Invoke && h2.phase == Phase::StreamConfigured && h2.wf()
            &&& s2 is Invoke && h3.phase == Phase::Streaming && h3.wf()
            &&& s3 is Invoke && h4.phase == Phase::Closed && h4.wf()
        }),
{
}

/// Law: a request arriving on a fresh session that is not `SetupEdcs` is
/// answered `UninitialisedEdss` and the session stays fresh. The two
/// out-of-band input events are answered `StreamNotStarted` instead, and the
/// session stays fresh for them too.
pub proof fn lemma_fresh_rejects_requests(h: HandlerView, cfg: EdssConfigView, m: MessageView)
    requires
        h.wf(),
        h.phase == Phase::Fresh,
        m.message_type != EdcsMessageType::SetupEdcs,
    ensures
        !m.message_type.spec_is_input_event() ==> spec_handle_message(h, cfg, m) == (
            h,
            spec_status_reply(EdcsStatus::UninitialisedEdss),
        ),
        m.message_type.spec_is_input_event() ==> spec_handle_message(h, cfg, m) == (
            h,
            spec_status_reply(EdcsStatus::StreamNotStarted),
        ),
{
}

} // verus!
