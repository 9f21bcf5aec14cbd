//! The client request broker: the decisions made between the synchronous UI
//! thread and the asynchronous transport worker.
//!
//! The worker itself runs channels and sockets in the host program; what it
//! decides for each request — open a connection, send and await, send
//! fire-and-forget, or answer the UI directly — is laid down here.

use crate::config::{clone_dict, ClientConfig, ClientConfigView};
use crate::schema::{EdcsKeyData, EdcsMessage, EdcsMessagePayload, EdcsMessageType,
    EdcsMouseButton, EdcsMouseEvent, EdcsMouseMove, EdcsResponse, EdcsStreamParams, MessageView,
    ResponseView, EdcsCalParams, MessagePayloadView};
use vstd::prelude::*;

verus! {

/// A request from the UI thread to the transport worker.
#[derive(Debug)]
pub enum ChannelEdcsRequest {
    NewClient(ClientConfig),
    SetupEdcs { bitrate: u32, framerate: u32 },
    SetupStream(Vec<(String, String)>),
    StartStream,
    CloseStream,
    WriteMouseMove { x: u32, y: u32 },
    WriteMouseButton { button_typ: EdcsMouseButton, pressed: bool },
    WriteKeyboardEvent { key_typ: u32, pressed: bool },
}

/// Mathematical view of a broker request.
pub enum ChannelRequestView {
    NewClient(ClientConfigView),
    SetupEdcs { bitrate: u32, framerate: u32 },
    SetupStream(Seq<(Seq<char>, Seq<char>)>),
    StartStream,
    CloseStream,
    WriteMouseMove { x: u32, y: u32 },
    WriteMouseButton { button_typ: EdcsMouseButton, pressed: bool },
    WriteKeyboardEvent { key_typ: u32, pressed: bool },
}

impl View for ChannelEdcsRequest {
    type V = ChannelRequestView;

    open spec fn view(&self) -> ChannelRequestView {
        match self {
            ChannelEdcsRequest::NewClient(c) => ChannelRequestView::NewClient(c@),
            ChannelEdcsRequest::SetupEdcs { bitrate, framerate } => ChannelRequestView::SetupEdcs {
                bitrate: *bitrate,
                framerate: *framerate,
            },
            ChannelEdcsRequest::SetupStream(d) => ChannelRequestView::SetupStream(d.deep_view()),
            ChannelEdcsRequest::StartStream => ChannelRequestView::StartStream,
            ChannelEdcsRequest::CloseStream => ChannelRequestView::CloseStream,
            ChannelEdcsRequest::WriteMouseMove { x, y } => ChannelRequestView::WriteMouseMove {
                x: *x,
                y: *y,
            },
            ChannelEdcsRequest::WriteMouseButton { button_typ, pressed } => {
                ChannelRequestView::WriteMouseButton {
                    button_typ: *button_typ,
                    pressed: *pressed,
                }
            },
            ChannelEdcsRequest::WriteKeyboardEvent { key_typ, pressed } => {
                ChannelRequestView::WriteKeyboardEvent { key_typ: *key_typ, pressed: *pressed }
            },
        }
    }
}

/// A response from the transport worker to the UI thread.
#[derive(Debug)]
pub enum ChannelEdcsResponse {
    EdcsClientInitialised,
    EdcsClientInitError(String),
    InvalidClient,
    EdcsResponse(Result<EdcsResponse, String>),
}

/// Mathematical view of a broker response.
pub enum ChannelResponseView {
    EdcsClientInitialised,
    EdcsClientInitError(Seq<char>),
    InvalidClient,
    EdcsResponse(Result<ResponseView, Seq<char>>),
}

impl View for ChannelEdcsResponse {
    type V = ChannelResponseView;

    open spec fn view(&self) -> ChannelResponseView {
        match self {
            ChannelEdcsResponse::EdcsClientInitialised => ChannelResponseView::EdcsClientInitialised,
            ChannelEdcsResponse::EdcsClientInitError(e) => {
                ChannelResponseView::EdcsClientInitError(e@)
            },
            ChannelEdcsResponse::InvalidClient => ChannelResponseView::InvalidClient,
            ChannelEdcsResponse::EdcsResponse(r) => ChannelResponseView::EdcsResponse(
                match r {
                    Ok(resp) => Ok(resp@),
                    Err(e) => Err(e@),
                },
            ),
        }
    }
}

/// The out-of-band input events: fire-and-forget, exempt from the pending
/// flag, never answered on `recv`.
pub open spec fn spec_is_input_event(r: ChannelRequestView) -> bool {
    ||| r is WriteMouseMove
    ||| r is WriteMouseButton
    ||| r is WriteKeyboardEvent
}

pub fn is_input_event(req: &ChannelEdcsRequest) -> (r: bool)
    ensures
        r == spec_is_input_event(req@),
{
    match req {
        ChannelEdcsRequest::WriteMouseMove { .. } => true,
        ChannelEdcsRequest::WriteMouseButton { .. } => true,
        ChannelEdcsRequest::WriteKeyboardEvent { .. } => true,
        _ => false,
    }
}

/// The control message a request becomes on the wire; `NewClient` becomes
/// none, it opens a connection instead.
pub open spec fn spec_request_message(r: ChannelRequestView) -> Option<MessageView> {
    match r {
        ChannelRequestView::NewClient(_) => None,
        ChannelRequestView::SetupEdcs { bitrate, framerate } => Some(
            MessageView {
                message_type: EdcsMessageType::SetupEdcs,
                payload: Some(
                    MessagePayloadView::SetupEdcsParams(EdcsStreamParams { bitrate, framerate }),
                ),
            },
        ),
        ChannelRequestView::SetupStream(d) => Some(
            MessageView {
                message_type: EdcsMessageType::SetupStream,
                payload: Some(MessagePayloadView::SetupStreamParams(d)),
            },
        ),
        ChannelRequestView::StartStream => Some(
            MessageView { message_type: EdcsMessageType::StartStream, payload: None },
        ),
        ChannelRequestView::CloseStream => Some(
            MessageView { message_type: EdcsMessageType::CloseStream, payload: None },
        ),
        ChannelRequestView::WriteMouseMove { x, y } => Some(
            MessageView {
                message_type: EdcsMessageType::WriteMouseEvent,
                payload: Some(
                    MessagePayloadView::MouseEvent(EdcsMouseEvent::Move(EdcsMouseMove { x, y })),
                ),
            },
        ),
        ChannelRequestView::WriteMouseButton { button_typ, pressed } => Some(
            MessageView {
                message_type: EdcsMessageType::WriteMouseEvent,
                payload: Some(
                    MessagePayloadView::MouseEvent(
                        EdcsMouseEvent::Button(
                            EdcsKeyData { btn_typ: button_typ.spec_ordinal(), pressed },
                        ),
                    ),
                ),
            },
        ),
        ChannelRequestView::WriteKeyboardEvent { key_typ, pressed } => Some(
            MessageView {
                message_type: EdcsMessageType::WriteKeyboardEvent,
                payload: Some(
                    MessagePayloadView::KeyboardEvent(EdcsKeyData { btn_typ: key_typ, pressed }),
                ),
            },
        ),
    }
}

/// Build the control message a request stands for.
pub fn request_message(req: &ChannelEdcsRequest) -> (r: Option<EdcsMessage>)
    ensures
        match r {
            Some(m) => spec_request_message(req@) == Some(m@),
            None => spec_request_message(req@) is None,
        },
{
    match req {
        ChannelEdcsRequest::NewClient(_) => None,
        ChannelEdcsRequest::SetupEdcs { bitrate, framerate } => Some(
            EdcsMessage {
                message_type: EdcsMessageType::SetupEdcs,
                payload: Some(
                    EdcsMessagePayload::SetupEdcsParams(
                        EdcsStreamParams { bitrate: *bitrate, framerate: *framerate },
                    ),
                ),
            },
        ),
        ChannelEdcsRequest::SetupStream(d) => Some(
            EdcsMessage {
                message_type: EdcsMessageType::SetupStream,
                payload: Some(
                    EdcsMessagePayload::SetupStreamParams(
                        EdcsCalParams { cal_option_dict: clone_dict(d) },
                    ),
                ),
            },
        ),
        ChannelEdcsRequest::StartStream => Some(
            EdcsMessage { message_type: EdcsMessageType::StartStream, payload: None },
        ),
        ChannelEdcsRequest::CloseStream => Some(
            EdcsMessage { message_type: EdcsMessageType::CloseStream, payload: None },
        ),
        ChannelEdcsRequest::WriteMouseMove { x, y } => Some(
            EdcsMessage {
                message_type: EdcsMessageType::WriteMouseEvent,
                payload: Some(
                    EdcsMessagePayload::MouseEvent(
                        EdcsMouseEvent::Move(EdcsMouseMove { x: *x, y: *y }),
                    ),
                ),
            },
        ),
        ChannelEdcsRequest::WriteMouseButton { button_typ, pressed } => Some(
            EdcsMessage {
                message_type: EdcsMessageType::WriteMouseEvent,
                payload: Some(
                    EdcsMessagePayload::MouseEvent(
                        EdcsMouseEvent::Button(
                            EdcsKeyData { btn_typ: button_typ.ordinal(), pressed: *pressed },
                        ),
                    ),
                ),
            },
        ),
        ChannelEdcsRequest::WriteKeyboardEvent { key_typ, pressed } => Some(
            EdcsMessage {
                message_type: EdcsMessageType::WriteKeyboardEvent,
                payload: Some(
                    EdcsMessagePayload::KeyboardEvent(
                        EdcsKeyData { btn_typ: *key_typ, pressed: *pressed },
                    ),
                ),
            },
        ),
    }
}

/// What the transport worker does with one request from the UI.
#[derive(Debug)]
pub enum BrokerStep {
    /// Open a fresh connection with this configuration.
    Connect(ClientConfig),
    /// Send the message and forward its response onto `recv`.
    SendAwait(EdcsMessage),
    /// Send the message and await nothing: no `recv` entry may follow.
    SendOnly(EdcsMessage),
    /// No connection is open: tell the UI so on `recv`.
    ReplyInvalidClient,
    /// No connection is open and the request was an input event: drop it.
    DropSilently,
}

/// Mathematical view of a broker step.
pub enum BrokerStepView {
    Connect(ClientConfigView),
    SendAwait(MessageView),
    SendOnly(MessageView),
    ReplyInvalidClient,
    DropSilently,
}

impl View for BrokerStep {
    type V = BrokerStepView;

    open spec fn view(&self) -> BrokerStepView {
        match self {
            BrokerStep::Connect(c) => BrokerStepView::Connect(c@),
            BrokerStep::SendAwait(m) => BrokerStepView::SendAwait(m@),
            BrokerStep::SendOnly(m) => BrokerStepView::SendOnly(m@),
            BrokerStep::ReplyInvalidClient => BrokerStepView::ReplyInvalidClient,
            BrokerStep::DropSilently => BrokerStepView::DropSilently,
        }
    }
}

/// Handling this step puts an entry on `recv` (at once, or when the awaited
/// response arrives).
pub open spec fn spec_emits_recv_entry(s: BrokerStepView) -> bool {
    ||| s is Connect
    ||| s is SendAwait
    ||| s is ReplyInvalidClient
}

/// The broker's decision table for one request, given whether a connection
/// is currently open.
pub open spec fn spec_broker_step(r: ChannelRequestView, has_client: bool) -> BrokerStepView {
    match r {
        ChannelRequestView::NewClient(c) => BrokerStepView::Connect(c),
        _ => {
            if !has_client {
                if spec_is_input_event(r) {
                    BrokerStepView::DropSilently
                } else {
                    BrokerStepView::ReplyInvalidClient
                }
            } else {
                let m = spec_request_message(r)->Some_0;
                if spec_is_input_event(r) {
                    BrokerStepView::SendOnly(m)
                } else {
                    BrokerStepView::SendAwait(m)
                }
            }
        },
    }
}

/// Decide what the worker does with one request.
pub fn broker_step(req: ChannelEdcsRequest, has_client: bool) -> (r: BrokerStep)
    ensures
        r@ == spec_broker_step(req@, has_client),
{
    match req {
        ChannelEdcsRequest::NewClient(c) => BrokerStep::Connect(c),
        req => {
            let input = is_input_event(&req);
            if !has_client {
                if input {
                    BrokerStep::DropSilently
                } else {
                    BrokerStep::ReplyInvalidClient
                }
            } else {
                let m = match request_message(&req) {
                    Some(m) => m,
                    None => {
                        // `NewClient` was handled above; every other request
                        // has a message
                        return BrokerStep::ReplyInvalidClient;
                    },
                };
                if input {
                    BrokerStep::SendOnly(m)
                } else {
                    BrokerStep::SendAwait(m)
                }
            }
        },
    }
}

/// Law: an input event never leads to a `recv` entry, whatever the state of
/// the connection; and a state-changing request on a live connection always
/// awaits its response, which is forwarded — no state-change response is
/// lost.
pub proof fn lemma_input_events_produce_no_recv(r: ChannelRequestView, has_client: bool)
    ensures
        spec_is_input_event(r) ==> !spec_emits_recv_entry(spec_broker_step(r, has_client)),
        !spec_is_input_event(r) && !(r is NewClient) && has_client ==> spec_broker_step(
            r,
            has_client,
        ) == BrokerStepView::SendAwait(spec_request_message(r)->Some_0),
{
}

} // verus!
