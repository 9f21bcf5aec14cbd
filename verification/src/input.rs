//! Mapping of window input events to broker requests, as the control bar
//! does during an active connection: cursor moves and button presses become
//! mouse events, key presses become keyboard events with Linux codes.

use crate::broker::{ChannelEdcsRequest, ChannelRequestView};
use crate::keymap::{spec_linux_input_code, virtual_key_code_to_linux_input, VirtualKeyCode};
use crate::schema::EdcsMouseButton;
use vstd::prelude::*;

verus! {

/// A mouse button as the windowing toolkit reports it.
#[derive(Clone, Copy, Debug, PartialEq, Eq, Structural)]
pub enum WindowMouseButton {
    Left,
    Right,
    Middle,
    Other,
}

/// A window input event, reduced to what the control channel can carry.
#[derive(Clone, Copy, Debug, PartialEq, Eq, Structural)]
pub enum WindowInputEvent {
    CursorMoved { x: u32, y: u32 },
    MouseInput { button: WindowMouseButton, pressed: bool },
    KeyboardInput { key: Option<VirtualKeyCode>, pressed: bool },
    ModifiersChanged { logo: bool },
}

/// The broker request a window input event becomes: buttons the protocol
/// does not know and keys without a Linux code are dropped; a change of the
/// logo modifier is sent as the left meta key.
pub open spec fn spec_window_event_request(e: WindowInputEvent) -> Option<ChannelRequestView> {
    match e {
        WindowInputEvent::CursorMoved { x, y } => Some(ChannelRequestView::WriteMouseMove { x, y }),
        WindowInputEvent::MouseInput { button, pressed } => match button {
            WindowMouseButton::Left => Some(
                ChannelRequestView::WriteMouseButton {
                    button_typ: EdcsMouseButton::MouseButtonLeft,
                    pressed,
                },
            ),
            WindowMouseButton::Right => Some(
                ChannelRequestView::WriteMouseButton {
                    button_typ: EdcsMouseButton::MouseButtonRight,
                    pressed,
                },
            ),
            WindowMouseButton::Middle => Some(
                ChannelRequestView::WriteMouseButton {
                    button_typ: EdcsMouseButton::MouseButtonMiddle,
                    pressed,
                },
            ),
            WindowMouseButton::Other => None,
        },
        WindowInputEvent::KeyboardInput { key, pressed } => match key {
            Some(k) => match spec_linux_input_code(k) {
                Some(code) => Some(
                    ChannelRequestView::WriteKeyboardEvent { key_typ: code, pressed },
                ),
                None => None,
            },
            None => Some(ChannelRequestView::WriteKeyboardEvent { key_typ: 0, pressed }),
        },
        WindowInputEvent::ModifiersChanged { logo } => match spec_linux_input_code(
            VirtualKeyCode::LWin,
        ) {
            Some(code) => Some(
                ChannelRequestView::WriteKeyboardEvent { key_typ: code, pressed: logo },
            ),
            None => None,
        },
    }
}

/// Turn a window input event into the broker request to push, if any.
pub fn window_event_to_request(e: WindowInputEvent) -> (r: Option<ChannelEdcsRequest>)
    ensures
        match r {
            Some(req) => spec_window_event_request(e) == Some(req@),
            None => spec_window_event_request(e) is None,
        },
{
    match e {
        WindowInputEvent::CursorMoved { x, y } => Some(
            ChannelEdcsRequest::WriteMouseMove { x, y },
        ),
        WindowInputEvent::MouseInput { button, pressed } => match button {
            WindowMouseButton::Left => Some(
                ChannelEdcsRequest::WriteMouseButton {
                    button_typ: EdcsMouseButton::MouseButtonLeft,
                    pressed,
                },
            ),
            WindowMouseButton::Right => Some(
                ChannelEdcsRequest::WriteMouseButton {
                    button_typ: EdcsMouseButton::MouseButtonRight,
                    pressed,
                },
            ),
            WindowMouseButton::Middle => Some(
                ChannelEdcsRequest::WriteMouseButton {
                    button_typ: EdcsMouseButton::MouseButtonMiddle,
                    pressed,
                },
            ),
            WindowMouseButton::Other => None,
        },
        WindowInputEvent::KeyboardInput { key, pressed } => match key {
            Some(k) => {
                if k.has_linux_mapping() {
                    let code = virtual_key_code_to_linux_input(k);
                    Some(ChannelEdcsRequest::WriteKeyboardEvent { key_typ: code, pressed })
                } else {
                    None
                }
            },
            None => Some(ChannelEdcsRequest::WriteKeyboardEvent { key_typ: 0, pressed }),
        },
        WindowInputEvent::ModifiersChanged { logo } => {
            let code = virtual_key_code_to_linux_input(VirtualKeyCode::LWin);
            Some(ChannelEdcsRequest::WriteKeyboardEvent { key_typ: code, pressed: logo })
        },
    }
}

} // verus!
