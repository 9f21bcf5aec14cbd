//! The safe facade over the CAL capture/encode backend: the adapter's
//! configuration and lifecycle flags, and the mapping of protocol input
//! events to the Linux event codes the backend injects.
//!
//! The backend itself is an external collaborator; the calls into it are
//! made by the dispatcher, which feeds their outcomes back into the session
//! state machine.

use crate::schema::{EdcsKeyData, EdcsMouseEvent};
use vstd::prelude::*;

verus! {

/// Linux event code for the left mouse button.
pub const BTN_LEFT: u32 = 0x110;

/// Linux event code for the right mouse button.
pub const BTN_RIGHT: u32 = 0x111;

/// Linux event code for the middle mouse button.
pub const BTN_MIDDLE: u32 = 0x112;

/// An error code reported by the CAL backend.
#[derive(Clone, Copy, Debug, PartialEq, Eq, Structural)]
pub struct EdssError(pub u32);

/// A mouse event in the form the backend injects: a Linux button code with a
/// press flag, or an absolute move.
#[derive(Clone, Copy, Debug, PartialEq, Eq, Structural)]
pub enum EdssMouseEvent {
    Click { button: u32, pressed: bool },
    MoveTo { x: u32, y: u32 },
}

/// How a protocol mouse event reaches the backend: the three known buttons
/// map to their Linux event codes, any other button ordinal is dropped.
pub open spec fn spec_map_mouse_event(e: EdcsMouseEvent) -> Option<EdssMouseEvent> {
    match e {
        EdcsMouseEvent::Button(k) => {
            if k.btn_typ == 0 {
                Some(EdssMouseEvent::Click { button: BTN_LEFT, pressed: k.pressed })
            } else if k.btn_typ == 1 {
                Some(EdssMouseEvent::Click { button: BTN_RIGHT, pressed: k.pressed })
            } else if k.btn_typ == 2 {
                Some(EdssMouseEvent::Click { button: BTN_MIDDLE, pressed: k.pressed })
            } else {
                None
            }
        },
        EdcsMouseEvent::Move(m) => Some(EdssMouseEvent::MoveTo { x: m.x, y: m.y }),
    }
}

/// Relies on rand's `OsRng` (`RngCore::fill_bytes`): `n` bytes from the
/// operating system's random source. Nothing is promised of the values;
/// aborts only if the operating system's source fails.
#[verifier::external_body]
fn random_bytes(n: usize) -> (r: Vec<u8>)
    ensures
        r@.len() == n,
{
    let mut buf = vec![0u8; n];
    rand::RngCore::fill_bytes(&mut rand::rngs::OsRng, &mut buf);
    buf
}

/// What `base64::encode` returns: a function of the input bytes alone.
pub uninterp spec fn base64_of(b: Seq<u8>) -> Seq<char>;

/// Relies on `base64::encode` (standard alphabet, padded): the result is a
/// function of the input bytes alone, four characters for every three bytes
/// begun.
#[verifier::external_body]
fn base64_encode(b: &Vec<u8>) -> (r: String)
    ensures
        r@ == base64_of(b@),
        r@.len() == ((b@.len() + 2) / 3) * 4,
{
    base64::encode(b)
}

/// The string is the base64 encoding of some 40 bytes, the shape the SRTP
/// out-parameters must have.
pub open spec fn is_srtp_out_params(s: Seq<char>) -> bool {
    exists|b: Seq<u8>| b.len() == 40 && s == base64_of(b)
}

/// Fresh SRTP key material for the outbound stream: 40 random bytes from a
/// cryptographic source, base64-encoded.
pub fn generate_srtp_out_params() -> (r: String)
    ensures
        r@.len() == 56,
        is_srtp_out_params(r@),
{
    let bytes = random_bytes(40);
    let r = base64_encode(&bytes);
    proof {
        assert(bytes@.len() == 40 && r@ == base64_of(bytes@));
    }
    r
}

/// Everything the backend needs to configure a stream.
#[derive(Clone, Debug, PartialEq, Eq)]
pub struct EdssStreamConfig {
    pub ip: String,
    pub port: u16,
    pub bitrate: u32,
    pub framerate: u32,
    pub srtp_out_params: String,
    pub cal_option_dict: Vec<(String, String)>,
}

/// Mathematical view of a stream configuration handed to the backend.
pub struct StreamSetupView {
    pub ip: Seq<char>,
    pub port: u16,
    pub bitrate: u32,
    pub framerate: u32,
    pub srtp_out_params: Seq<char>,
    pub cal_option_dict: Seq<(Seq<char>, Seq<char>)>,
}

impl View for EdssStreamConfig {
    type V = StreamSetupView;

    open spec fn view(&self) -> StreamSetupView {
        StreamSetupView {
            ip: self.ip@,
            port: self.port,
            bitrate: self.bitrate,
            framerate: self.framerate,
            srtp_out_params: self.srtp_out_params@,
            cal_option_dict: self.cal_option_dict.deep_view(),
        }
    }
}

/// The stream configuration an adapter would hand to the backend.
pub open spec fn spec_stream_setup_of(a: AdapterView) -> StreamSetupView {
    StreamSetupView {
        ip: a.ip,
        port: a.port,
        bitrate: a.bitrate,
        framerate: a.framerate,
        srtp_out_params: a.srtp_out_params,
        cal_option_dict: a.cal_option_dict,
    }
}

/// Mathematical view of an adapter.
pub struct AdapterView {
    pub ip: Seq<char>,
    pub port: u16,
    pub bitrate: u32,
    pub framerate: u32,
    pub srtp_out_params: Seq<char>,
    pub cal_option_dict: Seq<(Seq<char>, Seq<char>)>,
    pub sdp: Option<Seq<char>>,
    pub streaming: bool,
    pub stream_setup: bool,
}

impl AdapterView {
    /// The adapter's invariants: `streaming` only after stream setup, and an
    /// SDP description exactly while the stream is set up.
    pub open spec fn wf(self) -> bool {
        &&& (self.streaming ==> self.stream_setup)
        &&& (self.sdp is Some <==> self.stream_setup)
    }
}

/// The typed facade over one CAL backend instance, exclusively owned by its
/// session.
pub struct EdssAdapter {
    pub ip: String,
    pub port: u16,
    pub bitrate: u32,
    pub framerate: u32,
    pub srtp_out_params: String,
    pub cal_option_dict: Vec<(String, String)>,
    pub sdp: Option<String>,
    streaming: bool,
    stream_setup: bool,
}

impl View for EdssAdapter {
    type V = AdapterView;

    closed spec fn view(&self) -> AdapterView {
        AdapterView {
            ip: self.ip@,
            port: self.port,
            bitrate: self.bitrate,
            framerate: self.framerate,
            srtp_out_params: self.srtp_out_params@,
            cal_option_dict: self.cal_option_dict.deep_view(),
            sdp: match self.sdp {
                Some(s) => Some(s@),
                None => None,
            },
            streaming: self.streaming,
            stream_setup: self.stream_setup,
        }
    }
}

impl EdssAdapter {
    /// Whether the backend is currently emitting media packets.
    pub fn streaming(&self) -> (r: bool)
        ensures
            r == self@.streaming,
    {
        self.streaming
    }

    /// Whether the backend has been configured for a stream.
    pub fn stream_setup(&self) -> (r: bool)
        ensures
            r == self@.stream_setup,
    {
        self.stream_setup
    }

    /// The bitrate the stream was asked for.
    pub fn bitrate(&self) -> (r: u32)
        ensures
            r == self@.bitrate,
    {
        self.bitrate
    }

    /// The framerate the stream was asked for.
    pub fn framerate(&self) -> (r: u32)
        ensures
            r == self@.framerate,
    {
        self.framerate
    }

    /// The stream configuration the backend is to be given, copied out of
    /// this adapter.
    pub fn stream_config(&self) -> (r: EdssStreamConfig)
        ensures
            r@ == spec_stream_setup_of(self@),
    {
        EdssStreamConfig {
            ip: self.ip.clone(),
            port: self.port,
            bitrate: self.bitrate,
            framerate: self.framerate,
            srtp_out_params: self.srtp_out_params.clone(),
            cal_option_dict: crate::config::clone_dict(&self.cal_option_dict),
        }
    }

    /// A fresh adapter for a newly opened backend: the capability dictionary
    /// the backend reported, both lifecycle flags down, and newly generated
    /// SRTP out-parameters.
    pub fn new(
        ip: String,
        port: u16,
        bitrate: u32,
        framerate: u32,
        cal_option_dict: Vec<(String, String)>,
    ) -> (r: EdssAdapter)
        ensures
            r@.ip == ip@,
            r@.port == port,
            r@.bitrate == bitrate,
            r@.framerate == framerate,
            r@.cal_option_dict == cal_option_dict.deep_view(),
            r@.sdp is None,
            !r@.streaming,
            !r@.stream_setup,
            r@.srtp_out_params.len() == 56,
            is_srtp_out_params(r@.srtp_out_params),
            r@.wf(),
    {
        let srtp_out_params = generate_srtp_out_params();
        EdssAdapter {
            ip,
            port,
            bitrate,
            framerate,
            srtp_out_params,
            cal_option_dict,
            sdp: None,
            streaming: false,
            stream_setup: false,
        }
    }

    /// Replace the capability dictionary, legal only before stream setup.
    pub fn set_cal_option_dict(&mut self, d: Vec<(String, String)>)
        requires
            !old(self)@.stream_setup,
        ensures
            final(self)@ == (AdapterView { cal_option_dict: d.deep_view(), ..old(self)@ }),
    {
        self.cal_option_dict = d;
    }

    /// Record a successful backend stream setup: keep the SDP it produced
    /// and raise `stream_setup`.
    pub fn init_server(&mut self, sdp: String)
        requires
            !old(self)@.stream_setup,
        ensures
            final(self)@ == (AdapterView {
                sdp: Some(sdp@),
                stream_setup: true,
                ..old(self)@
            }),
            old(self)@.wf() ==> final(self)@.wf(),
    {
        self.sdp = Some(sdp);
        self.stream_setup = true;
    }

    /// Record that the backend began emitting media packets.
    pub fn init_streaming(&mut self)
        requires
            old(self)@.stream_setup,
            !old(self)@.streaming,
        ensures
            final(self)@ == (AdapterView { streaming: true, ..old(self)@ }),
            old(self)@.wf() ==> final(self)@.wf(),
    {
        self.streaming = true;
    }

    /// Record that the backend stopped emission and released its media
    /// resources: both flags down, the SDP gone.
    pub fn close_streaming(&mut self)
        requires
            old(self)@.streaming,
        ensures
            final(self)@ == (AdapterView {
                streaming: false,
                stream_setup: false,
                sdp: None,
                ..old(self)@
            }),
            final(self)@.wf(),
    {
        self.streaming = false;
        self.stream_setup = false;
        self.sdp = None;
    }

    /// The backend-facing form of a protocol mouse event, legal only while
    /// streaming; unknown button ordinals are dropped.
    pub fn write_mouse_event(&self, ev: &EdcsMouseEvent) -> (r: Option<EdssMouseEvent>)
        requires
            self@.streaming,
        ensures
            r == spec_map_mouse_event(*ev),
    {
        match ev {
            EdcsMouseEvent::Button(k) => {
                if k.btn_typ == 0 {
                    Some(EdssMouseEvent::Click { button: BTN_LEFT, pressed: k.pressed })
                } else if k.btn_typ == 1 {
                    Some(EdssMouseEvent::Click { button: BTN_RIGHT, pressed: k.pressed })
                } else if k.btn_typ == 2 {
                    Some(EdssMouseEvent::Click { button: BTN_MIDDLE, pressed: k.pressed })
                } else {
                    None
                }
            },
            EdcsMouseEvent::Move(m) => Some(EdssMouseEvent::MoveTo { x: m.x, y: m.y }),
        }
    }

    /// The backend-facing form of a protocol keyboard event, legal only
    /// while streaming: the raw Linux event code passes through.
    pub fn write_keyboard_event(&self, k: &EdcsKeyData) -> (r: EdcsKeyData)
        requires
            self@.streaming,
        ensures
            r == *k,
    {
        EdcsKeyData { btn_typ: k.btn_typ, pressed: k.pressed }
    }
}

} // verus!
