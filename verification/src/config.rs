//! Configuration records for the server, the client and the stream, as the
//! rest of the library consumes them. Reading them from disk is the host
//! program's concern.

use vstd::prelude::*;

verus! {

/// Backend-side configuration: which CAL plugin to load and where its media
/// stream is sent.
#[derive(Clone, Debug, PartialEq, Eq)]
pub struct EdssConfig {
    pub plugin_name: String,
    pub ip: String,
    pub port: u16,
}

/// Mathematical view of the backend configuration.
pub struct EdssConfigView {
    pub plugin_name: Seq<char>,
    pub ip: Seq<char>,
    pub port: u16,
}

impl View for EdssConfig {
    type V = EdssConfigView;

    open spec fn view(&self) -> EdssConfigView {
        EdssConfigView { plugin_name: self.plugin_name@, ip: self.ip@, port: self.port }
    }
}

/// Server configuration: where to listen, the TLS material, and the backend
/// configuration.
#[derive(Clone, Debug, PartialEq, Eq)]
pub struct EdcsConfig {
    pub ip: String,
    pub port: u16,
    pub cert_path: String,
    pub key_path: String,
    pub edss_config: EdssConfig,
}

/// Client connection configuration, immutable once a connection attempt
/// starts.
#[derive(Clone, Debug, PartialEq, Eq)]
pub struct ClientConfig {
    pub host: String,
    pub domain: String,
    pub port: u16,
    pub cert: String,
    pub disable_tls_verification: bool,
}

/// Mathematical view of a client configuration.
pub struct ClientConfigView {
    pub host: Seq<char>,
    pub domain: Seq<char>,
    pub port: u16,
    pub cert: Seq<char>,
    pub disable_tls_verification: bool,
}

impl View for ClientConfig {
    type V = ClientConfigView;

    open spec fn view(&self) -> ClientConfigView {
        ClientConfigView {
            host: self.host@,
            domain: self.domain@,
            port: self.port,
            cert: self.cert@,
            disable_tls_verification: self.disable_tls_verification,
        }
    }
}

impl ClientConfig {
    /// A copy with the same contents, usable in contracts.
    pub fn duplicate(&self) -> (r: ClientConfig)
        ensures
            r@ == self@,
    {
        ClientConfig {
            host: self.host.clone(),
            domain: self.domain.clone(),
            port: self.port,
            cert: self.cert.clone(),
            disable_tls_verification: self.disable_tls_verification,
        }
    }
}

/// User-interface preferences for one connection.
#[derive(Clone, Copy, Debug, PartialEq, Eq, Structural)]
pub struct UIConfig {
    pub host_cursor: bool,
}

/// Stream parameters the user picks, with the backend-specific options
/// merged in from the capability dictionary.
#[derive(Clone, Debug, PartialEq, Eq)]
pub struct StreamConfig {
    pub bitrate: u32,
    pub framerate: u32,
    pub cal_plugin_params: Vec<(String, String)>,
}

/// Mathematical view of a stream configuration.
pub struct StreamConfigView {
    pub bitrate: u32,
    pub framerate: u32,
    pub cal_plugin_params: Seq<(Seq<char>, Seq<char>)>,
}

impl View for StreamConfig {
    type V = StreamConfigView;

    open spec fn view(&self) -> StreamConfigView {
        StreamConfigView {
            bitrate: self.bitrate,
            framerate: self.framerate,
            cal_plugin_params: self.cal_plugin_params.deep_view(),
        }
    }
}

/// One saved connection: how to reach the server, what stream to ask for,
/// and the user-interface preferences.
#[derive(Clone, Debug, PartialEq, Eq)]
pub struct ConnectionConfig {
    pub stream_config: StreamConfig,
    pub client_config: ClientConfig,
    pub ui_config: UIConfig,
}

/// Mathematical view of a saved connection.
pub struct ConnectionConfigView {
    pub stream_config: StreamConfigView,
    pub client_config: ClientConfigView,
    pub ui_config: UIConfig,
}

impl View for ConnectionConfig {
    type V = ConnectionConfigView;

    open spec fn view(&self) -> ConnectionConfigView {
        ConnectionConfigView {
            stream_config: self.stream_config@,
            client_config: self.client_config@,
            ui_config: self.ui_config,
        }
    }
}

/// Copy a dictionary entry by entry, keeping its view.
pub fn clone_dict(d: &Vec<(String, String)>) -> (r: Vec<(String, String)>)
    ensures
        r.deep_view() == d.deep_view(),
{
    let mut out: Vec<(String, String)> = Vec::new();
    let mut i: usize = 0;
    while i < d.len()
        invariant
            i <= d@.len(),
            out.deep_view() =~~= d.deep_view().take(i as int),
        decreases d@.len() - i,
    {
        let k = d[i].0.clone();
        let v = d[i].1.clone();
        let ghost pre_vec = out@;
        let ghost pre_dv = out.deep_view();
        out.push((k, v));
        proof {
            let dv = d.deep_view();
            assert forall|j: int| 0 <= j < out@.len() implies out.deep_view()[j] == dv.take(
                i + 1,
            )[j] by {
                assert(out.deep_view()[j] == out@[j].deep_view());
                if j < i as int {
                    assert(out@[j] == pre_vec[j]);
                    assert(pre_dv[j] == dv.take(i as int)[j]);
                } else {
                    assert(out@[j] == (k, v));
                    assert(k == d@[i as int].0);
                    assert(v == d@[i as int].1);
                    assert(dv[i as int] == d@[i as int].deep_view());
                }
            }
            assert(out.deep_view() =~= dv.take(i + 1));
        }
        i = i + 1;
    }
    proof {
        assert(d.deep_view().take(d.deep_view().len() as int) =~~= d.deep_view());
        assert(out.deep_view() =~~= d.deep_view());
    }
    out
}

} // verus!
