//! The adapter facade: SRTP out-parameter generation and the lifecycle
//! flags.

use edcs::adapter::{generate_srtp_out_params, EdssAdapter};

fn dict(entries: &[(&str, &str)]) -> Vec<(String, String)> {
    entries.iter().map(|(k, v)| (k.to_string(), v.to_string())).collect()
}

#[test]
fn srtp_out_params_are_forty_random_bytes_in_base64() {
    let params = generate_srtp_out_params();
    assert_eq!(params.len(), 56);
    let raw = base64::decode(&params).expect("the out-parameters must be valid base64");
    assert_eq!(raw.len(), 40);
}

#[test]
fn srtp_out_params_differ_between_adapters() {
    // 320 bits from a cryptographic source: a repeat would be a fault
    assert_ne!(generate_srtp_out_params(), generate_srtp_out_params());
}

#[test]
fn a_new_adapter_has_both_flags_down() {
    let a = EdssAdapter::new(
        "127.0.0.1".to_string(),
        47100,
        10_000_000,
        60,
        dict(&[("vgpuId", "")]),
    );
    assert!(!a.streaming());
    assert!(!a.stream_setup());
    assert_eq!(a.bitrate(), 10_000_000);
    assert_eq!(a.framerate(), 60);
    assert!(a.sdp.is_none());
    assert_eq!(a.srtp_out_params.len(), 56);
}

#[test]
fn stream_config_carries_the_adapter_fields() {
    let a = EdssAdapter::new(
        "127.0.0.1".to_string(),
        47100,
        10_000_000,
        60,
        dict(&[("vgpuId", "2")]),
    );
    let sc = a.stream_config();
    assert_eq!(sc.ip, "127.0.0.1");
    assert_eq!(sc.port, 47100);
    assert_eq!(sc.bitrate, 10_000_000);
    assert_eq!(sc.framerate, 60);
    assert_eq!(sc.srtp_out_params, a.srtp_out_params);
    assert_eq!(sc.cal_option_dict, dict(&[("vgpuId", "2")]));
}
