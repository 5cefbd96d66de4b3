use base64::Engine;
use jetkvm_control::error::KvmError;
use jetkvm_control::rpc::{encode_request, InboundDisposition, RpcCore};
use jetkvm_control::session::{
    classify_login_status, falls_back_to_legacy, session_step, tries_websocket_first, ws_step,
    JetKvmConfig, SessionEvent, SessionState, SignalingMethod, WsAction, WsFrame, WsPhase,
};
use jetkvm_control::signaling::{
    b64_encode, classify_sdp_type, decode_sdp_answer, encode_sdp_json, encode_sdp_offer,
    parse_sdp_json, SdpType,
};

#[test]
fn test_rpc_before_open_is_channel_not_open() {
    let mut core = RpcCore::new();
    assert_eq!(core.begin_call(), Err(KvmError::ChannelNotOpen));
}

#[test]
fn test_rpc_ids_are_contiguous_and_distinct() {
    let mut core = RpcCore::new();
    core.set_open(true);
    let mut ids = Vec::new();
    for _ in 0..100 {
        ids.push(core.begin_call().unwrap());
    }
    for w in ids.windows(2) {
        assert_eq!(w[1], w[0] + 1);
    }
    // every call resolves exactly once, in any order
    for id in ids.iter().rev() {
        assert!(core.resolve(*id));
    }
    for id in &ids {
        assert!(!core.resolve(*id));
    }
}

#[test]
fn test_rpc_resolve_is_at_most_once() {
    let mut core = RpcCore::new();
    core.set_open(true);
    let id = core.begin_call().unwrap();
    assert!(core.resolve(id));
    assert!(!core.resolve(id));
    assert!(!core.resolve(9999));
}

#[test]
fn test_rpc_close_hands_back_pending() {
    let mut core = RpcCore::new();
    core.set_open(true);
    let a = core.begin_call().unwrap();
    let b = core.begin_call().unwrap();
    assert!(core.resolve(a));
    let pending = core.close_all();
    // the unanswered call is handed back so its caller can be failed
    // with ChannelClosed
    assert_eq!(pending, vec![b]);
    assert_eq!(core.begin_call(), Err(KvmError::ChannelNotOpen));
}

#[test]
fn test_request_frame_text() {
    let frame = encode_request("ping", "{}", 42);
    assert_eq!(
        frame,
        "{\"jsonrpc\":\"2.0\",\"method\":\"ping\",\"params\":{},\"id\":42}"
    );
}

#[test]
fn test_request_frame_echo_parses_back() {
    // serialize, "echo", and parse back: id, method and params survive
    let frame = encode_request(
        "keyboardReport",
        "{\"modifier\":2,\"keys\":[4]}",
        18446744073709551615,
    );
    let v: serde_json::Value = serde_json::from_str(&frame).unwrap();
    assert_eq!(v["jsonrpc"], "2.0");
    assert_eq!(v["method"], "keyboardReport");
    assert_eq!(v["id"].as_u64(), Some(u64::MAX));
    assert_eq!(v["params"]["modifier"].as_u64(), Some(2));
    assert_eq!(v["params"]["keys"][0].as_u64(), Some(4));
}

#[test]
fn test_login_status_classification() {
    assert_eq!(classify_login_status(200), Ok(()));
    assert_eq!(classify_login_status(204), Ok(()));
    assert_eq!(classify_login_status(299), Ok(()));
    assert_eq!(classify_login_status(300), Err(KvmError::AuthFailed(300)));
    assert_eq!(classify_login_status(401), Err(KvmError::AuthFailed(401)));
    assert_eq!(classify_login_status(199), Err(KvmError::AuthFailed(199)));
}

#[test]
fn test_session_lifecycle() {
    let (s, e) = session_step(SessionState::New, SessionEvent::StartConnect);
    assert_eq!((s, e), (SessionState::Authenticating, None));
    let (s, e) = session_step(s, SessionEvent::AuthOk);
    assert_eq!((s, e), (SessionState::Signalling, None));
    let (s, e) = session_step(s, SessionEvent::StreamOpen);
    assert_eq!((s, e), (SessionState::Open, None));
    let (s, e) = session_step(s, SessionEvent::StartShutdown);
    assert_eq!((s, e), (SessionState::Closing, None));
    let (s, e) = session_step(s, SessionEvent::ShutdownDone);
    assert_eq!((s, e), (SessionState::Closed, None));
    // shutdown stays idempotent once closed
    let (s, e) = session_step(s, SessionEvent::StartShutdown);
    assert_eq!((s, e), (SessionState::Closed, None));
}

#[test]
fn test_session_failures_are_terminal() {
    let (s, e) = session_step(SessionState::Authenticating, SessionEvent::AuthRejected(401));
    assert_eq!((s, e), (SessionState::Closed, Some(KvmError::AuthFailed(401))));
    let (s, e) = session_step(SessionState::Signalling, SessionEvent::SignallingFailed);
    assert_eq!(
        (s, e),
        (SessionState::Closed, Some(KvmError::SignallingTransport))
    );
    let (s, e) = session_step(SessionState::Open, SessionEvent::StreamClosed);
    assert_eq!((s, e), (SessionState::Closed, Some(KvmError::ChannelClosed)));
}

#[test]
fn test_auto_mode_fallback_rule() {
    assert!(tries_websocket_first(SignalingMethod::Auto));
    assert!(tries_websocket_first(SignalingMethod::WebSocket));
    assert!(!tries_websocket_first(SignalingMethod::Legacy));

    assert!(falls_back_to_legacy(SignalingMethod::Auto, true));
    assert!(!falls_back_to_legacy(SignalingMethod::Auto, false));
    assert!(!falls_back_to_legacy(SignalingMethod::WebSocket, true));
    assert!(!falls_back_to_legacy(SignalingMethod::Legacy, true));
}

#[test]
fn test_ws_handshake_requires_metadata_first() {
    // the first frame must be device-metadata; anything else fails the
    // exchange (and, in Auto mode, sends the facade to legacy)
    assert_eq!(
        ws_step(WsPhase::AwaitMetadata, WsFrame::DeviceMetadata),
        Ok((WsPhase::AwaitAnswer, WsAction::SendOffer))
    );
    assert_eq!(
        ws_step(WsPhase::AwaitMetadata, WsFrame::Answer),
        Err(KvmError::SignallingProtocol)
    );
    assert_eq!(
        ws_step(WsPhase::AwaitAnswer, WsFrame::Answer),
        Ok((WsPhase::Streaming, WsAction::ApplyAnswer))
    );
    assert_eq!(
        ws_step(WsPhase::AwaitAnswer, WsFrame::NewIceCandidate),
        Ok((WsPhase::AwaitAnswer, WsAction::AddCandidate))
    );
    assert_eq!(
        ws_step(WsPhase::Streaming, WsFrame::NewIceCandidate),
        Ok((WsPhase::Streaming, WsAction::AddCandidate))
    );
    assert_eq!(
        ws_step(WsPhase::Streaming, WsFrame::Offer),
        Ok((WsPhase::Streaming, WsAction::Ignore))
    );
}

#[test]
fn test_session_url() {
    let mut cfg = JetKvmConfig::default();
    cfg.host = "10.0.0.5".to_string();
    assert_eq!(cfg.session_url(), "http://10.0.0.5:80/webrtc/session");
    assert!(!cfg.needs_login());
    cfg.password = "secret".to_string();
    assert!(cfg.needs_login());
}

#[test]
fn test_sdp_json_shape() {
    let json = encode_sdp_json(&b"v=0".to_vec(), &b"offer".to_vec());
    assert_eq!(
        String::from_utf8(json).unwrap(),
        "{\"sdp\":\"v=0\",\"type\":\"offer\"}"
    );
}

#[test]
fn test_sdp_json_escapes_control_characters() {
    let json = encode_sdp_json(&b"a\r\nb\"c\\d".to_vec(), &b"offer".to_vec());
    assert_eq!(
        String::from_utf8(json).unwrap(),
        "{\"sdp\":\"a\\r\\nb\\\"c\\\\d\",\"type\":\"offer\"}"
    );
}

#[test]
fn test_sdp_offer_is_base64_of_json() {
    // the wire value is the standard base64 of the JSON object; an
    // unencoded or differently framed result would not match
    let sd = encode_sdp_offer(&b"v=0\r\n".to_vec(), &b"offer".to_vec());
    let decoded = base64::engine::general_purpose::STANDARD
        .decode(&sd)
        .unwrap();
    assert_eq!(
        String::from_utf8(decoded).unwrap(),
        "{\"sdp\":\"v=0\\r\\n\",\"type\":\"offer\"}"
    );
}

#[test]
fn test_sdp_round_trip() {
    let sdp = b"v=0\r\no=- 46117317 2 IN IP4 127.0.0.1\r\n".to_vec();
    let typ = b"offer".to_vec();
    let sd = encode_sdp_offer(&sdp, &typ);
    let (sdp2, typ2) = decode_sdp_answer(&sd).unwrap();
    assert_eq!(sdp2, sdp);
    assert_eq!(typ2, typ);
}

#[test]
fn test_sdp_type_defaults_to_answer() {
    let (sdp, typ) = parse_sdp_json(&b"{\"sdp\":\"v=0\"}".to_vec()).unwrap();
    assert_eq!(sdp, b"v=0".to_vec());
    assert_eq!(typ, b"answer".to_vec());
}

#[test]
fn test_sdp_parse_rejects_malformed() {
    assert!(parse_sdp_json(&b"{\"sdp\":\"v=0\"".to_vec()).is_none());
    assert!(parse_sdp_json(&b"{\"other\":\"v=0\"}".to_vec()).is_none());
    assert!(parse_sdp_json(&b"".to_vec()).is_none());
    assert!(decode_sdp_answer("not-base64!!!").is_none());
}

#[test]
fn test_b64_encode_is_real_base64() {
    // the wrapper must hand out genuine base64, not its input
    let s = b64_encode(&b"hello".to_vec());
    assert_eq!(s, "aGVsbG8=");
}

#[test]
fn test_serialize_deserialize_device_metadata() {
    let json = jetkvm_control::signaling::encode_device_metadata("1.0.0");
    assert_eq!(
        json,
        r#"{"type":"device-metadata","data":{"deviceVersion":"1.0.0"}}"#
    );
    let deserialized: serde_json::Value = serde_json::from_str(&json).unwrap();
    assert_eq!(deserialized["type"], "device-metadata");
}

#[test]
fn test_serialize_deserialize_offer() {
    let json = jetkvm_control::signaling::encode_offer_message("offer_sd");
    assert_eq!(json, r#"{"type":"offer","data":{"sd":"offer_sd"}}"#);
    let deserialized: serde_json::Value = serde_json::from_str(&json).unwrap();
    assert_eq!(deserialized["type"], "offer");
}

#[test]
fn test_serialize_deserialize_answer() {
    let json = jetkvm_control::signaling::encode_answer_message("answer_sd");
    assert_eq!(json, r#"{"type":"answer","data":"answer_sd"}"#);
    let deserialized: serde_json::Value = serde_json::from_str(&json).unwrap();
    assert_eq!(deserialized["type"], "answer");
}

#[test]
fn test_serialize_deserialize_new_ice_candidate() {
    let json =
        jetkvm_control::signaling::encode_ice_candidate_message("candidate_str", "sdp_mid_str", 1);
    assert_eq!(
        json,
        r#"{"type":"new-ice-candidate","data":{"candidate":"candidate_str","sdpMid":"sdp_mid_str","sdpMLineIndex":1}}"#
    );
    let deserialized: serde_json::Value = serde_json::from_str(&json).unwrap();
    assert_eq!(deserialized["type"], "new-ice-candidate");
}

#[test]
fn test_inbound_dispatch_rules() {
    let mut core = RpcCore::new();
    core.set_open(true);
    let id = core.begin_call().unwrap();
    assert_eq!(
        core.dispatch_inbound(Some(id)),
        InboundDisposition::ResolveSlot(id)
    );
    // a second response with the same id no longer finds a slot
    assert_eq!(
        core.dispatch_inbound(Some(id)),
        InboundDisposition::Discard(id)
    );
    assert_eq!(
        core.dispatch_inbound(Some(777)),
        InboundDisposition::Discard(777)
    );
    assert_eq!(core.dispatch_inbound(None), InboundDisposition::Notification);
}

#[test]
fn test_frame_id_digit_suffix() {
    // the id sits as the digit run before the closing brace, whatever
    // the params carry (even digits of their own)
    let frame = encode_request("ping", "{\"n\":123}", 7);
    assert!(frame.ends_with(",\"id\":7}"));
    let digits: String = frame
        .trim_end_matches('}')
        .chars()
        .rev()
        .take_while(|c| c.is_ascii_digit())
        .collect::<Vec<_>>()
        .into_iter()
        .rev()
        .collect();
    assert_eq!(digits, "7");
}

#[test]
fn test_sdp_parse_any_member_order_and_whitespace() {
    // the appliance may order members either way and add whitespace
    let (sdp, typ) =
        parse_sdp_json(&b"{ \"type\": \"answer\", \"sdp\": \"v=0\" }".to_vec()).unwrap();
    assert_eq!(sdp, b"v=0".to_vec());
    assert_eq!(typ, b"answer".to_vec());

    let (sdp, typ) = parse_sdp_json(&b"{\"type\":\"offer\",\"sdp\":\"v=0\"}".to_vec()).unwrap();
    assert_eq!(sdp, b"v=0".to_vec());
    assert_eq!(typ, b"offer".to_vec());
}

#[test]
fn test_sdp_parse_skips_unknown_members() {
    let text = b"{\"bundlePolicy\":3,\"ice\":{\"c\":[1,2],\"d\":\"}]\"},\"sdp\":\"v=0\",\"ok\":true}";
    let (sdp, typ) = parse_sdp_json(&text.to_vec()).unwrap();
    assert_eq!(sdp, b"v=0".to_vec());
    assert_eq!(typ, b"answer".to_vec());
}

#[test]
fn test_sdp_parse_standard_escapes() {
    // solidus, backspace, form feed and \uXXXX in either hex case
    let (sdp, _) =
        parse_sdp_json(&b"{\"sdp\":\"a\\/b\\bc\\fd\\u000D\\u000a\\u00Fce\"}".to_vec()).unwrap();
    assert_eq!(sdp, b"a/b\x08c\x0cd\r\n\xc3\xbce".to_vec());
}

#[test]
fn test_sdp_parse_rejects_trailing_comma_and_non_object() {
    assert!(parse_sdp_json(&b"{\"sdp\":\"v=0\",}".to_vec()).is_none());
    assert!(parse_sdp_json(&b"[\"sdp\"]".to_vec()).is_none());
    assert!(parse_sdp_json(&b"  42  ".to_vec()).is_none());
}

#[test]
fn test_sdp_type_classification() {
    assert_eq!(classify_sdp_type(&b"offer".to_vec()), Ok(SdpType::Offer));
    assert_eq!(classify_sdp_type(&b"answer".to_vec()), Ok(SdpType::Answer));
    assert_eq!(classify_sdp_type(&b"pranswer".to_vec()), Ok(SdpType::Pranswer));
    assert_eq!(
        classify_sdp_type(&b"rollback".to_vec()),
        Err(KvmError::SignallingProtocol)
    );
    assert_eq!(
        classify_sdp_type(&b"bogus".to_vec()),
        Err(KvmError::SignallingProtocol)
    );
}

#[test]
fn test_decode_appliance_style_answer() {
    // a type-first compact answer, as Go appliances emit it
    let text =
        b"{\"type\":\"answer\",\"sdp\":\"v=0\\r\\no=- 1 1 IN IP4 0.0.0.0\\r\\n\"}".to_vec();
    let sd = b64_encode(&text);
    let (sdp, typ) = decode_sdp_answer(&sd).unwrap();
    assert_eq!(typ, b"answer".to_vec());
    assert_eq!(sdp, b"v=0\r\no=- 1 1 IN IP4 0.0.0.0\r\n".to_vec());
}
