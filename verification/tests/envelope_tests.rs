//! The RPC frame text: exact outbound frames, inbound classification, and
//! the round trip through a real JSON implementation.

use honey_id_client::endpoints::{
    ReceiveTokenRequest, SubmitPasswordResponse, SubmitUsernameRequest, SubmitUsernameResponse,
};
use honey_id_client::envelope::{
    decode_inbound_frame, decode_request_frame, encode_error_frame, encode_request_frame,
    encode_response_frame, InboundEnvelope,
};
use honey_id_client::ids::AppPublicId;

#[test]
fn request_frame_text_is_canonical() {
    // Scenario: send {method: 12, params: {appPublicId: A, username: "alice"}}.
    let req = SubmitUsernameRequest {
        appPublicId: AppPublicId { text: "550e8400-e29b-41d4-a716-446655440000".to_string() },
        username: "alice".to_string(),
    };
    let frame = encode_request_frame(12, req.params_json().as_str());
    assert_eq!(
        frame,
        "{\"method\":12,\"params\":{\"appPublicId\":\"550e8400-e29b-41d4-a716-446655440000\",\"username\":\"alice\"}}"
    );
}

#[test]
fn success_frame_decodes_to_its_params() {
    // Scenario: receive {params: {expiresAt: 1234}} -> expiresAt = 1234.
    let frame = "{\"params\":{\"expiresAt\":1234}}";
    match decode_inbound_frame(frame) {
        InboundEnvelope::Envelope { params, code } => {
            assert_eq!(code, None);
            let resp = SubmitUsernameResponse::parse_params(params.as_str())
                .expect("payload parses");
            assert_eq!(resp.expiresAt, 1234);
        }
        _ => panic!("expected an envelope"),
    }
}

#[test]
fn error_frame_decodes_to_code_and_message() {
    let frame = encode_error_frame(100400, "\"bad request\"");
    match decode_inbound_frame(frame.as_str()) {
        InboundEnvelope::Envelope { params, code } => {
            assert_eq!(code, Some(100400));
            assert_eq!(params, "\"bad request\"");
        }
        _ => panic!("expected an envelope"),
    }
}

#[test]
fn unrecognized_text_is_malformed() {
    assert!(matches!(decode_inbound_frame("hello"), InboundEnvelope::Malformed));
    assert!(matches!(decode_inbound_frame(""), InboundEnvelope::Malformed));
    assert!(matches!(
        decode_inbound_frame("{\"params\":"),
        InboundEnvelope::Malformed
    ));
    assert!(matches!(
        decode_inbound_frame("{\"code\":xyz,\"params\":\"m\"}"),
        InboundEnvelope::Malformed
    ));
}

#[test]
fn error_code_too_wide_for_u64_is_malformed() {
    let frame = "{\"code\":99999999999999999999,\"params\":\"m\"}";
    assert!(matches!(decode_inbound_frame(frame), InboundEnvelope::Malformed));
}

#[test]
fn largest_u64_error_code_still_decodes() {
    let frame = "{\"code\":18446744073709551615,\"params\":\"m\"}";
    match decode_inbound_frame(frame) {
        InboundEnvelope::Envelope { code, .. } => assert_eq!(code, Some(u64::MAX)),
        _ => panic!("expected an envelope"),
    }
}

#[test]
fn expires_at_beyond_i64_is_rejected() {
    let params = "{\"expiresAt\":9223372036854775808}";
    assert!(SubmitUsernameResponse::parse_params(params).is_none());
    let params = "{\"expiresAt\":9223372036854775807}";
    assert_eq!(
        SubmitUsernameResponse::parse_params(params).unwrap().expiresAt,
        i64::MAX
    );
}

#[test]
fn request_and_response_round_trip_params() {
    // For a valid (method_code, params) pair, the params text sent in a
    // request frame and echoed back inside a success frame is returned
    // byte-for-byte.
    let params = "{\"appApiKey\":\"secret\"}";
    let sent = encode_request_frame(200, params);
    let (method, echoed) = decode_request_frame(sent.as_str()).expect("own frame reads back");
    assert_eq!(method, 200);
    assert_eq!(echoed, params);
    let reply = encode_response_frame(echoed.as_str());
    match decode_inbound_frame(reply.as_str()) {
        InboundEnvelope::Envelope { params: got, code } => {
            assert_eq!(code, None);
            assert_eq!(got, params);
        }
        _ => panic!("expected an envelope"),
    }
}

#[test]
fn frames_agree_with_a_real_json_reader() {
    // The frames this crate writes parse under serde_json into exactly the
    // values that were serialized, including escaped content.
    let req = SubmitUsernameRequest {
        appPublicId: AppPublicId { text: "550e8400-e29b-41d4-a716-446655440000".to_string() },
        username: "al\"i\\ce\n\t\u{1}".to_string(),
    };
    let frame = encode_request_frame(12, req.params_json().as_str());
    let v: serde_json::Value = serde_json::from_str(frame.as_str()).expect("frame is valid JSON");
    assert_eq!(v["method"].as_u64(), Some(12));
    assert_eq!(
        v["params"]["appPublicId"].as_str(),
        Some("550e8400-e29b-41d4-a716-446655440000")
    );
    assert_eq!(v["params"]["username"].as_str(), Some("al\"i\\ce\n\t\u{1}"));
}

#[test]
fn parser_reads_a_real_json_writer() {
    // What serde_json writes for a connect payload, escapes included, this
    // crate's parser reads back.
    let mut obj = serde_json::Map::new();
    obj.insert(
        "appApiKey".to_string(),
        serde_json::Value::String("se\u{1}cret \"quoted\"\n\\".to_string()),
    );
    let text = serde_json::to_string(&serde_json::Value::Object(obj)).unwrap();
    let req = honey_id_client::endpoints::ApiKeyConnectRequest::parse_params(text.as_str())
        .expect("payload parses");
    assert_eq!(req.appApiKey, "se\u{1}cret \"quoted\"\n\\");
}

#[test]
fn access_token_payload_round_trips() {
    let resp = SubmitPasswordResponse {
        accessToken: "550e8400-e29b-41d4-a716-446655440000".to_string(),
    };
    let text = resp.params_json();
    let back = SubmitPasswordResponse::parse_params(text.as_str()).expect("own text reads back");
    assert_eq!(back.accessToken, resp.accessToken);
}

#[test]
fn receive_token_payload_round_trips() {
    let req = ReceiveTokenRequest {
        token: "550e8400-e29b-41d4-a716-446655440000".to_string(),
        username: "alice".to_string(),
        userPubId: "550e8400-e29b-41d4-a716-446655440001".to_string(),
    };
    let text = req.params_json();
    let back = ReceiveTokenRequest::parse_params(text.as_str()).expect("own text reads back");
    assert_eq!(back.token, req.token);
    assert_eq!(back.username, req.username);
    assert_eq!(back.userPubId, req.userPubId);
}

#[test]
fn whitespace_in_a_frame_is_insignificant() {
    // An ordinary JSON spelling with spaces decodes like the compact one.
    let frame = "{ \"params\": {\"expiresAt\": 1234} }";
    match decode_inbound_frame(frame) {
        InboundEnvelope::Envelope { params, code } => {
            assert_eq!(code, None);
            let resp =
                SubmitUsernameResponse::parse_params(params.as_str()).expect("payload parses");
            assert_eq!(resp.expiresAt, 1234);
        }
        _ => panic!("expected an envelope"),
    }
}

#[test]
fn error_envelope_members_decode_in_either_order() {
    for frame in [
        "{\"code\":7,\"params\":\"boom\"}",
        "{\"params\":\"boom\",\"code\":7}",
        "{ \"code\" : 7 , \"params\" : \"boom\" }",
        "{ \"params\" : \"boom\" , \"code\" : 7 }",
    ] {
        match decode_inbound_frame(frame) {
            InboundEnvelope::Envelope { params, code } => {
                assert_eq!(code, Some(7), "frame: {frame}");
                assert_eq!(params, "\"boom\"", "frame: {frame}");
            }
            _ => panic!("expected an envelope for {frame}"),
        }
    }
}

#[test]
fn params_field_keeps_its_own_code_member() {
    // A code member inside the payload itself is not the envelope's code.
    let frame = "{\"params\":{\"code\":7}}";
    match decode_inbound_frame(frame) {
        InboundEnvelope::Envelope { params, code } => {
            assert_eq!(code, None);
            assert_eq!(params, "{\"code\":7}");
        }
        _ => panic!("expected an envelope"),
    }
}

#[test]
fn whitespace_in_payloads_is_insignificant() {
    let req = honey_id_client::endpoints::ApiKeyConnectRequest::parse_params(
        "{ \"appApiKey\" : \"secret\" }",
    )
    .expect("payload parses");
    assert_eq!(req.appApiKey, "secret");
    let back = SubmitPasswordResponse::parse_params("{ \"accessToken\" : \"tok\" }")
        .expect("payload parses");
    assert_eq!(back.accessToken, "tok");
    let rt = ReceiveTokenRequest::parse_params(
        "{ \"token\": \"t\" , \"username\": \"alice\" , \"userPubId\": \"u\" }",
    )
    .expect("payload parses");
    assert_eq!(rt.token, "t");
    assert_eq!(rt.username, "alice");
    assert_eq!(rt.userPubId, "u");
}

#[test]
fn unicode_escapes_decode_as_serde_json_reads_them() {
    let text = "{\"accessToken\":\"\\u2603 \\ud83d\\ude00 \\u00e9\"}";
    let back = SubmitPasswordResponse::parse_params(text).expect("payload parses");
    assert_eq!(back.accessToken, "\u{2603} \u{1F600} \u{e9}");
    let v: serde_json::Value = serde_json::from_str(text).unwrap();
    assert_eq!(v["accessToken"].as_str(), Some(back.accessToken.as_str()));
}

#[test]
fn a_lone_surrogate_escape_is_rejected() {
    assert!(SubmitPasswordResponse::parse_params("{\"accessToken\":\"\\ud800\"}").is_none());
    assert!(SubmitPasswordResponse::parse_params("{\"accessToken\":\"\\ude00\"}").is_none());
    assert!(serde_json::from_str::<serde_json::Value>("{\"accessToken\":\"\\ud800\"}").is_err());
}
