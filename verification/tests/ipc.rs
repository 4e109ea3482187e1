use typio_host::ipc::{
    socket_path, check_response, decode_frame_len, encode_frame_len, next_request_id, validate_request_envelope,
    FrameError, RequestId, ResponseError, StandardError, TIP_MAX_FRAME,
};
use typio_host::paths::manifest_path_acceptable;

#[test]
fn frame_lengths_are_big_endian_and_bounded() {
    assert_eq!(encode_frame_len(0x0102_0304 & 0xfffff), Ok([0, 0x02, 0x03, 0x04]));
    assert_eq!(encode_frame_len(TIP_MAX_FRAME), Ok([0, 0x10, 0, 0]));
    assert_eq!(encode_frame_len(TIP_MAX_FRAME + 1), Err(FrameError::TooLarge));
    assert_eq!(decode_frame_len([0, 0, 1, 0]), Ok(256));
    assert_eq!(decode_frame_len([0, 0x10, 0, 1]), Err(FrameError::TooLarge));
    assert_eq!(decode_frame_len([0xff, 0xff, 0xff, 0xff]), Err(FrameError::TooLarge));
}

#[test]
fn frame_lengths_round_trip() {
    for len in [0usize, 1, 255, 256, 65_535, 65_536, TIP_MAX_FRAME] {
        let prefix = encode_frame_len(len).unwrap();
        assert_eq!(decode_frame_len(prefix), Ok(len));
    }
}

#[test]
fn client_request_ids_stop_at_the_end() {
    assert_eq!(next_request_id(1), Some(2));
    assert_eq!(next_request_id(i64::MAX), None);
}

#[test]
fn request_envelope_needs_version_and_numeric_id() {
    assert_eq!(validate_request_envelope("2.0", &RequestId::Number(1)), Ok(1));
    assert_eq!(
        validate_request_envelope("1.0", &RequestId::Number(1)),
        Err(StandardError::InvalidRequest)
    );
    assert_eq!(
        validate_request_envelope("2.0", &RequestId::String("x".into())),
        Err(StandardError::InvalidRequest)
    );
    assert_eq!(
        validate_request_envelope("2.0", &RequestId::Null),
        Err(StandardError::InvalidRequest)
    );
}

#[test]
fn standard_errors_use_json_rpc_codes() {
    assert_eq!(StandardError::ParseError.code(), -32700);
    assert_eq!(StandardError::InvalidRequest.code(), -32600);
    assert_eq!(StandardError::MethodNotFound.code(), -32601);
    assert_eq!(StandardError::InvalidParams.code(), -32602);
    assert_eq!(StandardError::InternalError.code(), -32603);
}

#[test]
fn responses_are_checked_in_order() {
    assert_eq!(check_response(Some("2.0"), Some(3), 3, true, false, None), Ok(()));
    assert_eq!(
        check_response(None, Some(3), 3, true, false, None),
        Err(ResponseError::InvalidVersion)
    );
    assert_eq!(
        check_response(Some("2.0"), Some(4), 3, true, false, None),
        Err(ResponseError::IdMismatch)
    );
    assert_eq!(
        check_response(Some("2.0"), Some(3), 3, true, true, None),
        Err(ResponseError::ResultErrorConflict)
    );
    assert_eq!(
        check_response(Some("2.0"), Some(3), 3, false, true, Some("nope")),
        Err(ResponseError::Remote("nope".into()))
    );
    assert_eq!(
        check_response(Some("2.0"), Some(3), 3, false, true, None),
        Err(ResponseError::Remote("unknown error".into()))
    );
}

#[test]
fn engine_manifests_must_be_toml_and_absolute_when_required() {
    assert!(!manifest_path_acceptable("relative.toml", true));
    assert!(manifest_path_acceptable("relative.toml", false));
    assert!(manifest_path_acceptable("/opt/engines/demo.toml", true));
    assert!(!manifest_path_acceptable("/opt/engines/demo.json", true));
    assert!(!manifest_path_acceptable("/opt/engines/.toml", true));
    assert!(!manifest_path_acceptable("/opt/engines/demo", false));
}

#[test]
fn socket_path_prefers_runtime_dir_then_home() {
    assert_eq!(socket_path(Some("/run/user/1000"), Some("/home/u")), "/run/user/1000/typio/daemon.sock");
    assert_eq!(socket_path(Some(""), Some("/home/u")), "/home/u/.local/share/typio/daemon.sock");
    assert_eq!(socket_path(None, Some("")), "/tmp/typio-daemon.sock");
}
