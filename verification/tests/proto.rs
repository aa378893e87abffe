//! Wire-format tests: exact encodings, round trips, malformed buffers.

use livekit_ffi::audio_source::AudioSourceOptions;
use livekit_ffi::proto::CallbackPayload;
use livekit_ffi::proto::FfiRequest;
use livekit_ffi::proto::FfiResponse;

#[test]
fn create_session_exact_bytes() {
    let req = FfiRequest::CreateSession { room: 42 };
    let bytes = req.encode_to_vec();
    assert_eq!(bytes, vec![1u8, 1, 42, 0, 0, 0, 0, 0, 0, 0]);
    assert_eq!(FfiRequest::decode(&bytes), Some(req));
}

#[test]
fn create_audio_source_exact_bytes() {
    let req = FfiRequest::CreateAudioSource {
        options: AudioSourceOptions {
            echo_cancellation: true,
            noise_suppression: false,
            auto_gain_control: true,
        },
    };
    let bytes = req.encode_to_vec();
    assert_eq!(bytes, vec![1u8, 2, 1, 0, 1]);
    assert_eq!(FfiRequest::decode(&bytes), Some(req));
}

#[test]
fn capture_audio_frame_round_trip() {
    let req = FfiRequest::CaptureAudioFrame {
        source: 0x0102030405060708,
        sample_rate: 48000,
        num_channels: 2,
        samples_per_channel: 480,
    };
    let bytes = req.encode_to_vec();
    assert_eq!(bytes.len(), 22);
    assert_eq!(bytes[0], 1);
    assert_eq!(bytes[1], 3);
    assert_eq!(&bytes[2..10], &[8, 7, 6, 5, 4, 3, 2, 1]);
    assert_eq!(FfiRequest::decode(&bytes), Some(req));
}

#[test]
fn start_async_op_round_trip() {
    let req = FfiRequest::StartAsyncOp { session: u64::MAX };
    let bytes = req.encode_to_vec();
    assert_eq!(bytes.len(), 10);
    assert_eq!(FfiRequest::decode(&bytes), Some(req));
}

#[test]
fn decode_rejects_malformed_requests() {
    assert_eq!(FfiRequest::decode(&[]), None);
    assert_eq!(FfiRequest::decode(&[1]), None);
    // Truncated: a create-session envelope needs ten bytes.
    assert_eq!(FfiRequest::decode(&[1, 1, 0]), None);
    // Oversized by one byte: envelopes decode whole or not at all.
    assert_eq!(FfiRequest::decode(&[1, 1, 0, 0, 0, 0, 0, 0, 0, 0, 0]), None);
    // Wrong version byte.
    assert_eq!(FfiRequest::decode(&[2, 1, 0, 0, 0, 0, 0, 0, 0, 0]), None);
    // Unknown operation tag.
    assert_eq!(FfiRequest::decode(&[1, 9, 0, 0, 0, 0, 0, 0, 0, 0]), None);
    // A boolean field must be zero or one.
    assert_eq!(FfiRequest::decode(&[1, 2, 2, 0, 0]), None);
}

#[test]
fn response_exact_bytes_and_round_trip() {
    let resp = FfiResponse::SessionCreated { session: 7 };
    let bytes = resp.encode_to_vec();
    assert_eq!(bytes, vec![1u8, 1, 7, 0, 0, 0, 0, 0, 0, 0]);
    assert_eq!(FfiResponse::decode(&bytes), Some(resp));

    let resp = FfiResponse::AudioSourceCreated { source: 9 };
    assert_eq!(FfiResponse::decode(&resp.encode_to_vec()), Some(resp));

    let resp = FfiResponse::CaptureResult { ok: true };
    assert_eq!(resp.encode_to_vec(), vec![1u8, 3, 1]);
    assert_eq!(FfiResponse::decode(&resp.encode_to_vec()), Some(resp));

    let resp = FfiResponse::CaptureResult { ok: false };
    assert_eq!(resp.encode_to_vec(), vec![1u8, 3, 0]);
    assert_eq!(FfiResponse::decode(&resp.encode_to_vec()), Some(resp));

    let resp = FfiResponse::AsyncStarted { token: 0x11 };
    assert_eq!(FfiResponse::decode(&resp.encode_to_vec()), Some(resp));
}

#[test]
fn decode_rejects_malformed_responses() {
    assert_eq!(FfiResponse::decode(&[]), None);
    assert_eq!(FfiResponse::decode(&[1, 1, 7]), None);
    assert_eq!(FfiResponse::decode(&[2, 3, 1]), None);
    assert_eq!(FfiResponse::decode(&[1, 3, 2]), None);
    assert_eq!(FfiResponse::decode(&[1, 9, 0]), None);
}

#[test]
fn payload_round_trip() {
    let payload = CallbackPayload::Event { resource: 3, info: 0xdead };
    let bytes = payload.encode_to_vec();
    assert_eq!(bytes.len(), 18);
    assert_eq!(bytes[0], 1);
    assert_eq!(bytes[1], 1);
    assert_eq!(CallbackPayload::decode(&bytes), Some(payload));

    let payload = CallbackPayload::AsyncResult { token: 5, result: 1 };
    let bytes = payload.encode_to_vec();
    assert_eq!(bytes[1], 2);
    assert_eq!(CallbackPayload::decode(&bytes), Some(payload));
}

#[test]
fn decode_rejects_malformed_payloads() {
    let payload = CallbackPayload::Event { resource: 3, info: 4 };
    let mut bytes = payload.encode_to_vec();
    bytes.pop();
    // Seventeen bytes: one too short for a payload envelope.
    assert_eq!(CallbackPayload::decode(&bytes), None);
    let mut bytes = payload.encode_to_vec();
    bytes.push(0);
    assert_eq!(CallbackPayload::decode(&bytes), None);
    let mut bytes = payload.encode_to_vec();
    bytes[1] = 9;
    assert_eq!(CallbackPayload::decode(&bytes), None);
    let mut bytes = payload.encode_to_vec();
    bytes[0] = 0;
    assert_eq!(CallbackPayload::decode(&bytes), None);
}
