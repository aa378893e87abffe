//! End-to-end boundary-server tests: dispatch, handles, callbacks.

use livekit_ffi::proto::CallbackPayload;
use livekit_ffi::proto::FfiRequest;
use livekit_ffi::proto::FfiResponse;
use livekit_ffi::requests::handle_request;
use livekit_ffi::requests::submit_request;
use livekit_ffi::server::FfiServer;
use livekit_ffi::server::ResourceVariant;
use livekit_ffi::FfiError;
use livekit_ffi::INVALID_HANDLE;

fn configured_server() -> FfiServer {
    let mut server = FfiServer::default();
    assert_eq!(server.configure(), Ok(()));
    server
}

fn submit(server: &mut FfiServer, request: FfiRequest) -> u64 {
    let bytes = request.encode_to_vec();
    submit_request(server, &bytes)
}

fn response_of(server: &FfiServer, handle: u64) -> FfiResponse {
    match server.get_handle(handle) {
        Some(ResourceVariant::Buffer(buffer)) => {
            FfiResponse::decode(&buffer.data).expect("response buffer must decode")
        }
        other => panic!("handle does not name a response buffer: {:?}", other),
    }
}

fn create_session(server: &mut FfiServer, room: u64) -> (u64, u64) {
    let handle = submit(server, FfiRequest::CreateSession { room });
    assert_ne!(handle, INVALID_HANDLE);
    match response_of(server, handle) {
        FfiResponse::SessionCreated { session } => (handle, session),
        other => panic!("unexpected response: {:?}", other),
    }
}

#[test]
fn create_session_end_to_end() {
    let mut server = configured_server();
    let (response_handle, session) = create_session(&mut server, 12);
    assert_ne!(session, INVALID_HANDLE);
    assert_ne!(session, response_handle);
    assert!(matches!(server.get_handle(session), Some(ResourceVariant::Session(s)) if s.room == 12));

    // Release the response buffer, then the session itself.
    assert!(server.drop_handle(response_handle));
    assert!(server.get_handle(response_handle).is_none());
    assert!(server.drop_handle(session));
    assert!(server.get_handle(session).is_none());
}

#[test]
fn second_release_reports_false() {
    let mut server = configured_server();
    let (response_handle, _) = create_session(&mut server, 1);
    assert!(server.drop_handle(response_handle));
    assert!(!server.drop_handle(response_handle));
    assert!(!server.drop_handle(response_handle));
}

#[test]
fn release_of_never_valid_id_reports_false() {
    let mut server = configured_server();
    assert!(!server.drop_handle(999));
    assert!(!server.drop_handle(INVALID_HANDLE));
}

#[test]
fn produced_handles_are_unique() {
    let mut server = configured_server();
    let mut handles = Vec::new();
    for room in 0..8u64 {
        let (response_handle, session) = create_session(&mut server, room);
        handles.push(response_handle);
        handles.push(session);
    }
    for handle in &handles {
        assert_ne!(*handle, INVALID_HANDLE);
    }
    let mut deduped = handles.clone();
    deduped.sort();
    deduped.dedup();
    assert_eq!(deduped.len(), handles.len());
}

#[test]
fn malformed_three_byte_buffer_is_rejected_without_side_effects() {
    let mut server = configured_server();
    let before = server.handle_count();
    let handle = submit_request(&mut server, &[1, 2, 3]);
    assert_eq!(handle, INVALID_HANDLE);
    assert_eq!(server.handle_count(), before);
    assert!(server.drain_next().is_none());
}

#[test]
fn truncated_and_corrupted_buffers_are_rejected() {
    let mut server = configured_server();
    let mut good = FfiRequest::CreateSession { room: 5 }.encode_to_vec();
    good.truncate(6);
    assert_eq!(submit_request(&mut server, &good), INVALID_HANDLE);
    let mut bad_version = FfiRequest::CreateSession { room: 5 }.encode_to_vec();
    bad_version[0] = 7;
    assert_eq!(submit_request(&mut server, &bad_version), INVALID_HANDLE);
    assert_eq!(server.handle_count(), 0);
}

#[test]
fn requests_before_configuration_are_rejected() {
    let mut server = FfiServer::default();
    let bytes = FfiRequest::CreateSession { room: 3 }.encode_to_vec();
    assert_eq!(submit_request(&mut server, &bytes), INVALID_HANDLE);
    assert_eq!(server.handle_count(), 0);
    assert_eq!(
        handle_request(&mut server, FfiRequest::CreateSession { room: 3 }),
        Err(FfiError::NotConfigured)
    );
}

#[test]
fn configuration_is_set_once() {
    let mut server = FfiServer::default();
    assert_eq!(server.configure(), Ok(()));
    assert_eq!(server.configure(), Err(FfiError::AlreadyInitialized));
    assert!(server.is_configured());
}

#[test]
fn capture_frame_updates_stored_source() {
    let mut server = configured_server();
    let source_response = submit(
        &mut server,
        FfiRequest::CreateAudioSource { options: Default::default() },
    );
    let source = match response_of(&server, source_response) {
        FfiResponse::AudioSourceCreated { source } => source,
        other => panic!("unexpected response: {:?}", other),
    };

    let capture = FfiRequest::CaptureAudioFrame {
        source,
        sample_rate: 48000,
        num_channels: 2,
        samples_per_channel: 480,
    };
    let capture_response = submit(&mut server, capture);
    assert_eq!(
        response_of(&server, capture_response),
        FfiResponse::CaptureResult { ok: true }
    );
    match server.get_handle(source) {
        Some(ResourceVariant::AudioSource(stored)) => assert_eq!(stored.captured_frames(), 1),
        other => panic!("source handle lost: {:?}", other),
    }
}

#[test]
fn capture_with_overflowing_dimensions_fails_as_data() {
    let mut server = configured_server();
    let source_response = submit(
        &mut server,
        FfiRequest::CreateAudioSource { options: Default::default() },
    );
    let source = match response_of(&server, source_response) {
        FfiResponse::AudioSourceCreated { source } => source,
        other => panic!("unexpected response: {:?}", other),
    };
    let capture = FfiRequest::CaptureAudioFrame {
        source,
        sample_rate: 48000,
        num_channels: u32::MAX,
        samples_per_channel: 2,
    };
    let capture_response = submit(&mut server, capture);
    // The engine-side failure travels as data inside a decodable response.
    assert_eq!(
        response_of(&server, capture_response),
        FfiResponse::CaptureResult { ok: false }
    );
}

#[test]
fn capture_against_absent_or_wrong_handle_is_invalid_request() {
    let mut server = configured_server();
    let (_, session) = create_session(&mut server, 1);
    let absent = FfiRequest::CaptureAudioFrame {
        source: 424242,
        sample_rate: 8000,
        num_channels: 1,
        samples_per_channel: 80,
    };
    assert_eq!(handle_request(&mut server, absent), Err(FfiError::InvalidRequest));
    let wrong_kind = FfiRequest::CaptureAudioFrame {
        source: session,
        sample_rate: 8000,
        num_channels: 1,
        samples_per_channel: 80,
    };
    assert_eq!(handle_request(&mut server, wrong_kind), Err(FfiError::InvalidRequest));
    // The session survives the failed captures untouched.
    assert!(matches!(server.get_handle(session), Some(ResourceVariant::Session(_))));
}

#[test]
fn async_op_returns_token_synchronously_and_result_correlates() {
    let mut server = configured_server();
    let (_, session) = create_session(&mut server, 2);

    let async_response = submit(&mut server, FfiRequest::StartAsyncOp { session });
    assert_ne!(async_response, INVALID_HANDLE);
    let token = match response_of(&server, async_response) {
        FfiResponse::AsyncStarted { token } => token,
        other => panic!("unexpected response: {:?}", other),
    };
    assert!(matches!(server.get_handle(token), Some(ResourceVariant::AsyncToken)));

    // The engine finishes much later; the caller was never blocked.
    server.complete_async(token, 77);
    let delivery = server.drain_next().expect("one payload must be queued");
    assert_eq!(delivery.resource, token);
    let payload = match server.get_handle(delivery.buffer) {
        Some(ResourceVariant::Buffer(buffer)) => {
            CallbackPayload::decode(&buffer.data).expect("payload buffer must decode")
        }
        other => panic!("payload buffer missing: {:?}", other),
    };
    assert_eq!(payload, CallbackPayload::AsyncResult { token, result: 77 });
    assert!(server.drain_next().is_none());
}

#[test]
fn async_op_against_non_session_is_invalid_request() {
    let mut server = configured_server();
    assert_eq!(
        handle_request(&mut server, FfiRequest::StartAsyncOp { session: 5 }),
        Err(FfiError::InvalidRequest)
    );
}

#[test]
fn late_result_for_released_token_is_discarded() {
    let mut server = configured_server();
    let (_, session) = create_session(&mut server, 2);
    let async_response = submit(&mut server, FfiRequest::StartAsyncOp { session });
    let token = match response_of(&server, async_response) {
        FfiResponse::AsyncStarted { token } => token,
        other => panic!("unexpected response: {:?}", other),
    };
    assert!(server.drop_handle(token));
    server.complete_async(token, 1);
    assert!(server.drain_next().is_none());
}

#[test]
fn events_interleave_across_resources_but_keep_per_resource_order() {
    let mut server = configured_server();
    let (_, first) = create_session(&mut server, 1);
    let (_, second) = create_session(&mut server, 2);

    server.on_engine_event(first, 10);
    server.on_engine_event(second, 20);
    server.on_engine_event(first, 11);
    server.on_engine_event(second, 21);

    let mut first_infos = Vec::new();
    let mut second_infos = Vec::new();
    while let Some(delivery) = server.drain_next() {
        let payload = match server.get_handle(delivery.buffer) {
            Some(ResourceVariant::Buffer(buffer)) => {
                CallbackPayload::decode(&buffer.data).expect("payload buffer must decode")
            }
            other => panic!("payload buffer missing: {:?}", other),
        };
        match payload {
            CallbackPayload::Event { resource, info } => {
                assert_eq!(resource, delivery.resource);
                if resource == first {
                    first_infos.push(info);
                } else {
                    assert_eq!(resource, second);
                    second_infos.push(info);
                }
            }
            other => panic!("unexpected payload: {:?}", other),
        }
    }
    assert_eq!(first_infos, vec![10, 11]);
    assert_eq!(second_infos, vec![20, 21]);
}

#[test]
fn in_flight_event_survives_release_but_no_further_events_follow() {
    let mut server = configured_server();
    let (_, session) = create_session(&mut server, 9);

    server.on_engine_event(session, 5);
    assert!(server.drop_handle(session));
    // The event queued before the release still goes through.
    let delivery = server.drain_next().expect("in-flight event must be delivered");
    assert_eq!(delivery.resource, session);
    // But nothing further is accepted for the released id.
    server.on_engine_event(session, 6);
    assert!(server.drain_next().is_none());
}

#[test]
fn events_before_configuration_are_discarded() {
    let mut server = FfiServer::default();
    server.on_engine_event(1, 1);
    assert!(server.drain_next().is_none());
}

#[test]
fn publish_stores_immutable_bytes_under_fresh_handle() {
    let mut server = FfiServer::default();
    let handle = server.publish(vec![9, 8, 7]);
    assert_ne!(handle, INVALID_HANDLE);
    assert_eq!(server.handle_count(), 1);
    match server.get_handle(handle) {
        Some(ResourceVariant::Buffer(buffer)) => {
            assert_eq!(buffer.data, vec![9, 8, 7]);
            assert_eq!(buffer.handle, handle);
        }
        other => panic!("buffer missing: {:?}", other),
    }
    assert!(server.drop_handle(handle));
    assert_eq!(server.handle_count(), 0);
}

#[test]
fn id_counter_grows_and_ids_start_at_one() {
    let mut server = configured_server();
    assert_eq!(server.id_counter(), 1);
    let (response_handle, session) = create_session(&mut server, 4);
    assert_eq!(session, 1);
    assert_eq!(response_handle, 2);
    assert_eq!(server.id_counter(), 3);
    // Releasing never makes the counter reuse an id.
    assert!(server.drop_handle(session));
    let (_, second_session) = create_session(&mut server, 5);
    assert_eq!(second_session, 3);
}

#[test]
fn error_messages_name_the_failure() {
    assert_eq!(FfiError::NotConfigured.message(), "the server is not configured");
    assert_eq!(FfiError::AlreadyInitialized.message(), "the server is already initialized");
    assert_eq!(FfiError::Room.message(), "room error");
    assert_eq!(FfiError::InvalidRequest.message(), "invalid request");
}
