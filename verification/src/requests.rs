//! The request router: decode, dispatch, encode, publish.
//!
//! Every submitted byte buffer yields exactly one of: a fresh valid handle
//! to a published response buffer, or the invalid-handle sentinel with no
//! side effects at all.  [`spec_step`] is the router's transition
//! function; the executable router is proved to follow it exactly.

use crate::audio_frame::AudioFrame;
use crate::audio_source::NativeAudioSource;
use crate::proto::lemma_response_round_trip;
use crate::proto::spec_decode_request;
use crate::proto::spec_decode_response;
use crate::proto::spec_encode_response;
use crate::proto::FfiRequest;
use crate::proto::FfiResponse;
use crate::server::spec_publish;
use crate::server::spec_store_new;
use crate::server::FfiServer;
use crate::server::ResourceModel;
use crate::server::ResourceVariant;
use crate::server::ServerView;
use crate::server::SessionInfo;
use crate::FfiError;
use crate::FfiHandleId;
use crate::INVALID_HANDLE;
use vstd::prelude::*;

verus! {

/// What one dispatched request leaves behind: the server model after the
/// handler ran, and the typed outcome it answered.
pub struct ServerStep {
    pub post: ServerView,
    pub result: Result<FfiResponse, FfiError>,
}

/// The router's transition function: what each decoded request does to
/// the server model and what it answers.  A request needing engine access
/// before configuration is rejected; an absent or wrongly-typed handle in
/// a request is an invalid request; an engine-side capture failure is
/// carried as data inside the response.
pub open spec fn spec_step(s: ServerView, req: FfiRequest) -> ServerStep {
    if !s.configured {
        ServerStep { post: s, result: Err(FfiError::NotConfigured) }
    } else {
        match req {
            FfiRequest::CreateSession { room } => ServerStep {
                post: spec_store_new(s, ResourceModel::Session { room }),
                result: Ok(FfiResponse::SessionCreated { session: s.next_id }),
            },
            FfiRequest::CreateAudioSource { options } => ServerStep {
                post: spec_store_new(s, ResourceModel::AudioSource { options, captured_frames: 0 }),
                result: Ok(FfiResponse::AudioSourceCreated { source: s.next_id }),
            },
            FfiRequest::CaptureAudioFrame {
                source,
                sample_rate,
                num_channels,
                samples_per_channel,
            } => {
                if !s.entries.contains_key(source) {
                    ServerStep { post: s, result: Err(FfiError::InvalidRequest) }
                } else {
                    match s.entries[source] {
                        ResourceModel::AudioSource { options, captured_frames } => {
                            if num_channels * samples_per_channel <= u32::MAX && captured_frames
                                < u64::MAX {
                                ServerStep {
                                    post: ServerView {
                                        entries: s.entries.insert(
                                            source,
                                            ResourceModel::AudioSource {
                                                options,
                                                captured_frames: (captured_frames + 1) as u64,
                                            },
                                        ),
                                        ..s
                                    },
                                    result: Ok(FfiResponse::CaptureResult { ok: true }),
                                }
                            } else {
                                ServerStep {
                                    post: s,
                                    result: Ok(FfiResponse::CaptureResult { ok: false }),
                                }
                            }
                        },
                        _ => ServerStep { post: s, result: Err(FfiError::InvalidRequest) },
                    }
                }
            },
            FfiRequest::StartAsyncOp { session } => {
                if s.entries.contains_key(session) && s.entries[session] matches
                    ResourceModel::Session { .. } {
                    ServerStep {
                        post: spec_store_new(s, ResourceModel::AsyncToken),
                        result: Ok(FfiResponse::AsyncStarted { token: s.next_id }),
                    }
                } else {
                    ServerStep { post: s, result: Err(FfiError::InvalidRequest) }
                }
            },
        }
    }
}

/// A failed dispatch has no side effects: whenever the transition answers
/// an error, it leaves the server model exactly as it was.
pub proof fn lemma_step_error_no_effects(s: ServerView, req: FfiRequest)
    ensures
        spec_step(s, req).result is Err ==> spec_step(s, req).post == s,
{
}

/// Dispatch allocates at most one id: the counter afterwards is the
/// counter before, or its successor, and never smaller.
pub proof fn lemma_step_counter_bound(s: ServerView, req: FfiRequest)
    requires
        s.next_id < u64::MAX,
    ensures
        s.next_id <= spec_step(s, req).post.next_id <= s.next_id + 1,
        s.next_id < u64::MAX ==> spec_step(s, req).post.next_id <= u64::MAX,
{
}

/// Dispatches one decoded request to the matching handler and returns the
/// typed response, or reports the failure to the immediate caller.  At
/// most one response per request; the calling thread is never blocked on
/// engine work — an asynchronous operation answers its correlation token
/// at once and delivers its result later through the callback bridge.
pub fn handle_request(server: &mut FfiServer, request: FfiRequest) -> (r: Result<
    FfiResponse,
    FfiError,
>)
    requires
        old(server)@.wf(),
        old(server)@.next_id < u64::MAX,
    ensures
        final(server)@.wf(),
        final(server)@ == spec_step(old(server)@, request).post,
        r == spec_step(old(server)@, request).result,
        old(server)@.next_id <= final(server)@.next_id,
{
    if !server.is_configured() {
        return Err(FfiError::NotConfigured);
    }
    match request {
        FfiRequest::CreateSession { room } => {
            let id = server.next_id();
            server.store_handle(id, ResourceVariant::Session(SessionInfo { room }));
            proof {
                assert(server@ =~= spec_step(old(server)@, request).post);
            }
            Ok(FfiResponse::SessionCreated { session: id })
        },
        FfiRequest::CreateAudioSource { options } => {
            let id = server.next_id();
            server.store_handle(id, ResourceVariant::AudioSource(NativeAudioSource::new(options)));
            proof {
                assert(server@ =~= spec_step(old(server)@, request).post);
            }
            Ok(FfiResponse::AudioSourceCreated { source: id })
        },
        FfiRequest::CaptureAudioFrame { source, sample_rate, num_channels, samples_per_channel } => {
            match server.take_handle(source) {
                None => {
                    proof {
                        assert(server@ =~= old(server)@);
                    }
                    Err(FfiError::InvalidRequest)
                },
                Some(ResourceVariant::AudioSource(mut audio_source)) => {
                    proof {
                        assert((num_channels as int) * (samples_per_channel as int) <= (
                        u32::MAX as int) * (u32::MAX as int)) by (nonlinear_arith)
                            requires
                                num_channels <= u32::MAX,
                                samples_per_channel <= u32::MAX,
                        ;
                    }
                    let dims_ok = (num_channels as u64) * (samples_per_channel as u64) <= (
                    u32::MAX as u64);
                    let ok = dims_ok && audio_source.captured_frames() < u64::MAX;
                    if ok {
                        let frame = AudioFrame::new(sample_rate, num_channels, samples_per_channel);
                        audio_source.capture_frame(&frame);
                    }
                    server.store_handle(source, ResourceVariant::AudioSource(audio_source));
                    proof {
                        if ok {
                            assert(server@ =~= spec_step(old(server)@, request).post);
                        } else {
                            assert(server@.entries =~= old(server)@.entries);
                            assert(server@ =~= old(server)@);
                        }
                    }
                    Ok(FfiResponse::CaptureResult { ok })
                },
                Some(other) => {
                    server.store_handle(source, other);
                    proof {
                        assert(server@.entries =~= old(server)@.entries);
                        assert(server@ =~= old(server)@);
                    }
                    Err(FfiError::InvalidRequest)
                },
            }
        },
        FfiRequest::StartAsyncOp { session } => {
            let live = match server.get_handle(session) {
                Some(ResourceVariant::Session(_)) => true,
                _ => false,
            };
            if live {
                let id = server.next_id();
                server.store_handle(id, ResourceVariant::AsyncToken);
                proof {
                    assert(server@ =~= spec_step(old(server)@, request).post);
                }
                Ok(FfiResponse::AsyncStarted { token: id })
            } else {
                Err(FfiError::InvalidRequest)
            }
        },
    }
}

/// What a submitted byte buffer does to the server model, and the handle
/// it answers: decode, dispatch, encode the response and publish it as a
/// buffer — or leave the server untouched and answer the sentinel.
pub open spec fn spec_submit(s: ServerView, data: Seq<u8>) -> (ServerView, u64) {
    match spec_decode_request(data) {
        None => (s, INVALID_HANDLE),
        Some(req) => {
            let step = spec_step(s, req);
            match step.result {
                Ok(resp) => (spec_publish(step.post, spec_encode_response(resp)), step.post.next_id),
                Err(_) => (s, INVALID_HANDLE),
            }
        },
    }
}

/// The submit-request boundary operation on caller-owned request bytes.
/// Yields exactly one of: a fresh valid handle under which the encoded
/// response buffer is published, or the invalid-handle sentinel with the
/// server left untouched — a buffer that fails to decode, or a dispatch
/// failure, is never partially handled.
pub fn submit_request(server: &mut FfiServer, data: &[u8]) -> (r: FfiHandleId)
    requires
        old(server)@.wf(),
        old(server)@.next_id + 2 <= u64::MAX,
    ensures
        final(server)@.wf(),
        final(server)@ == spec_submit(old(server)@, data@).0,
        r == spec_submit(old(server)@, data@).1,
        r == INVALID_HANDLE ==> final(server)@ == old(server)@,
        r != INVALID_HANDLE ==> {
            let step = spec_step(old(server)@, spec_decode_request(data@)->Some_0);
            &&& !old(server)@.entries.contains_key(r)
            &&& final(server)@.entries.contains_key(r)
            &&& final(server)@.entries[r] == (ResourceModel::Buffer {
                data: spec_encode_response(step.result->Ok_0),
            })
            &&& old(server)@.next_id <= r < final(server)@.next_id
        },
{
    let request = match FfiRequest::decode(data) {
        Some(request) => request,
        None => { return INVALID_HANDLE },
    };
    let response = match handle_request(server, request) {
        Ok(response) => response,
        Err(_) => {
            proof {
                lemma_step_error_no_effects(old(server)@, request);
            }
            return INVALID_HANDLE;
        },
    };
    proof {
        lemma_step_counter_bound(old(server)@, request);
    }
    let bytes = response.encode_to_vec();
    server.publish(bytes)
}

/// A successful submission is always legible to the caller: the handle it
/// answers names a published buffer whose bytes decode to exactly the
/// response the dispatched handler produced.
pub proof fn lemma_submit_response_decodes(s: ServerView, data: Seq<u8>)
    requires
        s.wf(),
        s.next_id < u64::MAX,
        spec_submit(s, data).1 != INVALID_HANDLE,
    ensures
        ({
            let (post, handle) = spec_submit(s, data);
            let step = spec_step(s, spec_decode_request(data)->Some_0);
            &&& post.entries.contains_key(handle)
            &&& post.entries[handle] matches ResourceModel::Buffer { data: bytes }
                && spec_decode_response(bytes) == Some(step.result->Ok_0)
        }),
{
    lemma_failed_submit_no_effects(s, data);
    let req = spec_decode_request(data)->Some_0;
    let step = spec_step(s, req);
    lemma_response_round_trip(step.result->Ok_0);
}

/// A submission that answers the sentinel had no effect at all, and a
/// buffer that does not decode always answers the sentinel: malformed
/// bytes produce no registry entry.
pub proof fn lemma_failed_submit_no_effects(s: ServerView, data: Seq<u8>)
    requires
        s.wf(),
        s.next_id < u64::MAX,
    ensures
        spec_submit(s, data).1 == INVALID_HANDLE ==> spec_submit(s, data).0 == s,
        spec_decode_request(data) is None ==> spec_submit(s, data).1 == INVALID_HANDLE,
{
    if spec_decode_request(data) is Some {
        let req = spec_decode_request(data)->Some_0;
        lemma_step_error_no_effects(s, req);
        lemma_step_counter_bound(s, req);
        if spec_step(s, req).result is Ok {
            assert(spec_submit(s, data).1 == spec_step(s, req).post.next_id);
            assert(spec_step(s, req).post.next_id >= 1 > INVALID_HANDLE);
        }
    }
}

} // verus!
