//! The tagged, versioned binary envelopes exchanged across the boundary.
//!
//! Requests, responses and callback payloads share one schema family: a
//! version byte, a kind tag, then fixed-width little-endian fields.  A
//! buffer is always decoded whole, never partially: any truncated,
//! oversized or corrupted buffer decodes to `None`.

use crate::audio_source::AudioSourceOptions;
use vstd::bytes::lemma_auto_spec_u32_to_from_le_bytes;
use vstd::bytes::lemma_auto_spec_u64_to_from_le_bytes;
use vstd::bytes::spec_u32_from_le_bytes;
use vstd::bytes::spec_u32_to_le_bytes;
use vstd::bytes::spec_u64_from_le_bytes;
use vstd::bytes::spec_u64_to_le_bytes;
use vstd::bytes::u32_from_le_bytes;
use vstd::bytes::u32_to_le_bytes;
use vstd::bytes::u64_from_le_bytes;
use vstd::bytes::u64_to_le_bytes;
use vstd::prelude::*;
use vstd::slice::slice_index_get;
use vstd::slice::slice_subrange;

verus! {

/// Version byte opening every envelope of this schema family.
pub const WIRE_VERSION: u8 = 1;

/// Request kind: create a session resource.
pub const REQ_TAG_CREATE_SESSION: u8 = 1;

/// Request kind: create an audio source resource.
pub const REQ_TAG_CREATE_AUDIO_SOURCE: u8 = 2;

/// Request kind: capture one frame on an audio source.
pub const REQ_TAG_CAPTURE_AUDIO_FRAME: u8 = 3;

/// Request kind: start an asynchronous engine operation on a session.
pub const REQ_TAG_START_ASYNC_OP: u8 = 4;

/// Response kind: a session resource was created.
pub const RESP_TAG_SESSION_CREATED: u8 = 1;

/// Response kind: an audio source resource was created.
pub const RESP_TAG_AUDIO_SOURCE_CREATED: u8 = 2;

/// Response kind: outcome of a frame capture, failure carried as data.
pub const RESP_TAG_CAPTURE_RESULT: u8 = 3;

/// Response kind: an asynchronous operation started; its correlation token.
pub const RESP_TAG_ASYNC_STARTED: u8 = 4;

/// Callback payload kind: an engine-originated event notification.
pub const CB_TAG_EVENT: u8 = 1;

/// Callback payload kind: the deferred result of an asynchronous operation.
pub const CB_TAG_ASYNC_RESULT: u8 = 2;

/// A decoded request, one variant per operation kind.
#[derive(Clone, Copy, Debug, PartialEq, Eq, Structural)]
pub enum FfiRequest {
    CreateSession { room: u64 },
    CreateAudioSource { options: AudioSourceOptions },
    CaptureAudioFrame { source: u64, sample_rate: u32, num_channels: u32, samples_per_channel: u32 },
    StartAsyncOp { session: u64 },
}

/// A typed response, one variant per operation kind.  Engine-side failures
/// ride inside the variant (`CaptureResult { ok: false }`) rather than as
/// an out-of-band fault.
#[derive(Clone, Copy, Debug, PartialEq, Eq, Structural)]
pub enum FfiResponse {
    SessionCreated { session: u64 },
    AudioSourceCreated { source: u64 },
    CaptureResult { ok: bool },
    AsyncStarted { token: u64 },
}

/// An asynchronously delivered payload: either an event notification with
/// no corresponding request, or a result correlated to a prior request by
/// its token.
#[derive(Clone, Copy, Debug, PartialEq, Eq, Structural)]
pub enum CallbackPayload {
    Event { resource: u64, info: u64 },
    AsyncResult { token: u64, result: u64 },
}

/// The byte encoding a boolean field: one for true, zero for false.
pub open spec fn spec_bool_byte(b: bool) -> u8 {
    if b {
        1
    } else {
        0
    }
}

fn bool_byte(b: bool) -> (r: u8)
    ensures
        r == spec_bool_byte(b),
{
    if b {
        1
    } else {
        0
    }
}

/// The exact byte sequence encoding a request.
pub open spec fn spec_encode_request(req: FfiRequest) -> Seq<u8> {
    match req {
        FfiRequest::CreateSession { room } => seq![WIRE_VERSION, REQ_TAG_CREATE_SESSION]
            + spec_u64_to_le_bytes(room),
        FfiRequest::CreateAudioSource { options } => seq![
            WIRE_VERSION,
            REQ_TAG_CREATE_AUDIO_SOURCE,
            spec_bool_byte(options.echo_cancellation),
            spec_bool_byte(options.noise_suppression),
            spec_bool_byte(options.auto_gain_control),
        ],
        FfiRequest::CaptureAudioFrame { source, sample_rate, num_channels, samples_per_channel } => {
            seq![WIRE_VERSION, REQ_TAG_CAPTURE_AUDIO_FRAME] + spec_u64_to_le_bytes(source)
                + spec_u32_to_le_bytes(sample_rate) + spec_u32_to_le_bytes(num_channels)
                + spec_u32_to_le_bytes(samples_per_channel)
        },
        FfiRequest::StartAsyncOp { session } => seq![WIRE_VERSION, REQ_TAG_START_ASYNC_OP]
            + spec_u64_to_le_bytes(session),
    }
}

/// The request a byte sequence decodes to, or `None` when it is not a
/// whole, well-formed request envelope.
pub open spec fn spec_decode_request(s: Seq<u8>) -> Option<FfiRequest> {
    if s.len() < 2 || s[0] != WIRE_VERSION {
        None
    } else if s[1] == REQ_TAG_CREATE_SESSION {
        if s.len() == 10 {
            Some(FfiRequest::CreateSession { room: spec_u64_from_le_bytes(s.subrange(2, 10)) })
        } else {
            None
        }
    } else if s[1] == REQ_TAG_CREATE_AUDIO_SOURCE {
        if s.len() == 5 && s[2] <= 1 && s[3] <= 1 && s[4] <= 1 {
            Some(
                FfiRequest::CreateAudioSource {
                    options: AudioSourceOptions {
                        echo_cancellation: s[2] == 1,
                        noise_suppression: s[3] == 1,
                        auto_gain_control: s[4] == 1,
                    },
                },
            )
        } else {
            None
        }
    } else if s[1] == REQ_TAG_CAPTURE_AUDIO_FRAME {
        if s.len() == 22 {
            Some(
                FfiRequest::CaptureAudioFrame {
                    source: spec_u64_from_le_bytes(s.subrange(2, 10)),
                    sample_rate: spec_u32_from_le_bytes(s.subrange(10, 14)),
                    num_channels: spec_u32_from_le_bytes(s.subrange(14, 18)),
                    samples_per_channel: spec_u32_from_le_bytes(s.subrange(18, 22)),
                },
            )
        } else {
            None
        }
    } else if s[1] == REQ_TAG_START_ASYNC_OP {
        if s.len() == 10 {
            Some(FfiRequest::StartAsyncOp { session: spec_u64_from_le_bytes(s.subrange(2, 10)) })
        } else {
            None
        }
    } else {
        None
    }
}

fn push_u64_le(out: &mut Vec<u8>, x: u64)
    ensures
        final(out)@ == old(out)@ + spec_u64_to_le_bytes(x),
{
    let mut bytes = u64_to_le_bytes(x);
    out.append(&mut bytes);
}

fn push_u32_le(out: &mut Vec<u8>, x: u32)
    ensures
        final(out)@ == old(out)@ + spec_u32_to_le_bytes(x),
{
    let mut bytes = u32_to_le_bytes(x);
    out.append(&mut bytes);
}

impl FfiRequest {
    /// Encodes the request as one whole envelope.
    pub fn encode_to_vec(&self) -> (r: Vec<u8>)
        ensures
            r@ == spec_encode_request(*self),
    {
        let mut out: Vec<u8> = Vec::new();
        out.push(WIRE_VERSION);
        match self {
            FfiRequest::CreateSession { room } => {
                out.push(REQ_TAG_CREATE_SESSION);
                push_u64_le(&mut out, *room);
                proof {
                    assert(out@ =~= spec_encode_request(*self));
                }
            },
            FfiRequest::CreateAudioSource { options } => {
                out.push(REQ_TAG_CREATE_AUDIO_SOURCE);
                out.push(bool_byte(options.echo_cancellation));
                out.push(bool_byte(options.noise_suppression));
                out.push(bool_byte(options.auto_gain_control));
                proof {
                    assert(out@ =~= spec_encode_request(*self));
                }
            },
            FfiRequest::CaptureAudioFrame {
                source,
                sample_rate,
                num_channels,
                samples_per_channel,
            } => {
                out.push(REQ_TAG_CAPTURE_AUDIO_FRAME);
                push_u64_le(&mut out, *source);
                push_u32_le(&mut out, *sample_rate);
                push_u32_le(&mut out, *num_channels);
                push_u32_le(&mut out, *samples_per_channel);
                proof {
                    assert(out@ =~= spec_encode_request(*self));
                }
            },
            FfiRequest::StartAsyncOp { session } => {
                out.push(REQ_TAG_START_ASYNC_OP);
                push_u64_le(&mut out, *session);
                proof {
                    assert(out@ =~= spec_encode_request(*self));
                }
            },
        }
        out
    }

    /// Decodes one whole request envelope, reporting any malformed buffer
    /// as `None`.
    pub fn decode(data: &[u8]) -> (r: Option<FfiRequest>)
        ensures
            r == spec_decode_request(data@),
    {
        if data.len() < 2 {
            return None;
        }
        if *slice_index_get(data, 0) != WIRE_VERSION {
            return None;
        }
        let tag = *slice_index_get(data, 1);
        if tag == REQ_TAG_CREATE_SESSION {
            if data.len() == 10 {
                let room = u64_from_le_bytes(slice_subrange(data, 2, 10));
                Some(FfiRequest::CreateSession { room })
            } else {
                None
            }
        } else if tag == REQ_TAG_CREATE_AUDIO_SOURCE {
            if data.len() == 5 {
                let b0 = *slice_index_get(data, 2);
                let b1 = *slice_index_get(data, 3);
                let b2 = *slice_index_get(data, 4);
                if b0 <= 1 && b1 <= 1 && b2 <= 1 {
                    Some(
                        FfiRequest::CreateAudioSource {
                            options: AudioSourceOptions {
                                echo_cancellation: b0 == 1,
                                noise_suppression: b1 == 1,
                                auto_gain_control: b2 == 1,
                            },
                        },
                    )
                } else {
                    None
                }
            } else {
                None
            }
        } else if tag == REQ_TAG_CAPTURE_AUDIO_FRAME {
            if data.len() == 22 {
                let source = u64_from_le_bytes(slice_subrange(data, 2, 10));
                let sample_rate = u32_from_le_bytes(slice_subrange(data, 10, 14));
                let num_channels = u32_from_le_bytes(slice_subrange(data, 14, 18));
                let samples_per_channel = u32_from_le_bytes(slice_subrange(data, 18, 22));
                Some(
                    FfiRequest::CaptureAudioFrame {
                        source,
                        sample_rate,
                        num_channels,
                        samples_per_channel,
                    },
                )
            } else {
                None
            }
        } else if tag == REQ_TAG_START_ASYNC_OP {
            if data.len() == 10 {
                let session = u64_from_le_bytes(slice_subrange(data, 2, 10));
                Some(FfiRequest::StartAsyncOp { session })
            } else {
                None
            }
        } else {
            None
        }
    }
}

/// Decoding inverts encoding: every encoded request decodes to itself, so
/// a request round-trips across the boundary unchanged.
pub proof fn lemma_request_round_trip(req: FfiRequest)
    ensures
        spec_decode_request(spec_encode_request(req)) == Some(req),
{
    lemma_auto_spec_u64_to_from_le_bytes();
    lemma_auto_spec_u32_to_from_le_bytes();
    let s = spec_encode_request(req);
    match req {
        FfiRequest::CreateSession { room } => {
            assert(s.subrange(2, 10) =~= spec_u64_to_le_bytes(room));
        },
        FfiRequest::CreateAudioSource { options } => {
            assert(spec_decode_request(s) == Some(req));
        },
        FfiRequest::CaptureAudioFrame { source, sample_rate, num_channels, samples_per_channel } => {
            assert(s.subrange(2, 10) =~= spec_u64_to_le_bytes(source));
            assert(s.subrange(10, 14) =~= spec_u32_to_le_bytes(sample_rate));
            assert(s.subrange(14, 18) =~= spec_u32_to_le_bytes(num_channels));
            assert(s.subrange(18, 22) =~= spec_u32_to_le_bytes(samples_per_channel));
        },
        FfiRequest::StartAsyncOp { session } => {
            assert(s.subrange(2, 10) =~= spec_u64_to_le_bytes(session));
        },
    }
}

/// The exact byte sequence encoding a response.
pub open spec fn spec_encode_response(resp: FfiResponse) -> Seq<u8> {
    match resp {
        FfiResponse::SessionCreated { session } => seq![WIRE_VERSION, RESP_TAG_SESSION_CREATED]
            + spec_u64_to_le_bytes(session),
        FfiResponse::AudioSourceCreated { source } => seq![
            WIRE_VERSION,
            RESP_TAG_AUDIO_SOURCE_CREATED,
        ] + spec_u64_to_le_bytes(source),
        FfiResponse::CaptureResult { ok } => seq![
            WIRE_VERSION,
            RESP_TAG_CAPTURE_RESULT,
            spec_bool_byte(ok),
        ],
        FfiResponse::AsyncStarted { token } => seq![WIRE_VERSION, RESP_TAG_ASYNC_STARTED]
            + spec_u64_to_le_bytes(token),
    }
}

/// The response a byte sequence decodes to, or `None` when it is not a
/// whole, well-formed response envelope.
pub open spec fn spec_decode_response(s: Seq<u8>) -> Option<FfiResponse> {
    if s.len() < 2 || s[0] != WIRE_VERSION {
        None
    } else if s[1] == RESP_TAG_SESSION_CREATED {
        if s.len() == 10 {
            Some(FfiResponse::SessionCreated { session: spec_u64_from_le_bytes(s.subrange(2, 10)) })
        } else {
            None
        }
    } else if s[1] == RESP_TAG_AUDIO_SOURCE_CREATED {
        if s.len() == 10 {
            Some(
                FfiResponse::AudioSourceCreated {
                    source: spec_u64_from_le_bytes(s.subrange(2, 10)),
                },
            )
        } else {
            None
        }
    } else if s[1] == RESP_TAG_CAPTURE_RESULT {
        if s.len() == 3 && s[2] <= 1 {
            Some(FfiResponse::CaptureResult { ok: s[2] == 1 })
        } else {
            None
        }
    } else if s[1] == RESP_TAG_ASYNC_STARTED {
        if s.len() == 10 {
            Some(FfiResponse::AsyncStarted { token: spec_u64_from_le_bytes(s.subrange(2, 10)) })
        } else {
            None
        }
    } else {
        None
    }
}

impl FfiResponse {
    /// Encodes the response as one whole envelope.
    pub fn encode_to_vec(&self) -> (r: Vec<u8>)
        ensures
            r@ == spec_encode_response(*self),
    {
        let mut out: Vec<u8> = Vec::new();
        out.push(WIRE_VERSION);
        match self {
            FfiResponse::SessionCreated { session } => {
                out.push(RESP_TAG_SESSION_CREATED);
                push_u64_le(&mut out, *session);
                proof {
                    assert(out@ =~= spec_encode_response(*self));
                }
            },
            FfiResponse::AudioSourceCreated { source } => {
                out.push(RESP_TAG_AUDIO_SOURCE_CREATED);
                push_u64_le(&mut out, *source);
                proof {
                    assert(out@ =~= spec_encode_response(*self));
                }
            },
            FfiResponse::CaptureResult { ok } => {
                out.push(RESP_TAG_CAPTURE_RESULT);
                out.push(bool_byte(*ok));
                proof {
                    assert(out@ =~= spec_encode_response(*self));
                }
            },
            FfiResponse::AsyncStarted { token } => {
                out.push(RESP_TAG_ASYNC_STARTED);
                push_u64_le(&mut out, *token);
                proof {
                    assert(out@ =~= spec_encode_response(*self));
                }
            },
        }
        out
    }

    /// Decodes one whole response envelope, reporting any malformed buffer
    /// as `None`.
    pub fn decode(data: &[u8]) -> (r: Option<FfiResponse>)
        ensures
            r == spec_decode_response(data@),
    {
        if data.len() < 2 {
            return None;
        }
        if *slice_index_get(data, 0) != WIRE_VERSION {
            return None;
        }
        let tag = *slice_index_get(data, 1);
        if tag == RESP_TAG_SESSION_CREATED {
            if data.len() == 10 {
                let session = u64_from_le_bytes(slice_subrange(data, 2, 10));
                Some(FfiResponse::SessionCreated { session })
            } else {
                None
            }
        } else if tag == RESP_TAG_AUDIO_SOURCE_CREATED {
            if data.len() == 10 {
                let source = u64_from_le_bytes(slice_subrange(data, 2, 10));
                Some(FfiResponse::AudioSourceCreated { source })
            } else {
                None
            }
        } else if tag == RESP_TAG_CAPTURE_RESULT {
            if data.len() == 3 {
                let b = *slice_index_get(data, 2);
                if b <= 1 {
                    Some(FfiResponse::CaptureResult { ok: b == 1 })
                } else {
                    None
                }
            } else {
                None
            }
        } else if tag == RESP_TAG_ASYNC_STARTED {
            if data.len() == 10 {
                let token = u64_from_le_bytes(slice_subrange(data, 2, 10));
                Some(FfiResponse::AsyncStarted { token })
            } else {
                None
            }
        } else {
            None
        }
    }
}

/// Decoding inverts encoding: every encoded response decodes to itself.
pub proof fn lemma_response_round_trip(resp: FfiResponse)
    ensures
        spec_decode_response(spec_encode_response(resp)) == Some(resp),
{
    lemma_auto_spec_u64_to_from_le_bytes();
    let s = spec_encode_response(resp);
    match resp {
        FfiResponse::SessionCreated { session } => {
            assert(s.subrange(2, 10) =~= spec_u64_to_le_bytes(session));
        },
        FfiResponse::AudioSourceCreated { source } => {
            assert(s.subrange(2, 10) =~= spec_u64_to_le_bytes(source));
        },
        FfiResponse::CaptureResult { ok } => {
            assert(spec_decode_response(s) == Some(resp));
        },
        FfiResponse::AsyncStarted { token } => {
            assert(s.subrange(2, 10) =~= spec_u64_to_le_bytes(token));
        },
    }
}

/// The exact byte sequence encoding a callback payload.
pub open spec fn spec_encode_payload(payload: CallbackPayload) -> Seq<u8> {
    match payload {
        CallbackPayload::Event { resource, info } => seq![WIRE_VERSION, CB_TAG_EVENT]
            + spec_u64_to_le_bytes(resource) + spec_u64_to_le_bytes(info),
        CallbackPayload::AsyncResult { token, result } => seq![WIRE_VERSION, CB_TAG_ASYNC_RESULT]
            + spec_u64_to_le_bytes(token) + spec_u64_to_le_bytes(result),
    }
}

/// The callback payload a byte sequence decodes to, or `None` when it is
/// not a whole, well-formed payload envelope.
pub open spec fn spec_decode_payload(s: Seq<u8>) -> Option<CallbackPayload> {
    if s.len() != 18 || s[0] != WIRE_VERSION {
        None
    } else if s[1] == CB_TAG_EVENT {
        Some(
            CallbackPayload::Event {
                resource: spec_u64_from_le_bytes(s.subrange(2, 10)),
                info: spec_u64_from_le_bytes(s.subrange(10, 18)),
            },
        )
    } else if s[1] == CB_TAG_ASYNC_RESULT {
        Some(
            CallbackPayload::AsyncResult {
                token: spec_u64_from_le_bytes(s.subrange(2, 10)),
                result: spec_u64_from_le_bytes(s.subrange(10, 18)),
            },
        )
    } else {
        None
    }
}

impl CallbackPayload {
    /// Encodes the payload as one whole envelope.
    pub fn encode_to_vec(&self) -> (r: Vec<u8>)
        ensures
            r@ == spec_encode_payload(*self),
    {
        let mut out: Vec<u8> = Vec::new();
        out.push(WIRE_VERSION);
        match self {
            CallbackPayload::Event { resource, info } => {
                out.push(CB_TAG_EVENT);
                push_u64_le(&mut out, *resource);
                push_u64_le(&mut out, *info);
                proof {
                    assert(out@ =~= spec_encode_payload(*self));
                }
            },
            CallbackPayload::AsyncResult { token, result } => {
                out.push(CB_TAG_ASYNC_RESULT);
                push_u64_le(&mut out, *token);
                push_u64_le(&mut out, *result);
                proof {
                    assert(out@ =~= spec_encode_payload(*self));
                }
            },
        }
        out
    }

    /// Decodes one whole callback payload envelope, reporting any
    /// malformed buffer as `None`.
    pub fn decode(data: &[u8]) -> (r: Option<CallbackPayload>)
        ensures
            r == spec_decode_payload(data@),
    {
        if data.len() != 18 {
            return None;
        }
        if *slice_index_get(data, 0) != WIRE_VERSION {
            return None;
        }
        let tag = *slice_index_get(data, 1);
        if tag == CB_TAG_EVENT {
            let resource = u64_from_le_bytes(slice_subrange(data, 2, 10));
            let info = u64_from_le_bytes(slice_subrange(data, 10, 18));
            Some(CallbackPayload::Event { resource, info })
        } else if tag == CB_TAG_ASYNC_RESULT {
            let token = u64_from_le_bytes(slice_subrange(data, 2, 10));
            let result = u64_from_le_bytes(slice_subrange(data, 10, 18));
            Some(CallbackPayload::AsyncResult { token, result })
        } else {
            None
        }
    }
}

/// Decoding inverts encoding: every encoded callback payload decodes to
/// itself, so a queued payload correlates back to the resource or token it
/// was produced for.
pub proof fn lemma_payload_round_trip(payload: CallbackPayload)
    ensures
        spec_decode_payload(spec_encode_payload(payload)) == Some(payload),
{
    lemma_auto_spec_u64_to_from_le_bytes();
    let s = spec_encode_payload(payload);
    match payload {
        CallbackPayload::Event { resource, info } => {
            assert(s.subrange(2, 10) =~= spec_u64_to_le_bytes(resource));
            assert(s.subrange(10, 18) =~= spec_u64_to_le_bytes(info));
        },
        CallbackPayload::AsyncResult { token, result } => {
            assert(s.subrange(2, 10) =~= spec_u64_to_le_bytes(token));
            assert(s.subrange(10, 18) =~= spec_u64_to_le_bytes(result));
        },
    }
}

} // verus!
