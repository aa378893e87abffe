//! The boundary server: handle registry, buffer store and callback bridge.
//!
//! The server owns the one registry of opaque handles for the process, the
//! monotonic id counter shared by every resource kind, the set-once
//! configuration flag and the queue of callback payloads awaiting
//! delivery.  Every contract is stated over [`ServerView`], the server's
//! mathematical model.

use crate::audio_source::AudioSourceOptions;
use crate::audio_source::NativeAudioSource;
use crate::proto::lemma_payload_round_trip;
use crate::proto::spec_decode_payload;
use crate::proto::spec_encode_payload;
use crate::proto::CallbackPayload;
use crate::FfiHandleId;
use crate::INVALID_HANDLE;
use std::collections::HashMap;
use vstd::prelude::*;

verus! {

broadcast use vstd::std_specs::hash::group_hash_axioms;

/// Engine-side session state the boundary tracks.
#[derive(Clone, Copy, Debug, PartialEq, Eq, Structural)]
pub struct SessionInfo {
    pub room: u64,
}

/// An immutable byte buffer that outlives the boundary call that produced
/// it: the caller reads it through its handle and releases it explicitly.
#[derive(Debug, Clone)]
pub struct FfiDataBuffer {
    pub handle: FfiHandleId,
    pub data: Vec<u8>,
}

/// One member of the closed set of resource kinds the registry can own.
/// The registry holds the only strong reference; callers hold the id.
#[derive(Debug)]
pub enum ResourceVariant {
    Session(SessionInfo),
    AudioSource(NativeAudioSource),
    AsyncToken,
    Buffer(FfiDataBuffer),
}

/// The mathematical model of one registry entry.
pub enum ResourceModel {
    Session { room: u64 },
    AudioSource { options: AudioSourceOptions, captured_frames: u64 },
    AsyncToken,
    Buffer { data: Seq<u8> },
}

impl View for ResourceVariant {
    type V = ResourceModel;

    open spec fn view(&self) -> ResourceModel {
        match self {
            ResourceVariant::Session(session) => ResourceModel::Session { room: session.room },
            ResourceVariant::AudioSource(source) => ResourceModel::AudioSource {
                options: source.spec_options(),
                captured_frames: source.spec_captured_frames(),
            },
            ResourceVariant::AsyncToken => ResourceModel::AsyncToken,
            ResourceVariant::Buffer(buffer) => ResourceModel::Buffer { data: buffer.data@ },
        }
    }
}

/// One callback payload awaiting delivery: the resource it concerns and
/// the handle of the published buffer holding the encoded payload.
#[derive(Clone, Copy, Debug, PartialEq, Eq, Structural)]
pub struct PendingDelivery {
    pub resource: FfiHandleId,
    pub buffer: FfiHandleId,
}

/// The mathematical model of the boundary server.
#[verifier::ext_equal]
pub struct ServerView {
    /// The registry: which id owns which resource.
    pub entries: Map<u64, ResourceModel>,
    /// The next id the monotonic counter will hand out.
    pub next_id: u64,
    /// Whether the foreign callback has been registered (set once).
    pub configured: bool,
    /// Payloads produced but not yet handed to the delivery context,
    /// oldest first.
    pub queue: Seq<PendingDelivery>,
    /// Payloads already handed to the delivery context, in delivery order.
    pub delivered: Seq<PendingDelivery>,
}

impl ServerView {
    /// Registry well-formedness: the counter started at one and every id
    /// ever handed out lies below it, so the sentinel is never live and
    /// fresh ids never collide with stored ones.
    pub open spec fn wf(self) -> bool {
        &&& 1 <= self.next_id
        &&& !self.entries.contains_key(INVALID_HANDLE)
        &&& forall|id: u64| #[trigger] self.entries.contains_key(id) ==> id < self.next_id
        &&& forall|i: int|
            0 <= i < self.queue.len() ==> (#[trigger] self.queue[i]).buffer < self.next_id
    }

    /// Everything produced for delivery so far: what already went out,
    /// then what still waits, in production order.
    pub open spec fn produced(self) -> Seq<PendingDelivery> {
        self.delivered + self.queue
    }
}

/// The model after storing `resource` under the next fresh id.
pub open spec fn spec_store_new(s: ServerView, resource: ResourceModel) -> ServerView {
    ServerView {
        entries: s.entries.insert(s.next_id, resource),
        next_id: (s.next_id + 1) as u64,
        ..s
    }
}

/// The model after publishing `data` as a fresh immutable buffer.
pub open spec fn spec_publish(s: ServerView, data: Seq<u8>) -> ServerView {
    spec_store_new(s, ResourceModel::Buffer { data })
}

/// The model and report of releasing `id`: the entry is gone afterwards,
/// and the report says whether one existed.
pub open spec fn spec_release(s: ServerView, id: u64) -> (ServerView, bool) {
    (ServerView { entries: s.entries.remove(id), ..s }, s.entries.contains_key(id))
}

/// The model after encoding `payload`, publishing it as a buffer and
/// queueing it for delivery to the foreign callback.
pub open spec fn spec_enqueue(
    s: ServerView,
    resource: u64,
    payload: CallbackPayload,
) -> ServerView {
    let published = spec_publish(s, spec_encode_payload(payload));
    ServerView {
        queue: published.queue.push(PendingDelivery { resource, buffer: s.next_id }),
        ..published
    }
}

/// Whether an engine payload for `resource` is accepted for delivery: the
/// callback must be registered and the resource still live.  A payload
/// for a released id is discarded, while payloads already queued (in
/// flight) remain deliverable.
pub open spec fn spec_accepts_payload(s: ServerView, resource: u64) -> bool {
    s.configured && s.entries.contains_key(resource)
}

/// The process-wide boundary server.
pub struct FfiServer {
    entries: HashMap<u64, ResourceVariant>,
    next_id: u64,
    configured: bool,
    queue: Vec<PendingDelivery>,
    delivered: Ghost<Seq<PendingDelivery>>,
}

impl View for FfiServer {
    type V = ServerView;

    closed spec fn view(&self) -> ServerView {
        ServerView {
            entries: self.entries@.map_values(|r: ResourceVariant| r@),
            next_id: self.next_id,
            configured: self.configured,
            queue: self.queue@,
            delivered: self.delivered@,
        }
    }
}

impl Default for FfiServer {
    /// A fresh, unconfigured server: empty registry, counter at one,
    /// nothing queued or delivered.
    fn default() -> (r: Self)
        ensures
            r@ == (ServerView {
                entries: Map::empty(),
                next_id: 1,
                configured: false,
                queue: Seq::empty(),
                delivered: Seq::empty(),
            }),
            r@.wf(),
    {
        let r = FfiServer {
            entries: HashMap::new(),
            next_id: 1,
            configured: false,
            queue: Vec::new(),
            delivered: Ghost(Seq::empty()),
        };
        proof {
            assert(r@.entries =~= Map::<u64, ResourceModel>::empty());
            assert(r@ =~= (ServerView {
                entries: Map::empty(),
                next_id: 1,
                configured: false,
                queue: Seq::empty(),
                delivered: Seq::empty(),
            }));
        }
        r
    }
}

impl FfiServer {
    /// Atomically reserves the next opaque id: never the sentinel, never
    /// an id in use, never handed out twice in one process lifetime.
    pub fn next_id(&mut self) -> (r: FfiHandleId)
        requires
            old(self)@.wf(),
            old(self)@.next_id < u64::MAX,
        ensures
            final(self)@.wf(),
            r == old(self)@.next_id,
            r != INVALID_HANDLE,
            !old(self)@.entries.contains_key(r),
            final(self)@ == (ServerView { next_id: (old(self)@.next_id + 1) as u64, ..old(self)@ }),
    {
        let id = self.next_id;
        self.next_id = self.next_id + 1;
        proof {
            assert(self@ =~= (ServerView { next_id: (old(self)@.next_id + 1) as u64, ..old(self)@ }));
        }
        id
    }

    /// Installs ownership of `resource` under `id`.  Storing over a live
    /// id would break the uniqueness guarantee and is a programming error,
    /// excluded here rather than tolerated.
    pub fn store_handle(&mut self, id: FfiHandleId, resource: ResourceVariant)
        requires
            old(self)@.wf(),
            id != INVALID_HANDLE,
            id < old(self)@.next_id,
            !old(self)@.entries.contains_key(id),
        ensures
            final(self)@.wf(),
            final(self)@ == (ServerView {
                entries: old(self)@.entries.insert(id, resource@),
                ..old(self)@
            }),
    {
        let ghost resource_model = resource@;
        self.entries.insert(id, resource);
        proof {
            assert(self@.entries =~= old(self)@.entries.insert(id, resource_model));
            assert(self@ =~= (ServerView {
                entries: old(self)@.entries.insert(id, resource_model),
                ..old(self)@
            }));
        }
    }

    /// Releases the entry under `id` and reports whether one existed.
    /// `false` is not an error: it signals "already released or never
    /// existed" and must be tolerated, notably on a racing double release.
    pub fn drop_handle(&mut self, id: FfiHandleId) -> (r: bool)
        requires
            old(self)@.wf(),
        ensures
            final(self)@.wf(),
            r == spec_release(old(self)@, id).1,
            final(self)@ == spec_release(old(self)@, id).0,
    {
        let removed = self.entries.remove(&id);
        proof {
            assert(self@.entries =~= old(self)@.entries.remove(id));
            assert(self@ =~= spec_release(old(self)@, id).0);
        }
        removed.is_some()
    }

    /// Non-owning lookup: `Some` exactly when `id` is currently present,
    /// a borrow valid only for the duration of the call.
    pub fn get_handle(&self, id: FfiHandleId) -> (r: Option<&ResourceVariant>)
        ensures
            match r {
                Some(resource) => self@.entries.contains_key(id) && resource@ == self@.entries[id],
                None => !self@.entries.contains_key(id),
            },
    {
        let r = self.entries.get(&id);
        proof {
            if self.entries@.contains_key(id) {
                assert(self@.entries.contains_key(id));
                assert(self@.entries[id] == self.entries@[id]@);
            } else {
                assert(!self@.entries.contains_key(id));
            }
        }
        r
    }

    /// Removes and returns the entry under `id`, so a handler can mutate
    /// the resource and store it back under the same id.
    pub(crate) fn take_handle(&mut self, id: FfiHandleId) -> (r: Option<ResourceVariant>)
        requires
            old(self)@.wf(),
        ensures
            final(self)@.wf(),
            final(self)@ == spec_release(old(self)@, id).0,
            match r {
                Some(resource) => old(self)@.entries.contains_key(id) && resource@ == old(
                    self,
                )@.entries[id],
                None => !old(self)@.entries.contains_key(id),
            },
    {
        let r = self.entries.remove(&id);
        proof {
            assert(self@.entries =~= old(self)@.entries.remove(id));
            assert(self@ =~= spec_release(old(self)@, id).0);
            if old(self).entries@.contains_key(id) {
                assert(old(self)@.entries[id] == old(self).entries@[id]@);
            }
        }
        r
    }

    /// How many handles are currently live in the registry.
    pub fn handle_count(&self) -> (r: usize)
        ensures
            r == self@.entries.len(),
    {
        let r = self.entries.len();
        proof {
            assert(self@.entries.dom() =~= self.entries@.dom());
        }
        r
    }

    /// The value the monotonic counter will hand out next.  Exposed so an
    /// unverified adapter can test the id-headroom preconditions.
    pub fn id_counter(&self) -> (r: u64)
        ensures
            r == self@.next_id,
    {
        self.next_id
    }

    /// Whether the foreign callback has been registered.
    pub fn is_configured(&self) -> (r: bool)
        ensures
            r == self@.configured,
    {
        self.configured
    }

    /// Set-once configuration: registers the foreign callback and marks
    /// the server initialized.  A second attempt is reported as already
    /// initialized, never silently overwritten.
    pub fn configure(&mut self) -> (r: Result<(), crate::FfiError>)
        requires
            old(self)@.wf(),
        ensures
            final(self)@.wf(),
            old(self)@.configured ==> r == Err::<(), crate::FfiError>(
                crate::FfiError::AlreadyInitialized,
            ) && final(self)@ == old(self)@,
            !old(self)@.configured ==> r == Ok::<(), crate::FfiError>(()) && final(self)@
                == (ServerView { configured: true, ..old(self)@ }),
    {
        if self.configured {
            Err(crate::FfiError::AlreadyInitialized)
        } else {
            self.configured = true;
            proof {
                assert(self@ =~= (ServerView { configured: true, ..old(self)@ }));
            }
            Ok(())
        }
    }

    /// Publishes `data` as an immutable buffer under a fresh id and
    /// returns the id.  The bytes are never mutated in place afterwards;
    /// the caller decides when to release them.
    pub fn publish(&mut self, data: Vec<u8>) -> (r: FfiHandleId)
        requires
            old(self)@.wf(),
            old(self)@.next_id < u64::MAX,
        ensures
            final(self)@.wf(),
            r == old(self)@.next_id,
            r != INVALID_HANDLE,
            !old(self)@.entries.contains_key(r),
            final(self)@ == spec_publish(old(self)@, data@),
    {
        let ghost bytes = data@;
        let id = self.next_id();
        let buffer = FfiDataBuffer { handle: id, data };
        self.store_handle(id, ResourceVariant::Buffer(buffer));
        proof {
            assert(self@ =~= spec_publish(old(self)@, bytes));
        }
        id
    }

    /// Encodes `payload`, publishes it through the buffer store exactly
    /// like a response, and queues it for the delivery context.
    fn enqueue_payload(&mut self, resource: FfiHandleId, payload: CallbackPayload)
        requires
            old(self)@.wf(),
            old(self)@.next_id < u64::MAX,
        ensures
            final(self)@.wf(),
            final(self)@ == spec_enqueue(old(self)@, resource, payload),
    {
        let bytes = payload.encode_to_vec();
        let buffer = self.publish(bytes);
        self.queue.push(PendingDelivery { resource, buffer });
        proof {
            assert(self@ =~= spec_enqueue(old(self)@, resource, payload));
        }
    }

    /// An engine-originated event concerning `resource`, arriving from an
    /// arbitrary engine context.  It is queued for callback delivery only
    /// when accepted (callback registered, resource still live); a late
    /// event for a released id is discarded, never an error.
    pub fn on_engine_event(&mut self, resource: FfiHandleId, info: u64)
        requires
            old(self)@.wf(),
            old(self)@.next_id < u64::MAX,
        ensures
            final(self)@.wf(),
            spec_accepts_payload(old(self)@, resource) ==> final(self)@ == spec_enqueue(
                old(self)@,
                resource,
                CallbackPayload::Event { resource, info },
            ),
            !spec_accepts_payload(old(self)@, resource) ==> final(self)@ == old(self)@,
    {
        if !self.configured {
            return ;
        }
        let live = self.get_handle(resource).is_some();
        if live {
            self.enqueue_payload(resource, CallbackPayload::Event { resource, info });
        }
    }

    /// The deferred result of an asynchronous operation, correlated to
    /// its token.  Accepted only while the correlation token is live and
    /// owned as an async-operation token; a late result for a released
    /// token is discarded rather than treated as an error.
    pub fn complete_async(&mut self, token: FfiHandleId, result: u64)
        requires
            old(self)@.wf(),
            old(self)@.next_id < u64::MAX,
        ensures
            final(self)@.wf(),
            (spec_accepts_payload(old(self)@, token) && old(self)@.entries[token]
                == ResourceModel::AsyncToken) ==> final(self)@ == spec_enqueue(
                old(self)@,
                token,
                CallbackPayload::AsyncResult { token, result },
            ),
            !(spec_accepts_payload(old(self)@, token) && old(self)@.entries[token]
                == ResourceModel::AsyncToken) ==> final(self)@ == old(self)@,
    {
        if !self.configured {
            return ;
        }
        let live = match self.get_handle(token) {
            Some(ResourceVariant::AsyncToken) => true,
            _ => false,
        };
        if live {
            self.enqueue_payload(token, CallbackPayload::AsyncResult { token, result });
        }
    }

    /// Hands the next payload to the delivery context, strictly oldest
    /// first, so payloads of one resource leave in production order.  The
    /// delivery context, not the engine, then invokes the foreign
    /// callback with the published buffer.
    pub fn drain_next(&mut self) -> (r: Option<PendingDelivery>)
        requires
            old(self)@.wf(),
        ensures
            final(self)@.wf(),
            old(self)@.queue.len() == 0 ==> r is None && final(self)@ == old(self)@,
            old(self)@.queue.len() > 0 ==> r == Some(old(self)@.queue[0]) && final(self)@
                == (ServerView {
                queue: old(self)@.queue.drop_first(),
                delivered: old(self)@.delivered.push(old(self)@.queue[0]),
                ..old(self)@
            }),
            final(self)@.produced() == old(self)@.produced(),
    {
        if self.queue.len() == 0 {
            proof {
                assert(self@.produced() =~= old(self)@.produced());
            }
            return None;
        }
        let d = self.queue.remove(0);
        self.delivered = Ghost(self.delivered@.push(d));
        proof {
            assert(self@.queue =~= old(self)@.queue.drop_first());
            assert(self@ =~= (ServerView {
                queue: old(self)@.queue.drop_first(),
                delivered: old(self)@.delivered.push(old(self)@.queue[0]),
                ..old(self)@
            }));
            assert(self@.produced() =~= old(self)@.produced());
        }
        Some(d)
    }
}

/// The payloads produced or delivered for one resource, in order.
pub open spec fn deliveries_for(t: Seq<PendingDelivery>, resource: u64) -> Seq<PendingDelivery> {
    t.filter(|d: PendingDelivery| d.resource == resource)
}

/// Releasing is idempotent: one release removes the entry, so a second
/// release of the same id reports `false` and leaves the registry as the
/// first release left it.
pub proof fn lemma_release_idempotent(s: ServerView, id: u64)
    ensures
        spec_release(spec_release(s, id).0, id).1 == false,
        spec_release(spec_release(s, id).0, id).0.entries =~= spec_release(s, id).0.entries,
{
    assert(spec_release(spec_release(s, id).0, id).0.entries =~= spec_release(s, id).0.entries);
}

/// A released id is immediately invalid: the registry no longer contains
/// it, so the very next lookup reports it absent.
pub proof fn lemma_release_invalidates_lookup(s: ServerView, id: u64)
    ensures
        !spec_release(s, id).0.entries.contains_key(id),
{
}

/// Handle ids are unique process-wide.  Every allocation hands out the
/// counter's value and leaves the counter strictly above it; the counter
/// never decreases.  So for any two allocations, one after the other in
/// the process, the ids differ — ids are never reused.
pub proof fn lemma_handle_ids_unique(
    first_pre: ServerView,
    first_post: ServerView,
    first_id: u64,
    second_pre: ServerView,
    second_post: ServerView,
    second_id: u64,
)
    requires
        first_pre.next_id <= first_id < first_post.next_id,
        first_post.next_id <= second_pre.next_id,
        second_pre.next_id <= second_id < second_post.next_id,
    ensures
        first_id != second_id,
{
}

/// An accepted engine event is queued exactly once for its resource, and
/// the published buffer decodes to an event carrying that same resource
/// identifier.
pub proof fn lemma_event_correlates(s: ServerView, resource: u64, info: u64)
    requires
        s.wf(),
        spec_accepts_payload(s, resource),
    ensures
        ({
            let payload = CallbackPayload::Event { resource, info };
            let after = spec_enqueue(s, resource, payload);
            let delivery = after.queue.last();
            &&& after.queue == s.queue.push(delivery)
            &&& delivery.resource == resource
            &&& after.entries[delivery.buffer] == (ResourceModel::Buffer {
                data: spec_encode_payload(payload),
            })
            &&& spec_decode_payload(spec_encode_payload(payload)) == Some(payload)
        }),
{
    let payload = CallbackPayload::Event { resource, info };
    lemma_payload_round_trip(payload);
}

/// An asynchronous result correlates back to its token: when the token is
/// live, completing the operation queues exactly one payload for it, and
/// the published buffer decodes to the result carrying that same token.
pub proof fn lemma_async_result_correlates(s: ServerView, token: u64, result: u64)
    requires
        s.wf(),
        spec_accepts_payload(s, token),
        s.entries[token] == ResourceModel::AsyncToken,
    ensures
        ({
            let payload = CallbackPayload::AsyncResult { token, result };
            let after = spec_enqueue(s, token, payload);
            let delivery = after.queue.last();
            &&& after.queue == s.queue.push(delivery)
            &&& delivery.resource == token
            &&& after.entries[delivery.buffer] == (ResourceModel::Buffer {
                data: spec_encode_payload(payload),
            })
            &&& spec_decode_payload(spec_encode_payload(payload)) == Some(payload)
        }),
{
    let payload = CallbackPayload::AsyncResult { token, result };
    lemma_payload_round_trip(payload);
}

/// Per-resource delivery order: what has been handed to the delivery
/// context for one resource is a prefix of everything produced for that
/// resource.  Payloads of independent resources may interleave freely,
/// but two payloads of the same resource can never be reordered.
pub proof fn lemma_per_resource_delivery_order(s: ServerView, resource: u64)
    ensures
        deliveries_for(s.delivered, resource).is_prefix_of(
            deliveries_for(s.produced(), resource),
        ),
{
    assert(s.delivered =~= s.produced().subrange(0, s.delivered.len() as int));
    s.delivered.lemma_filter_monotone(s.produced(), |d: PendingDelivery| d.resource == resource);
}

} // verus!
