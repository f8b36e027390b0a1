//! Client-side protocol core: the pending-request table with admission
//! control, request dispatch, cancellation, and inbound routing.
//!
//! The transport, the tasks and the channels live outside; this core is
//! generic over the channel type `V` a pending entry resolves through.

use vstd::prelude::*;
use crate::error::IpcError;
use crate::frame::MAX_MESSAGE_SIZE;
use crate::table::{IdTable, has_key, key_idx};
use crate::wire::{RequestId, IpcMessage, IpcPayload, CoreRequest, CoreResponse, Notification};

verus! {

/// Milliseconds the local request timer and the embedded deadline use
/// when no configuration overrides them.
pub const DEFAULT_REQUEST_TIMEOUT_MS: u64 = 30000;

/// How long a cancel envelope stays meaningful on the wire.
pub const CANCEL_DEADLINE_MS: u64 = 5000;

/// Client configuration: local request timer, frame cap, pending cap.
#[derive(Debug, Clone, Copy, PartialEq, Eq, Structural)]
pub struct IpcConfig {
    /// Per-request local timer and deadline extent, in milliseconds.
    pub request_timeout_ms: u64,
    /// Cap on one encoded payload, in bytes.
    pub max_message_size: u32,
    /// Cap on simultaneously pending requests.
    pub max_pending_requests: usize,
}

impl Default for IpcConfig {
    /// The defaults: 30 s timer, 1 MiB frames, 10000 pending requests.
    fn default() -> (r: Self)
        ensures
            r.request_timeout_ms == DEFAULT_REQUEST_TIMEOUT_MS,
            r.max_message_size == MAX_MESSAGE_SIZE,
            r.max_pending_requests == 10000,
    {
        IpcConfig {
            request_timeout_ms: DEFAULT_REQUEST_TIMEOUT_MS,
            max_message_size: MAX_MESSAGE_SIZE,
            max_pending_requests: 10000,
        }
    }
}

/// Relies on `std::time::SystemTime::now`: milliseconds since the Unix
/// epoch by the wall clock, or 0 when the clock reads before the epoch.
/// Nothing is promised of the value.
#[verifier::external_body]
pub fn now_millis() -> u64 {
    match std::time::SystemTime::now().duration_since(std::time::UNIX_EPOCH) {
        Ok(d) => d.as_millis() as u64,
        Err(_) => 0,
    }
}

/// Relies on `uuid::Uuid::new_v4`: a freshly generated version-4 UUID as
/// its 128-bit value. The value is random; nothing is promised of it.
#[verifier::external_body]
fn fresh_id() -> u128 {
    uuid::Uuid::new_v4().as_u128()
}


/// First delay of the connect retry schedule, in milliseconds.
pub const BACKOFF_INITIAL_MS: u64 = 100;

/// Ceiling of the connect retry schedule, in milliseconds.
pub const BACKOFF_CAP_MS: u64 = 5000;

/// The bounded exponential backoff schedule for connecting: each delay
/// doubles, capped at five seconds.
pub fn next_backoff_delay(delay_ms: u64) -> (r: u64)
    ensures
        r == if 2 * delay_ms <= BACKOFF_CAP_MS {
            2 * delay_ms
        } else {
            BACKOFF_CAP_MS as int
        },
{
    if delay_ms <= BACKOFF_CAP_MS / 2 {
        2 * delay_ms
    } else {
        BACKOFF_CAP_MS
    }
}


/// The handshake decision: a ping's reply must be `Pong`; any other
/// response fails the connection with the prescribed error.
pub fn check_ping_response(response: &CoreResponse) -> (r: Result<(), IpcError>)
    ensures
        r is Ok <==> response matches CoreResponse::Pong,
        !(response matches CoreResponse::Pong) ==> (r matches Err(e) && e matches
            IpcError::ConnectionFailed(m) && m@ == "Unexpected response to ping"@),
{
    match response {
        CoreResponse::Pong => Ok(()),
        _ => Err(IpcError::ConnectionFailed("Unexpected response to ping".to_owned())),
    }
}

/// What the client does with one inbound envelope.
pub enum Routed<V> {
    /// A response matched a pending entry: resolve this channel with it.
    Deliver(V, CoreResponse),
    /// A notification: hand it to the notification subscriber.
    Notify(Notification),
    /// An unknown response id or a payload a server must not send: drop.
    Ignored,
}

/// The client core. `V` is the one-shot result channel the surrounding
/// runtime resolves when an entry leaves the table.
pub struct ClientCore<V> {
    pending: IdTable<V>,
    /// The configuration the client was built with.
    pub config: IpcConfig,
}

impl<V> ClientCore<V> {
    /// The pending entries, as id/channel pairs.
    pub closed spec fn pending_view(&self) -> Seq<(u128, V)> {
        self.pending@
    }

    /// The pending ids are distinct.
    pub closed spec fn wf(&self) -> bool {
        self.pending.wf()
    }

    /// The configuration the core was built with, for contracts.
    pub closed spec fn spec_config(&self) -> IpcConfig {
        self.config
    }

    /// A core with no pending requests.
    pub fn new(config: IpcConfig) -> (r: Self)
        ensures
            r.pending_view() == Seq::<(u128, V)>::empty(),
            r.spec_config() == config,
            r.wf(),
    {
        ClientCore { pending: IdTable::new(), config }
    }

    /// How many requests are pending.
    pub fn pending_len(&self) -> (n: usize)
        ensures
            n == self.pending_view().len(),
    {
        self.pending.len()
    }

    /// Registers a fresh request under the pending cap and builds its
    /// envelope, with the absolute deadline `now_ms` plus the configured
    /// timeout. When the table already holds `max_pending_requests`
    /// entries, fails with `Backpressure` before any envelope exists.
    pub fn start_request(&mut self, request: CoreRequest, chan: V, now_ms: u64) -> (r: Result<
        (RequestId, IpcMessage),
        IpcError,
    >)
        requires
            old(self).wf(),
        ensures
            final(self).wf(),
            final(self).spec_config() == old(self).spec_config(),
            old(self).pending_view().len() >= old(self).spec_config().max_pending_requests ==> (
            r matches Err(e) && e matches IpcError::Backpressure && final(self).pending_view()
                == old(self).pending_view()),
            old(self).pending_view().len() < old(self).spec_config().max_pending_requests ==> (
            r matches Ok(p) && {
                &&& p.1.id == p.0
                &&& p.1.deadline_millis == now_ms.saturating_add(
                    old(self).spec_config().request_timeout_ms,
                )
                &&& p.1.payload == IpcPayload::Request(request)
                &&& has_key(final(self).pending_view(), p.0.0)
                &&& !has_key(old(self).pending_view(), p.0.0) ==> final(self).pending_view()
                    == old(self).pending_view().push((p.0.0, chan))
            }),
    {
        if self.pending.len() >= self.config.max_pending_requests {
            return Err(IpcError::Backpressure);
        }
        let id = fresh_id();
        self.pending.insert(id, chan);
        let message = IpcMessage {
            id: RequestId(id),
            deadline_millis: now_ms.saturating_add(self.config.request_timeout_ms),
            payload: IpcPayload::Request(request),
        };
        Ok((RequestId(id), message))
    }

    /// `start_request` against the wall clock of this moment.
    pub fn start_request_now(&mut self, request: CoreRequest, chan: V) -> (r: Result<
        (RequestId, IpcMessage),
        IpcError,
    >)
        requires
            old(self).wf(),
        ensures
            final(self).wf(),
            final(self).spec_config() == old(self).spec_config(),
            old(self).pending_view().len() >= old(self).spec_config().max_pending_requests ==> (
            r matches Err(e) && e matches IpcError::Backpressure && final(self).pending_view()
                == old(self).pending_view()),
            old(self).pending_view().len() < old(self).spec_config().max_pending_requests ==> (
            r matches Ok(p) && {
                &&& p.1.id == p.0
                &&& p.1.payload == IpcPayload::Request(request)
                &&& has_key(final(self).pending_view(), p.0.0)
                &&& !has_key(old(self).pending_view(), p.0.0) ==> final(self).pending_view()
                    == old(self).pending_view().push((p.0.0, chan))
            }),
    {
        let now = now_millis();
        self.start_request(request, chan, now)
    }

    /// Cancels a pending request: removes its entry, handing back the
    /// channel so the caller resolves the waiter with `Cancelled` at once,
    /// and builds the best-effort `Cancel` envelope under a fresh id with
    /// a short deadline. A cancel for an id that is not pending still
    /// yields the envelope; the entry part is `None`.
    pub fn cancel(&mut self, request_id: RequestId, now_ms: u64) -> (r: (Option<V>, IpcMessage))
        requires
            old(self).wf(),
        ensures
            final(self).wf(),
            final(self).spec_config() == old(self).spec_config(),
            !has_key(old(self).pending_view(), request_id.0) ==> r.0 is None && final(self).pending_view() == old(self).pending_view(),
            has_key(old(self).pending_view(), request_id.0) ==> r.0 == Some(
                old(self).pending_view()[key_idx(old(self).pending_view(), request_id.0)].1,
            ) && final(self).pending_view() == old(self).pending_view().remove(
                key_idx(old(self).pending_view(), request_id.0),
            ),
            !has_key(final(self).pending_view(), request_id.0),
            r.1.payload == IpcPayload::Cancel(request_id),
            r.1.deadline_millis == now_ms.saturating_add(CANCEL_DEADLINE_MS),
    {
        let chan = self.pending.remove(request_id.0);
        let message = IpcMessage {
            id: RequestId(fresh_id()),
            deadline_millis: now_ms.saturating_add(CANCEL_DEADLINE_MS),
            payload: IpcPayload::Cancel(request_id),
        };
        (chan, message)
    }

    /// `cancel` against the wall clock of this moment.
    pub fn cancel_now(&mut self, request_id: RequestId) -> (r: (Option<V>, IpcMessage))
        requires
            old(self).wf(),
        ensures
            final(self).wf(),
            final(self).spec_config() == old(self).spec_config(),
            !has_key(old(self).pending_view(), request_id.0) ==> r.0 is None && final(self).pending_view() == old(self).pending_view(),
            has_key(old(self).pending_view(), request_id.0) ==> r.0 == Some(
                old(self).pending_view()[key_idx(old(self).pending_view(), request_id.0)].1,
            ) && final(self).pending_view() == old(self).pending_view().remove(
                key_idx(old(self).pending_view(), request_id.0),
            ),
            !has_key(final(self).pending_view(), request_id.0),
            r.1.payload == IpcPayload::Cancel(request_id),
    {
        let now = now_millis();
        self.cancel(request_id, now)
    }

    /// Routes one inbound envelope. A response resolves and removes the
    /// matching pending entry; a response under an unknown id is dropped;
    /// a notification is passed through; a request or cancel from the
    /// server side is a protocol violation and is dropped.
    pub fn handle_message(&mut self, message: IpcMessage) -> (r: Routed<V>)
        requires
            old(self).wf(),
        ensures
            final(self).wf(),
            final(self).spec_config() == old(self).spec_config(),
            match message.payload {
                IpcPayload::Response(resp) => {
                    if has_key(old(self).pending_view(), message.id.0) {
                        r == Routed::<V>::Deliver(
                            old(self).pending_view()[key_idx(
                                old(self).pending_view(),
                                message.id.0,
                            )].1,
                            resp,
                        ) && final(self).pending_view() == old(self).pending_view().remove(
                            key_idx(old(self).pending_view(), message.id.0),
                        )
                    } else {
                        r matches Routed::Ignored && final(self).pending_view() == old(self).pending_view()
                    }
                },
                IpcPayload::Notification(n) => r == Routed::<V>::Notify(n) && final(self).pending_view() == old(self).pending_view(),
                _ => r matches Routed::Ignored && final(self).pending_view() == old(self).pending_view(),
            },
            !(message.payload matches IpcPayload::Response(_)) ==> final(self).pending_view()
                == old(self).pending_view(),
    {
        match message.payload {
            IpcPayload::Response(resp) => {
                match self.pending.remove(message.id.0) {
                    Some(chan) => Routed::Deliver(chan, resp),
                    None => Routed::Ignored,
                }
            },
            IpcPayload::Notification(n) => Routed::Notify(n),
            _ => Routed::Ignored,
        }
    }

    /// The per-request timer fired: removes the entry so the caller can
    /// resolve the waiter with `Timeout`. A later response for this id
    /// will find no entry and be dropped.
    pub fn on_timeout(&mut self, request_id: RequestId) -> (r: Option<V>)
        requires
            old(self).wf(),
        ensures
            final(self).wf(),
            final(self).spec_config() == old(self).spec_config(),
            !has_key(old(self).pending_view(), request_id.0) ==> r is None && final(self).pending_view() == old(self).pending_view(),
            has_key(old(self).pending_view(), request_id.0) ==> r == Some(
                old(self).pending_view()[key_idx(old(self).pending_view(), request_id.0)].1,
            ) && final(self).pending_view() == old(self).pending_view().remove(
                key_idx(old(self).pending_view(), request_id.0),
            ),
            !has_key(final(self).pending_view(), request_id.0),
    {
        self.pending.remove(request_id.0)
    }
}

} // verus!
