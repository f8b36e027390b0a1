//! Server-side protocol core: per-connection dispatch with deadline
//! rejection, backpressure, cancellation by task abortion, and the
//! monotonic metrics counters.
//!
//! The accept loop, the tasks and the transport live outside; this core
//! is generic over the handle type `V` of a spawned handler task.

use vstd::prelude::*;
use crate::table::{IdTable, has_key, key_idx};
use crate::wire::{RequestId, IpcMessage, IpcPayload, CoreRequest, CoreResponse};

verus! {

/// Abstraction point for an optional workspace index engine; the IPC
/// core never looks inside it.
pub trait IndexEngineLike {

}

/// Monotonic counters for the three protocol-level rejections. They
/// saturate at the top of `u64` instead of wrapping.
#[derive(Debug, Clone, Copy, PartialEq, Eq, Structural)]
pub struct ServerMetrics {
    /// Cancel envelopes received.
    pub cancels: u64,
    /// Requests rejected because their deadline had passed.
    pub deadlines: u64,
    /// Requests rejected because the in-flight cap was reached.
    pub backpressure: u64,
}

impl ServerMetrics {
    /// All counters at zero.
    pub fn new() -> (r: Self)
        ensures
            r.cancels == 0,
            r.deadlines == 0,
            r.backpressure == 0,
    {
        ServerMetrics { cancels: 0, deadlines: 0, backpressure: 0 }
    }
}

impl Default for ServerMetrics {
    /// Same as `new`: all counters at zero.
    fn default() -> (r: Self)
        ensures
            r.cancels == 0,
            r.deadlines == 0,
            r.backpressure == 0,
    {
        ServerMetrics::new()
    }
}

/// Whether an envelope's absolute deadline has passed: `0` means unset.
pub open spec fn deadline_expired(deadline_millis: u64, now_ms: u64) -> bool {
    deadline_millis > 0 && now_ms > deadline_millis
}

/// An envelope carrying exactly the error response the protocol
/// prescribes: it echoes the given id, has no deadline, and its message
/// text is `text`.
pub open spec fn is_error_msg(m: IpcMessage, id: RequestId, text: Seq<char>) -> bool {
    &&& m.id == id
    &&& m.deadline_millis == 0
    &&& m.payload matches IpcPayload::Response(resp) && (resp matches CoreResponse::Error {
        message,
    } && message@ == text)
}

/// What the per-connection loop does with one inbound envelope.
pub enum ConnAction<V> {
    /// Emit this envelope now (a rejection), without running a handler.
    Reply(IpcMessage),
    /// Admitted: spawn the handler for this request, then register the
    /// task handle under the id with `insert_inflight`.
    Dispatch(RequestId, CoreRequest),
    /// A cancel matched an in-flight entry: abort the handler task,
    /// then emit the confirmation envelope.
    AbortAndConfirm(V, IpcMessage),
    /// Nothing to do (unknown cancel target, or a payload kind a client
    /// must not send).
    Ignore,
}

/// An action that replies with the prescribed error envelope.
pub open spec fn is_error_reply<V>(a: ConnAction<V>, id: RequestId, text: Seq<char>) -> bool {
    a matches ConnAction::Reply(m) && is_error_msg(m, id, text)
}

/// Per-connection dispatcher state. `V` is the handle of a spawned
/// handler task.
pub struct ConnState<V> {
    inflight: IdTable<V>,
    /// Root of the workspace most recently opened by this client; later
    /// searches run against it.
    pub workspace_root: Option<String>,
    /// Cap on simultaneously in-flight requests for this connection.
    pub max_inflight: usize,
}

impl<V> ConnState<V> {
    /// The in-flight entries, as id/handle pairs.
    pub closed spec fn inflight_view(&self) -> Seq<(u128, V)> {
        self.inflight@
    }

    /// The in-flight ids are distinct.
    pub closed spec fn wf(&self) -> bool {
        self.inflight.wf()
    }

    /// The in-flight cap, for contracts.
    pub closed spec fn spec_max_inflight(&self) -> usize {
        self.max_inflight
    }

    /// The cached workspace root, for contracts.
    pub closed spec fn spec_root(&self) -> Option<String> {
        self.workspace_root
    }

    /// A fresh connection: nothing in flight, no workspace root yet.
    pub fn new(max_inflight: usize) -> (r: Self)
        ensures
            r.inflight_view() == Seq::<(u128, V)>::empty(),
            r.spec_root() is None,
            r.spec_max_inflight() == max_inflight,
            r.wf(),
    {
        ConnState { inflight: IdTable::new(), workspace_root: None, max_inflight }
    }

    /// How many requests are in flight.
    pub fn inflight_len(&self) -> (n: usize)
        ensures
            n == self.inflight_view().len(),
    {
        self.inflight.len()
    }

    /// The id of the in-flight entry at an index, for pruning walks.
    pub fn inflight_id_at(&self, i: usize) -> (id: RequestId)
        requires
            i < self.inflight_view().len(),
        ensures
            id.0 == self.inflight_view()[i as int].0,
    {
        RequestId(self.inflight.key_at(i))
    }

    /// Borrows the task handle of the in-flight entry at an index.
    pub fn inflight_handle_at(&self, i: usize) -> (v: &V)
        requires
            i < self.inflight_view().len(),
        ensures
            *v == self.inflight_view()[i as int].1,
    {
        self.inflight.value_at(i)
    }

    /// Registers the handle of a dispatched request under its id.
    pub fn insert_inflight(&mut self, id: RequestId, handle: V)
        requires
            old(self).wf(),
        ensures
            final(self).wf(),
            final(self).spec_root() == old(self).spec_root(),
            final(self).spec_max_inflight() == old(self).spec_max_inflight(),
            !has_key(old(self).inflight_view(), id.0) ==> final(self).inflight_view() == old(self).inflight_view().push((id.0, handle)),
            has_key(final(self).inflight_view(), id.0),
    {
        self.inflight.insert(id.0, handle);
    }

    /// Removes an in-flight entry, handing back its task handle; used
    /// when a handler task has finished or the connection tears down.
    pub fn remove_inflight(&mut self, id: RequestId) -> (r: Option<V>)
        requires
            old(self).wf(),
        ensures
            final(self).wf(),
            final(self).spec_root() == old(self).spec_root(),
            final(self).spec_max_inflight() == old(self).spec_max_inflight(),
            !has_key(old(self).inflight_view(), id.0) ==> r is None && final(self).inflight_view()
                == old(self).inflight_view(),
            has_key(old(self).inflight_view(), id.0) ==> r == Some(
                old(self).inflight_view()[key_idx(old(self).inflight_view(), id.0)].1,
            ) && final(self).inflight_view() == old(self).inflight_view().remove(
                key_idx(old(self).inflight_view(), id.0),
            ),
            !has_key(final(self).inflight_view(), id.0),
    {
        self.inflight.remove(id.0)
    }

    /// One step of the per-connection loop. A request is checked against
    /// its deadline, then against the in-flight cap; each rejection emits
    /// the prescribed error envelope echoing the request id and bumps the
    /// matching counter, and the handler never runs. An admitted request
    /// updates the cached workspace root when it opens a project, and is
    /// dispatched. A cancel bumps `cancels`; when its target is in
    /// flight, the entry leaves the table and the task is to be aborted,
    /// confirmed under the cancel envelope's own id; a cancel for an
    /// unknown id does nothing further. Response or notification payloads
    /// from a client are dropped.
    pub fn conn_step(&mut self, metrics: &mut ServerMetrics, message: IpcMessage, now_ms: u64) -> (r:
        ConnAction<V>)
        requires
            old(self).wf(),
        ensures
            final(self).wf(),
            final(self).spec_max_inflight() == old(self).spec_max_inflight(),
            (message.payload matches IpcPayload::Request(req) && deadline_expired(
                message.deadline_millis,
                now_ms,
            )) ==> {
                &&& is_error_reply(r, message.id, "Deadline exceeded"@)
                &&& *final(metrics) == ServerMetrics {
                    deadlines: old(metrics).deadlines.saturating_add(1),
                    ..*old(metrics)
                }
                &&& final(self).inflight_view() == old(self).inflight_view()
                &&& final(self).spec_root() == old(self).spec_root()
            },
            (message.payload matches IpcPayload::Request(req) && !deadline_expired(
                message.deadline_millis,
                now_ms,
            ) && old(self).inflight_view().len() >= old(self).spec_max_inflight()) ==> {
                &&& is_error_reply(r, message.id, "Backpressure: too many in-flight requests"@)
                &&& *final(metrics) == ServerMetrics {
                    backpressure: old(metrics).backpressure.saturating_add(1),
                    ..*old(metrics)
                }
                &&& final(self).inflight_view() == old(self).inflight_view()
                &&& final(self).spec_root() == old(self).spec_root()
            },
            message.payload matches IpcPayload::Request(req) ==> ((!deadline_expired(
                message.deadline_millis,
                now_ms,
            ) && old(self).inflight_view().len() < old(self).spec_max_inflight()) ==> {
                &&& r matches ConnAction::Dispatch(rid, rq) && rid == message.id && rq == req
                &&& *final(metrics) == *old(metrics)
                &&& final(self).inflight_view() == old(self).inflight_view()
                &&& (req matches CoreRequest::GetProjectFiles { root_path } ==> (final(self).spec_root() matches Some(w) && w@ == root_path@))
                &&& (!(req matches CoreRequest::GetProjectFiles { .. }) ==> final(self).spec_root()
                    == old(self).spec_root())
            }),
            message.payload matches IpcPayload::Cancel(target) ==> {
                &&& *final(metrics) == ServerMetrics {
                    cancels: old(metrics).cancels.saturating_add(1),
                    ..*old(metrics)
                }
                &&& final(self).spec_root() == old(self).spec_root()
                &&& has_key(old(self).inflight_view(), target.0) ==> (
                r matches ConnAction::AbortAndConfirm(h, m) && h == old(self).inflight_view()[key_idx(old(self).inflight_view(), target.0)].1 && is_error_msg(m, message.id, "Cancelled"@) && final(self).inflight_view()
                    == old(self).inflight_view().remove(
                    key_idx(old(self).inflight_view(), target.0),
                ))
                &&& !has_key(old(self).inflight_view(), target.0) ==> (
                r matches ConnAction::Ignore && final(self).inflight_view() == old(self).inflight_view())
            },
            (message.payload matches IpcPayload::Response(_) || message.payload matches
                IpcPayload::Notification(_)) ==> {
                &&& r matches ConnAction::Ignore
                &&& *final(metrics) == *old(metrics)
                &&& final(self).inflight_view() == old(self).inflight_view()
                &&& final(self).spec_root() == old(self).spec_root()
            },
    {
        match message.payload {
            IpcPayload::Request(req) => {
                if message.deadline_millis > 0 && now_ms > message.deadline_millis {
                    metrics.deadlines = metrics.deadlines.saturating_add(1);
                    return ConnAction::Reply(
                        IpcMessage {
                            id: message.id,
                            deadline_millis: 0,
                            payload: IpcPayload::Response(
                                CoreResponse::Error { message: "Deadline exceeded".to_owned() },
                            ),
                        },
                    );
                }
                if self.inflight.len() >= self.max_inflight {
                    metrics.backpressure = metrics.backpressure.saturating_add(1);
                    return ConnAction::Reply(
                        IpcMessage {
                            id: message.id,
                            deadline_millis: 0,
                            payload: IpcPayload::Response(
                                CoreResponse::Error {
                                    message: "Backpressure: too many in-flight requests".to_owned(),
                                },
                            ),
                        },
                    );
                }
                match &req {
                    CoreRequest::GetProjectFiles { root_path } => {
                        self.workspace_root = Some(root_path.clone());
                    },
                    _ => {},
                }
                ConnAction::Dispatch(message.id, req)
            },
            IpcPayload::Cancel(target) => {
                metrics.cancels = metrics.cancels.saturating_add(1);
                match self.inflight.remove(target.0) {
                    Some(handle) => ConnAction::AbortAndConfirm(
                        handle,
                        IpcMessage {
                            id: message.id,
                            deadline_millis: 0,
                            payload: IpcPayload::Response(
                                CoreResponse::Error { message: "Cancelled".to_owned() },
                            ),
                        },
                    ),
                    None => ConnAction::Ignore,
                }
            },
            _ => ConnAction::Ignore,
        }
    }
}


/// Wraps a handler's response in an envelope that echoes the request id,
/// which is the sole correlation mechanism between requests and
/// responses; responses carry no deadline.
pub fn response_envelope(id: RequestId, response: CoreResponse) -> (r: IpcMessage)
    ensures
        r.id == id,
        r.deadline_millis == 0,
        r.payload == IpcPayload::Response(response),
{
    IpcMessage { id, deadline_millis: 0, payload: IpcPayload::Response(response) }
}

/// The responses the IPC core produces itself, without any handler work:
/// liveness, the metrics snapshot, and the unimplemented LSP bridge.
pub fn immediate_response(request: &CoreRequest, metrics: &ServerMetrics) -> (r: Option<
    CoreResponse,
>)
    ensures
        request matches CoreRequest::Ping ==> r == Some(CoreResponse::Pong),
        request matches CoreRequest::GetStats ==> r == Some(
            (CoreResponse::Stats {
                cancels: metrics.cancels,
                deadlines: metrics.deadlines,
                backpressure: metrics.backpressure,
            }),
        ),
        request matches CoreRequest::LspRequest { .. } ==> (r matches Some(resp) && (resp matches
            CoreResponse::Error { message } && message@ == "LSP bridge not implemented"@)),
        !(request matches CoreRequest::Ping) && !(request matches CoreRequest::GetStats) && !(
        request matches CoreRequest::LspRequest { .. }) ==> r is None,
{
    match request {
        CoreRequest::Ping => Some(CoreResponse::Pong),
        CoreRequest::GetStats => Some(
            CoreResponse::Stats {
                cancels: metrics.cancels,
                deadlines: metrics.deadlines,
                backpressure: metrics.backpressure,
            },
        ),
        CoreRequest::LspRequest { .. } => Some(
            CoreResponse::Error { message: "LSP bridge not implemented".to_owned() },
        ),
        _ => None,
    }
}

/// Folds the buffer store's answer to `OpenBuffer` into a response.
pub fn open_buffer_response(result: Result<(String, String), String>) -> (r: CoreResponse)
    ensures
        result matches Ok(p) ==> r == (CoreResponse::BufferOpened { buffer_id: p.0, content: p.1 }),
        result matches Err(e) ==> (r matches CoreResponse::Error { message } && message@
            == "OpenBuffer failed: "@ + e@),
{
    match result {
        Ok(p) => CoreResponse::BufferOpened { buffer_id: p.0, content: p.1 },
        Err(e) => CoreResponse::Error {
            message: "OpenBuffer failed: ".to_owned().concat(e.as_str()),
        },
    }
}

/// Folds the buffer store's answer to `SaveBuffer` into a response.
pub fn save_buffer_response(buffer_id: String, result: Result<(), String>) -> (r: CoreResponse)
    ensures
        result matches Ok(_) ==> r == (CoreResponse::BufferSaved { buffer_id }),
        result matches Err(e) ==> (r matches CoreResponse::Error { message } && message@
            == "SaveBuffer failed: "@ + e@),
{
    match result {
        Ok(_) => CoreResponse::BufferSaved { buffer_id },
        Err(e) => CoreResponse::Error {
            message: "SaveBuffer failed: ".to_owned().concat(e.as_str()),
        },
    }
}

/// Folds the buffer store's answer to `CloseBuffer` into a response.
pub fn close_buffer_response(buffer_id: String, result: Result<(), String>) -> (r: CoreResponse)
    ensures
        result matches Ok(_) ==> r == (CoreResponse::BufferClosed { buffer_id }),
        result matches Err(e) ==> (r matches CoreResponse::Error { message } && message@
            == "CloseBuffer failed: "@ + e@),
{
    match result {
        Ok(_) => CoreResponse::BufferClosed { buffer_id },
        Err(e) => CoreResponse::Error {
            message: "CloseBuffer failed: ".to_owned().concat(e.as_str()),
        },
    }
}

/// Folds the search executor's answer to `Search` into a response.
pub fn search_response(result: Result<Vec<crate::wire::SearchResult>, String>) -> (r: CoreResponse)
    ensures
        result matches Ok(results) ==> r == (CoreResponse::SearchResults { results }),
        result matches Err(e) ==> (r matches CoreResponse::Error { message } && message@
            == "Search failed: "@ + e@),
{
    match result {
        Ok(results) => CoreResponse::SearchResults { results },
        Err(e) => CoreResponse::Error { message: "Search failed: ".to_owned().concat(e.as_str()) },
    }
}

/// Folds the file enumerator's answer to `GetProjectFiles` into a response.
pub fn project_files_response(result: Result<Vec<String>, String>) -> (r: CoreResponse)
    ensures
        result matches Ok(files) ==> r == (CoreResponse::ProjectFiles { files }),
        result matches Err(e) ==> (r matches CoreResponse::Error { message } && message@
            == "GetProjectFiles failed: "@ + e@),
{
    match result {
        Ok(files) => CoreResponse::ProjectFiles { files },
        Err(e) => CoreResponse::Error {
            message: "GetProjectFiles failed: ".to_owned().concat(e.as_str()),
        },
    }
}

} // verus!
