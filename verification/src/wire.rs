//! Wire model: the tagged envelope and its payload variants, together
//! with their ghost views used by the codec contracts.

use vstd::prelude::*;

verus! {

/// Correlation key for RPC calls: a 128-bit universally unique value.
#[derive(Debug, Clone, Copy, PartialEq, Eq, Hash, Structural)]
pub struct RequestId(pub u128);

/// Search options carried by a `Search` request; opaque to the IPC core.
#[derive(Debug, Clone, PartialEq)]
pub struct SearchOptions {
    pub case_sensitive: bool,
    pub whole_word: bool,
    pub regex: bool,
    pub include_pattern: Option<String>,
    pub exclude_pattern: Option<String>,
    pub max_results: Option<usize>,
}

/// One match produced by the search executor.
#[derive(Debug, Clone, PartialEq)]
pub struct SearchResult {
    pub path: String,
    pub line_number: usize,
    pub column: usize,
    pub line_text: String,
    pub match_text: String,
}

/// Text range within a buffer, in line/column coordinates.
#[derive(Debug, Clone, PartialEq)]
pub struct TextRange {
    pub start_line: usize,
    pub start_column: usize,
    pub end_line: usize,
    pub end_column: usize,
}

/// One text mutation applied to a buffer.
#[derive(Debug, Clone, PartialEq)]
pub struct TextChange {
    pub range: TextRange,
    pub new_text: String,
    pub old_text: String,
}

/// Kinds of file-system changes reported by notifications.
#[derive(Debug, Clone, PartialEq)]
pub enum FileChangeType {
    Created,
    Modified,
    Deleted,
    Renamed { old_path: String, new_path: String },
}

/// Requests from the UI process to the daemon.
///
/// LSP parameters and results travel as their JSON text; the boundary
/// layer converts between structured JSON values and text.
#[derive(Debug, Clone, PartialEq)]
pub enum CoreRequest {
    Ping,
    Sleep { millis: u64 },
    OpenBuffer { path: String },
    SaveBuffer { buffer_id: String, content: String },
    CloseBuffer { buffer_id: String },
    Search { query: String, options: SearchOptions },
    LspRequest { server: String, method: String, params: String },
    GetProjectFiles { root_path: String },
    GetStats,
}

/// Responses from the daemon to the UI process.
#[derive(Debug, Clone, PartialEq)]
pub enum CoreResponse {
    Pong,
    BufferOpened { buffer_id: String, content: String },
    BufferSaved { buffer_id: String },
    BufferClosed { buffer_id: String },
    SearchResults { results: Vec<SearchResult> },
    LspResponse { result: String },
    ProjectFiles { files: Vec<String> },
    Stats { cancels: u64, deadlines: u64, backpressure: u64 },
    Success,
    Error { message: String },
}

/// One-way messages pushed by the daemon.
#[derive(Debug, Clone, PartialEq)]
pub enum Notification {
    BufferChanged { buffer_id: String, changes: Vec<TextChange> },
    DiagnosticsUpdate { uri: String, diagnostics: Vec<String> },
    FileSystemChanged { path: String, change_type: FileChangeType },
}

/// The four payload kinds an envelope can carry.
#[derive(Debug, Clone, PartialEq)]
pub enum IpcPayload {
    Request(CoreRequest),
    Response(CoreResponse),
    Notification(Notification),
    Cancel(RequestId),
}

/// Envelope for all IPC communication. `deadline_millis` is an absolute
/// wall-clock deadline in milliseconds since the Unix epoch; `0` means
/// the deadline is unset.
#[derive(Debug, Clone, PartialEq)]
pub struct IpcMessage {
    pub id: RequestId,
    pub deadline_millis: u64,
    pub payload: IpcPayload,
}

// ---------------------------------------------------------------------
// Ghost views
// ---------------------------------------------------------------------

pub struct SearchOptionsView {
    pub case_sensitive: bool,
    pub whole_word: bool,
    pub regex: bool,
    pub include_pattern: Option<Seq<char>>,
    pub exclude_pattern: Option<Seq<char>>,
    pub max_results: Option<usize>,
}

pub struct SearchResultView {
    pub path: Seq<char>,
    pub line_number: usize,
    pub column: usize,
    pub line_text: Seq<char>,
    pub match_text: Seq<char>,
}

pub struct TextRangeView {
    pub start_line: usize,
    pub start_column: usize,
    pub end_line: usize,
    pub end_column: usize,
}

pub struct TextChangeView {
    pub range: TextRangeView,
    pub new_text: Seq<char>,
    pub old_text: Seq<char>,
}

pub enum FileChangeTypeView {
    Created,
    Modified,
    Deleted,
    Renamed { old_path: Seq<char>, new_path: Seq<char> },
}

pub enum CoreRequestView {
    Ping,
    Sleep { millis: u64 },
    OpenBuffer { path: Seq<char> },
    SaveBuffer { buffer_id: Seq<char>, content: Seq<char> },
    CloseBuffer { buffer_id: Seq<char> },
    Search { query: Seq<char>, options: SearchOptionsView },
    LspRequest { server: Seq<char>, method: Seq<char>, params: Seq<char> },
    GetProjectFiles { root_path: Seq<char> },
    GetStats,
}

pub enum CoreResponseView {
    Pong,
    BufferOpened { buffer_id: Seq<char>, content: Seq<char> },
    BufferSaved { buffer_id: Seq<char> },
    BufferClosed { buffer_id: Seq<char> },
    SearchResults { results: Seq<SearchResultView> },
    LspResponse { result: Seq<char> },
    ProjectFiles { files: Seq<Seq<char>> },
    Stats { cancels: u64, deadlines: u64, backpressure: u64 },
    Success,
    Error { message: Seq<char> },
}

pub enum NotificationView {
    BufferChanged { buffer_id: Seq<char>, changes: Seq<TextChangeView> },
    DiagnosticsUpdate { uri: Seq<char>, diagnostics: Seq<Seq<char>> },
    FileSystemChanged { path: Seq<char>, change_type: FileChangeTypeView },
}

pub enum IpcPayloadView {
    Request(CoreRequestView),
    Response(CoreResponseView),
    Notification(NotificationView),
    Cancel(u128),
}

pub struct IpcMessageView {
    pub id: u128,
    pub deadline_millis: u64,
    pub payload: IpcPayloadView,
}

// ---------------------------------------------------------------------
// Deep views of the exec types
// ---------------------------------------------------------------------

impl DeepView for SearchOptions {
    type V = SearchOptionsView;

    open spec fn deep_view(&self) -> SearchOptionsView {
        SearchOptionsView {
            case_sensitive: self.case_sensitive,
            whole_word: self.whole_word,
            regex: self.regex,
            include_pattern: self.include_pattern.deep_view(),
            exclude_pattern: self.exclude_pattern.deep_view(),
            max_results: self.max_results,
        }
    }
}

impl DeepView for SearchResult {
    type V = SearchResultView;

    open spec fn deep_view(&self) -> SearchResultView {
        SearchResultView {
            path: self.path@,
            line_number: self.line_number,
            column: self.column,
            line_text: self.line_text@,
            match_text: self.match_text@,
        }
    }
}

impl DeepView for TextRange {
    type V = TextRangeView;

    open spec fn deep_view(&self) -> TextRangeView {
        TextRangeView {
            start_line: self.start_line,
            start_column: self.start_column,
            end_line: self.end_line,
            end_column: self.end_column,
        }
    }
}

impl DeepView for TextChange {
    type V = TextChangeView;

    open spec fn deep_view(&self) -> TextChangeView {
        TextChangeView {
            range: self.range.deep_view(),
            new_text: self.new_text@,
            old_text: self.old_text@,
        }
    }
}

impl DeepView for FileChangeType {
    type V = FileChangeTypeView;

    open spec fn deep_view(&self) -> FileChangeTypeView {
        match self {
            FileChangeType::Created => FileChangeTypeView::Created,
            FileChangeType::Modified => FileChangeTypeView::Modified,
            FileChangeType::Deleted => FileChangeTypeView::Deleted,
            FileChangeType::Renamed { old_path, new_path } => FileChangeTypeView::Renamed {
                old_path: old_path@,
                new_path: new_path@,
            },
        }
    }
}

impl DeepView for CoreRequest {
    type V = CoreRequestView;

    open spec fn deep_view(&self) -> CoreRequestView {
        match self {
            CoreRequest::Ping => CoreRequestView::Ping,
            CoreRequest::Sleep { millis } => CoreRequestView::Sleep { millis: *millis },
            CoreRequest::OpenBuffer { path } => CoreRequestView::OpenBuffer { path: path@ },
            CoreRequest::SaveBuffer { buffer_id, content } => CoreRequestView::SaveBuffer {
                buffer_id: buffer_id@,
                content: content@,
            },
            CoreRequest::CloseBuffer { buffer_id } => CoreRequestView::CloseBuffer {
                buffer_id: buffer_id@,
            },
            CoreRequest::Search { query, options } => CoreRequestView::Search {
                query: query@,
                options: options.deep_view(),
            },
            CoreRequest::LspRequest { server, method, params } => CoreRequestView::LspRequest {
                server: server@,
                method: method@,
                params: params@,
            },
            CoreRequest::GetProjectFiles { root_path } => CoreRequestView::GetProjectFiles {
                root_path: root_path@,
            },
            CoreRequest::GetStats => CoreRequestView::GetStats,
        }
    }
}

impl DeepView for CoreResponse {
    type V = CoreResponseView;

    open spec fn deep_view(&self) -> CoreResponseView {
        match self {
            CoreResponse::Pong => CoreResponseView::Pong,
            CoreResponse::BufferOpened { buffer_id, content } => CoreResponseView::BufferOpened {
                buffer_id: buffer_id@,
                content: content@,
            },
            CoreResponse::BufferSaved { buffer_id } => CoreResponseView::BufferSaved {
                buffer_id: buffer_id@,
            },
            CoreResponse::BufferClosed { buffer_id } => CoreResponseView::BufferClosed {
                buffer_id: buffer_id@,
            },
            CoreResponse::SearchResults { results } => CoreResponseView::SearchResults {
                results: results.deep_view(),
            },
            CoreResponse::LspResponse { result } => CoreResponseView::LspResponse {
                result: result@,
            },
            CoreResponse::ProjectFiles { files } => CoreResponseView::ProjectFiles {
                files: files.deep_view(),
            },
            CoreResponse::Stats { cancels, deadlines, backpressure } => CoreResponseView::Stats {
                cancels: *cancels,
                deadlines: *deadlines,
                backpressure: *backpressure,
            },
            CoreResponse::Success => CoreResponseView::Success,
            CoreResponse::Error { message } => CoreResponseView::Error { message: message@ },
        }
    }
}

impl DeepView for Notification {
    type V = NotificationView;

    open spec fn deep_view(&self) -> NotificationView {
        match self {
            Notification::BufferChanged { buffer_id, changes } => NotificationView::BufferChanged {
                buffer_id: buffer_id@,
                changes: changes.deep_view(),
            },
            Notification::DiagnosticsUpdate { uri, diagnostics } => {
                NotificationView::DiagnosticsUpdate {
                    uri: uri@,
                    diagnostics: diagnostics.deep_view(),
                }
            },
            Notification::FileSystemChanged { path, change_type } => {
                NotificationView::FileSystemChanged {
                    path: path@,
                    change_type: change_type.deep_view(),
                }
            },
        }
    }
}

impl DeepView for IpcPayload {
    type V = IpcPayloadView;

    open spec fn deep_view(&self) -> IpcPayloadView {
        match self {
            IpcPayload::Request(r) => IpcPayloadView::Request(r.deep_view()),
            IpcPayload::Response(r) => IpcPayloadView::Response(r.deep_view()),
            IpcPayload::Notification(n) => IpcPayloadView::Notification(n.deep_view()),
            IpcPayload::Cancel(id) => IpcPayloadView::Cancel(id.0),
        }
    }
}

impl DeepView for IpcMessage {
    type V = IpcMessageView;

    open spec fn deep_view(&self) -> IpcMessageView {
        IpcMessageView {
            id: self.id.0,
            deadline_millis: self.deadline_millis,
            payload: self.payload.deep_view(),
        }
    }
}

} // verus!
