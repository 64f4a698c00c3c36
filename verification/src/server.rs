use vstd::prelude::*;

use std::sync::Arc;

use crate::address::{ParsedUrl, invalid_url_message, parses_as_url};
use crate::config::{Config, api_for};
use crate::error::{ErrorCode, ToolError, ToolErrorView, result_view, tool_error};
use crate::params::{
    EntryFilter,
    EntryParams,
    EntryStatus,
    entry_filter,
    filter_read,
    parse_status,
    status_parsed,
};
use crate::text::{int_text, render_signed};

verus! {

/// The message with which a write is refused in read-only mode.
pub open spec fn read_only_message() -> Seq<char> {
    "Read-only mode: write operations are disabled. Remove --read-only flag or set MINIFLUX_READ_ONLY=false to enable writes."@
}

/// The error with which a write is refused in read-only mode.
pub open spec fn read_only_refusal() -> ToolErrorView {
    tool_error(ErrorCode::InvalidRequest, read_only_message())
}

/// Lets a write through unless the server is read-only.
pub fn check_write_allowed(read_only: bool) -> (r: Result<(), ToolError>)
    ensures
        r is Ok <==> !read_only,
        r matches Err(e) ==> e@ == read_only_refusal(),
{
    if read_only {
        Err(
            ToolError::invalid_request(
                String::from_str(
                    "Read-only mode: write operations are disabled. Remove --read-only flag or set MINIFLUX_READ_ONLY=false to enable writes.",
                ),
            ),
        )
    } else {
        Ok(())
    }
}

/// The answer to a failed call to Miniflux: an internal error that carries the failure's
/// message.
pub fn api_err(message: String) -> (e: ToolError)
    ensures
        e@ == tool_error(ErrorCode::InternalError, message@),
{
    ToolError::internal_error(message)
}

/// A tool call as a client sends it.
pub enum ToolCall {
    Healthcheck,
    GetCategories,
    ExportOpml,
    GetFeeds,
    GetFeed { id: i64 },
    GetFeedIcon { id: i64 },
    DiscoverSubscription { url: String },
    GetEntries { params: EntryParams },
    GetEntry { id: i64 },
    GetFeedEntries { feed_id: i64, params: EntryParams },
    GetCurrentUser,
    GetUserById { id: i64 },
    GetUserByName { username: String },
    CreateCategory { title: String },
    CreateFeed { feed_url: String, category_id: i64 },
    UpdateEntryStatus { entry_ids: Vec<i64>, status: String },
    ToggleBookmark { id: i64 },
    RefreshFeed { id: i64 },
}

/// Whether the tool changes what Miniflux holds.
pub open spec fn is_write(call: ToolCall) -> bool {
    match call {
        ToolCall::CreateCategory { .. } => true,
        ToolCall::CreateFeed { .. } => true,
        ToolCall::UpdateEntryStatus { .. } => true,
        ToolCall::ToggleBookmark { .. } => true,
        ToolCall::RefreshFeed { .. } => true,
        _ => false,
    }
}

/// A request to Miniflux, with every parameter checked and read.
pub enum ApiRequest {
    Healthcheck,
    GetCategories,
    ExportOpml,
    GetFeeds,
    GetFeed { id: i64 },
    GetFeedIcon { id: i64 },
    DiscoverSubscription { url: ParsedUrl },
    GetEntries { filter: EntryFilter },
    GetEntry { id: i64 },
    GetFeedEntries { feed_id: i64, filter: EntryFilter },
    GetCurrentUser,
    GetUserById { id: i64 },
    GetUserByName { username: String },
    CreateCategory { title: String },
    CreateFeed { feed_url: ParsedUrl, category_id: i64 },
    UpdateEntriesStatus { entry_ids: Vec<i64>, status: EntryStatus },
    ToggleBookmark { id: i64 },
    RefreshFeed { id: i64 },
}

/// A request to Miniflux as contracts speak of it: texts and lists by their contents.
pub enum ApiRequestView {
    Healthcheck,
    GetCategories,
    ExportOpml,
    GetFeeds,
    GetFeed { id: i64 },
    GetFeedIcon { id: i64 },
    DiscoverSubscription { url: Seq<char> },
    GetEntries { filter: EntryFilter },
    GetEntry { id: i64 },
    GetFeedEntries { feed_id: i64, filter: EntryFilter },
    GetCurrentUser,
    GetUserById { id: i64 },
    GetUserByName { username: Seq<char> },
    CreateCategory { title: Seq<char> },
    CreateFeed { feed_url: Seq<char>, category_id: i64 },
    UpdateEntriesStatus { entry_ids: Seq<i64>, status: EntryStatus },
    ToggleBookmark { id: i64 },
    RefreshFeed { id: i64 },
}

impl View for ApiRequest {
    type V = ApiRequestView;

    open spec fn view(&self) -> ApiRequestView {
        match self {
            ApiRequest::Healthcheck => ApiRequestView::Healthcheck,
            ApiRequest::GetCategories => ApiRequestView::GetCategories,
            ApiRequest::ExportOpml => ApiRequestView::ExportOpml,
            ApiRequest::GetFeeds => ApiRequestView::GetFeeds,
            ApiRequest::GetFeed { id } => ApiRequestView::GetFeed { id: *id },
            ApiRequest::GetFeedIcon { id } => ApiRequestView::GetFeedIcon { id: *id },
            ApiRequest::DiscoverSubscription { url } => ApiRequestView::DiscoverSubscription {
                url: url@,
            },
            ApiRequest::GetEntries { filter } => ApiRequestView::GetEntries { filter: *filter },
            ApiRequest::GetEntry { id } => ApiRequestView::GetEntry { id: *id },
            ApiRequest::GetFeedEntries { feed_id, filter } => ApiRequestView::GetFeedEntries {
                feed_id: *feed_id,
                filter: *filter,
            },
            ApiRequest::GetCurrentUser => ApiRequestView::GetCurrentUser,
            ApiRequest::GetUserById { id } => ApiRequestView::GetUserById { id: *id },
            ApiRequest::GetUserByName { username } => ApiRequestView::GetUserByName {
                username: username@,
            },
            ApiRequest::CreateCategory { title } => ApiRequestView::CreateCategory {
                title: title@,
            },
            ApiRequest::CreateFeed { feed_url, category_id } => ApiRequestView::CreateFeed {
                feed_url: feed_url@,
                category_id: *category_id,
            },
            ApiRequest::UpdateEntriesStatus { entry_ids, status } =>
                ApiRequestView::UpdateEntriesStatus { entry_ids: entry_ids@, status: *status },
            ApiRequest::ToggleBookmark { id } => ApiRequestView::ToggleBookmark { id: *id },
            ApiRequest::RefreshFeed { id } => ApiRequestView::RefreshFeed { id: *id },
        }
    }
}

/// A prepared request, taken by its views.
pub open spec fn prepared_view(r: Result<ApiRequest, ToolError>) -> Result<ApiRequestView, ToolErrorView> {
    match r {
        Ok(request) => Ok(request@),
        Err(e) => Err(e@),
    }
}

/// What a URL parameter is read as.
pub open spec fn url_param(text: Seq<char>) -> Result<Seq<char>, ToolErrorView> {
    if parses_as_url(text) {
        Ok(text)
    } else {
        Err(tool_error(ErrorCode::InvalidParams, invalid_url_message(text)))
    }
}

/// The request that a tool call becomes, or the error it is answered with, before Miniflux
/// is asked anything. In read-only mode every write is refused before its parameters are
/// read; otherwise the parameters are read and the first refused one decides the error.
pub open spec fn prepared(read_only: bool, call: ToolCall) -> Result<ApiRequestView, ToolErrorView> {
    if read_only && is_write(call) {
        Err(read_only_refusal())
    } else {
        match call {
            ToolCall::Healthcheck => Ok(ApiRequestView::Healthcheck),
            ToolCall::GetCategories => Ok(ApiRequestView::GetCategories),
            ToolCall::ExportOpml => Ok(ApiRequestView::ExportOpml),
            ToolCall::GetFeeds => Ok(ApiRequestView::GetFeeds),
            ToolCall::GetFeed { id } => Ok(ApiRequestView::GetFeed { id }),
            ToolCall::GetFeedIcon { id } => Ok(ApiRequestView::GetFeedIcon { id }),
            ToolCall::DiscoverSubscription { url } => match url_param(url@) {
                Ok(url) => Ok(ApiRequestView::DiscoverSubscription { url }),
                Err(e) => Err(e),
            },
            ToolCall::GetEntries { params } => match filter_read(params) {
                Ok(filter) => Ok(ApiRequestView::GetEntries { filter }),
                Err(e) => Err(e),
            },
            ToolCall::GetEntry { id } => Ok(ApiRequestView::GetEntry { id }),
            ToolCall::GetFeedEntries { feed_id, params } => match filter_read(params) {
                Ok(filter) => Ok(ApiRequestView::GetFeedEntries { feed_id, filter }),
                Err(e) => Err(e),
            },
            ToolCall::GetCurrentUser => Ok(ApiRequestView::GetCurrentUser),
            ToolCall::GetUserById { id } => Ok(ApiRequestView::GetUserById { id }),
            ToolCall::GetUserByName { username } => Ok(
                ApiRequestView::GetUserByName { username: username@ },
            ),
            ToolCall::CreateCategory { title } => Ok(
                ApiRequestView::CreateCategory { title: title@ },
            ),
            ToolCall::CreateFeed { feed_url, category_id } => match url_param(feed_url@) {
                Ok(feed_url) => Ok(ApiRequestView::CreateFeed { feed_url, category_id }),
                Err(e) => Err(e),
            },
            ToolCall::UpdateEntryStatus { entry_ids, status } => match status_parsed(status@) {
                Ok(status) => Ok(
                    ApiRequestView::UpdateEntriesStatus { entry_ids: entry_ids@, status },
                ),
                Err(e) => Err(e),
            },
            ToolCall::ToggleBookmark { id } => Ok(ApiRequestView::ToggleBookmark { id }),
            ToolCall::RefreshFeed { id } => Ok(ApiRequestView::RefreshFeed { id }),
        }
    }
}

/// Reads a URL parameter.
fn read_url_param(text: &str) -> (r: Result<ParsedUrl, ToolError>)
    ensures
        match url_param(text@) {
            Ok(url) => r matches Ok(p) && p@ == url,
            Err(e) => r matches Err(err) && err@ == e,
        },
{
    match ParsedUrl::parse(text) {
        Ok(parsed) => Ok(parsed),
        Err(message) => Err(ToolError::invalid_params(message)),
    }
}

/// What Miniflux answered to a request, in the form the reply is built from. The data of a
/// successful listing or lookup comes already rendered as text.
pub enum ApiOutcome {
    /// The request succeeded and returned nothing.
    Completed,
    /// The request succeeded; its data rendered as text.
    Rendered(String),
    /// A feed was created with this id.
    FeedCreated(i64),
    /// The request, or the rendering of its data, failed with this message.
    Failed(String),
}

/// The reply to a request that succeeded and returned nothing. Requests that return data
/// are answered with their rendered data instead, and have no such message.
pub open spec fn completion_message(request: ApiRequestView) -> Seq<char> {
    match request {
        ApiRequestView::Healthcheck => "Miniflux instance is healthy"@,
        ApiRequestView::UpdateEntriesStatus { .. } => "Entry status updated successfully"@,
        ApiRequestView::ToggleBookmark { .. } => "Bookmark toggled successfully"@,
        ApiRequestView::RefreshFeed { .. } => "Feed refreshed successfully"@,
        _ => Seq::empty(),
    }
}

/// The message of the error a failed request is answered with: a failed health check says
/// so in front of the failure's message.
pub open spec fn failure_message(request: ApiRequestView, failure: Seq<char>) -> Seq<char> {
    match request {
        ApiRequestView::Healthcheck => "Healthcheck failed: "@ + failure,
        _ => failure,
    }
}

/// The reply to a request, given what Miniflux answered.
pub open spec fn replied(request: ApiRequestView, outcome: ApiOutcome) -> Result<Seq<char>, ToolErrorView> {
    match outcome {
        ApiOutcome::Completed => Ok(completion_message(request)),
        ApiOutcome::Rendered(text) => Ok(text@),
        ApiOutcome::FeedCreated(id) => Ok(
            "Feed created successfully with ID: "@ + int_text(id as int),
        ),
        ApiOutcome::Failed(message) => Err(
            tool_error(ErrorCode::InternalError, failure_message(request, message@)),
        ),
    }
}

/// A reply, taken by its views.
pub open spec fn reply_view(r: Result<String, ToolError>) -> Result<Seq<char>, ToolErrorView> {
    match r {
        Ok(text) => Ok(text@),
        Err(e) => Err(e@),
    }
}

/// The reply to a request, given what Miniflux answered.
pub fn reply(request: &ApiRequest, outcome: ApiOutcome) -> (r: Result<String, ToolError>)
    ensures
        reply_view(r) == replied(request@, outcome),
{
    match outcome {
        ApiOutcome::Completed => match request {
            ApiRequest::Healthcheck => Ok(String::from_str("Miniflux instance is healthy")),
            ApiRequest::UpdateEntriesStatus { .. } => Ok(
                String::from_str("Entry status updated successfully"),
            ),
            ApiRequest::ToggleBookmark { .. } => Ok(String::from_str("Bookmark toggled successfully")),
            ApiRequest::RefreshFeed { .. } => Ok(String::from_str("Feed refreshed successfully")),
            _ => Ok(String::new()),
        },
        ApiOutcome::Rendered(text) => Ok(text),
        ApiOutcome::FeedCreated(id) => {
            let digits = render_signed(id);
            let mut text = String::from_str("Feed created successfully with ID: ");
            text.append(digits.as_str());
            Ok(text)
        },
        ApiOutcome::Failed(message) => match request {
            ApiRequest::Healthcheck => {
                let mut text = String::from_str("Healthcheck failed: ");
                text.append(message.as_str());
                Err(ToolError::internal_error(text))
            },
            _ => Err(api_err(message)),
        },
    }
}

/// The server: a Miniflux client, the HTTP client it sends with, and whether writes are
/// refused.
pub struct MinifluxServer {
    pub api: Arc<miniflux_api::MinifluxApi>,
    pub client: reqwest::Client,
    pub read_only: bool,
}

impl MinifluxServer {
    /// Builds the server for the settings: its Miniflux client is the one the settings call
    /// for, and it is read-only exactly when they say so. Fails, with the HTTP library's
    /// message, only where the machine cannot provide an HTTP client.
    pub fn new(config: &Config) -> (r: Result<MinifluxServer, String>)
        ensures
            r matches Ok(s) ==> s.read_only == config.read_only && *s.api == api_for(config@),
    {
        let api = config.create_api();
        match Config::create_client() {
            Ok(client) => Ok(MinifluxServer { api: Arc::new(api), client, read_only: config.read_only }),
            Err(message) => Err(message),
        }
    }

    /// Turns a tool call into the request to send to Miniflux, or into the error it is
    /// answered with.
    pub fn prepare(&self, call: ToolCall) -> (r: Result<ApiRequest, ToolError>)
        ensures
            prepared_view(r) == prepared(self.read_only, call),
    {
        match call {
            ToolCall::Healthcheck => Ok(ApiRequest::Healthcheck),
            ToolCall::GetCategories => Ok(ApiRequest::GetCategories),
            ToolCall::ExportOpml => Ok(ApiRequest::ExportOpml),
            ToolCall::GetFeeds => Ok(ApiRequest::GetFeeds),
            ToolCall::GetFeed { id } => Ok(ApiRequest::GetFeed { id }),
            ToolCall::GetFeedIcon { id } => Ok(ApiRequest::GetFeedIcon { id }),
            ToolCall::DiscoverSubscription { url } => match read_url_param(url.as_str()) {
                Ok(url) => Ok(ApiRequest::DiscoverSubscription { url }),
                Err(e) => Err(e),
            },
            ToolCall::GetEntries { params } => match entry_filter(params) {
                Ok(filter) => Ok(ApiRequest::GetEntries { filter }),
                Err(e) => Err(e),
            },
            ToolCall::GetEntry { id } => Ok(ApiRequest::GetEntry { id }),
            ToolCall::GetFeedEntries { feed_id, params } => match entry_filter(params) {
                Ok(filter) => Ok(ApiRequest::GetFeedEntries { feed_id, filter }),
                Err(e) => Err(e),
            },
            ToolCall::GetCurrentUser => Ok(ApiRequest::GetCurrentUser),
            ToolCall::GetUserById { id } => Ok(ApiRequest::GetUserById { id }),
            ToolCall::GetUserByName { username } => Ok(ApiRequest::GetUserByName { username }),
            ToolCall::CreateCategory { title } => match check_write_allowed(self.read_only) {
                Err(e) => Err(e),
                Ok(()) => Ok(ApiRequest::CreateCategory { title }),
            },
            ToolCall::CreateFeed { feed_url, category_id } => match check_write_allowed(
                self.read_only,
            ) {
                Err(e) => Err(e),
                Ok(()) => match read_url_param(feed_url.as_str()) {
                    Ok(feed_url) => Ok(ApiRequest::CreateFeed { feed_url, category_id }),
                    Err(e) => Err(e),
                },
            },
            ToolCall::UpdateEntryStatus { entry_ids, status } => match check_write_allowed(
                self.read_only,
            ) {
                Err(e) => Err(e),
                Ok(()) => match parse_status(status.as_str()) {
                    Ok(status) => Ok(ApiRequest::UpdateEntriesStatus { entry_ids, status }),
                    Err(e) => Err(e),
                },
            },
            ToolCall::ToggleBookmark { id } => match check_write_allowed(self.read_only) {
                Err(e) => Err(e),
                Ok(()) => Ok(ApiRequest::ToggleBookmark { id }),
            },
            ToolCall::RefreshFeed { id } => match check_write_allowed(self.read_only) {
                Err(e) => Err(e),
                Ok(()) => Ok(ApiRequest::RefreshFeed { id }),
            },
        }
    }
}

} // verus!
