use vstd::prelude::*;

use crate::address::{invalid_url_message, parsed_url_value, parses_as_url};
use crate::config::{
    AuthView,
    ConfigView,
    api_for,
    basic_client,
    configured,
    conflicting_auth_message,
    token_client,
};
use crate::error::{ErrorCode, ToolErrorView};
use crate::params::{
    EntryParams,
    EntryStatus,
    OrderBy,
    OrderDirection,
    direction_named,
    filter_read,
    order_named,
    status_named,
};
use crate::text::{decimal_text, digit_text, int_text};
use crate::server::{
    ApiOutcome,
    ApiRequestView,
    ToolCall,
    failure_message,
    is_write,
    prepared,
    read_only_refusal,
    replied,
};

verus! {

/// In read-only mode every write tool is refused with the read-only error, whatever its
/// parameters, and nothing is sent to Miniflux.
pub proof fn read_only_refuses_every_write(call: ToolCall)
    requires
        is_write(call),
    ensures
        prepared(true, call) == Err::<ApiRequestView, _>(read_only_refusal()),
{
}

/// Read-only mode changes nothing for the tools that only read: they are prepared, or
/// refused, exactly as in a writable server.
pub proof fn read_only_leaves_reads_alone(call: ToolCall)
    requires
        !is_write(call),
    ensures
        prepared(true, call) == prepared(false, call),
{
}

/// A writable server refuses a tool call only for one of its parameters, never for its
/// mode.
pub proof fn writable_server_refuses_only_parameters(call: ToolCall)
    ensures
        prepared(false, call) matches Err(e) ==> e.code == ErrorCode::InvalidParams,
{
}

/// The entries of one feed accept the same filters as the listing of all entries: one is
/// refused, with the same error, exactly where the other is.
pub proof fn feed_entries_filter_like_entries(read_only: bool, feed_id: i64, params: EntryParams)
    ensures
        (prepared(read_only, ToolCall::GetFeedEntries { feed_id, params }) matches Err(e)
            ==> prepared(read_only, ToolCall::GetEntries { params }) == Err::<ApiRequestView, _>(e)),
        (prepared(read_only, ToolCall::GetEntries { params }) matches Err(e)
            ==> prepared(read_only, ToolCall::GetFeedEntries { feed_id, params }) == Err::<ApiRequestView, _>(e)),
        (prepared(read_only, ToolCall::GetEntries { params }) matches Ok(
            ApiRequestView::GetEntries { filter },
        ) ==> prepared(read_only, ToolCall::GetFeedEntries { feed_id, params }) == Ok::<_, crate::error::ToolErrorView>(
            ApiRequestView::GetFeedEntries { feed_id, filter },
        )),
{
}

/// A request that Miniflux could not serve is answered with an internal error that carries
/// the failure's message; no failure is ever reported as a success.
pub proof fn failures_are_internal_errors(request: ApiRequestView, message: String)
    ensures
        replied(request, ApiOutcome::Failed(message)) matches Err(e) && e.code
            == ErrorCode::InternalError && e.message == failure_message(request, message@),
{
}

/// Every request that Miniflux served is answered with a success.
pub proof fn successes_are_answered(request: ApiRequestView, outcome: ApiOutcome)
    requires
        !(outcome is Failed),
    ensures
        replied(request, outcome) is Ok,
{
}

/// A text that is no URL is refused before the credentials are looked at, whatever they are.
pub proof fn invalid_url_is_refused_first(
    url: Seq<char>,
    api_token: Option<Seq<char>>,
    username: Option<Seq<char>>,
    password: Option<Seq<char>>,
    read_only: bool,
)
    requires
        !parses_as_url(url),
    ensures
        configured(url, api_token, username, password, read_only) == Err::<
            crate::config::ConfigView,
            _,
        >(invalid_url_message(url)),
{
}

/// With a valid URL, the settings are accepted exactly when there is one kind of
/// credentials: a token, or a username together with a password, not both and not neither.
/// The settings keep the URL and the mode as given.
pub proof fn credentials_decide(
    url: Seq<char>,
    api_token: Option<Seq<char>>,
    username: Option<Seq<char>>,
    password: Option<Seq<char>>,
    read_only: bool,
)
    requires
        parses_as_url(url),
    ensures
        configured(url, api_token, username, password, read_only) is Ok <==> (api_token is Some
            != (username is Some && password is Some)),
        configured(url, api_token, username, password, read_only) matches Ok(c) ==> c.url == url
            && c.read_only == read_only,
{
}

/// A token given together with a username and a password is refused.
pub proof fn both_kinds_are_refused(
    url: Seq<char>,
    token: Seq<char>,
    username: Seq<char>,
    password: Seq<char>,
    read_only: bool,
)
    requires
        parses_as_url(url),
    ensures
        configured(url, Some(token), Some(username), Some(password), read_only) == Err::<
            crate::config::ConfigView,
            _,
        >(conflicting_auth_message()),
{
}

/// A token given without a username and password pair is the credential used.
pub proof fn token_alone_is_used(
    url: Seq<char>,
    token: Seq<char>,
    username: Option<Seq<char>>,
    password: Option<Seq<char>>,
    read_only: bool,
)
    requires
        parses_as_url(url),
        !(username is Some && password is Some),
    ensures
        configured(url, Some(token), username, password, read_only) matches Ok(c) && c.auth
            == AuthView::Token(token),
{
}

/// Every lookup asks Miniflux for the thing of the kind that was named, with the id or
/// name it was given, in either mode: an entry for an entry, a feed for a feed, and so on.
pub proof fn lookups_ask_for_what_was_named(read_only: bool, id: i64, username: String)
    ensures
        prepared(read_only, ToolCall::GetEntry { id }) == Ok::<_, ToolErrorView>(
            ApiRequestView::GetEntry { id },
        ),
        prepared(read_only, ToolCall::GetFeed { id }) == Ok::<_, ToolErrorView>(
            ApiRequestView::GetFeed { id },
        ),
        prepared(read_only, ToolCall::GetFeedIcon { id }) == Ok::<_, ToolErrorView>(
            ApiRequestView::GetFeedIcon { id },
        ),
        prepared(read_only, ToolCall::GetUserById { id }) == Ok::<_, ToolErrorView>(
            ApiRequestView::GetUserById { id },
        ),
        prepared(read_only, ToolCall::GetUserByName { username }) == Ok::<_, ToolErrorView>(
            ApiRequestView::GetUserByName { username: username@ },
        ),
{
}

/// The tools without parameters ask Miniflux for exactly what they are named after, in
/// either mode: the health check, the categories, the OPML export, the feeds and the
/// current user.
pub proof fn plain_tools_ask_for_what_they_name(read_only: bool)
    ensures
        prepared(read_only, ToolCall::Healthcheck) == Ok::<_, ToolErrorView>(
            ApiRequestView::Healthcheck,
        ),
        prepared(read_only, ToolCall::GetCategories) == Ok::<_, ToolErrorView>(
            ApiRequestView::GetCategories,
        ),
        prepared(read_only, ToolCall::ExportOpml) == Ok::<_, ToolErrorView>(
            ApiRequestView::ExportOpml,
        ),
        prepared(read_only, ToolCall::GetFeeds) == Ok::<_, ToolErrorView>(
            ApiRequestView::GetFeeds,
        ),
        prepared(read_only, ToolCall::GetCurrentUser) == Ok::<_, ToolErrorView>(
            ApiRequestView::GetCurrentUser,
        ),
{
}

/// Where a URL parameter parses, the discovery and the feed creation send that URL text
/// (and the category) to Miniflux; the feed creation only in a writable server.
pub proof fn url_tools_send_the_url_given(read_only: bool, url: String, category_id: i64)
    requires
        parses_as_url(url@),
    ensures
        prepared(read_only, ToolCall::DiscoverSubscription { url }) == Ok::<_, ToolErrorView>(
            ApiRequestView::DiscoverSubscription { url: url@ },
        ),
        prepared(false, ToolCall::CreateFeed { feed_url: url, category_id }) == Ok::<
            _,
            ToolErrorView,
        >(ApiRequestView::CreateFeed { feed_url: url@, category_id }),
{
}

/// A writable server sends the other writes as given: a category with its title, a bookmark
/// toggle or a feed refresh for the id given.
pub proof fn writes_act_on_what_was_named(id: i64, title: String)
    ensures
        prepared(false, ToolCall::CreateCategory { title }) == Ok::<_, ToolErrorView>(
            ApiRequestView::CreateCategory { title: title@ },
        ),
        prepared(false, ToolCall::ToggleBookmark { id }) == Ok::<_, ToolErrorView>(
            ApiRequestView::ToggleBookmark { id },
        ),
        prepared(false, ToolCall::RefreshFeed { id }) == Ok::<_, ToolErrorView>(
            ApiRequestView::RefreshFeed { id },
        ),
{
}

/// In a writable server, a status update whose word names a status sets exactly the entries
/// given to exactly that status: `read` to Read, `unread` to Unread, `removed` to Removed.
pub proof fn status_update_sets_the_named_status(entry_ids: Vec<i64>, status: String)
    ensures
        status_named(status@) matches Some(named) ==> prepared(
            false,
            ToolCall::UpdateEntryStatus { entry_ids, status },
        ) == Ok::<_, ToolErrorView>(
            ApiRequestView::UpdateEntriesStatus { entry_ids: entry_ids@, status: named },
        ),
        status@ == "read"@ ==> prepared(false, ToolCall::UpdateEntryStatus { entry_ids, status })
            == Ok::<_, ToolErrorView>(
            ApiRequestView::UpdateEntriesStatus { entry_ids: entry_ids@, status: EntryStatus::Read },
        ),
        status@ == "unread"@ ==> prepared(false, ToolCall::UpdateEntryStatus { entry_ids, status })
            == Ok::<_, ToolErrorView>(
            ApiRequestView::UpdateEntriesStatus {
                entry_ids: entry_ids@,
                status: EntryStatus::Unread,
            },
        ),
        status@ == "removed"@ ==> prepared(false, ToolCall::UpdateEntryStatus { entry_ids, status })
            == Ok::<_, ToolErrorView>(
            ApiRequestView::UpdateEntriesStatus {
                entry_ids: entry_ids@,
                status: EntryStatus::Removed,
            },
        ),
{
    reveal_strlit("read");
    reveal_strlit("unread");
    reveal_strlit("removed");
}

/// A listing's status word `read`, `unread` or `removed` asks for exactly that status.
pub proof fn listing_status_word_is_the_status_asked(p: EntryParams, w: String)
    requires
        p.status == Some(w),
        filter_read(p) is Ok,
    ensures
        w@ == "read"@ ==> filter_read(p)->Ok_0.status == Some(EntryStatus::Read),
        w@ == "unread"@ ==> filter_read(p)->Ok_0.status == Some(EntryStatus::Unread),
        w@ == "removed"@ ==> filter_read(p)->Ok_0.status == Some(EntryStatus::Removed),
{
    reveal_strlit("read");
    reveal_strlit("unread");
    reveal_strlit("removed");
}

/// An entry listing is accepted exactly when every word given names a choice, and then it
/// asks for exactly the status, order and direction those words name, with every other
/// filter unchanged; a word left out filters nothing.
pub proof fn listing_filters_follow_the_words(p: EntryParams)
    ensures
        filter_read(p) is Ok <==> (
            (p.status matches Some(w) ==> status_named(w@) is Some)
            && (p.order matches Some(w) ==> order_named(w@) is Some)
            && (p.direction matches Some(w) ==> direction_named(w@) is Some)
        ),
        filter_read(p) matches Ok(f) ==> {
            &&& f.status == (match p.status { Some(w) => status_named(w@), None => None })
            &&& f.order == (match p.order { Some(w) => order_named(w@), None => None })
            &&& f.direction == (match p.direction { Some(w) => direction_named(w@), None => None })
            &&& f.offset == p.offset
            &&& f.limit == p.limit
            &&& f.before == p.before
            &&& f.after == p.after
            &&& f.before_entry_id == p.before_entry_id
            &&& f.after_entry_id == p.after_entry_id
            &&& f.starred == p.starred
        },
{
}

/// Both entry listings, of all feeds and of one feed, ask Miniflux with the filters read
/// from their words, in either mode.
pub proof fn listings_send_their_filters(read_only: bool, feed_id: i64, p: EntryParams)
    ensures
        filter_read(p) matches Ok(f) ==> prepared(read_only, ToolCall::GetEntries { params: p })
            == Ok::<_, ToolErrorView>(ApiRequestView::GetEntries { filter: f }) && prepared(
            read_only,
            ToolCall::GetFeedEntries { feed_id, params: p },
        ) == Ok::<_, ToolErrorView>(ApiRequestView::GetFeedEntries { feed_id, filter: f }),
{
}

/// The Miniflux client for settings with a username and a password authenticates as that
/// username with that password; for settings with a token, with that token. Either way it
/// talks to the parse of the settings' URL text.
pub proof fn client_uses_the_configured_credentials(
    url: Seq<char>,
    token: Seq<char>,
    username: Seq<char>,
    password: Seq<char>,
    read_only: bool,
)
    ensures
        api_for(
            ConfigView {
                url,
                auth: AuthView::UserPass { username, password },
                read_only,
            },
        ) == basic_client(parsed_url_value(url), username, password),
        api_for(ConfigView { url, auth: AuthView::Token(token), read_only }) == token_client(
            parsed_url_value(url),
            token,
        ),
{
}

/// Settings made from a valid URL and a username with its password (no token) give a
/// Miniflux client that authenticates as that username with that password.
pub proof fn configured_userpass_reaches_the_client(
    url: Seq<char>,
    username: Seq<char>,
    password: Seq<char>,
    read_only: bool,
)
    requires
        parses_as_url(url),
    ensures
        configured(url, None, Some(username), Some(password), read_only) matches Ok(c) && api_for(c)
            == basic_client(parsed_url_value(url), username, password),
{
}

/// A request whose data came back is answered with exactly that data's text, so the OPML
/// export is answered with the OPML document itself.
pub proof fn rendered_data_is_the_reply(request: ApiRequestView, text: String)
    ensures
        replied(request, ApiOutcome::Rendered(text)) == Ok::<Seq<char>, ToolErrorView>(text@),
{
}

/// A listing's order word asks for exactly that order, and its direction word for exactly
/// that direction.
pub proof fn listing_order_words_are_the_order_asked(p: EntryParams, o: String, d: String)
    requires
        p.order == Some(o),
        p.direction == Some(d),
        filter_read(p) is Ok,
    ensures
        o@ == "id"@ ==> filter_read(p)->Ok_0.order == Some(OrderBy::Id),
        o@ == "status"@ ==> filter_read(p)->Ok_0.order == Some(OrderBy::Status),
        o@ == "published_at"@ ==> filter_read(p)->Ok_0.order == Some(OrderBy::PublishedAt),
        o@ == "category_title"@ ==> filter_read(p)->Ok_0.order == Some(OrderBy::CategoryTitle),
        o@ == "category_id"@ ==> filter_read(p)->Ok_0.order == Some(OrderBy::CategoryId),
        d@ == "asc"@ ==> filter_read(p)->Ok_0.direction == Some(OrderDirection::Asc),
        d@ == "desc"@ ==> filter_read(p)->Ok_0.direction == Some(OrderDirection::Desc),
{
    reveal_strlit("id");
    reveal_strlit("status");
    reveal_strlit("published_at");
    reveal_strlit("category_title");
    reveal_strlit("category_id");
    reveal_strlit("asc");
    reveal_strlit("desc");
}

/// The replies to requests that return nothing say what was done, and a failed health check
/// says so in front of the failure; other failures carry the failure's message as it is.
pub proof fn replies_say_what_was_done(entry_ids: Seq<i64>, status: EntryStatus, id: i64, failure: String)
    ensures
        replied(ApiRequestView::Healthcheck, ApiOutcome::Completed) == Ok::<_, ToolErrorView>(
            "Miniflux instance is healthy"@,
        ),
        replied(ApiRequestView::UpdateEntriesStatus { entry_ids, status }, ApiOutcome::Completed)
            == Ok::<_, ToolErrorView>("Entry status updated successfully"@),
        replied(ApiRequestView::ToggleBookmark { id }, ApiOutcome::Completed) == Ok::<
            _,
            ToolErrorView,
        >("Bookmark toggled successfully"@),
        replied(ApiRequestView::RefreshFeed { id }, ApiOutcome::Completed) == Ok::<
            _,
            ToolErrorView,
        >("Feed refreshed successfully"@),
        replied(ApiRequestView::Healthcheck, ApiOutcome::Failed(failure)) matches Err(e) && e.code
            == ErrorCode::InternalError && e.message == "Healthcheck failed: "@ + failure@,
        replied(ApiRequestView::GetEntry { id }, ApiOutcome::Failed(failure)) matches Err(e)
            && e.code == ErrorCode::InternalError && e.message == failure@,
{
}

/// The reply to a created feed names the feed's id in decimal.
pub proof fn created_feed_reply_names_the_id(request: ApiRequestView, id: i64)
    ensures
        replied(request, ApiOutcome::FeedCreated(id)) == Ok::<_, ToolErrorView>(
            "Feed created successfully with ID: "@ + int_text(id as int),
        ),
{
}

/// The numeric value of a text of decimal digits, read from left to right.
pub open spec fn decimal_value(s: Seq<char>) -> int
    decreases s.len(),
{
    if s.len() == 0 {
        0
    } else {
        10 * decimal_value(s.drop_last()) + (s.last() as int - '0' as int)
    }
}

/// Whether every character of the text is a decimal digit.
pub open spec fn all_digits(s: Seq<char>) -> bool {
    forall|i: int| 0 <= i < s.len() ==> '0' <= #[trigger] s[i] <= '9'
}

proof fn digit_text_is_the_digit(d: nat)
    requires
        d < 10,
    ensures
        digit_text(d).len() == 1,
        digit_text(d)[0] as int == '0' as int + d,
{
    reveal_strlit("0");
    reveal_strlit("1");
    reveal_strlit("2");
    reveal_strlit("3");
    reveal_strlit("4");
    reveal_strlit("5");
    reveal_strlit("6");
    reveal_strlit("7");
    reveal_strlit("8");
    reveal_strlit("9");
}

/// The decimal text of a natural number is made of digits only, starts with a digit other
/// than zero (unless the number is zero itself), and reads back as that number.
pub proof fn decimal_text_reads_back(n: nat)
    ensures
        decimal_text(n).len() >= 1,
        all_digits(decimal_text(n)),
        n != 0 ==> decimal_text(n)[0] != '0',
        decimal_value(decimal_text(n)) == n,
    decreases n,
{
    if n < 10 {
        digit_text_is_the_digit(n);
        let s = decimal_text(n);
        assert(s.drop_last().len() == 0);
        assert(decimal_value(s.drop_last()) == 0);
        assert(s.last() == s[0]);
    } else {
        decimal_text_reads_back(n / 10);
        digit_text_is_the_digit(n % 10);
        let head = decimal_text(n / 10);
        let s = decimal_text(n);
        assert(s == head + digit_text(n % 10));
        assert(s.drop_last() =~= head);
        assert(s[0] == head[0]);
        assert(s.last() == digit_text(n % 10)[0]);
        assert(decimal_value(s) == 10 * decimal_value(head) + (s.last() as int - '0' as int));
        assert(10 * (n / 10) + n % 10 == n);
    }
}

/// The text of a negative number is a minus sign followed by the text of its magnitude; the
/// text of any other number has no sign.
pub proof fn int_text_signs(n: int)
    ensures
        n < 0 ==> int_text(n) == "-"@ + decimal_text((-n) as nat),
        n >= 0 ==> int_text(n) == decimal_text(n as nat),
{
}

/// The refusal in read-only mode is an invalid-request error that says so and tells how to
/// enable writes.
pub open spec fn read_only_answer() -> ToolErrorView {
    ToolErrorView {
        code: ErrorCode::InvalidRequest,
        message: "Read-only mode: write operations are disabled. Remove --read-only flag or set MINIFLUX_READ_ONLY=false to enable writes."@,
    }
}

/// In read-only mode each of the five writes (creating a category, creating a feed, updating
/// entry statuses, toggling a bookmark, refreshing a feed) is refused with that answer,
/// whatever its parameters.
pub proof fn read_only_refuses_the_five_writes(
    title: String,
    feed_url: String,
    category_id: i64,
    entry_ids: Vec<i64>,
    status: String,
    id: i64,
)
    ensures
        prepared(true, ToolCall::CreateCategory { title }) == Err::<ApiRequestView, _>(
            read_only_answer(),
        ),
        prepared(true, ToolCall::CreateFeed { feed_url, category_id }) == Err::<ApiRequestView, _>(
            read_only_answer(),
        ),
        prepared(true, ToolCall::UpdateEntryStatus { entry_ids, status }) == Err::<
            ApiRequestView,
            _,
        >(read_only_answer()),
        prepared(true, ToolCall::ToggleBookmark { id }) == Err::<ApiRequestView, _>(
            read_only_answer(),
        ),
        prepared(true, ToolCall::RefreshFeed { id }) == Err::<ApiRequestView, _>(
            read_only_answer(),
        ),
{
}

/// The settings' refusals say what is missing or in conflict.
pub proof fn settings_refusals_say_why(url: Seq<char>, token: Seq<char>, name: Seq<char>, read_only: bool)
    requires
        parses_as_url(url),
    ensures
        configured(url, None, None, None, read_only) == Err::<ConfigView, _>(
            "Authentication required: provide --api-token or --username + --password"@,
        ),
        configured(url, None, Some(name), None, read_only) == Err::<ConfigView, _>(
            "Both --username and --password are required for user/pass auth"@,
        ),
        configured(url, None, None, Some(name), read_only) == Err::<ConfigView, _>(
            "Both --username and --password are required for user/pass auth"@,
        ),
        configured(url, Some(token), Some(name), Some(name), read_only) == Err::<ConfigView, _>(
            "Provide either --api-token or --username + --password, not both"@,
        ),
{
}

/// A status word that names no status is refused as an invalid parameter whose message
/// quotes the word and lists the three statuses; a listing refuses an unknown order or
/// direction word the same way, listing the choices.
pub proof fn unknown_words_are_refused_with_the_choices(
    entry_ids: Vec<i64>,
    word: String,
    p: EntryParams,
)
    ensures
        status_named(word@) is None ==> prepared(
            false,
            ToolCall::UpdateEntryStatus { entry_ids, status: word },
        ) == Err::<ApiRequestView, _>(
            ToolErrorView {
                code: ErrorCode::InvalidParams,
                message: "Invalid status '"@ + word@ + "'. Must be one of: read, unread, removed"@,
            },
        ),
        p.status is None && p.order == Some(word) && order_named(word@) is None ==> filter_read(p)
            == Err::<crate::params::EntryFilter, _>(
            ToolErrorView {
                code: ErrorCode::InvalidParams,
                message: "Invalid order '"@ + word@
                    + "'. Must be one of: id, status, published_at, category_title, category_id"@,
            },
        ),
        p.status is None && p.order is None && p.direction == Some(word) && direction_named(word@)
            is None ==> filter_read(p) == Err::<crate::params::EntryFilter, _>(
            ToolErrorView {
                code: ErrorCode::InvalidParams,
                message: "Invalid direction '"@ + word@ + "'. Must be one of: asc, desc"@,
            },
        ),
{
    assert("Invalid status '"@ + word@ + "'. Must be one of: read, unread, removed"@ =~= "Invalid "@
        + "status"@ + " '"@ + word@ + "'. Must be one of: "@ + "read, unread, removed"@) by {
        reveal_strlit("Invalid status '");
        reveal_strlit("'. Must be one of: read, unread, removed");
        reveal_strlit("Invalid ");
        reveal_strlit("status");
        reveal_strlit(" '");
        reveal_strlit("'. Must be one of: ");
        reveal_strlit("read, unread, removed");
    }
    assert("Invalid order '"@ + word@
        + "'. Must be one of: id, status, published_at, category_title, category_id"@ =~= "Invalid "@
        + "order"@ + " '"@ + word@ + "'. Must be one of: "@
        + "id, status, published_at, category_title, category_id"@) by {
        reveal_strlit("Invalid order '");
        reveal_strlit("'. Must be one of: id, status, published_at, category_title, category_id");
        reveal_strlit("Invalid ");
        reveal_strlit("order");
        reveal_strlit(" '");
        reveal_strlit("'. Must be one of: ");
        reveal_strlit("id, status, published_at, category_title, category_id");
    }
    assert("Invalid direction '"@ + word@ + "'. Must be one of: asc, desc"@ =~= "Invalid "@
        + "direction"@ + " '"@ + word@ + "'. Must be one of: "@ + "asc, desc"@) by {
        reveal_strlit("Invalid direction '");
        reveal_strlit("'. Must be one of: asc, desc");
        reveal_strlit("Invalid ");
        reveal_strlit("direction");
        reveal_strlit(" '");
        reveal_strlit("'. Must be one of: ");
        reveal_strlit("asc, desc");
    }
}

} // verus!
