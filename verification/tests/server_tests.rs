use openclaw_miniflux_mcp::config::Config;
use openclaw_miniflux_mcp::error::ErrorCode;
use openclaw_miniflux_mcp::params::{EntryParams, EntryStatus, OrderBy, OrderDirection};
use openclaw_miniflux_mcp::server::{
    check_write_allowed, reply, ApiOutcome, ApiRequest, MinifluxServer, ToolCall,
};

const READ_ONLY_MESSAGE: &str = "Read-only mode: write operations are disabled. Remove --read-only flag or set MINIFLUX_READ_ONLY=false to enable writes.";

fn server(read_only: bool) -> MinifluxServer {
    let config = Config::new(
        "http://localhost:8080".into(),
        Some("token".into()),
        None,
        None,
        read_only,
    )
    .unwrap();
    MinifluxServer::new(&config).unwrap()
}

fn no_filters() -> EntryParams {
    EntryParams {
        status: None,
        offset: None,
        limit: None,
        order: None,
        direction: None,
        before: None,
        after: None,
        before_entry_id: None,
        after_entry_id: None,
        starred: None,
    }
}

fn write_calls() -> Vec<ToolCall> {
    vec![
        ToolCall::CreateCategory { title: "News".into() },
        ToolCall::CreateFeed { feed_url: "not a url".into(), category_id: 1 },
        ToolCall::UpdateEntryStatus { entry_ids: vec![1, 2], status: "bogus".into() },
        ToolCall::ToggleBookmark { id: 5 },
        ToolCall::RefreshFeed { id: 6 },
    ]
}

#[test]
fn test_read_only_config_propagates() {
    let config = Config::new(
        "http://localhost:8080".into(),
        Some("token".into()),
        None,
        None,
        true,
    )
    .unwrap();
    let server = MinifluxServer::new(&config).unwrap();
    assert!(server.read_only);
}

#[test]
fn test_check_write_allowed_blocks_in_read_only() {
    assert!(check_write_allowed(true).is_err());
}

#[test]
fn test_check_write_allowed_permits_when_not_read_only() {
    assert!(check_write_allowed(false).is_ok());
}

#[test]
fn read_only_refusal_message_and_code() {
    let e = check_write_allowed(true).unwrap_err();
    assert_eq!(e.code, ErrorCode::InvalidRequest);
    assert_eq!(e.message, READ_ONLY_MESSAGE);
}

#[test]
fn read_only_server_refuses_every_write_before_reading_parameters() {
    let s = server(true);
    for call in write_calls() {
        let e = s.prepare(call).err().unwrap();
        assert_eq!(e.code, ErrorCode::InvalidRequest);
        assert_eq!(e.message, READ_ONLY_MESSAGE);
    }
}

#[test]
fn read_only_server_still_serves_reads() {
    let s = server(true);
    assert!(matches!(s.prepare(ToolCall::Healthcheck), Ok(ApiRequest::Healthcheck)));
    assert!(matches!(
        s.prepare(ToolCall::GetFeed { id: 3 }),
        Ok(ApiRequest::GetFeed { id: 3 })
    ));
    assert!(matches!(
        s.prepare(ToolCall::GetUserById { id: 9 }),
        Ok(ApiRequest::GetUserById { id: 9 })
    ));
}

#[test]
fn writable_server_prepares_writes() {
    let s = server(false);
    match s.prepare(ToolCall::UpdateEntryStatus { entry_ids: vec![1, 2], status: "read".into() }) {
        Ok(ApiRequest::UpdateEntriesStatus { entry_ids, status }) => {
            assert_eq!(entry_ids, vec![1, 2]);
            assert_eq!(status, EntryStatus::Read);
        }
        _ => panic!("expected a status update"),
    }
    match s.prepare(ToolCall::CreateFeed {
        feed_url: "https://example.org/feed.xml".into(),
        category_id: 4,
    }) {
        Ok(ApiRequest::CreateFeed { feed_url, category_id }) => {
            assert_eq!(feed_url.as_str(), "https://example.org/feed.xml");
            assert_eq!(category_id, 4);
        }
        _ => panic!("expected a feed creation"),
    }
    match s.prepare(ToolCall::CreateCategory { title: "News".into() }) {
        Ok(ApiRequest::CreateCategory { title }) => assert_eq!(title, "News"),
        _ => panic!("expected a category creation"),
    }
    assert!(matches!(
        s.prepare(ToolCall::ToggleBookmark { id: 5 }),
        Ok(ApiRequest::ToggleBookmark { id: 5 })
    ));
    assert!(matches!(
        s.prepare(ToolCall::RefreshFeed { id: 6 }),
        Ok(ApiRequest::RefreshFeed { id: 6 })
    ));
}

#[test]
fn writable_server_refuses_only_bad_parameters() {
    let s = server(false);
    let e = s
        .prepare(ToolCall::UpdateEntryStatus { entry_ids: vec![1], status: "bogus".into() })
        .err()
        .unwrap();
    assert_eq!(e.code, ErrorCode::InvalidParams);
    assert_eq!(e.message, "Invalid status 'bogus'. Must be one of: read, unread, removed");
    let e = s
        .prepare(ToolCall::CreateFeed { feed_url: "not a url".into(), category_id: 1 })
        .err()
        .unwrap();
    assert_eq!(e.code, ErrorCode::InvalidParams);
    assert_eq!(e.message, "Invalid URL: relative URL without a base");
}

#[test]
fn discover_subscription_checks_the_url() {
    let s = server(true);
    match s.prepare(ToolCall::DiscoverSubscription { url: "http://example.org".into() }) {
        Ok(ApiRequest::DiscoverSubscription { url }) => {
            assert_eq!(url.as_str(), "http://example.org");
            assert_eq!(url.url().as_str(), "http://example.org/");
        }
        _ => panic!("expected a discovery"),
    }
    let e = s
        .prepare(ToolCall::DiscoverSubscription { url: "example.org".into() })
        .err()
        .unwrap();
    assert_eq!(e.code, ErrorCode::InvalidParams);
    assert_eq!(e.message, "Invalid URL: relative URL without a base");
}

#[test]
fn entry_listings_read_their_filters() {
    let s = server(true);
    let mut params = no_filters();
    params.status = Some("unread".into());
    params.limit = Some(20);
    params.order = Some("published_at".into());
    params.direction = Some("desc".into());
    params.starred = Some(true);
    match s.prepare(ToolCall::GetEntries { params }) {
        Ok(ApiRequest::GetEntries { filter }) => {
            assert_eq!(filter.status, Some(EntryStatus::Unread));
            assert_eq!(filter.limit, Some(20));
            assert_eq!(filter.order, Some(OrderBy::PublishedAt));
            assert_eq!(filter.direction, Some(OrderDirection::Desc));
            assert_eq!(filter.starred, Some(true));
            assert_eq!(filter.offset, None);
        }
        _ => panic!("expected an entry listing"),
    }
    let mut params = no_filters();
    params.order = Some("category_id".into());
    match s.prepare(ToolCall::GetFeedEntries { feed_id: 7, params }) {
        Ok(ApiRequest::GetFeedEntries { feed_id, filter }) => {
            assert_eq!(feed_id, 7);
            assert_eq!(filter.order, Some(OrderBy::CategoryId));
            assert_eq!(filter.status, None);
        }
        _ => panic!("expected a feed entry listing"),
    }
}

#[test]
fn feed_entries_refuse_filters_like_entries() {
    let s = server(false);
    let mut params = no_filters();
    params.direction = Some("up".into());
    let e1 = s.prepare(ToolCall::GetEntries { params }).err().unwrap();
    let mut params = no_filters();
    params.direction = Some("up".into());
    let e2 = s.prepare(ToolCall::GetFeedEntries { feed_id: 1, params }).err().unwrap();
    assert_eq!(e1.code, ErrorCode::InvalidParams);
    assert_eq!(e1.message, "Invalid direction 'up'. Must be one of: asc, desc");
    assert_eq!(e2.code, e1.code);
    assert_eq!(e2.message, e1.message);
}

#[test]
fn reply_texts_for_completed_requests() {
    assert_eq!(
        reply(&ApiRequest::Healthcheck, ApiOutcome::Completed).unwrap(),
        "Miniflux instance is healthy"
    );
    assert_eq!(
        reply(
            &ApiRequest::UpdateEntriesStatus { entry_ids: vec![1], status: EntryStatus::Read },
            ApiOutcome::Completed
        )
        .unwrap(),
        "Entry status updated successfully"
    );
    assert_eq!(
        reply(&ApiRequest::ToggleBookmark { id: 1 }, ApiOutcome::Completed).unwrap(),
        "Bookmark toggled successfully"
    );
    assert_eq!(
        reply(&ApiRequest::RefreshFeed { id: 1 }, ApiOutcome::Completed).unwrap(),
        "Feed refreshed successfully"
    );
    assert_eq!(
        reply(&ApiRequest::GetFeeds, ApiOutcome::Rendered("[]".into())).unwrap(),
        "[]"
    );
}

#[test]
fn reply_for_created_feed_shows_its_id() {
    let request = ApiRequest::GetFeeds;
    assert_eq!(
        reply(&request, ApiOutcome::FeedCreated(42)).unwrap(),
        "Feed created successfully with ID: 42"
    );
    assert_eq!(
        reply(&request, ApiOutcome::FeedCreated(0)).unwrap(),
        "Feed created successfully with ID: 0"
    );
    assert_eq!(
        reply(&request, ApiOutcome::FeedCreated(-17)).unwrap(),
        "Feed created successfully with ID: -17"
    );
    assert_eq!(
        reply(&request, ApiOutcome::FeedCreated(i64::MIN)).unwrap(),
        format!("Feed created successfully with ID: {}", i64::MIN)
    );
    assert_eq!(
        reply(&request, ApiOutcome::FeedCreated(i64::MAX)).unwrap(),
        format!("Feed created successfully with ID: {}", i64::MAX)
    );
}

#[test]
fn failed_requests_are_internal_errors() {
    let e = reply(&ApiRequest::Healthcheck, ApiOutcome::Failed("Http request failed".into()))
        .unwrap_err();
    assert_eq!(e.code, ErrorCode::InternalError);
    assert_eq!(e.message, "Healthcheck failed: Http request failed");
    let e = reply(&ApiRequest::GetEntry { id: 3 }, ApiOutcome::Failed("Miniflux specific error".into()))
        .unwrap_err();
    assert_eq!(e.code, ErrorCode::InternalError);
    assert_eq!(e.message, "Miniflux specific error");
}
