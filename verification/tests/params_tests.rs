use openclaw_miniflux_mcp::error::ErrorCode;
use openclaw_miniflux_mcp::params::{
    entry_filter, parse_direction, parse_err, parse_order, parse_status, EntryParams,
    EntryStatus, OrderBy, OrderDirection,
};
use openclaw_miniflux_mcp::text::{render_signed, render_unsigned};

#[test]
fn statuses_are_read() {
    assert_eq!(parse_status("read").unwrap(), EntryStatus::Read);
    assert_eq!(parse_status("unread").unwrap(), EntryStatus::Unread);
    assert_eq!(parse_status("removed").unwrap(), EntryStatus::Removed);
    let e = parse_status("Read").unwrap_err();
    assert_eq!(e.code, ErrorCode::InvalidParams);
    assert_eq!(e.message, "Invalid status 'Read'. Must be one of: read, unread, removed");
}

#[test]
fn orders_are_read() {
    assert_eq!(parse_order("id").unwrap(), OrderBy::Id);
    assert_eq!(parse_order("status").unwrap(), OrderBy::Status);
    assert_eq!(parse_order("published_at").unwrap(), OrderBy::PublishedAt);
    assert_eq!(parse_order("category_title").unwrap(), OrderBy::CategoryTitle);
    assert_eq!(parse_order("category_id").unwrap(), OrderBy::CategoryId);
    let e = parse_order("title").unwrap_err();
    assert_eq!(e.code, ErrorCode::InvalidParams);
    assert_eq!(
        e.message,
        "Invalid order 'title'. Must be one of: id, status, published_at, category_title, category_id"
    );
}

#[test]
fn directions_are_read() {
    assert_eq!(parse_direction("asc").unwrap(), OrderDirection::Asc);
    assert_eq!(parse_direction("desc").unwrap(), OrderDirection::Desc);
    let e = parse_direction("").unwrap_err();
    assert_eq!(e.code, ErrorCode::InvalidParams);
    assert_eq!(e.message, "Invalid direction ''. Must be one of: asc, desc");
}

#[test]
fn parse_err_builds_the_message() {
    let e = parse_err("colour", "mauve", "red, green");
    assert_eq!(e.code, ErrorCode::InvalidParams);
    assert_eq!(e.message, "Invalid colour 'mauve'. Must be one of: red, green");
}

#[test]
fn filter_errors_come_status_first_then_order_then_direction() {
    let all_bad = || EntryParams {
        status: Some("x".into()),
        offset: Some(10),
        limit: None,
        order: Some("y".into()),
        direction: Some("z".into()),
        before: None,
        after: None,
        before_entry_id: None,
        after_entry_id: None,
        starred: None,
    };
    let e = entry_filter(all_bad()).unwrap_err();
    assert_eq!(e.message, "Invalid status 'x'. Must be one of: read, unread, removed");
    let mut p = all_bad();
    p.status = Some("read".into());
    let e = entry_filter(p).unwrap_err();
    assert_eq!(
        e.message,
        "Invalid order 'y'. Must be one of: id, status, published_at, category_title, category_id"
    );
    let mut p = all_bad();
    p.status = None;
    p.order = Some("id".into());
    let e = entry_filter(p).unwrap_err();
    assert_eq!(e.message, "Invalid direction 'z'. Must be one of: asc, desc");
}

#[test]
fn filters_pass_numbers_and_flags_unchanged() {
    let p = EntryParams {
        status: None,
        offset: Some(5),
        limit: Some(20),
        order: None,
        direction: Some("asc".into()),
        before: Some(1700000000),
        after: Some(1600000000),
        before_entry_id: Some(99),
        after_entry_id: Some(11),
        starred: Some(false),
    };
    let f = entry_filter(p).unwrap();
    assert_eq!(f.status, None);
    assert_eq!(f.offset, Some(5));
    assert_eq!(f.limit, Some(20));
    assert_eq!(f.order, None);
    assert_eq!(f.direction, Some(OrderDirection::Asc));
    assert_eq!(f.before, Some(1700000000));
    assert_eq!(f.after, Some(1600000000));
    assert_eq!(f.before_entry_id, Some(99));
    assert_eq!(f.after_entry_id, Some(11));
    assert_eq!(f.starred, Some(false));
}

#[test]
fn numbers_render_in_decimal() {
    assert_eq!(render_unsigned(0), "0");
    assert_eq!(render_unsigned(9), "9");
    assert_eq!(render_unsigned(10), "10");
    assert_eq!(render_unsigned(1234567890), "1234567890");
    assert_eq!(render_unsigned(u64::MAX), u64::MAX.to_string());
    assert_eq!(render_signed(-1), "-1");
    assert_eq!(render_signed(-100), "-100");
    assert_eq!(render_signed(i64::MIN), i64::MIN.to_string());
    assert_eq!(render_signed(i64::MAX), i64::MAX.to_string());
}
