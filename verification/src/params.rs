use vstd::prelude::*;

use crate::error::{ErrorCode, ToolError, ToolErrorView, result_view, tool_error};

verus! {

/// The read status of an entry.
#[derive(Clone, Copy, Debug, PartialEq, Eq, Structural)]
pub enum EntryStatus {
    Read,
    Unread,
    Removed,
}

/// The field by which entries are ordered.
#[derive(Clone, Copy, Debug, PartialEq, Eq, Structural)]
pub enum OrderBy {
    Id,
    Status,
    PublishedAt,
    CategoryTitle,
    CategoryId,
}

/// The direction in which entries are ordered.
#[derive(Clone, Copy, Debug, PartialEq, Eq, Structural)]
pub enum OrderDirection {
    Asc,
    Desc,
}

/// The status that a word names, as `miniflux_api` reads it.
pub open spec fn status_named(s: Seq<char>) -> Option<EntryStatus> {
    if s == "read"@ {
        Some(EntryStatus::Read)
    } else if s == "unread"@ {
        Some(EntryStatus::Unread)
    } else if s == "removed"@ {
        Some(EntryStatus::Removed)
    } else {
        None
    }
}

/// The order that a word names, as `miniflux_api` reads it.
pub open spec fn order_named(s: Seq<char>) -> Option<OrderBy> {
    if s == "id"@ {
        Some(OrderBy::Id)
    } else if s == "status"@ {
        Some(OrderBy::Status)
    } else if s == "published_at"@ {
        Some(OrderBy::PublishedAt)
    } else if s == "category_title"@ {
        Some(OrderBy::CategoryTitle)
    } else if s == "category_id"@ {
        Some(OrderBy::CategoryId)
    } else {
        None
    }
}

/// The direction that a word names, as `miniflux_api` reads it.
pub open spec fn direction_named(s: Seq<char>) -> Option<OrderDirection> {
    if s == "asc"@ {
        Some(OrderDirection::Asc)
    } else if s == "desc"@ {
        Some(OrderDirection::Desc)
    } else {
        None
    }
}

/// Calls `<miniflux_api::models::EntryStatus as TryFrom<&str>>::try_from`. Trusted: its
/// source matches the exact words `read`, `unread` and `removed` and refuses every other
/// text; the variant it returns is mapped to the variant of the same name here.
#[verifier::external_body]
fn status_from_word(s: &str) -> (r: Option<EntryStatus>)
    ensures
        r == status_named(s@),
{
    match miniflux_api::models::EntryStatus::try_from(s) {
        Ok(miniflux_api::models::EntryStatus::Read) => Some(EntryStatus::Read),
        Ok(miniflux_api::models::EntryStatus::Unread) => Some(EntryStatus::Unread),
        Ok(miniflux_api::models::EntryStatus::Removed) => Some(EntryStatus::Removed),
        Err(_) => None,
    }
}

/// Calls `<miniflux_api::models::OrderBy as TryFrom<&str>>::try_from`. Trusted: its source
/// matches the exact words `id`, `status`, `published_at`, `category_title` and
/// `category_id` and refuses every other text; each variant is mapped to its namesake here.
#[verifier::external_body]
fn order_from_word(s: &str) -> (r: Option<OrderBy>)
    ensures
        r == order_named(s@),
{
    match miniflux_api::models::OrderBy::try_from(s) {
        Ok(miniflux_api::models::OrderBy::ID) => Some(OrderBy::Id),
        Ok(miniflux_api::models::OrderBy::Status) => Some(OrderBy::Status),
        Ok(miniflux_api::models::OrderBy::PublishedAt) => Some(OrderBy::PublishedAt),
        Ok(miniflux_api::models::OrderBy::CategoryTitle) => Some(OrderBy::CategoryTitle),
        Ok(miniflux_api::models::OrderBy::CategoryID) => Some(OrderBy::CategoryId),
        Err(_) => None,
    }
}

/// Calls `<miniflux_api::models::OrderDirection as TryFrom<&str>>::try_from`. Trusted: its
/// source matches the exact words `asc` and `desc` and refuses every other text; each
/// variant is mapped to its namesake here.
#[verifier::external_body]
fn direction_from_word(s: &str) -> (r: Option<OrderDirection>)
    ensures
        r == direction_named(s@),
{
    match miniflux_api::models::OrderDirection::try_from(s) {
        Ok(miniflux_api::models::OrderDirection::Asc) => Some(OrderDirection::Asc),
        Ok(miniflux_api::models::OrderDirection::Desc) => Some(OrderDirection::Desc),
        Err(_) => None,
    }
}

/// The message with which a parameter value outside its choices is refused.
pub open spec fn invalid_choice_message(field: Seq<char>, value: Seq<char>, valid: Seq<char>) -> Seq<char> {
    "Invalid "@ + field + " '"@ + value + "'. Must be one of: "@ + valid
}

/// The choices that a status parameter accepts, as the refusal lists them.
pub open spec fn status_choices() -> Seq<char> {
    "read, unread, removed"@
}

/// The choices that an order parameter accepts, as the refusal lists them.
pub open spec fn order_choices() -> Seq<char> {
    "id, status, published_at, category_title, category_id"@
}

/// The choices that a direction parameter accepts, as the refusal lists them.
pub open spec fn direction_choices() -> Seq<char> {
    "asc, desc"@
}

/// The refusal of a value outside its choices: an invalid-params error with a message that
/// names the field, the value and the choices.
pub fn parse_err(field: &str, value: &str, valid: &str) -> (e: ToolError)
    ensures
        e@ == tool_error(ErrorCode::InvalidParams, invalid_choice_message(field@, value@, valid@)),
{
    let mut message = String::from_str("Invalid ");
    message.append(field);
    message.append(" '");
    message.append(value);
    message.append("'. Must be one of: ");
    message.append(valid);
    ToolError::invalid_params(message)
}

/// What the status parameter `s` is read as.
pub open spec fn status_parsed(s: Seq<char>) -> Result<EntryStatus, ToolErrorView> {
    match status_named(s) {
        Some(status) => Ok(status),
        None => Err(
            tool_error(ErrorCode::InvalidParams, invalid_choice_message("status"@, s, status_choices())),
        ),
    }
}

/// What the order parameter `s` is read as.
pub open spec fn order_parsed(s: Seq<char>) -> Result<OrderBy, ToolErrorView> {
    match order_named(s) {
        Some(order) => Ok(order),
        None => Err(
            tool_error(ErrorCode::InvalidParams, invalid_choice_message("order"@, s, order_choices())),
        ),
    }
}

/// What the direction parameter `s` is read as.
pub open spec fn direction_parsed(s: Seq<char>) -> Result<OrderDirection, ToolErrorView> {
    match direction_named(s) {
        Some(direction) => Ok(direction),
        None => Err(
            tool_error(
                ErrorCode::InvalidParams,
                invalid_choice_message("direction"@, s, direction_choices()),
            ),
        ),
    }
}

/// Reads an entry status: `read`, `unread` or `removed`.
pub fn parse_status(s: &str) -> (r: Result<EntryStatus, ToolError>)
    ensures
        result_view(r) == status_parsed(s@),
{
    match status_from_word(s) {
        Some(status) => Ok(status),
        None => Err(parse_err("status", s, "read, unread, removed")),
    }
}

/// Reads an entry order: `id`, `status`, `published_at`, `category_title` or `category_id`.
pub fn parse_order(s: &str) -> (r: Result<OrderBy, ToolError>)
    ensures
        result_view(r) == order_parsed(s@),
{
    match order_from_word(s) {
        Some(order) => Ok(order),
        None => Err(parse_err("order", s, "id, status, published_at, category_title, category_id")),
    }
}

/// Reads an order direction: `asc` or `desc`.
pub fn parse_direction(s: &str) -> (r: Result<OrderDirection, ToolError>)
    ensures
        result_view(r) == direction_parsed(s@),
{
    match direction_from_word(s) {
        Some(direction) => Ok(direction),
        None => Err(parse_err("direction", s, "asc, desc")),
    }
}

/// The filters of an entry listing as a client sends them: words where the API takes a
/// choice, numbers and flags as they are.
pub struct EntryParams {
    pub status: Option<String>,
    pub offset: Option<i64>,
    pub limit: Option<i64>,
    pub order: Option<String>,
    pub direction: Option<String>,
    pub before: Option<i64>,
    pub after: Option<i64>,
    pub before_entry_id: Option<i64>,
    pub after_entry_id: Option<i64>,
    pub starred: Option<bool>,
}

/// The filters of an entry listing, with every choice read.
#[derive(Clone, Copy, Debug, PartialEq, Eq, Structural)]
pub struct EntryFilter {
    pub status: Option<EntryStatus>,
    pub offset: Option<i64>,
    pub limit: Option<i64>,
    pub order: Option<OrderBy>,
    pub direction: Option<OrderDirection>,
    pub before: Option<i64>,
    pub after: Option<i64>,
    pub before_entry_id: Option<i64>,
    pub after_entry_id: Option<i64>,
    pub starred: Option<bool>,
}

/// An optional status parameter, read where it is given.
pub open spec fn optional_status(s: Option<String>) -> Result<Option<EntryStatus>, ToolErrorView> {
    match s {
        None => Ok(None),
        Some(word) => match status_parsed(word@) {
            Ok(status) => Ok(Some(status)),
            Err(e) => Err(e),
        },
    }
}

/// An optional order parameter, read where it is given.
pub open spec fn optional_order(s: Option<String>) -> Result<Option<OrderBy>, ToolErrorView> {
    match s {
        None => Ok(None),
        Some(word) => match order_parsed(word@) {
            Ok(order) => Ok(Some(order)),
            Err(e) => Err(e),
        },
    }
}

/// An optional direction parameter, read where it is given.
pub open spec fn optional_direction(s: Option<String>) -> Result<Option<OrderDirection>, ToolErrorView> {
    match s {
        None => Ok(None),
        Some(word) => match direction_parsed(word@) {
            Ok(direction) => Ok(Some(direction)),
            Err(e) => Err(e),
        },
    }
}

/// What the filters of an entry listing are read as: the status is read first, then the
/// order, then the direction; the first that is refused decides the error. The other
/// filters pass unchanged.
pub open spec fn filter_read(p: EntryParams) -> Result<EntryFilter, ToolErrorView> {
    match optional_status(p.status) {
        Err(e) => Err(e),
        Ok(status) => match optional_order(p.order) {
            Err(e) => Err(e),
            Ok(order) => match optional_direction(p.direction) {
                Err(e) => Err(e),
                Ok(direction) => Ok(
                    EntryFilter {
                        status,
                        offset: p.offset,
                        limit: p.limit,
                        order,
                        direction,
                        before: p.before,
                        after: p.after,
                        before_entry_id: p.before_entry_id,
                        after_entry_id: p.after_entry_id,
                        starred: p.starred,
                    },
                ),
            },
        },
    }
}

/// Reads the filters of an entry listing.
pub fn entry_filter(params: EntryParams) -> (r: Result<EntryFilter, ToolError>)
    ensures
        result_view(r) == filter_read(params),
{
    let status = match &params.status {
        None => None,
        Some(word) => match parse_status(word.as_str()) {
            Ok(status) => Some(status),
            Err(e) => return Err(e),
        },
    };
    let order = match &params.order {
        None => None,
        Some(word) => match parse_order(word.as_str()) {
            Ok(order) => Some(order),
            Err(e) => return Err(e),
        },
    };
    let direction = match &params.direction {
        None => None,
        Some(word) => match parse_direction(word.as_str()) {
            Ok(direction) => Some(direction),
            Err(e) => return Err(e),
        },
    };
    Ok(
        EntryFilter {
            status,
            offset: params.offset,
            limit: params.limit,
            order,
            direction,
            before: params.before,
            after: params.after,
            before_entry_id: params.before_entry_id,
            after_entry_id: params.after_entry_id,
            starred: params.starred,
        },
    )
}

} // verus!
