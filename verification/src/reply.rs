//! What each request is answered with: the status code and the body.

use vstd::prelude::*;
use vstd::string::StringExecFns;
use crate::errors::ApiError;
use crate::flow::Outcome;
use crate::schema::{column_added_text, Column};

verus! {

/// The body of an answer.
#[derive(Debug, Clone, PartialEq, Eq)]
pub enum Body {
    /// The text as it is.
    Plain(String),
    /// A document with the status `success` and this message.
    Success(String),
}

/// What a body is, in contracts.
pub ghost enum BodyView {
    Plain(Seq<char>),
    Success(Seq<char>),
}

impl View for Body {
    type V = BodyView;

    open spec fn view(&self) -> BodyView {
        match *self {
            Body::Plain(text) => BodyView::Plain(text@),
            Body::Success(message) => BodyView::Success(message@),
        }
    }
}

/// An answer: the HTTP status code and the body.
#[derive(Debug, Clone, PartialEq, Eq)]
pub struct Reply {
    pub code: u16,
    pub body: Body,
}

/// What an answer is, in contracts.
pub ghost struct ReplyView {
    pub code: u16,
    pub body: BodyView,
}

impl View for Reply {
    type V = ReplyView;

    open spec fn view(&self) -> ReplyView {
        ReplyView { code: self.code, body: self.body@ }
    }
}

/// The answer to a failed request: the status of the failure and its
/// message, the same for every failure of a kind.
pub open spec fn error_reply_spec(error: ApiError) -> ReplyView {
    ReplyView { code: error.status(), body: BodyView::Plain(error.text()) }
}

/// The answer to a patch request.
pub open spec fn update_reply_spec(outcome: Outcome) -> ReplyView {
    match outcome {
        Outcome::Updated { rows_affected } => ReplyView {
            code: 200,
            body: BodyView::Success("Ship updated successfully"@),
        },
        Outcome::NoFieldsUpdated => ReplyView {
            code: 200,
            body: BodyView::Success("No fields updated"@),
        },
        Outcome::NotFound => error_reply_spec(ApiError::NotFound),
        Outcome::StoreError => error_reply_spec(ApiError::Store),
    }
}

/// The answer to a failed request.
pub fn error_reply(error: ApiError) -> (reply: Reply)
    ensures
        reply@ == error_reply_spec(error),
{
    Reply { code: error.status_code(), body: Body::Plain(error.message()) }
}

/// The answer to a patch request.
pub fn update_reply(outcome: Outcome) -> (reply: Reply)
    ensures
        reply@ == update_reply_spec(outcome),
{
    match outcome {
        Outcome::Updated { rows_affected: _ } => Reply {
            code: 200,
            body: Body::Success(String::from_str("Ship updated successfully")),
        },
        Outcome::NoFieldsUpdated => Reply {
            code: 200,
            body: Body::Success(String::from_str("No fields updated")),
        },
        Outcome::NotFound => error_reply(ApiError::NotFound),
        Outcome::StoreError => error_reply(ApiError::Store),
    }
}

/// The answer to a request that stored a new ship.
pub fn ship_added_reply() -> (reply: Reply)
    ensures
        reply@ == (ReplyView { code: 201, body: BodyView::Plain("Added ship to database"@) }),
{
    Reply { code: 201, body: Body::Plain(String::from_str("Added ship to database")) }
}

/// The answer to a request that dropped the ships table.
pub fn table_dropped_reply() -> (reply: Reply)
    ensures
        reply@ == (ReplyView { code: 200, body: BodyView::Plain("table dropped: ships"@) }),
{
    Reply { code: 200, body: Body::Plain(String::from_str("table dropped: ships")) }
}

/// The answer to a request that added a column.
pub fn column_added_reply(column: &Column) -> (reply: Reply)
    ensures
        reply@ == (ReplyView {
            code: 200,
            body: BodyView::Success(column_added_text(column.table@, column.column_name@)),
        }),
{
    Reply { code: 200, body: Body::Success(column.added_message()) }
}

} // verus!
