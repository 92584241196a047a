use crate::todo::{rows_of, CreateTodoReq, Todo, TodoRow, UpdateTodoReq};
use vstd::prelude::*;
use vstd::string::StringExecFns;

verus! {

pub const STATUS_OK: u16 = 200;

pub const STATUS_CREATED: u16 = 201;

pub const STATUS_INTERNAL_SERVER_ERROR: u16 = 500;

/// What a reply carries.
#[derive(Debug, Clone, PartialEq, Eq)]
pub enum Body {
    /// A list of records, sent as a JSON array.
    Rows(Vec<Todo>),
    /// The record just made, sent as a JSON object.
    Created(Todo),
    /// Plain text.
    Text(String),
}

/// A status code and a body.
#[derive(Debug, Clone, PartialEq, Eq)]
pub struct Reply {
    pub status: u16,
    pub body: Body,
}

pub ghost enum BodyValue {
    Rows(Seq<TodoRow>),
    Created(TodoRow),
    Text(Seq<char>),
}

pub ghost struct ReplyValue {
    pub status: u16,
    pub body: BodyValue,
}

impl View for Reply {
    type V = ReplyValue;

    open spec fn view(&self) -> ReplyValue {
        ReplyValue {
            status: self.status,
            body: match self.body {
                Body::Rows(rows) => BodyValue::Rows(rows_of(rows@)),
                Body::Created(t) => BodyValue::Created(t@),
                Body::Text(s) => BodyValue::Text(s@),
            },
        }
    }
}

pub open spec fn text_value(status: u16, text: Seq<char>) -> ReplyValue {
    ReplyValue { status, body: BodyValue::Text(text) }
}

/// The text sent when a create fails; the storage error is not shown to the caller.
pub open spec fn create_failed_text() -> Seq<char> {
    "failed to create new todo"@
}

pub open spec fn update_ok_text() -> Seq<char> {
    "update ok"@
}

pub open spec fn delete_ok_text() -> Seq<char> {
    "delete ok"@
}

/// The record that a create of `description` makes when the table gives it `id`.
pub open spec fn new_row(id: int, description: Seq<char>) -> TodoRow {
    TodoRow { id, description, completed: false }
}

/// The reply to a list: the rows as fetched, or a server failure that carries the
/// storage error's text.
pub fn list_reply(fetched: Result<Vec<Todo>, String>) -> (r: Reply)
    ensures
        match fetched {
            Ok(rows) => r@ == (ReplyValue { status: STATUS_OK, body: BodyValue::Rows(rows_of(rows@)) }),
            Err(e) => r@ == text_value(STATUS_INTERNAL_SERVER_ERROR, e@),
        },
{
    match fetched {
        Ok(rows) => Reply { status: STATUS_OK, body: Body::Rows(rows) },
        Err(e) => Reply { status: STATUS_INTERNAL_SERVER_ERROR, body: Body::Text(e) },
    }
}

/// The reply to a create, given the id that the insert produced or its error: the
/// new record with `completed` false, or a server failure with a fixed text.
pub fn create_reply(input: CreateTodoReq, inserted: Result<i64, String>) -> (r: Reply)
    ensures
        match inserted {
            Ok(id) => r@ == (ReplyValue {
                status: STATUS_CREATED,
                body: BodyValue::Created(new_row(id as int, input.description@)),
            }),
            Err(_) => r@ == text_value(STATUS_INTERNAL_SERVER_ERROR, create_failed_text()),
        },
{
    match inserted {
        Ok(id) => Reply {
            status: STATUS_CREATED,
            body: Body::Created(Todo { id, description: input.description, completed: false }),
        },
        Err(_) => Reply {
            status: STATUS_INTERNAL_SERVER_ERROR,
            body: Body::Text(String::from_str("failed to create new todo")),
        },
    }
}

/// The reply to an update: a fixed acknowledgement, whatever the body holds.
pub fn update_reply(input: &UpdateTodoReq) -> (r: Reply)
    ensures
        r@ == text_value(STATUS_OK, update_ok_text()),
{
    Reply { status: STATUS_OK, body: Body::Text(String::from_str("update ok")) }
}

/// The reply to a delete: a fixed acknowledgement whether or not a row matched, or
/// a server failure that carries the storage error's text.
pub fn delete_reply(executed: Result<u64, String>) -> (r: Reply)
    ensures
        match executed {
            Ok(_) => r@ == text_value(STATUS_OK, delete_ok_text()),
            Err(e) => r@ == text_value(STATUS_INTERNAL_SERVER_ERROR, e@),
        },
{
    match executed {
        Ok(_) => Reply { status: STATUS_OK, body: Body::Text(String::from_str("delete ok")) },
        Err(e) => Reply { status: STATUS_INTERNAL_SERVER_ERROR, body: Body::Text(e) },
    }
}

} // verus!
