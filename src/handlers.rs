use crate::reply::{
    create_failed_text, create_reply, delete_ok_text, delete_reply, list_reply, new_row,
    text_value, update_ok_text, update_reply, BodyValue, Reply, ReplyValue, STATUS_CREATED,
    STATUS_INTERNAL_SERVER_ERROR, STATUS_OK,
};
use crate::table::TodoTable;
use crate::todo::{CreateTodoReq, UpdateTodoReq};
use vstd::prelude::*;
use vstd::string::StringExecFns;

verus! {

/// Lists every record, newest first.
pub fn list_handler(table: &TodoTable) -> (r: Reply)
    requires
        table.wf(),
    ensures
        r@ == (ReplyValue { status: STATUS_OK, body: BodyValue::Rows(table@.listing()) }),
{
    let rows = table.select_all();
    list_reply(Ok(rows))
}

/// Inserts a record with the request's description, not completed, and replies
/// with it; fails with a fixed text when the table has no id left to give.
pub fn create_handler(table: &mut TodoTable, input: CreateTodoReq) -> (r: Reply)
    requires
        old(table).wf(),
    ensures
        final(table).wf(),
        old(table)@.next_id < i64::MAX ==> final(table)@ == old(table)@.inserted(
            input.description@,
        ) && r@ == (ReplyValue {
            status: STATUS_CREATED,
            body: BodyValue::Created(new_row(old(table)@.next_id, input.description@)),
        }),
        old(table)@.next_id == i64::MAX ==> final(table)@ == old(table)@ && r@ == text_value(
            STATUS_INTERNAL_SERVER_ERROR,
            create_failed_text(),
        ),
{
    let inserted = match table.insert(input.description.clone()) {
        Some(id) => Ok(id),
        None => Err(String::from_str("no id left to assign")),
    };
    create_reply(input, inserted)
}

/// Accepts an update and acknowledges it; no stored row changes.
pub fn update_handler(table: &mut TodoTable, input: UpdateTodoReq) -> (r: Reply)
    ensures
        final(table)@ == old(table)@,
        r@ == text_value(STATUS_OK, update_ok_text()),
{
    update_reply(&input)
}

/// Deletes the record that `id` names, if there is one, and acknowledges either way.
pub fn delete_handler(id: String, table: &mut TodoTable) -> (r: Reply)
    requires
        old(table).wf(),
    ensures
        final(table).wf(),
        final(table)@ == old(table)@.deleted(id@),
        r@ == text_value(STATUS_OK, delete_ok_text()),
{
    let removed = table.delete_where_id(id.as_str());
    delete_reply(Ok(removed))
}

} // verus!
