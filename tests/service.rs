use todo_service::handlers::{create_handler, delete_handler, list_handler, update_handler};
use todo_service::reply::{
    create_reply, delete_reply, list_reply, update_reply, Body, Reply, STATUS_CREATED,
    STATUS_INTERNAL_SERVER_ERROR, STATUS_OK,
};
use todo_service::table::{parse_key, TodoTable};
use todo_service::todo::{BodyError, CreateTodoReq, Todo, UpdateTodoReq};

fn create(table: &mut TodoTable, description: &str) -> Reply {
    let input = CreateTodoReq::from_body(Some(description.to_string())).unwrap();
    create_handler(table, input)
}

fn listed(table: &TodoTable) -> Vec<Todo> {
    let reply = list_handler(table);
    assert_eq!(reply.status, STATUS_OK);
    match reply.body {
        Body::Rows(rows) => rows,
        other => panic!("expected rows, got {:?}", other),
    }
}

fn text(reply: &Reply) -> &str {
    match &reply.body {
        Body::Text(s) => s.as_str(),
        other => panic!("expected text, got {:?}", other),
    }
}

#[test]
fn created_record_is_listed_once() {
    let mut table = TodoTable::new();
    let reply = create(&mut table, "buy milk");
    assert_eq!(reply.status, STATUS_CREATED);
    let rows = listed(&table);
    let matching: Vec<&Todo> = rows.iter().filter(|t| t.description == "buy milk").collect();
    assert_eq!(matching.len(), 1);
    assert!(!matching[0].completed);
    assert!(matching[0].id >= 1);
    assert_eq!(
        reply.body,
        Body::Created(Todo { id: matching[0].id, description: "buy milk".to_string(), completed: false })
    );
}

#[test]
fn list_is_newest_first() {
    let mut table = TodoTable::new();
    create(&mut table, "A");
    create(&mut table, "B");
    create(&mut table, "C");
    let rows = listed(&table);
    let names: Vec<&str> = rows.iter().map(|t| t.description.as_str()).collect();
    assert_eq!(names, vec!["C", "B", "A"]);
    let ids: Vec<i64> = rows.iter().map(|t| t.id).collect();
    assert_eq!(ids, vec![3, 2, 1]);
}

#[test]
fn empty_table_lists_nothing() {
    let table = TodoTable::new();
    assert!(listed(&table).is_empty());
}

#[test]
fn delete_of_missing_id_still_acknowledged() {
    let mut table = TodoTable::new();
    create(&mut table, "keep me");
    let before = listed(&table);
    let reply = delete_handler("42".to_string(), &mut table);
    assert_eq!(reply.status, STATUS_OK);
    assert_eq!(text(&reply), "delete ok");
    assert_eq!(listed(&table), before);
    let reply = delete_handler("not-a-number".to_string(), &mut table);
    assert_eq!(text(&reply), "delete ok");
    assert_eq!(listed(&table), before);
}

#[test]
fn delete_of_existing_id_removes_it() {
    let mut table = TodoTable::new();
    create(&mut table, "first");
    create(&mut table, "second");
    let reply = delete_handler("1".to_string(), &mut table);
    assert_eq!(reply.status, STATUS_OK);
    assert_eq!(text(&reply), "delete ok");
    let rows = listed(&table);
    assert_eq!(rows.len(), 1);
    assert_eq!(rows[0].id, 2);
    assert_eq!(rows[0].description, "second");
}

#[test]
fn delete_key_with_leading_zeros_names_the_row() {
    let mut table = TodoTable::new();
    create(&mut table, "only");
    delete_handler("001".to_string(), &mut table);
    assert!(listed(&table).is_empty());
}

#[test]
fn ids_are_not_reused_after_delete() {
    let mut table = TodoTable::new();
    create(&mut table, "a");
    delete_handler("1".to_string(), &mut table);
    let reply = create(&mut table, "b");
    assert_eq!(
        reply.body,
        Body::Created(Todo { id: 2, description: "b".to_string(), completed: false })
    );
}

#[test]
fn create_without_description_is_rejected() {
    assert_eq!(CreateTodoReq::from_body(None).unwrap_err(), BodyError::MissingDescription);
    let ok = CreateTodoReq::from_body(Some("x".to_string())).unwrap();
    assert_eq!(ok.description, "x");
}

#[test]
fn update_body_needs_both_fields() {
    assert_eq!(
        UpdateTodoReq::from_body(None, Some(true)).unwrap_err(),
        BodyError::MissingDescription
    );
    assert_eq!(
        UpdateTodoReq::from_body(Some("x".to_string()), None).unwrap_err(),
        BodyError::MissingCompleted
    );
    let ok = UpdateTodoReq::from_body(Some("x".to_string()), Some(true)).unwrap();
    assert_eq!(ok.description, "x");
    assert!(ok.completed);
}

#[test]
fn update_leaves_rows_unchanged() {
    let mut table = TodoTable::new();
    create(&mut table, "walk dog");
    create(&mut table, "buy milk");
    let before = listed(&table);
    let input = UpdateTodoReq { description: "buy milk".to_string(), completed: true };
    let reply = update_handler(&mut table, input);
    assert_eq!(reply.status, STATUS_OK);
    assert_eq!(text(&reply), "update ok");
    assert_eq!(listed(&table), before);
}

#[test]
fn parse_key_reads_decimal_ids() {
    assert_eq!(parse_key("12"), Some(12));
    assert_eq!(parse_key("007"), Some(7));
    assert_eq!(parse_key("0"), Some(0));
    assert_eq!(parse_key(""), None);
    assert_eq!(parse_key("1a"), None);
    assert_eq!(parse_key("-1"), None);
    assert_eq!(parse_key(" 1"), None);
    assert_eq!(parse_key("9223372036854775807"), Some(i64::MAX));
    assert_eq!(parse_key("9223372036854775808"), None);
    assert_eq!(parse_key("99999999999999999999x"), None);
}

#[test]
fn list_reply_passes_storage_error_text() {
    let reply = list_reply(Err("connection refused".to_string()));
    assert_eq!(reply.status, STATUS_INTERNAL_SERVER_ERROR);
    assert_eq!(text(&reply), "connection refused");
    let rows = vec![Todo { id: 4, description: "d".to_string(), completed: true }];
    let reply = list_reply(Ok(rows.clone()));
    assert_eq!(reply, Reply { status: STATUS_OK, body: Body::Rows(rows) });
}

#[test]
fn create_reply_hides_storage_error() {
    let input = CreateTodoReq { description: "x".to_string() };
    let reply = create_reply(input, Err("duplicate entry".to_string()));
    assert_eq!(reply.status, STATUS_INTERNAL_SERVER_ERROR);
    assert_eq!(text(&reply), "failed to create new todo");
}

#[test]
fn create_reply_carries_generated_id() {
    let input = CreateTodoReq { description: "buy milk".to_string() };
    let reply = create_reply(input, Ok(17));
    assert_eq!(reply.status, 201);
    assert_eq!(
        reply.body,
        Body::Created(Todo { id: 17, description: "buy milk".to_string(), completed: false })
    );
}

#[test]
fn delete_reply_outcomes() {
    let reply = delete_reply(Ok(0));
    assert_eq!(reply.status, 200);
    assert_eq!(text(&reply), "delete ok");
    let reply = delete_reply(Err("lock wait timeout".to_string()));
    assert_eq!(reply.status, 500);
    assert_eq!(text(&reply), "lock wait timeout");
}

#[test]
fn update_reply_ignores_content() {
    let a = update_reply(&UpdateTodoReq { description: String::new(), completed: false });
    let b = update_reply(&UpdateTodoReq { description: "anything".to_string(), completed: true });
    assert_eq!(a, b);
    assert_eq!(text(&a), "update ok");
}

#[test]
fn table_insert_and_delete_counts() {
    let mut table = TodoTable::new();
    assert_eq!(table.insert("a".to_string()), Some(1));
    assert_eq!(table.insert("b".to_string()), Some(2));
    assert_eq!(table.delete_where_id("2"), 1);
    assert_eq!(table.delete_where_id("2"), 0);
    let rows = table.select_all();
    assert_eq!(rows, vec![Todo { id: 1, description: "a".to_string(), completed: false }]);
}
