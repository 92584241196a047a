use vstd::prelude::*;

verus! {

/// The mathematical value of one stored record.
pub ghost struct TodoRow {
    pub id: int,
    pub description: Seq<char>,
    pub completed: bool,
}

/// One record of the todo list. `id` is given by the table on insert and never changes.
#[derive(Debug, Clone, PartialEq, Eq)]
pub struct Todo {
    pub id: i64,
    pub description: String,
    pub completed: bool,
}

impl View for Todo {
    type V = TodoRow;

    open spec fn view(&self) -> TodoRow {
        TodoRow { id: self.id as int, description: self.description@, completed: self.completed }
    }
}

/// The values of a sequence of records.
pub open spec fn rows_of(todos: Seq<Todo>) -> Seq<TodoRow> {
    todos.map_values(|t: Todo| t@)
}

impl Todo {
    /// A copy of this record with the same id, description and flag.
    pub fn duplicate(&self) -> (r: Todo)
        ensures
            r@ == self@,
    {
        Todo { id: self.id, description: self.description.clone(), completed: self.completed }
    }
}

/// Why a request body was turned away before any storage work.
#[derive(Debug, Clone, Copy, PartialEq, Eq)]
pub enum BodyError {
    MissingDescription,
    MissingCompleted,
}

/// The body of a create request.
#[derive(Debug, Clone)]
pub struct CreateTodoReq {
    pub description: String,
}

impl CreateTodoReq {
    /// Builds a create request from the fields found in a body: `description` is required.
    pub fn from_body(description: Option<String>) -> (r: Result<CreateTodoReq, BodyError>)
        ensures
            description is None <==> r == Err::<CreateTodoReq, BodyError>(
                BodyError::MissingDescription,
            ),
            description is Some ==> r is Ok && r->Ok_0.description@ == description->Some_0@,
    {
        match description {
            Some(d) => Ok(CreateTodoReq { description: d }),
            None => Err(BodyError::MissingDescription),
        }
    }
}

/// The body of an update request.
#[derive(Debug, Clone)]
pub struct UpdateTodoReq {
    pub description: String,
    pub completed: bool,
}

impl UpdateTodoReq {
    /// Builds an update request from the fields found in a body: both fields are
    /// required, and a missing `description` is reported first.
    pub fn from_body(description: Option<String>, completed: Option<bool>) -> (r: Result<
        UpdateTodoReq,
        BodyError,
    >)
        ensures
            description is None ==> r == Err::<UpdateTodoReq, BodyError>(
                BodyError::MissingDescription,
            ),
            description is Some && completed is None ==> r == Err::<UpdateTodoReq, BodyError>(
                BodyError::MissingCompleted,
            ),
            description is Some && completed is Some ==> r is Ok && r->Ok_0.description@
                == description->Some_0@ && r->Ok_0.completed == completed->Some_0,
    {
        match description {
            None => Err(BodyError::MissingDescription),
            Some(d) => match completed {
                None => Err(BodyError::MissingCompleted),
                Some(c) => Ok(UpdateTodoReq { description: d, completed: c }),
            },
        }
    }
}

} // verus!
