//! A todo-list service: the records it keeps, the request bodies it accepts,
//! the replies it gives, and the `todo_list` table that its statements act on.
pub mod handlers;
pub mod laws;
pub mod reply;
pub mod table;
pub mod todo;
