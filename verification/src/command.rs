//! The statements that the service asks of its table, and what comes back.
//!
//! What a statement does to the table is said in [`crate::store`]. Here is
//! the SQL text that asks a persistent table to do the same.

use vstd::prelude::*;
use crate::path_id::in_reach;
use crate::todo::{views, Todo, TodoView};

verus! {

/// Why the table could not carry out a statement.
#[derive(Clone, Copy, Debug, PartialEq, Eq, Structural)]
pub enum StoreError {
    /// Every id has been handed out: no further row can be inserted.
    KeysExhausted,
    /// The backend that holds the table failed (lost connection, violated
    /// constraint, disk error).
    Backend,
}

/// A statement that a valid request asks of the table.
#[derive(Debug, PartialEq, Eq)]
pub enum Command {
    /// Read every row.
    List,
    /// Insert a row with this title, not completed.
    Insert { title: String },
    /// Set `completed` on the row with this id.
    SetCompleted { id: i64, completed: bool },
    /// Delete the row with this id.
    Delete { id: i64 },
}

/// The mathematical value of a [`Command`].
pub ghost enum CommandView {
    List,
    Insert { title: Seq<char> },
    SetCompleted { id: int, completed: bool },
    Delete { id: int },
}

impl View for Command {
    type V = CommandView;

    open spec fn view(&self) -> CommandView {
        match *self {
            Command::List => CommandView::List,
            Command::Insert { title } => CommandView::Insert { title: title@ },
            Command::SetCompleted { id, completed } => CommandView::SetCompleted {
                id: id as int,
                completed,
            },
            Command::Delete { id } => CommandView::Delete { id: id as int },
        }
    }
}

/// What the table hands back for a statement: the rows it produced, or why
/// it failed.
pub type Answer = Result<Vec<Todo>, StoreError>;

/// The mathematical value of an [`Answer`].
pub open spec fn answer_view(answer: Answer) -> Result<Seq<TodoView>, StoreError> {
    match answer {
        Ok(rows) => Ok(views(rows@)),
        Err(e) => Err(e),
    }
}

/// A value that takes the place of a placeholder in the SQL text.
#[derive(Debug, PartialEq, Eq)]
pub enum Bound {
    Text(String),
    Flag(bool),
    Id(i64),
}

/// The mathematical value of a [`Bound`].
pub ghost enum BoundView {
    Text(Seq<char>),
    Flag(bool),
    Id(int),
}

impl View for Bound {
    type V = BoundView;

    open spec fn view(&self) -> BoundView {
        match *self {
            Bound::Text(text) => BoundView::Text(text@),
            Bound::Flag(flag) => BoundView::Flag(flag),
            Bound::Id(id) => BoundView::Id(id as int),
        }
    }
}

/// The views of a sequence of bound values, in the same order.
pub open spec fn bound_views(bound: Seq<Bound>) -> Seq<BoundView> {
    bound.map_values(|value: Bound| value@)
}

impl CommandView {
    /// Whether the statement can be put to the table: the id it names, if
    /// it names one, fits in 64 bits. The view of every [`Command`] does.
    pub open spec fn in_reach(self) -> bool {
        match self {
            CommandView::SetCompleted { id, .. } | CommandView::Delete { id } => in_reach(id),
            _ => true,
        }
    }

    /// The values that take the place of the placeholders of
    /// [`statement`](Self::statement), in the order of the placeholders. A
    /// new row is never completed.
    pub open spec fn bindings(self) -> Seq<BoundView> {
        match self {
            CommandView::List => seq![],
            CommandView::Insert { title } => seq![BoundView::Text(title), BoundView::Flag(false)],
            CommandView::SetCompleted { id, completed } => seq![
                BoundView::Flag(completed),
                BoundView::Id(id),
            ],
            CommandView::Delete { id } => seq![BoundView::Id(id)],
        }
    }

    /// The SQL text of the statement, with a `?` for each value of
    /// [`bindings`](Self::bindings).
    pub open spec fn statement(self) -> Seq<char> {
        match self {
            CommandView::List => "SELECT id, title, completed FROM todos"@,
            CommandView::Insert { .. } => "INSERT INTO todos (title, completed) VALUES (?, ?)"@,
            CommandView::SetCompleted { .. } => "UPDATE todos SET completed = ? WHERE id = ?"@,
            CommandView::Delete { .. } => "DELETE FROM todos WHERE id = ?"@,
        }
    }
}

impl Command {
    /// The values to bind to the placeholders of the SQL text, in order.
    pub fn bindings(&self) -> (bound: Vec<Bound>)
        ensures
            bound_views(bound@) == self@.bindings(),
    {
        let mut bound: Vec<Bound> = Vec::new();
        match self {
            Command::List => {},
            Command::Insert { title } => {
                bound.push(Bound::Text(title.clone()));
                bound.push(Bound::Flag(false));
            },
            Command::SetCompleted { id, completed } => {
                bound.push(Bound::Flag(*completed));
                bound.push(Bound::Id(*id));
            },
            Command::Delete { id } => {
                bound.push(Bound::Id(*id));
            },
        }
        assert(bound_views(bound@) =~= self@.bindings());
        bound
    }

    /// The SQL text that asks a persistent table to carry out the statement.
    pub fn statement(&self) -> (sql: &'static str)
        ensures
            sql@ == self@.statement(),
    {
        match self {
            Command::List => "SELECT id, title, completed FROM todos",
            Command::Insert { .. } => "INSERT INTO todos (title, completed) VALUES (?, ?)",
            Command::SetCompleted { .. } => "UPDATE todos SET completed = ? WHERE id = ?",
            Command::Delete { .. } => "DELETE FROM todos WHERE id = ?",
        }
    }
}

/// The SQL text that sets the table up where it does not exist yet and
/// leaves an existing one alone.
pub open spec fn schema() -> Seq<char> {
    "CREATE TABLE IF NOT EXISTS todos (id INTEGER PRIMARY KEY AUTOINCREMENT, title TEXT NOT NULL, completed BOOLEAN NOT NULL)"@
}

/// The statement to run once, before the first request is served.
pub fn schema_statement() -> (sql: &'static str)
    ensures
        sql@ == schema(),
{
    "CREATE TABLE IF NOT EXISTS todos (id INTEGER PRIMARY KEY AUTOINCREMENT, title TEXT NOT NULL, completed BOOLEAN NOT NULL)"
}

} // verus!
