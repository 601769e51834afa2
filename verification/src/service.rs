//! The four request handlers.
//!
//! A request is answered in three steps. [`plan`] checks the request and
//! turns a valid one into the statement it asks of the table. The table
//! carries the statement out. [`reply`] turns what the table handed back
//! into the reply for the client. [`handle`] and the four handlers named
//! after the routes run all three steps against a [`TodoTable`]; a program
//! that keeps its table elsewhere calls [`plan`] and [`reply`] around its
//! own second step.
//!
//! A request to update or delete a to-do that does not exist is not an
//! error: the table stays as it was and the reply is 200, as it is when the
//! to-do exists. That holds of every integer in the path, also of one so
//! large that no to-do can have it as its id.

use vstd::prelude::*;
use crate::command::{answer_view, Answer, Command, CommandView, StoreError};
use crate::http::{Response, ResponseView, Status};
use crate::path_id::{integer_value, is_integer, parse_id, PathId};
use crate::store::{TableView, TodoTable};
use crate::todo::{CreateTodo, TodoView, UpdateTodo};

verus! {

/// A request as the router hands it over: the route it matched, the `{id}`
/// segment of the path as written, and the JSON body, which is `None` when
/// it was missing, was not JSON, or lacked the field or had it with another
/// type.
#[derive(Debug, PartialEq, Eq)]
#[allow(inconsistent_fields)]
pub enum Request<'a> {
    List,
    Create { body: Option<CreateTodo> },
    Update { id: &'a str, body: Option<UpdateTodo> },
    Delete { id: &'a str },
}

/// The mathematical value of a [`Request`].
pub ghost enum RequestView {
    List,
    Create { title: Option<Seq<char>> },
    Update { id: Seq<char>, completed: Option<bool> },
    Delete { id: Seq<char> },
}

impl<'a> View for Request<'a> {
    type V = RequestView;

    open spec fn view(&self) -> RequestView {
        match *self {
            Request::List => RequestView::List,
            Request::Create { body } => RequestView::Create {
                title: match body {
                    Some(create) => Some(create.title@),
                    None => None,
                },
            },
            Request::Update { id, body } => RequestView::Update {
                id: id@,
                completed: match body {
                    Some(update) => Some(update.completed),
                    None => None,
                },
            },
            Request::Delete { id } => RequestView::Delete { id: id@ },
        }
    }
}

/// The statement that a request asks of the table, or `None` for a request
/// that is malformed: one without a usable body where a body is needed, or
/// with an `{id}` that is not written as an integer.
pub open spec fn planned(request: RequestView) -> Option<CommandView> {
    match request {
        RequestView::List => Some(CommandView::List),
        RequestView::Create { title: Some(title) } => Some(CommandView::Insert { title }),
        RequestView::Create { title: None } => None,
        RequestView::Update { id, completed: Some(completed) } => if is_integer(id) {
            Some(CommandView::SetCompleted { id: integer_value(id), completed })
        } else {
            None
        },
        RequestView::Update { id, completed: None } => None,
        RequestView::Delete { id } => if is_integer(id) {
            Some(CommandView::Delete { id: integer_value(id) })
        } else {
            None
        },
    }
}

/// The reply to a request whose statement the table answered with `answer`:
/// 500 when the table failed; otherwise 200 with the rows for a listing, 201
/// for an insertion, 200 for an update or a deletion, the last three
/// without a body.
pub open spec fn reply_for(
    command: CommandView,
    answer: Result<Seq<TodoView>, StoreError>,
) -> ResponseView {
    match answer {
        Err(_) => ResponseView::empty(Status::InternalServerError),
        Ok(rows) => match command {
            CommandView::List => ResponseView::listing(rows),
            CommandView::Insert { .. } => ResponseView::empty(Status::Created),
            CommandView::SetCompleted { .. } | CommandView::Delete { .. } => ResponseView::empty(
                Status::Success,
            ),
        },
    }
}

/// The reply that a table in state `table` gives to a request: 400 for a
/// malformed one, else the reply for the table's answer.
pub open spec fn response_to(table: TableView, request: RequestView) -> ResponseView {
    match planned(request) {
        None => ResponseView::empty(Status::BadRequest),
        Some(command) => reply_for(command, table.answer(command)),
    }
}

/// The table after a request was handled: as it was for a malformed one,
/// else as the statement leaves it.
pub open spec fn table_after(table: TableView, request: RequestView) -> TableView {
    match planned(request) {
        None => table,
        Some(command) => table.after(command),
    }
}

/// What is to be done about a request once it has been checked.
#[derive(Debug, PartialEq, Eq)]
pub enum Step {
    /// Put this statement to the table and [`reply`] with its answer.
    Run(Command),
    /// Send this reply; the table is not asked.
    Reply(Response),
}

/// Checks a request and says what is to be done about it.
///
/// A malformed request is answered with 400 at once. A valid one gives the
/// statement to run, with one exception: an update or a deletion for an id
/// beyond 64 bits, which no row can have, is answered with 200 at once, as
/// the table would have it answered.
pub fn plan(request: Request) -> (step: Step)
    ensures
        match planned(request@) {
            None => step matches Step::Reply(response) && response@ == ResponseView::empty(
                Status::BadRequest,
            ),
            Some(command) => if command.in_reach() {
                step matches Step::Run(run) && run@ == command
            } else {
                step matches Step::Reply(response) && response@ == ResponseView::empty(
                    Status::Success,
                )
            },
        },
{
    match request {
        Request::List => Step::Run(Command::List),
        Request::Create { body: Some(create) } => Step::Run(Command::Insert { title: create.title }),
        Request::Create { body: None } => Step::Reply(Response::empty(Status::BadRequest)),
        Request::Update { id, body } => match (parse_id(id), body) {
            (Some(PathId::Key(id)), Some(update)) => Step::Run(
                Command::SetCompleted { id, completed: update.completed },
            ),
            (Some(PathId::OutOfReach), Some(_)) => Step::Reply(Response::empty(Status::Success)),
            _ => Step::Reply(Response::empty(Status::BadRequest)),
        },
        Request::Delete { id } => match parse_id(id) {
            Some(PathId::Key(id)) => Step::Run(Command::Delete { id }),
            Some(PathId::OutOfReach) => Step::Reply(Response::empty(Status::Success)),
            None => Step::Reply(Response::empty(Status::BadRequest)),
        },
    }
}

/// Turns what the table handed back for a statement into the reply.
pub fn reply(command: &Command, answer: Answer) -> (response: Response)
    ensures
        response@ == reply_for(command@, answer_view(answer)),
{
    match answer {
        Err(_) => Response::empty(Status::InternalServerError),
        Ok(rows) => match command {
            Command::List => Response::listing(rows),
            Command::Insert { .. } => Response::empty(Status::Created),
            Command::SetCompleted { .. } | Command::Delete { .. } => Response::empty(Status::Success),
        },
    }
}

/// Handles one request against the table.
pub fn handle(table: &mut TodoTable, request: Request) -> (response: Response)
    ensures
        final(table)@ == table_after(old(table)@, request@),
        response@ == response_to(old(table)@, request@),
{
    proof {
        use_type_invariant(&*table);
        if let Some(command) = planned(request@) {
            if !command.in_reach() {
                table@.lemma_out_of_reach(command);
            }
        }
    }
    match plan(request) {
        Step::Reply(response) => response,
        Step::Run(command) => {
            let answer = table.run(&command);
            reply(&command, answer)
        },
    }
}

/// `GET /todos`: lists every to-do, in insertion order. The reply is 200
/// and its body the list, which may be empty.
pub fn get_todos(table: &TodoTable) -> (response: Response)
    ensures
        response@ == ResponseView::listing(table@.rows),
        response@ == response_to(table@, RequestView::List),
{
    reply(&Command::List, Ok(table.list()))
}

/// `POST /todos`: creates a to-do with the title in the body, not completed.
///
/// Without a usable body the reply is 400. Otherwise the to-do is inserted
/// and the reply is 201, unless the table has no id left: then the reply is
/// 500. Only on 201 has the table changed. The reply has no body, so the
/// new id is not in it.
pub fn create_todo(table: &mut TodoTable, body: Option<CreateTodo>) -> (response: Response)
    ensures
        body is None ==> response@ == ResponseView::empty(Status::BadRequest) && final(table)@
            == old(table)@,
        body matches Some(create) ==> if old(table)@.can_insert() {
            response@ == ResponseView::empty(Status::Created) && final(table)@ == old(
                table,
            )@.inserted(create.title@)
        } else {
            response@ == ResponseView::empty(Status::InternalServerError) && final(table)@ == old(
                table,
            )@
        },
{
    handle(table, Request::Create { body })
}

/// `PUT /todos/{id}`: sets `completed` on the to-do with this id.
///
/// The reply is 400, and the table unchanged, when `id` is not written as
/// an integer or the body is not usable. Otherwise the reply is 200,
/// whether or not a to-do has this id; title and id of every to-do stay as
/// they were.
pub fn update_todo(table: &mut TodoTable, id: &str, body: Option<UpdateTodo>) -> (response:
    Response)
    ensures
        match body {
            Some(update) if is_integer(id@) => response@ == ResponseView::empty(Status::Success)
                && final(table)@ == old(table)@.with_completed(
                integer_value(id@),
                update.completed,
            ),
            _ => response@ == ResponseView::empty(Status::BadRequest) && final(table)@ == old(
                table,
            )@,
        },
{
    handle(table, Request::Update { id, body })
}

/// `DELETE /todos/{id}`: deletes the to-do with this id.
///
/// The reply is 400, and the table unchanged, when `id` is not written as
/// an integer. Otherwise the reply is 200, whether or not a to-do had this
/// id.
pub fn delete_todo(table: &mut TodoTable, id: &str) -> (response: Response)
    ensures
        if is_integer(id@) {
            response@ == ResponseView::empty(Status::Success) && final(table)@ == old(
                table,
            )@.without(integer_value(id@))
        } else {
            response@ == ResponseView::empty(Status::BadRequest) && final(table)@ == old(table)@
        },
{
    handle(table, Request::Delete { id })
}

} // verus!
