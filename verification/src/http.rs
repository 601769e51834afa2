//! What travels over HTTP, as plain values: status, body, reply, and the
//! four routes.

use vstd::prelude::*;
use crate::todo::{views, Todo, TodoView};

verus! {

/// The status of a reply.
#[derive(Clone, Copy, Debug, PartialEq, Eq, Structural)]
pub enum Status {
    Success,
    Created,
    BadRequest,
    InternalServerError,
}

impl Status {
    /// The status code as a number.
    pub open spec fn spec_code(self) -> u16 {
        match self {
            Status::Success => 200,
            Status::Created => 201,
            Status::BadRequest => 400,
            Status::InternalServerError => 500,
        }
    }

    /// The status code as a number.
    #[verifier::when_used_as_spec(spec_code)]
    pub fn code(self) -> (code: u16)
        ensures
            code == self.spec_code(),
    {
        match self {
            Status::Success => 200,
            Status::Created => 201,
            Status::BadRequest => 400,
            Status::InternalServerError => 500,
        }
    }
}

/// The body of a reply: nothing at all, or a list of to-dos, which is sent
/// as a JSON array even when it is empty.
#[derive(Debug, PartialEq, Eq)]
pub enum Body {
    Empty,
    Todos(Vec<Todo>),
}

/// The mathematical value of a [`Body`].
pub ghost enum BodyView {
    Empty,
    Todos(Seq<TodoView>),
}

impl View for Body {
    type V = BodyView;

    open spec fn view(&self) -> BodyView {
        match *self {
            Body::Empty => BodyView::Empty,
            Body::Todos(todos) => BodyView::Todos(views(todos@)),
        }
    }
}

/// A reply to a request.
#[derive(Debug, PartialEq, Eq)]
pub struct Response {
    pub status: Status,
    pub body: Body,
}

/// The mathematical value of a [`Response`].
pub ghost struct ResponseView {
    pub status: Status,
    pub body: BodyView,
}

impl View for Response {
    type V = ResponseView;

    open spec fn view(&self) -> ResponseView {
        ResponseView { status: self.status, body: self.body@ }
    }
}

impl ResponseView {
    /// A reply with this status and no body.
    pub open spec fn empty(status: Status) -> ResponseView {
        ResponseView { status, body: BodyView::Empty }
    }

    /// A reply that lists these to-dos.
    pub open spec fn listing(todos: Seq<TodoView>) -> ResponseView {
        ResponseView { status: Status::Success, body: BodyView::Todos(todos) }
    }
}

impl Response {
    /// A reply with this status and no body.
    pub fn empty(status: Status) -> (response: Response)
        ensures
            response@ == ResponseView::empty(status),
    {
        Response { status, body: Body::Empty }
    }

    /// A reply that lists these to-dos.
    pub fn listing(todos: Vec<Todo>) -> (response: Response)
        ensures
            response@ == ResponseView::listing(views(todos@)),
    {
        Response { status: Status::Success, body: Body::Todos(todos) }
    }
}

/// The request methods that the service answers.
#[derive(Clone, Copy, Debug, PartialEq, Eq, Structural)]
pub enum Method {
    Get,
    Post,
    Put,
    Delete,
}

/// The four routes of the service.
#[derive(Clone, Copy, Debug, PartialEq, Eq, Structural)]
pub enum Endpoint {
    ListTodos,
    CreateTodo,
    UpdateTodo,
    DeleteTodo,
}

impl Endpoint {
    /// The method that the route is bound to.
    pub open spec fn spec_method(self) -> Method {
        match self {
            Endpoint::ListTodos => Method::Get,
            Endpoint::CreateTodo => Method::Post,
            Endpoint::UpdateTodo => Method::Put,
            Endpoint::DeleteTodo => Method::Delete,
        }
    }

    /// The path that the route is bound to, `{id}` standing for one segment.
    pub open spec fn spec_pattern(self) -> Seq<char> {
        match self {
            Endpoint::ListTodos | Endpoint::CreateTodo => "/todos"@,
            Endpoint::UpdateTodo | Endpoint::DeleteTodo => "/todos/{id}"@,
        }
    }

    /// The method that the route is bound to.
    #[verifier::when_used_as_spec(spec_method)]
    pub fn method(self) -> (method: Method)
        ensures
            method == self.spec_method(),
    {
        match self {
            Endpoint::ListTodos => Method::Get,
            Endpoint::CreateTodo => Method::Post,
            Endpoint::UpdateTodo => Method::Put,
            Endpoint::DeleteTodo => Method::Delete,
        }
    }

    /// The path that the route is bound to, `{id}` standing for one segment.
    pub fn pattern(self) -> (pattern: &'static str)
        ensures
            pattern@ == self.spec_pattern(),
    {
        match self {
            Endpoint::ListTodos | Endpoint::CreateTodo => "/todos",
            Endpoint::UpdateTodo | Endpoint::DeleteTodo => "/todos/{id}",
        }
    }
}

} // verus!
