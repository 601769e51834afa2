use todo_service::command::{Command, StoreError};
use todo_service::http::{Body, Endpoint, Method, Response, Status};
use todo_service::service::{
    create_todo, delete_todo, get_todos, handle, plan, reply, update_todo, Request, Step,
};
use todo_service::store::TodoTable;
use todo_service::todo::{CreateTodo, Todo, UpdateTodo};

fn todo(id: i64, title: &str, completed: bool) -> Todo {
    Todo { id, title: title.to_string(), completed }
}

fn titled(title: &str) -> Option<CreateTodo> {
    Some(CreateTodo { title: title.to_string() })
}

fn empty(status: Status) -> Response {
    Response { status, body: Body::Empty }
}

fn listing(todos: Vec<Todo>) -> Response {
    Response { status: Status::Success, body: Body::Todos(todos) }
}

#[test]
fn status_codes() {
    assert_eq!(Status::Success.code(), 200);
    assert_eq!(Status::Created.code(), 201);
    assert_eq!(Status::BadRequest.code(), 400);
    assert_eq!(Status::InternalServerError.code(), 500);
}

#[test]
fn endpoints_are_bound_to_method_and_path() {
    assert_eq!(Endpoint::ListTodos.method(), Method::Get);
    assert_eq!(Endpoint::ListTodos.pattern(), "/todos");
    assert_eq!(Endpoint::CreateTodo.method(), Method::Post);
    assert_eq!(Endpoint::CreateTodo.pattern(), "/todos");
    assert_eq!(Endpoint::UpdateTodo.method(), Method::Put);
    assert_eq!(Endpoint::UpdateTodo.pattern(), "/todos/{id}");
    assert_eq!(Endpoint::DeleteTodo.method(), Method::Delete);
    assert_eq!(Endpoint::DeleteTodo.pattern(), "/todos/{id}");
}

#[test]
fn response_constructors() {
    assert_eq!(Response::empty(Status::Created), empty(Status::Created));
    assert_eq!(Response::listing(vec![todo(1, "a", false)]), listing(vec![todo(1, "a", false)]));
    assert_eq!(Response::listing(vec![]), listing(vec![]));
    assert_ne!(Response::listing(vec![]), empty(Status::Success));
}

#[test]
fn plan_turns_valid_requests_into_statements() {
    assert_eq!(plan(Request::List), Step::Run(Command::List));
    assert_eq!(
        plan(Request::Create { body: titled("buy milk") }),
        Step::Run(Command::Insert { title: "buy milk".to_string() })
    );
    assert_eq!(
        plan(Request::Update { id: "12", body: Some(UpdateTodo { completed: true }) }),
        Step::Run(Command::SetCompleted { id: 12, completed: true })
    );
    assert_eq!(
        plan(Request::Update { id: "-3", body: Some(UpdateTodo { completed: false }) }),
        Step::Run(Command::SetCompleted { id: -3, completed: false })
    );
    assert_eq!(plan(Request::Delete { id: "999999" }), Step::Run(Command::Delete { id: 999999 }));
}

#[test]
fn plan_takes_ids_past_32_bits() {
    assert_eq!(
        plan(Request::Delete { id: "2147483648" }),
        Step::Run(Command::Delete { id: 2147483648 })
    );
    assert_eq!(
        plan(Request::Update { id: "2147483648", body: Some(UpdateTodo { completed: true }) }),
        Step::Run(Command::SetCompleted { id: 2147483648, completed: true })
    );
    assert_eq!(
        plan(Request::Delete { id: "9223372036854775807" }),
        Step::Run(Command::Delete { id: i64::MAX })
    );
    assert_eq!(
        plan(Request::Delete { id: "-9223372036854775808" }),
        Step::Run(Command::Delete { id: i64::MIN })
    );
}

#[test]
fn plan_answers_200_at_once_for_an_integer_beyond_64_bits() {
    let done = Step::Reply(empty(Status::Success));
    assert_eq!(plan(Request::Delete { id: "9223372036854775808" }), done);
    assert_eq!(plan(Request::Delete { id: "-9223372036854775809" }), done);
    assert_eq!(
        plan(Request::Update {
            id: "99999999999999999999",
            body: Some(UpdateTodo { completed: true })
        }),
        done
    );
}

#[test]
fn plan_keeps_an_empty_title() {
    assert_eq!(
        plan(Request::Create { body: titled("") }),
        Step::Run(Command::Insert { title: String::new() })
    );
}

#[test]
fn plan_rejects_malformed_requests() {
    let bad = Step::Reply(empty(Status::BadRequest));
    assert_eq!(plan(Request::Create { body: None }), bad);
    assert_eq!(plan(Request::Update { id: "12", body: None }), bad);
    assert_eq!(
        plan(Request::Update { id: "twelve", body: Some(UpdateTodo { completed: true }) }),
        bad
    );
    assert_eq!(plan(Request::Update { id: "x", body: None }), bad);
    assert_eq!(plan(Request::Update { id: "99999999999999999999", body: None }), bad);
    assert_eq!(plan(Request::Delete { id: "" }), bad);
    assert_eq!(plan(Request::Delete { id: "1.5" }), bad);
    assert_eq!(plan(Request::Delete { id: "99999999999999999999x" }), bad);
}

#[test]
fn reply_maps_success_to_the_status_of_the_operation() {
    assert_eq!(
        reply(&Command::List, Ok(vec![todo(1, "a", false)])),
        listing(vec![todo(1, "a", false)])
    );
    assert_eq!(reply(&Command::List, Ok(vec![])), listing(vec![]));
    assert_eq!(
        reply(&Command::Insert { title: "a".to_string() }, Ok(vec![])),
        empty(Status::Created)
    );
    assert_eq!(
        reply(&Command::SetCompleted { id: 1, completed: true }, Ok(vec![])),
        empty(Status::Success)
    );
    assert_eq!(reply(&Command::Delete { id: 1 }, Ok(vec![])), empty(Status::Success));
}

#[test]
fn reply_maps_every_storage_failure_to_500() {
    let commands = [
        Command::List,
        Command::Insert { title: "a".to_string() },
        Command::SetCompleted { id: 1, completed: true },
        Command::Delete { id: 1 },
    ];
    for command in &commands {
        assert_eq!(reply(command, Err(StoreError::Backend)), empty(Status::InternalServerError));
        assert_eq!(
            reply(command, Err(StoreError::KeysExhausted)),
            empty(Status::InternalServerError)
        );
    }
}

#[test]
fn get_todos_on_a_new_table_is_an_empty_list() {
    let mut table = TodoTable::new();
    let response = get_todos(&table);
    assert_eq!(response.status.code(), 200);
    assert_eq!(response.body, Body::Todos(vec![]));
}

#[test]
fn create_todo_answers_201_without_a_body() {
    let mut table = TodoTable::new();
    assert_eq!(create_todo(&mut table, titled("a")), empty(Status::Created));
    assert_eq!(table.list(), vec![todo(1, "a", false)]);
}

#[test]
fn create_todo_without_a_body_answers_400() {
    let mut table = TodoTable::new();
    create_todo(&mut table, titled("a"));
    assert_eq!(create_todo(&mut table, None), empty(Status::BadRequest));
    assert_eq!(table.list(), vec![todo(1, "a", false)]);
}

#[test]
fn create_todo_answers_500_when_no_id_is_left() {
    let mut table = TodoTable::resumed_after(i64::MAX).unwrap();
    assert_eq!(create_todo(&mut table, titled("a")), empty(Status::InternalServerError));
    assert_eq!(get_todos(&table), listing(vec![]));
}

#[test]
fn update_todo_sets_completed_both_ways() {
    let mut table = TodoTable::new();
    create_todo(&mut table, titled("a"));
    let done = Some(UpdateTodo { completed: true });
    let undone = Some(UpdateTodo { completed: false });
    assert_eq!(update_todo(&mut table, "1", done), empty(Status::Success));
    assert_eq!(table.list(), vec![todo(1, "a", true)]);
    assert_eq!(update_todo(&mut table, "1", done), empty(Status::Success));
    assert_eq!(table.list(), vec![todo(1, "a", true)]);
    assert_eq!(update_todo(&mut table, "1", undone), empty(Status::Success));
    assert_eq!(table.list(), vec![todo(1, "a", false)]);
}

#[test]
fn update_todo_of_a_missing_id_answers_200() {
    let mut table = TodoTable::new();
    create_todo(&mut table, titled("a"));
    let done = Some(UpdateTodo { completed: true });
    assert_eq!(update_todo(&mut table, "2", done), empty(Status::Success));
    assert_eq!(update_todo(&mut table, "-1", done), empty(Status::Success));
    assert_eq!(table.list(), vec![todo(1, "a", false)]);
}

#[test]
fn update_todo_with_a_bad_id_or_body_answers_400() {
    let mut table = TodoTable::new();
    create_todo(&mut table, titled("a"));
    let done = Some(UpdateTodo { completed: true });
    assert_eq!(update_todo(&mut table, "one", done), empty(Status::BadRequest));
    assert_eq!(update_todo(&mut table, "", done), empty(Status::BadRequest));
    assert_eq!(update_todo(&mut table, "1", None), empty(Status::BadRequest));
    assert_eq!(update_todo(&mut table, "1x", done), empty(Status::BadRequest));
    assert_eq!(update_todo(&mut table, "99999999999999999999", None), empty(Status::BadRequest));
    assert_eq!(table.list(), vec![todo(1, "a", false)]);
}

#[test]
fn update_todo_reaches_a_row_past_32_bits() {
    let mut table = TodoTable::resumed_after(2147483647).unwrap();
    assert_eq!(create_todo(&mut table, titled("far out")), empty(Status::Created));
    assert_eq!(table.list(), vec![todo(2147483648, "far out", false)]);
    let done = Some(UpdateTodo { completed: true });
    assert_eq!(update_todo(&mut table, "2147483648", done), empty(Status::Success));
    assert_eq!(table.list(), vec![todo(2147483648, "far out", true)]);
}

#[test]
fn update_todo_reaches_the_last_row_there_can_be() {
    let mut table = TodoTable::resumed_after(i64::MAX - 1).unwrap();
    create_todo(&mut table, titled("last"));
    let done = Some(UpdateTodo { completed: true });
    assert_eq!(update_todo(&mut table, "9223372036854775807", done), empty(Status::Success));
    assert_eq!(table.list(), vec![todo(i64::MAX, "last", true)]);
}

#[test]
fn update_todo_for_any_other_integer_answers_200_and_changes_nothing() {
    let mut table = TodoTable::resumed_after(i64::MAX - 1).unwrap();
    create_todo(&mut table, titled("last"));
    let done = Some(UpdateTodo { completed: true });
    for id in [
        "2147483648",
        "9223372036854775806",
        "9223372036854775808",
        "-9223372036854775808",
        "-9223372036854775809",
        "123456789012345678901234567890",
    ] {
        assert_eq!(update_todo(&mut table, id, done), empty(Status::Success), "for {}", id);
        assert_eq!(table.list(), vec![todo(i64::MAX, "last", false)]);
    }
}

#[test]
fn delete_todo_reaches_a_row_past_32_bits() {
    let mut table = TodoTable::resumed_after(2147483647).unwrap();
    create_todo(&mut table, titled("far out"));
    create_todo(&mut table, titled("farther"));
    assert_eq!(delete_todo(&mut table, "2147483648"), empty(Status::Success));
    assert_eq!(table.list(), vec![todo(2147483649, "farther", false)]);
}

#[test]
fn delete_todo_for_an_integer_beyond_64_bits_answers_200_and_changes_nothing() {
    let mut table = TodoTable::new();
    create_todo(&mut table, titled("a"));
    for id in ["9223372036854775808", "-9223372036854775809", "18446744073709551617"] {
        assert_eq!(delete_todo(&mut table, id), empty(Status::Success), "for {}", id);
        assert_eq!(table.list(), vec![todo(1, "a", false)]);
    }
}

#[test]
fn delete_todo_removes_the_row() {
    let mut table = TodoTable::new();
    create_todo(&mut table, titled("a"));
    create_todo(&mut table, titled("b"));
    assert_eq!(delete_todo(&mut table, "1"), empty(Status::Success));
    assert_eq!(table.list(), vec![todo(2, "b", false)]);
}

#[test]
fn delete_todo_with_a_bad_id_answers_400() {
    let mut table = TodoTable::new();
    create_todo(&mut table, titled("a"));
    assert_eq!(delete_todo(&mut table, "first"), empty(Status::BadRequest));
    assert_eq!(delete_todo(&mut table, "1/2"), empty(Status::BadRequest));
    assert_eq!(table.list(), vec![todo(1, "a", false)]);
}

#[test]
fn handle_dispatches_to_the_four_handlers() {
    let mut table = TodoTable::new();
    assert_eq!(handle(&mut table, Request::Create { body: titled("a") }), empty(Status::Created));
    assert_eq!(handle(&mut table, Request::List), listing(vec![todo(1, "a", false)]));
    assert_eq!(
        handle(
            &mut table,
            Request::Update { id: "1", body: Some(UpdateTodo { completed: true }) }
        ),
        empty(Status::Success)
    );
    assert_eq!(handle(&mut table, Request::List), listing(vec![todo(1, "a", true)]));
    assert_eq!(handle(&mut table, Request::Delete { id: "1" }), empty(Status::Success));
    assert_eq!(handle(&mut table, Request::List), listing(vec![]));
    assert_eq!(handle(&mut table, Request::Delete { id: "?" }), empty(Status::BadRequest));
}

#[test]
fn plan_then_run_then_reply_is_handle() {
    let mut stepwise = TodoTable::new();
    let mut direct = TodoTable::new();
    let requests = || {
        vec![
            Request::Create { body: titled("a") },
            Request::Create { body: None },
            Request::Create { body: titled("b") },
            Request::Update { id: "2", body: Some(UpdateTodo { completed: true }) },
            Request::Update { id: "zwei", body: Some(UpdateTodo { completed: true }) },
            Request::List,
            Request::Delete { id: "1" },
            Request::Delete { id: "1" },
            Request::Delete { id: "36893488147419103232" },
            Request::Update { id: "4294967296", body: Some(UpdateTodo { completed: true }) },
            Request::List,
        ]
    };
    for (one, other) in requests().into_iter().zip(requests()) {
        let by_steps = match plan(one) {
            Step::Reply(response) => response,
            Step::Run(command) => {
                let answer = stepwise.run(&command);
                reply(&command, answer)
            }
        };
        assert_eq!(by_steps, handle(&mut direct, other));
        assert_eq!(stepwise.list(), direct.list());
    }
    assert_eq!(direct.list(), vec![todo(2, "b", true)]);
}
