//! What holds of the service whatever the table holds and whatever is
//! asked of it, stated over the functions that the handlers' contracts use.

use vstd::prelude::*;
use crate::command::CommandView;
use crate::http::{ResponseView, Status};
use crate::path_id::{integer_value, is_integer};
use crate::service::{planned, response_to, table_after, RequestView};
use crate::store::TableView;
use crate::todo::TodoView;

verus! {

/// The table after one to-do was created for each of `titles`, in that
/// order.
pub open spec fn after_creates(table: TableView, titles: Seq<Seq<char>>) -> TableView
    decreases titles.len(),
{
    if titles.len() == 0 {
        table
    } else {
        table_after(
            after_creates(table, titles.drop_last()),
            RequestView::Create { title: Some(titles.last()) },
        )
    }
}

/// The rows that creating one to-do for each of `titles` adds to a table
/// whose last id is `last_id`.
pub open spec fn created_rows(last_id: int, titles: Seq<Seq<char>>) -> Seq<TodoView> {
    Seq::new(
        titles.len(),
        |i: int| TodoView { id: last_id + 1 + i, title: titles[i], completed: false },
    )
}

/// A table that was just set up is well-formed, and listing it gives 200
/// with an empty list.
pub proof fn fresh_table_lists_nothing()
    ensures
        TableView::empty().wf(),
        response_to(TableView::empty(), RequestView::List) == ResponseView::listing(Seq::empty()),
        table_after(TableView::empty(), RequestView::List) == TableView::empty(),
{
}

/// Setting the table up is idempotent: done a second time, it leaves what
/// the first time gave, and it never touches a table that is there.
pub proof fn ensuring_schema_is_idempotent(found: Option<TableView>)
    ensures
        TableView::ensured(Some(TableView::ensured(found))) == TableView::ensured(found),
        found matches Some(table) ==> TableView::ensured(found) == table,
        found is None ==> TableView::ensured(found) == TableView::empty(),
{
}

/// Whatever the request, handling it leaves a well-formed table
/// well-formed: ids stay positive, distinct and in insertion order.
pub proof fn handling_keeps_table_well_formed(table: TableView, request: RequestView)
    requires
        table.wf(),
    ensures
        table_after(table, request).wf(),
{
    if let Some(command) = planned(request) {
        table.lemma_after(command);
    }
}

/// No two rows of a well-formed table have the same id.
pub proof fn ids_are_unique(table: TableView, i: int, j: int)
    requires
        table.wf(),
        0 <= i < table.rows.len(),
        0 <= j < table.rows.len(),
        i != j,
    ensures
        table.rows[i].id != table.rows[j].id,
{
    if i < j {
        assert(table.rows[i].id < table.rows[j].id);
    } else {
        assert(table.rows[j].id < table.rows[i].id);
    }
}

/// Creating a to-do and then listing: where the creation is answered with
/// 201, the list is the earlier list with exactly one entry added at its
/// end, which has the title as given, is not completed, and has an id that
/// no earlier entry has. That is the case whenever the table has an id
/// left; where it has none, the answer is 500 and the list is as before.
pub proof fn created_todo_is_listed(table: TableView, title: Seq<char>)
    requires
        table.wf(),
    ensures
        ({
            let create = RequestView::Create { title: Some(title) };
            let added = TodoView { id: table.last_id + 1, title, completed: false };
            let listed = response_to(table_after(table, create), RequestView::List);
            if table.can_insert() {
                &&& response_to(table, create) == ResponseView::empty(Status::Created)
                &&& listed == ResponseView::listing(table.rows.push(added))
                &&& !table.holds(added.id)
            } else {
                &&& response_to(table, create) == ResponseView::empty(Status::InternalServerError)
                &&& listed == ResponseView::listing(table.rows)
            }
        }),
{
    if table.can_insert() {
        table.lemma_inserted(title);
    }
}

/// Deleting an id that no to-do has is answered with 200 and leaves the
/// table as it was, whatever integer the path writes.
pub proof fn deleting_absent_id_changes_nothing(table: TableView, id: Seq<char>)
    requires
        table.wf(),
        is_integer(id),
        !table.holds(integer_value(id)),
    ensures
        response_to(table, RequestView::Delete { id }) == ResponseView::empty(Status::Success),
        table_after(table, RequestView::Delete { id }) == table,
{
    table.lemma_without(integer_value(id));
}

/// Updating an id that no to-do has is answered with 200 and leaves the
/// table as it was, whatever integer the path writes.
pub proof fn updating_absent_id_changes_nothing(table: TableView, id: Seq<char>, completed: bool)
    requires
        table.wf(),
        is_integer(id),
        !table.holds(integer_value(id)),
    ensures
        response_to(table, RequestView::Update { id, completed: Some(completed) })
            == ResponseView::empty(Status::Success),
        table_after(table, RequestView::Update { id, completed: Some(completed) }) == table,
{
    table.lemma_with_completed(integer_value(id), completed);
}

/// An update is answered with 200 and touches one to-do only: the table
/// keeps its length, every row keeps its place, its id and its title, the
/// row with the id gets `completed` as asked, and every other row keeps its
/// own.
pub proof fn update_leaves_other_rows_alone(
    table: TableView,
    id: Seq<char>,
    completed: bool,
    k: int,
)
    requires
        table.wf(),
        is_integer(id),
        0 <= k < table.rows.len(),
    ensures
        ({
            let update = RequestView::Update { id, completed: Some(completed) };
            let after = table_after(table, update);
            &&& response_to(table, update) == ResponseView::empty(Status::Success)
            &&& after.rows.len() == table.rows.len()
            &&& after.last_id == table.last_id
            &&& after.rows[k].id == table.rows[k].id
            &&& after.rows[k].title == table.rows[k].title
            &&& after.rows[k].completed == if table.rows[k].id == integer_value(id) {
                completed
            } else {
                table.rows[k].completed
            }
        }),
{
    table.lemma_with_completed(integer_value(id), completed);
}

/// A deletion is answered with 200 and takes out the to-do with the id and
/// nothing else: no row with the id is left, and the table is shorter by
/// one where a row had the id and as long as before where none had.
pub proof fn delete_takes_out_that_todo(table: TableView, id: Seq<char>)
    requires
        table.wf(),
        is_integer(id),
    ensures
        ({
            let delete = RequestView::Delete { id };
            let after = table_after(table, delete);
            &&& response_to(table, delete) == ResponseView::empty(Status::Success)
            &&& after == table.without(integer_value(id))
            &&& !after.holds(integer_value(id))
            &&& after.last_id == table.last_id
            &&& after.rows.len() == if table.holds(integer_value(id)) {
                table.rows.len() - 1
            } else {
                table.rows.len() as int
            }
        }),
{
    table.lemma_without(integer_value(id));
}

/// Deleting twice is deleting once: the second deletion is answered with
/// 200 as the first is, and leaves the table as the first left it.
pub proof fn deleting_twice_is_deleting_once(table: TableView, id: Seq<char>)
    requires
        table.wf(),
        is_integer(id),
    ensures
        ({
            let delete = RequestView::Delete { id };
            let once = table_after(table, delete);
            &&& response_to(table, delete) == ResponseView::empty(Status::Success)
            &&& response_to(once, delete) == ResponseView::empty(Status::Success)
            &&& table_after(once, delete) == once
        }),
{
    let once = table.without(integer_value(id));
    table.lemma_without(integer_value(id));
    once.lemma_without(integer_value(id));
}

/// Deleting the to-do that was just created gives back the rows that were
/// there before it was created. Its id is not handed out again: the last id
/// stays the one it had.
pub proof fn deleting_created_todo_restores_rows(
    table: TableView,
    title: Seq<char>,
    id: Seq<char>,
)
    requires
        table.wf(),
        table.can_insert(),
        is_integer(id),
        integer_value(id) == table.last_id + 1,
    ensures
        ({
            let created = table_after(table, RequestView::Create { title: Some(title) });
            let after = table_after(created, RequestView::Delete { id });
            &&& response_to(created, RequestView::Delete { id }) == ResponseView::empty(
                Status::Success,
            )
            &&& after.rows == table.rows
            &&& after.last_id == table.last_id + 1
        }),
{
    table.lemma_inserted_then_without(title);
}

/// Filtering by one test and by another that agrees with it on every
/// element gives the same.
proof fn lemma_filter_same<A>(s: Seq<A>, f: spec_fn(A) -> bool, g: spec_fn(A) -> bool)
    requires
        forall|i: int| 0 <= i < s.len() ==> f(#[trigger] s[i]) == g(s[i]),
    ensures
        s.filter(f) == s.filter(g),
    decreases s.len(),
{
    reveal(Seq::filter);
    if s.len() > 0 {
        lemma_filter_same(s.drop_last(), f, g);
    }
}

/// Filtering by one test and then by another keeps what passes both.
proof fn lemma_filter_twice<A>(s: Seq<A>, f: spec_fn(A) -> bool, g: spec_fn(A) -> bool)
    ensures
        s.filter(f).filter(g) == s.filter(|x: A| f(x) && g(x)),
    decreases s.len(),
{
    reveal(Seq::filter);
    if s.len() > 0 {
        let rest = s.drop_last();
        lemma_filter_twice(rest, f, g);
        if f(s.last()) {
            assert(rest.filter(f).push(s.last()).drop_last() == rest.filter(f));
        }
    }
}

/// Two deletions commute: in either order both are answered with 200, and
/// what is left are the rows that have neither id, in the order they had.
pub proof fn deletions_commute(table: TableView, a: Seq<char>, b: Seq<char>)
    requires
        is_integer(a),
        is_integer(b),
    ensures
        ({
            let first = RequestView::Delete { id: a };
            let second = RequestView::Delete { id: b };
            let one_way = table_after(table_after(table, first), second);
            let other_way = table_after(table_after(table, second), first);
            &&& one_way == other_way
            &&& one_way.last_id == table.last_id
            &&& one_way.rows == table.rows.filter(
                |row: TodoView| row.id != integer_value(a) && row.id != integer_value(b),
            )
            &&& response_to(table, first) == ResponseView::empty(Status::Success)
            &&& response_to(table_after(table, first), second) == ResponseView::empty(
                Status::Success,
            )
            &&& response_to(table, second) == ResponseView::empty(Status::Success)
            &&& response_to(table_after(table, second), first) == ResponseView::empty(
                Status::Success,
            )
        }),
{
    let not_a = |row: TodoView| row.id != integer_value(a);
    let not_b = |row: TodoView| row.id != integer_value(b);
    let neither = |row: TodoView| row.id != integer_value(a) && row.id != integer_value(b);
    lemma_filter_twice(table.rows, not_a, not_b);
    lemma_filter_twice(table.rows, not_b, not_a);
    lemma_filter_same(table.rows, |row: TodoView| not_a(row) && not_b(row), neither);
    lemma_filter_same(table.rows, |row: TodoView| not_b(row) && not_a(row), neither);
}

/// A request to create a to-do without a usable body is answered with 400
/// and leaves the table as it was.
pub proof fn create_without_title_is_rejected(table: TableView)
    ensures
        response_to(table, RequestView::Create { title: None }) == ResponseView::empty(
            Status::BadRequest,
        ),
        table_after(table, RequestView::Create { title: None }) == table,
{
}

/// A malformed request never reaches the table: whenever the answer is 400,
/// the table is as it was.
pub proof fn rejected_request_changes_nothing(table: TableView, request: RequestView)
    requires
        response_to(table, request).status == Status::BadRequest,
    ensures
        planned(request) is None,
        table_after(table, request) == table,
{
}

/// How many of `wanted` insertions a table whose last id is `last_id` has
/// ids left for.
pub open spec fn room_for(last_id: int, wanted: nat) -> nat {
    if last_id + wanted <= i64::MAX {
        wanted
    } else {
        (i64::MAX - last_id) as nat
    }
}

/// Creating one to-do per title, in whatever order the requests are taken
/// up: as long as the table has an id left, a request is answered with 201
/// and adds exactly one row, at the end, with the title of the request;
/// once no id is left, a request is answered with 500 and adds nothing. So
/// where ids are left for all, the table gains one row per request. The
/// ids of the rows differ from one another, those of the new rows from
/// every id the table held before.
pub proof fn creates_add_one_row_each(table: TableView, titles: Seq<Seq<char>>)
    requires
        table.wf(),
    ensures
        ({
            let after = after_creates(table, titles);
            let made: nat = room_for(table.last_id, titles.len());
            &&& after.wf()
            &&& after.last_id == table.last_id + made
            &&& after.rows == table.rows + created_rows(table.last_id, titles.take(made as int))
            &&& forall|i: int|
                0 <= i < titles.len() ==> response_to(
                    #[trigger] after_creates(table, titles.take(i)),
                    RequestView::Create { title: Some(titles[i]) },
                ) == ResponseView::empty(
                    if i < made {
                        Status::Created
                    } else {
                        Status::InternalServerError
                    },
                )
            &&& forall|i: int, j: int|
                0 <= i < j < after.rows.len() ==> (#[trigger] after.rows[i]).id != (
                #[trigger] after.rows[j]).id
            &&& forall|i: int|
                table.rows.len() <= i < after.rows.len() ==> !table.holds(
                    (#[trigger] after.rows[i]).id,
                )
        }),
    decreases titles.len(),
{
    let after = after_creates(table, titles);
    let made: nat = room_for(table.last_id, titles.len());
    if titles.len() == 0 {
        assert(table.rows + created_rows(table.last_id, titles.take(0)) =~= table.rows);
    } else {
        let earlier = titles.drop_last();
        let before = after_creates(table, earlier);
        let made_before: nat = room_for(table.last_id, earlier.len());
        creates_add_one_row_each(table, earlier);
        if before.can_insert() {
            before.lemma_inserted(titles.last());
            assert(earlier.take(made_before as int) == earlier);
            assert(titles.take(made as int) == titles);
            assert(after.rows =~= table.rows + created_rows(table.last_id, titles));
        } else {
            assert(titles.take(made as int) == earlier.take(made_before as int));
        }
        assert forall|i: int| 0 <= i < titles.len() implies response_to(
            #[trigger] after_creates(table, titles.take(i)),
            RequestView::Create { title: Some(titles[i]) },
        ) == ResponseView::empty(
            if i < made {
                Status::Created
            } else {
                Status::InternalServerError
            },
        ) by {
            if i < earlier.len() {
                assert(titles.take(i) == earlier.take(i));
                assert(titles[i] == earlier[i]);
            } else {
                assert(titles.take(i) == earlier);
            }
        }
    }
    assert forall|i: int, j: int| 0 <= i < j < after.rows.len() implies (
    #[trigger] after.rows[i]).id != (#[trigger] after.rows[j]).id by {
        ids_are_unique(after, i, j);
    }
    assert forall|i: int| table.rows.len() <= i < after.rows.len() implies !table.holds(
        (#[trigger] after.rows[i]).id,
    ) by {
        assert(after.rows[i].id > table.last_id);
    }
}

/// What a request does to a to-do that is in the table. A deletion that
/// names its id takes it out. An update that names its id sets `completed`
/// and keeps id and title. Any other request, and any malformed one, leaves
/// it in the table exactly as it was.
pub proof fn todo_changes_only_as_asked(table: TableView, request: RequestView, k: int)
    requires
        table.wf(),
        0 <= k < table.rows.len(),
    ensures
        ({
            let todo = table.rows[k];
            let after = table_after(table, request);
            match planned(request) {
                Some(CommandView::Delete { id }) if id == todo.id => !after.holds(todo.id),
                Some(CommandView::SetCompleted { id, completed }) if id == todo.id
                    => after.rows.contains(TodoView { completed, ..todo }),
                _ => after.rows.contains(todo),
            }
        }),
{
    let todo = table.rows[k];
    let after = table_after(table, request);
    match planned(request) {
        Some(CommandView::Delete { id }) => {
            table.lemma_without(id);
            if id != todo.id {
                if table.holds(id) {
                    let gone: int = choose|g: int|
                        0 <= g < table.rows.len() && (#[trigger] table.rows[g]).id == id
                            && after.rows == table.rows.remove(g);
                    if k < gone {
                        assert(after.rows[k] == todo);
                    } else {
                        assert(after.rows[k - 1] == todo);
                    }
                } else {
                    assert(after.rows[k] == todo);
                }
            }
        },
        Some(CommandView::SetCompleted { id, completed }) => {
            table.lemma_with_completed(id, completed);
            if id == todo.id {
                assert(after.rows[k] == TodoView { completed, ..todo });
            } else {
                assert(after.rows[k] == todo);
            }
        },
        Some(CommandView::Insert { title }) => {
            assert(after.rows[k] == todo);
        },
        _ => {
            assert(after.rows[k] == todo);
        },
    }
}

} // verus!
