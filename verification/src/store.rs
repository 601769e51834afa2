//! The table of to-dos: its state, and what each statement does to it.
//!
//! [`TableView`] is the table as a mathematical value, with one spec function
//! per statement. [`TodoTable`] keeps such a table in memory and is proved to
//! follow those functions. A persistent table is expected to behave the same
//! way.

use vstd::prelude::*;
use crate::command::{answer_view, Answer, Command, CommandView, StoreError};
use crate::todo::{copy_all, views, Todo, TodoView};

verus! {

/// The table as a mathematical value.
///
/// `rows` are the rows in insertion order. `last_id` is the largest id the
/// table ever assigned, which may belong to a row that has since been
/// deleted.
pub ghost struct TableView {
    pub rows: Seq<TodoView>,
    pub last_id: int,
}

impl TableView {
    /// The table right after it was set up: no row, no id assigned yet.
    pub open spec fn empty() -> TableView {
        TableView { rows: Seq::empty(), last_id: 0 }
    }

    /// The table that the service works on, given what it found at start:
    /// the table that was there, or a new one where there was none.
    pub open spec fn ensured(found: Option<TableView>) -> TableView {
        match found {
            Some(table) => table,
            None => TableView::empty(),
        }
    }

    /// What holds of every table: ids are positive, none exceeds the last
    /// one assigned, and they grow along the rows, so no two rows share one.
    pub open spec fn wf(self) -> bool {
        &&& 0 <= self.last_id <= i64::MAX
        &&& forall|i: int|
            0 <= i < self.rows.len() ==> 1 <= (#[trigger] self.rows[i]).id <= self.last_id
        &&& forall|i: int, j: int|
            0 <= i < j < self.rows.len() ==> (#[trigger] self.rows[i]).id < (
            #[trigger] self.rows[j]).id
    }

    /// Whether some row has this id.
    pub open spec fn holds(self, id: int) -> bool {
        exists|i: int| 0 <= i < self.rows.len() && (#[trigger] self.rows[i]).id == id
    }

    /// Whether an id is left for one more row.
    pub open spec fn can_insert(self) -> bool {
        self.last_id < i64::MAX
    }

    /// The row that an insertion of `title` adds: the next id, the title as
    /// given, not completed.
    pub open spec fn next_row(self, title: Seq<char>) -> TodoView {
        TodoView { id: self.last_id + 1, title, completed: false }
    }

    /// The table after a row with `title` was inserted.
    pub open spec fn inserted(self, title: Seq<char>) -> TableView {
        TableView { rows: self.rows.push(self.next_row(title)), last_id: self.last_id + 1 }
    }

    /// The table after `completed` was set on every row whose id is `id`.
    pub open spec fn with_completed(self, id: int, completed: bool) -> TableView {
        TableView {
            rows: self.rows.map_values(
                |row: TodoView|
                    if row.id == id {
                        TodoView { completed, ..row }
                    } else {
                        row
                    },
            ),
            last_id: self.last_id,
        }
    }

    /// The table after every row whose id is `id` was deleted.
    pub open spec fn without(self, id: int) -> TableView {
        TableView { rows: self.rows.filter(|row: TodoView| row.id != id), last_id: self.last_id }
    }

    /// The table after a statement was carried out. An insertion for which
    /// no id is left changes nothing.
    pub open spec fn after(self, command: CommandView) -> TableView {
        match command {
            CommandView::List => self,
            CommandView::Insert { title } => if self.can_insert() {
                self.inserted(title)
            } else {
                self
            },
            CommandView::SetCompleted { id, completed } => self.with_completed(id, completed),
            CommandView::Delete { id } => self.without(id),
        }
    }

    /// What the table hands back for a statement: listing yields the rows,
    /// every other statement yields none, and an insertion fails when no id
    /// is left.
    pub open spec fn answer(self, command: CommandView) -> Result<Seq<TodoView>, StoreError> {
        match command {
            CommandView::List => Ok(self.rows),
            CommandView::Insert { .. } => if self.can_insert() {
                Ok(Seq::empty())
            } else {
                Err(StoreError::KeysExhausted)
            },
            _ => Ok(Seq::empty()),
        }
    }
}

impl TableView {
    /// Inserting into a well-formed table gives a well-formed table, and
    /// the id of the new row is one that no row had before.
    pub proof fn lemma_inserted(self, title: Seq<char>)
        requires
            self.wf(),
            self.can_insert(),
        ensures
            self.inserted(title).wf(),
            !self.holds(self.last_id + 1),
    {
    }

    /// An update keeps the table well-formed, keeps every row in its place,
    /// and changes nothing of a row but `completed`.
    pub proof fn lemma_with_completed(self, id: int, completed: bool)
        requires
            self.wf(),
        ensures
            self.with_completed(id, completed).wf(),
            self.with_completed(id, completed).rows.len() == self.rows.len(),
            forall|k: int|
                0 <= k < self.rows.len() ==> (#[trigger] self.with_completed(
                    id,
                    completed,
                ).rows[k]) == if self.rows[k].id == id {
                    TodoView { completed, ..self.rows[k] }
                } else {
                    self.rows[k]
                },
            !self.holds(id) ==> self.with_completed(id, completed) == self,
    {
        if !self.holds(id) {
            assert(self.with_completed(id, completed).rows =~= self.rows);
        }
    }

    /// A deletion keeps the table well-formed. It takes out the one row
    /// that has the id, or nothing when no row has it.
    pub proof fn lemma_without(self, id: int)
        requires
            self.wf(),
        ensures
            self.without(id).wf(),
            !self.without(id).holds(id),
            !self.holds(id) ==> self.without(id) == self,
            self.holds(id) ==> exists|k: int|
                0 <= k < self.rows.len() && (#[trigger] self.rows[k]).id == id && self.without(
                    id,
                ).rows == self.rows.remove(k),
    {
        let keep = |row: TodoView| row.id != id;
        if self.holds(id) {
            let k: int = choose|k: int|
                0 <= k < self.rows.len() && (#[trigger] self.rows[k]).id == id;
            assert forall|i: int| 0 <= i < self.rows.len() && i != k implies keep(
                #[trigger] self.rows[i],
            ) by {
                assert(self.rows[k].id == id);
            }
            lemma_filter_drops_one(self.rows, keep, k);
            let rest = self.rows.remove(k);
            assert forall|i: int| 0 <= i < rest.len() implies (#[trigger] rest[i]).id != id by {
                if i < k {
                    assert(rest[i] == self.rows[i]);
                } else {
                    assert(rest[i] == self.rows[i + 1]);
                }
            }
        } else {
            lemma_filter_keeps_all(self.rows, keep);
        }
    }

    /// Deleting the id of the row at `k` takes out that row and no other.
    pub proof fn lemma_without_at(self, id: int, k: int)
        requires
            self.wf(),
            0 <= k < self.rows.len(),
            self.rows[k].id == id,
        ensures
            self.without(id).rows == self.rows.remove(k),
    {
        let keep = |row: TodoView| row.id != id;
        assert forall|i: int| 0 <= i < self.rows.len() && i != k implies keep(
            #[trigger] self.rows[i],
        ) by {
            assert(self.rows[k].id == id);
        }
        lemma_filter_drops_one(self.rows, keep, k);
    }

    /// Deleting the row that was inserted last gives back the rows that
    /// were there before; the last id stays the one the row had.
    pub proof fn lemma_inserted_then_without(self, title: Seq<char>)
        requires
            self.wf(),
            self.can_insert(),
        ensures
            self.inserted(title).without(self.last_id + 1) == (TableView {
                rows: self.rows,
                last_id: self.last_id + 1,
            }),
    {
        let inserted = self.inserted(title);
        let last: int = self.rows.len() as int;
        self.lemma_inserted(title);
        assert(inserted.rows[last].id == self.last_id + 1);
        inserted.lemma_without_at(self.last_id + 1, last);
        assert(inserted.rows.remove(last) =~= self.rows);
    }

    /// A statement that names an id beyond 64 bits names no row: it leaves
    /// the table as it is and is answered without rows.
    pub proof fn lemma_out_of_reach(self, command: CommandView)
        requires
            self.wf(),
            !command.in_reach(),
        ensures
            self.after(command) == self,
            self.answer(command) == Ok::<Seq<TodoView>, StoreError>(Seq::empty()),
    {
        match command {
            CommandView::SetCompleted { id, completed } => {
                assert(!self.holds(id));
                self.lemma_with_completed(id, completed);
            },
            CommandView::Delete { id } => {
                assert(!self.holds(id));
                self.lemma_without(id);
            },
            _ => {},
        }
    }

    /// Every statement keeps the table well-formed.
    pub proof fn lemma_after(self, command: CommandView)
        requires
            self.wf(),
        ensures
            self.after(command).wf(),
    {
        match command {
            CommandView::List => {},
            CommandView::Insert { title } => {
                if self.can_insert() {
                    self.lemma_inserted(title);
                }
            },
            CommandView::SetCompleted { id, completed } => {
                self.lemma_with_completed(id, completed);
            },
            CommandView::Delete { id } => {
                self.lemma_without(id);
            },
        }
    }
}

/// Filtering keeps a sequence as it is when every element passes.
proof fn lemma_filter_keeps_all<A>(s: Seq<A>, pred: spec_fn(A) -> bool)
    requires
        forall|i: int| 0 <= i < s.len() ==> pred(#[trigger] s[i]),
    ensures
        s.filter(pred) == s,
    decreases s.len(),
{
    reveal(Seq::filter);
    if s.len() > 0 {
        lemma_filter_keeps_all(s.drop_last(), pred);
        assert(s.drop_last().push(s.last()) == s);
    }
}

/// Filtering takes out the element at `k` and nothing else when that
/// element is the only one that does not pass.
proof fn lemma_filter_drops_one<A>(s: Seq<A>, pred: spec_fn(A) -> bool, k: int)
    requires
        0 <= k < s.len(),
        !pred(s[k]),
        forall|i: int| 0 <= i < s.len() && i != k ==> pred(#[trigger] s[i]),
    ensures
        s.filter(pred) == s.remove(k),
    decreases s.len(),
{
    reveal(Seq::filter);
    if k == s.len() - 1 {
        lemma_filter_keeps_all(s.drop_last(), pred);
        assert(s.remove(k) == s.drop_last());
    } else {
        lemma_filter_drops_one(s.drop_last(), pred, k);
        assert(s.drop_last().remove(k).push(s.last()) == s.remove(k));
    }
}

/// A table of to-dos kept in memory.
pub struct TodoTable {
    rows: Vec<Todo>,
    last_id: i64,
}

impl View for TodoTable {
    type V = TableView;

    closed spec fn view(&self) -> TableView {
        TableView { rows: views(self.rows@), last_id: self.last_id as int }
    }
}

impl TodoTable {
    #[verifier::type_invariant]
    pub open spec fn inv(&self) -> bool {
        self@.wf()
    }

    /// A table that was just set up.
    pub fn new() -> (table: TodoTable)
        ensures
            table@ == TableView::empty(),
    {
        let table = TodoTable { rows: Vec::new(), last_id: 0 };
        assert(table@.rows =~= Seq::empty());
        table
    }

    /// Sets the table up where there is none yet, and leaves a table that
    /// is there as it is, rows and all. To be called once, before the first
    /// request is handled; calling it again changes nothing.
    pub fn ensure_schema(found: Option<TodoTable>) -> (table: TodoTable)
        ensures
            table@ == TableView::ensured(
                match found {
                    Some(existing) => Some(existing@),
                    None => None,
                },
            ),
    {
        match found {
            Some(existing) => existing,
            None => TodoTable::new(),
        }
    }

    /// An empty table that has already assigned the ids up to `last_id`,
    /// as one is after all its rows were deleted. A negative `last_id`
    /// describes no table.
    pub fn resumed_after(last_id: i64) -> (table: Option<TodoTable>)
        ensures
            table is Some <==> last_id >= 0,
            table matches Some(t) ==> t@ == (TableView { rows: Seq::empty(), last_id: last_id as int }),
    {
        if last_id < 0 {
            return None;
        }
        let table = TodoTable { rows: Vec::new(), last_id };
        assert(table@.rows =~= Seq::empty());
        Some(table)
    }

    /// All rows, in insertion order.
    pub fn list(&self) -> (todos: Vec<Todo>)
        ensures
            views(todos@) == self@.rows,
    {
        copy_all(&self.rows)
    }

    /// Inserts a row for `title` under the next id and returns that id.
    ///
    /// Fails, and leaves the table as it was, exactly when no id is left.
    pub fn insert(&mut self, title: String) -> (outcome: Result<i64, StoreError>)
        ensures
            outcome is Ok <==> old(self)@.can_insert(),
            outcome matches Ok(id) ==> id == old(self)@.last_id + 1 && final(self)@ == old(
                self,
            )@.inserted(title@),
            outcome matches Err(e) ==> e == StoreError::KeysExhausted && final(self)@ == old(self)@,
    {
        proof {
            use_type_invariant(&*self);
        }
        if self.last_id == i64::MAX {
            return Err(StoreError::KeysExhausted);
        }
        let id: i64 = self.last_id + 1;
        let ghost before = self@;
        let ghost title_view = title@;
        let mut rows: Vec<Todo> = Vec::new();
        std::mem::swap(&mut rows, &mut self.rows);
        rows.push(Todo { id, title, completed: false });
        assert(views(rows@) =~= before.rows.push(before.next_row(title_view)));
        self.last_id = id;
        self.rows = rows;
        Ok(id)
    }

    /// Where the row with this id stands, if there is one.
    fn position(&self, id: i64) -> (at: Option<usize>)
        ensures
            at is Some <==> self@.holds(id as int),
            at matches Some(k) ==> k < self.rows@.len() && self.rows@[k as int].id == id,
    {
        let mut k: usize = 0;
        while k < self.rows.len()
            invariant
                k <= self.rows@.len(),
                forall|i: int| 0 <= i < k ==> self.rows@[i].id != id,
            decreases self.rows@.len() - k,
        {
            if self.rows[k].id == id {
                assert(self@.rows[k as int].id == id);
                return Some(k);
            }
            k += 1;
        }
        assert forall|i: int| 0 <= i < self@.rows.len() implies (#[trigger] self@.rows[i]).id
            != id by {
            assert(self.rows@[i].id != id);
        }
        None
    }

    /// Sets `completed` on the row with this id and says whether there was
    /// one. Without such a row the table stays as it was.
    pub fn set_completed(&mut self, id: i64, completed: bool) -> (changed: bool)
        ensures
            final(self)@ == old(self)@.with_completed(id as int, completed),
            changed == old(self)@.holds(id as int),
    {
        proof {
            use_type_invariant(&*self);
        }
        let ghost before = self@;
        match self.position(id) {
            None => {
                assert(before.with_completed(id as int, completed).rows =~= before.rows);
                false
            },
            Some(k) => {
                let mut rows: Vec<Todo> = Vec::new();
                std::mem::swap(&mut rows, &mut self.rows);
                let title = rows[k].title.clone();
                rows.set(k, Todo { id, title, completed });
                assert(views(rows@) =~= before.with_completed(id as int, completed).rows) by {
                    assert forall|i: int| 0 <= i < before.rows.len() && i != k implies (
                    #[trigger] before.rows[i]).id != id by {
                        assert(before.rows[k as int].id == id);
                    }
                }
                self.rows = rows;
                true
            },
        }
    }

    /// Deletes the row with this id and says whether there was one.
    /// Without such a row the table stays as it was.
    pub fn delete(&mut self, id: i64) -> (removed: bool)
        ensures
            final(self)@ == old(self)@.without(id as int),
            removed == old(self)@.holds(id as int),
    {
        proof {
            use_type_invariant(&*self);
        }
        let ghost before = self@;
        let ghost keep = |row: TodoView| row.id != id as int;
        match self.position(id) {
            None => {
                proof {
                    lemma_filter_keeps_all(before.rows, keep);
                }
                false
            },
            Some(k) => {
                let mut rows: Vec<Todo> = Vec::new();
                std::mem::swap(&mut rows, &mut self.rows);
                rows.remove(k);
                proof {
                    assert forall|i: int| 0 <= i < before.rows.len() && i != k implies keep(
                        #[trigger] before.rows[i],
                    ) by {
                        assert(before.rows[k as int].id == id);
                    }
                    lemma_filter_drops_one(before.rows, keep, k as int);
                    assert(views(rows@) =~= before.rows.remove(k as int));
                }
                self.rows = rows;
                true
            },
        }
    }

    /// Carries out a statement and hands back its answer.
    pub fn run(&mut self, command: &Command) -> (answer: Answer)
        ensures
            final(self)@ == old(self)@.after(command@),
            answer_view(answer) == old(self)@.answer(command@),
    {
        let none: Vec<Todo> = Vec::new();
        assert(views(none@) =~= Seq::empty());
        match command {
            Command::List => Ok(self.list()),
            Command::Insert { title } => {
                match self.insert(title.clone()) {
                    Ok(_) => Ok(none),
                    Err(e) => Err(e),
                }
            },
            Command::SetCompleted { id, completed } => {
                self.set_completed(*id, *completed);
                Ok(none)
            },
            Command::Delete { id } => {
                self.delete(*id);
                Ok(none)
            },
        }
    }
}

} // verus!
