//! The to-do record and the two request bodies that speak of it.

use vstd::prelude::*;

verus! {

/// One to-do as the table stores it.
///
/// `id` is assigned by the table when the row is inserted and never changes.
/// `title` is set at creation; an empty title is allowed. `completed` starts
/// out `false` and is the only field a client can change afterwards.
#[derive(Debug, PartialEq, Eq)]
pub struct Todo {
    pub id: i64,
    pub title: String,
    pub completed: bool,
}

/// The mathematical value of a [`Todo`].
pub ghost struct TodoView {
    pub id: int,
    pub title: Seq<char>,
    pub completed: bool,
}

impl View for Todo {
    type V = TodoView;

    open spec fn view(&self) -> TodoView {
        TodoView { id: self.id as int, title: self.title@, completed: self.completed }
    }
}

impl Clone for Todo {
    fn clone(&self) -> (copy: Self)
        ensures
            copy == *self,
    {
        Todo { id: self.id, title: self.title.clone(), completed: self.completed }
    }
}

/// The views of a sequence of to-dos, in the same order.
pub open spec fn views(todos: Seq<Todo>) -> Seq<TodoView> {
    todos.map_values(|todo: Todo| todo@)
}

/// Copies a list of to-dos.
pub fn copy_all(todos: &Vec<Todo>) -> (copies: Vec<Todo>)
    ensures
        copies@ == todos@,
{
    let mut copies: Vec<Todo> = Vec::new();
    let mut i: usize = 0;
    while i < todos.len()
        invariant
            i <= todos.len(),
            copies@ == todos@.take(i as int),
        decreases todos.len() - i,
    {
        copies.push(todos[i].clone());
        proof {
            assert(todos@.take(i as int).push(todos@[i as int]) == todos@.take(i as int + 1));
        }
        i += 1;
    }
    proof {
        assert(todos@.take(todos.len() as int) == todos@);
    }
    copies
}

/// Body of a request that creates a to-do.
#[derive(Debug, PartialEq, Eq)]
pub struct CreateTodo {
    pub title: String,
}

/// Body of a request that marks a to-do complete or incomplete.
#[derive(Clone, Copy, Debug, PartialEq, Eq)]
pub struct UpdateTodo {
    pub completed: bool,
}

} // verus!
