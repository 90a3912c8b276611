//! The todo record and its mathematical image.

use vstd::prelude::*;

verus! {

/// One entry of the list: identity, text content, completion flag.
#[derive(Debug, PartialEq, Eq)]
pub struct Todo {
    pub id: usize,
    pub content: String,
    pub is_done: bool,
}

/// The mathematical image of a [`Todo`].
#[verifier::ext_equal]
pub ghost struct TodoView {
    pub id: nat,
    pub content: Seq<char>,
    pub is_done: bool,
}

impl View for Todo {
    type V = TodoView;

    open spec fn view(&self) -> TodoView {
        TodoView { id: self.id as nat, content: self.content@, is_done: self.is_done }
    }
}

impl Clone for Todo {
    fn clone(&self) -> (r: Self)
        ensures
            r@ == self@,
    {
        Todo { id: self.id, content: self.content.clone(), is_done: self.is_done }
    }
}

/// The images of a sequence of records.
pub open spec fn views(s: Seq<Todo>) -> Seq<TodoView> {
    s.map_values(|t: Todo| t@)
}

/// The same record with the completion flag flipped.
pub open spec fn flip_done(t: TodoView) -> TodoView {
    TodoView { is_done: !t.is_done, ..t }
}

/// The same record with the text replaced.
pub open spec fn with_content(t: TodoView, text: Seq<char>) -> TodoView {
    TodoView { content: text, ..t }
}

} // verus!
