//! The executable todo-list state container.

use vstd::prelude::*;

use crate::model::{
    add_spec, edit_spec, has_id, is_first_match, label_spec, remove_spec, step, toggle_spec,
    ActionView, StateView,
};
use crate::model::{lemma_first_idx_negative, lemma_first_idx_of};
use crate::todo::{flip_done, views, with_content, Todo};

verus! {

/// The todo list itself: the ordered records and the pending input text.
pub struct TodoListState {
    todos: Vec<Todo>,
    pending: String,
}

impl View for TodoListState {
    type V = StateView;

    closed spec fn view(&self) -> StateView {
        StateView { todos: views(self.todos@), pending: self.pending@ }
    }
}

/// One trigger from the user interface, as a plain value.
pub enum Action {
    Add(String),
    Toggle(usize),
    Edit(usize, String),
    Remove(usize),
}

impl View for Action {
    type V = ActionView;

    open spec fn view(&self) -> ActionView {
        match self {
            Action::Add(text) => ActionView::Add(text@),
            Action::Toggle(id) => ActionView::Toggle(*id as nat),
            Action::Edit(id, text) => ActionView::Edit(*id as nat, text@),
            Action::Remove(id) => ActionView::Remove(*id as nat),
        }
    }
}

impl TodoListState {
    /// An empty list with an empty pending input.
    pub fn new() -> (r: Self)
        ensures
            r@.todos == Seq::<crate::todo::TodoView>::empty(),
            r@.pending == Seq::<char>::empty(),
    {
        let r = TodoListState { todos: Vec::new(), pending: String::new() };
        proof {
            assert(r@.todos =~= Seq::<crate::todo::TodoView>::empty());
        }
        r
    }

    /// How many records the list holds.
    pub fn count(&self) -> (r: usize)
        ensures
            r == self@.todos.len(),
    {
        self.todos.len()
    }

    /// The word beside the count: singular below two records, plural from two on.
    pub fn label(&self) -> (r: &'static str)
        ensures
            r@ == label_spec(self@.todos),
    {
        if self.todos.len() < 2 {
            " todo"
        } else {
            " todos"
        }
    }

    /// Read access to the records, for the rendering layer.
    pub fn todos(&self) -> (r: &Vec<Todo>)
        ensures
            views(r@) == self@.todos,
    {
        &self.todos
    }

    /// Read access to the pending input text.
    pub fn pending(&self) -> (r: &String)
        ensures
            r@ == self@.pending,
    {
        &self.pending
    }

    /// Replace the pending input text, as typing in the input box does.
    pub fn set_pending(&mut self, text: String)
        ensures
            final(self)@.pending == text@,
            final(self)@.todos == old(self)@.todos,
    {
        self.pending = text;
    }

    /// Add a record holding the given text: refused when the text is empty,
    /// otherwise appended with id `count + 1` and the pending input cleared.
    pub fn add(&mut self, text: String)
        requires
            old(self)@.todos.len() < usize::MAX,
        ensures
            final(self)@ == add_spec(old(self)@, text@),
    {
        if text.as_str().is_empty() {
            return;
        }
        let id = self.todos.len() + 1;
        let todo = Todo { id, content: text, is_done: false };
        self.todos.push(todo);
        self.pending = String::new();
        proof {
            assert(self@ =~= add_spec(old(self)@, todo@.content));
        }
    }

    /// Submit the pending input: add it as a record if it is not empty.
    pub fn submit(&mut self)
        requires
            old(self)@.todos.len() < usize::MAX,
        ensures
            final(self)@ == add_spec(old(self)@, old(self)@.pending),
    {
        let text = self.pending.clone();
        self.add(text);
    }

    /// Flip the completion flag of the first record with the given id; a
    /// missing id changes nothing.
    pub fn toggle(&mut self, id: usize)
        ensures
            final(self)@.todos == toggle_spec(old(self)@.todos, id as nat),
            final(self)@.pending == old(self)@.pending,
    {
        match self.find_first(id) {
            Some(i) => {
                let t = self.todos.remove(i);
                let flipped = Todo { id: t.id, content: t.content, is_done: !t.is_done };
                self.todos.insert(i, flipped);
                proof {
                    let s = old(self)@.todos;
                    lemma_first_idx_of(s, id as nat, i as int);
                    assert(flipped@ =~= flip_done(s[i as int]));
                    assert(self.todos@ =~= old(self).todos@.update(i as int, flipped));
                    assert(self@.todos =~= s.update(i as int, flip_done(s[i as int])));
                }
            },
            None => {
                proof {
                    lemma_first_idx_negative(old(self)@.todos, id as nat);
                }
            },
        }
    }

    /// Replace the text of the first record with the given id, empty text
    /// included; a missing id changes nothing.
    pub fn edit(&mut self, id: usize, text: String)
        ensures
            final(self)@.todos == edit_spec(old(self)@.todos, id as nat, text@),
            final(self)@.pending == old(self)@.pending,
    {
        match self.find_first(id) {
            Some(i) => {
                let t = self.todos.remove(i);
                let edited = Todo { id: t.id, content: text, is_done: t.is_done };
                self.todos.insert(i, edited);
                proof {
                    let s = old(self)@.todos;
                    lemma_first_idx_of(s, id as nat, i as int);
                    assert(edited@ =~= with_content(s[i as int], edited@.content));
                    assert(self.todos@ =~= old(self).todos@.update(i as int, edited));
                    assert(self@.todos =~= s.update(
                        i as int,
                        with_content(s[i as int], edited@.content),
                    ));
                }
            },
            None => {
                proof {
                    lemma_first_idx_negative(old(self)@.todos, id as nat);
                }
            },
        }
    }

    /// Drop every record with the given id, keeping the others in order; a
    /// missing id changes nothing.
    pub fn remove(&mut self, id: usize)
        ensures
            final(self)@.todos == remove_spec(old(self)@.todos, id as nat),
            final(self)@.pending == old(self)@.pending,
    {
        let mut kept: Vec<Todo> = Vec::new();
        let mut i: usize = 0;
        while i < self.todos.len()
            invariant
                i <= self.todos.len(),
                views(kept@) == remove_spec(self@.todos.subrange(0, i as int), id as nat),
            decreases self.todos.len() - i,
        {
            proof {
                let s = self@.todos;
                assert(s.subrange(0, i + 1 as int).drop_last() =~= s.subrange(0, i as int));
            }
            if self.todos[i].id != id {
                kept.push(self.todos[i].clone());
                proof {
                    let s = self@.todos;
                    assert(views(kept@) =~= remove_spec(
                        s.subrange(0, i as int),
                        id as nat,
                    ).push(s[i as int]));
                }
            }
            i = i + 1;
        }
        proof {
            assert(self@.todos.subrange(0, i as int) =~= self@.todos);
        }
        self.todos = kept;
    }

    /// Dispatch one action, yielding the next state of the machine.
    pub fn dispatch(&mut self, action: Action)
        requires
            action@ is Add ==> old(self)@.todos.len() < usize::MAX,
        ensures
            final(self)@ == step(old(self)@, action@),
    {
        let ghost av = action@;
        match action {
            Action::Add(text) => {
                self.add(text);
            },
            Action::Toggle(id) => {
                self.toggle(id);
            },
            Action::Edit(id, text) => {
                self.edit(id, text);
            },
            Action::Remove(id) => {
                self.remove(id);
            },
        }
        proof {
            assert(self@ =~= step(old(self)@, av));
        }
    }

    /// The position of the first record with the given id, if any record
    /// carries it.
    fn find_first(&self, id: usize) -> (r: Option<usize>)
        ensures
            match r {
                Some(i) => is_first_match(self@.todos, id as nat, i as int),
                None => !has_id(self@.todos, id as nat),
            },
    {
        let mut i: usize = 0;
        while i < self.todos.len()
            invariant
                i <= self.todos.len(),
                forall|j: int| 0 <= j < i ==> self@.todos[j].id != id as nat,
            decreases self.todos.len() - i,
        {
            if self.todos[i].id == id {
                return Some(i);
            }
            i = i + 1;
        }
        proof {
            if has_id(self@.todos, id as nat) {
                let k = choose|k: int|
                    0 <= k < self@.todos.len() && self@.todos[k].id == id as nat;
                assert(false);
            }
        }
        None
    }
}

} // verus!
