//! The mathematical model of the todo list: what each operation yields,
//! stated over sequences of record images.

use vstd::prelude::*;

use crate::todo::{flip_done, with_content, TodoView};

verus! {

/// Everything the rendering layer observes: the ordered records and the
/// pending input text.
#[verifier::ext_equal]
pub ghost struct StateView {
    pub todos: Seq<TodoView>,
    pub pending: Seq<char>,
}

/// Whether some record in the list carries the given id.
pub open spec fn has_id(s: Seq<TodoView>, id: nat) -> bool {
    exists|i: int| 0 <= i < s.len() && s[i].id == id
}

/// Whether position `i` holds the first record with the given id.
pub open spec fn is_first_match(s: Seq<TodoView>, id: nat, i: int) -> bool {
    &&& 0 <= i < s.len()
    &&& s[i].id == id
    &&& forall|j: int| 0 <= j < i ==> s[j].id != id
}

/// The position of the first record with the given id, or -1 if none carries it.
pub open spec fn first_idx(s: Seq<TodoView>, id: nat) -> int
    decreases s.len(),
{
    if s.len() == 0 {
        -1
    } else if s[0].id == id {
        0
    } else {
        let rest = first_idx(s.drop_first(), id);
        if rest < 0 {
            -1
        } else {
            rest + 1
        }
    }
}

/// A fresh record: the given id and text, not yet done.
pub open spec fn new_todo(id: nat, text: Seq<char>) -> TodoView {
    TodoView { id, content: text, is_done: false }
}

/// Adding: empty text is refused outright; otherwise a fresh record with id
/// `count + 1` goes to the end of the list and the pending input is cleared.
pub open spec fn add_spec(v: StateView, text: Seq<char>) -> StateView {
    if text.len() == 0 {
        v
    } else {
        StateView {
            todos: v.todos.push(new_todo(v.todos.len() + 1, text)),
            pending: Seq::<char>::empty(),
        }
    }
}

/// Toggling: the first record with the given id has its flag flipped in
/// place; a missing id changes nothing.
pub open spec fn toggle_spec(s: Seq<TodoView>, id: nat) -> Seq<TodoView> {
    let i = first_idx(s, id);
    if i < 0 {
        s
    } else {
        s.update(i, flip_done(s[i]))
    }
}

/// Editing: the first record with the given id has its text replaced, even
/// by empty text; a missing id changes nothing.
pub open spec fn edit_spec(s: Seq<TodoView>, id: nat, text: Seq<char>) -> Seq<TodoView> {
    let i = first_idx(s, id);
    if i < 0 {
        s
    } else {
        s.update(i, with_content(s[i], text))
    }
}

/// Removing: every record with the given id leaves the list; the rest keep
/// their order.
pub open spec fn remove_spec(s: Seq<TodoView>, id: nat) -> Seq<TodoView>
    decreases s.len(),
{
    if s.len() == 0 {
        s
    } else if s.last().id == id {
        remove_spec(s.drop_last(), id)
    } else {
        remove_spec(s.drop_last(), id).push(s.last())
    }
}

/// The label beside the count: singular below two records, plural from two on.
pub open spec fn label_spec(s: Seq<TodoView>) -> Seq<char> {
    if s.len() < 2 {
        " todo"@
    } else {
        " todos"@
    }
}

/// The mathematical image of one trigger from the user interface.
pub ghost enum ActionView {
    Add(Seq<char>),
    Toggle(nat),
    Edit(nat, Seq<char>),
    Remove(nat),
}

/// One step of the state machine: the state after an action is dispatched.
pub open spec fn step(v: StateView, a: ActionView) -> StateView {
    match a {
        ActionView::Add(text) => add_spec(v, text),
        ActionView::Toggle(id) => StateView { todos: toggle_spec(v.todos, id), ..v },
        ActionView::Edit(id, text) => StateView { todos: edit_spec(v.todos, id, text), ..v },
        ActionView::Remove(id) => StateView { todos: remove_spec(v.todos, id), ..v },
    }
}

/// A negative first index means exactly that no record carries the id.
pub proof fn lemma_first_idx_negative(s: Seq<TodoView>, id: nat)
    ensures
        first_idx(s, id) < 0 <==> !has_id(s, id),
    decreases s.len(),
{
    if s.len() == 0 {
    } else if s[0].id == id {
    } else {
        lemma_first_idx_negative(s.drop_first(), id);
        if has_id(s, id) {
            let k = choose|k: int| 0 <= k < s.len() && s[k].id == id;
            assert(s.drop_first()[k - 1] == s[k]);
            assert(has_id(s.drop_first(), id));
        }
        if has_id(s.drop_first(), id) {
            let k = choose|k: int| 0 <= k < s.drop_first().len() && s.drop_first()[k].id == id;
            assert(s[k + 1] == s.drop_first()[k]);
            assert(has_id(s, id));
        }
    }
}

/// A non-negative first index points at the first record with the id.
pub proof fn lemma_first_idx_found(s: Seq<TodoView>, id: nat)
    requires
        first_idx(s, id) >= 0,
    ensures
        is_first_match(s, id, first_idx(s, id)),
    decreases s.len(),
{
    if s.len() == 0 {
    } else if s[0].id == id {
    } else {
        lemma_first_idx_found(s.drop_first(), id);
        let r = first_idx(s.drop_first(), id);
        assert(forall|j: int| 0 <= j < r + 1 ==> s[j].id != id) by {
            assert(forall|j: int| 1 <= j < r + 1 ==> s[j] == s.drop_first()[j - 1]);
        }
    }
}

/// The first index is the one position that matches with no match before it.
pub proof fn lemma_first_idx_of(s: Seq<TodoView>, id: nat, i: int)
    requires
        is_first_match(s, id, i),
    ensures
        first_idx(s, id) == i,
    decreases s.len(),
{
    if s[0].id == id {
    } else {
        assert(is_first_match(s.drop_first(), id, i - 1)) by {
            assert(s.drop_first()[i - 1] == s[i]);
            assert(forall|j: int| 0 <= j < i - 1 ==> s.drop_first()[j] == s[j + 1]);
        }
        lemma_first_idx_of(s.drop_first(), id, i - 1);
    }
}

} // verus!
