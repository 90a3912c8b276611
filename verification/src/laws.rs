//! General properties of the todo-list model, each proved once and for all.

use vstd::prelude::*;

use crate::model::{
    add_spec, edit_spec, first_idx, has_id, is_first_match, label_spec, new_todo, remove_spec,
    toggle_spec, StateView,
};
use crate::model::{lemma_first_idx_found, lemma_first_idx_negative, lemma_first_idx_of};
use crate::todo::{flip_done, TodoView};

verus! {

/// Adding empty text leaves the whole state as it was.
pub proof fn lemma_add_empty_is_noop(v: StateView, text: Seq<char>)
    requires
        text.len() == 0,
    ensures
        add_spec(v, text) == v,
{
}

/// Two additions to an empty list and a removal of the first-added id leave
/// exactly the second record, which keeps its id, text and flag.
pub proof fn lemma_add_add_remove_first(v: StateView, a: Seq<char>, b: Seq<char>)
    requires
        v.todos.len() == 0,
        a.len() > 0,
        b.len() > 0,
    ensures
        remove_spec(add_spec(add_spec(v, a), b).todos, 1).len() == 1,
        remove_spec(add_spec(add_spec(v, a), b).todos, 1)[0] == new_todo(2, b),
{
    reveal_with_fuel(remove_spec, 4);
    let s1 = add_spec(v, a).todos;
    let s2 = add_spec(add_spec(v, a), b).todos;
    assert(s2.drop_last() =~= s1);
    assert(s1.drop_last() =~= Seq::<TodoView>::empty());
    assert(remove_spec(s2, 1) =~= Seq::<TodoView>::empty().push(new_todo(2, b)));
}

/// Toggling the same id twice restores the list to the value it had before.
pub proof fn lemma_toggle_involution(s: Seq<TodoView>, id: nat)
    ensures
        toggle_spec(toggle_spec(s, id), id) == s,
{
    let i = first_idx(s, id);
    if i < 0 {
    } else {
        lemma_first_idx_found(s, id);
        let t1 = toggle_spec(s, id);
        assert(is_first_match(t1, id, i));
        lemma_first_idx_of(t1, id, i);
        assert(flip_done(flip_done(s[i])) =~= s[i]);
        assert(toggle_spec(t1, id) =~= s);
    }
}

/// Editing replaces the text of the first record with the given id and
/// nothing else: every id and flag stays, and every other text stays.
pub proof fn lemma_edit_changes_only_content(s: Seq<TodoView>, id: nat, text: Seq<char>)
    ensures
        edit_spec(s, id, text).len() == s.len(),
        forall|j: int|
            0 <= j < s.len() ==> (#[trigger] edit_spec(s, id, text)[j]).id == s[j].id
                && edit_spec(s, id, text)[j].is_done == s[j].is_done,
        has_id(s, id) ==> edit_spec(s, id, text)[first_idx(s, id)].content == text,
        forall|j: int|
            0 <= j < s.len() && j != first_idx(s, id) ==> (#[trigger] edit_spec(
                s,
                id,
                text,
            )[j]).content == s[j].content,
{
    let i = first_idx(s, id);
    if i < 0 {
        lemma_first_idx_negative(s, id);
    } else {
        lemma_first_idx_found(s, id);
    }
}

/// The label is the plural form exactly when the list holds two or more
/// records, and the singular form otherwise, the empty list included.
pub proof fn lemma_label_plural_iff_two_or_more(s: Seq<TodoView>)
    ensures
        label_spec(s) == " todos"@ <==> s.len() >= 2,
        label_spec(s) == " todo"@ <==> s.len() < 2,
{
    reveal_strlit(" todo");
    reveal_strlit(" todos");
    assert(" todo"@.len() == 5);
    assert(" todos"@.len() == 6);
    assert(" todo"@ != " todos"@);
}

/// Toggling, editing or removing an id that no record carries leaves the
/// list exactly as it was.
pub proof fn lemma_missing_id_is_noop(s: Seq<TodoView>, id: nat, text: Seq<char>)
    requires
        !has_id(s, id),
    ensures
        toggle_spec(s, id) == s,
        edit_spec(s, id, text) == s,
        remove_spec(s, id) == s,
{
    lemma_first_idx_negative(s, id);
    lemma_remove_missing_is_noop(s, id);
}

/// Removing an id that no record carries keeps every record in place.
pub proof fn lemma_remove_missing_is_noop(s: Seq<TodoView>, id: nat)
    requires
        !has_id(s, id),
    ensures
        remove_spec(s, id) == s,
    decreases s.len(),
{
    if s.len() == 0 {
    } else {
        assert(s[s.len() - 1].id != id);
        assert(!has_id(s.drop_last(), id)) by {
            if has_id(s.drop_last(), id) {
                let k = choose|k: int|
                    0 <= k < s.drop_last().len() && s.drop_last()[k].id == id;
                assert(s[k].id == id);
            }
        }
        lemma_remove_missing_is_noop(s.drop_last(), id);
        assert(remove_spec(s, id) =~= s);
    }
}

} // verus!
