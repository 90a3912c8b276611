use todo_app::state::{Action, TodoListState};

#[test]
fn add_empty_is_noop() {
    let mut state = TodoListState::new();
    state.add("keep".to_string());
    let before = state.todos().clone();
    state.add("".to_string());
    assert_eq!(state.count(), 1);
    assert_eq!(state.todos(), &before);
}

#[test]
fn whitespace_only_text_is_accepted() {
    let mut state = TodoListState::new();
    state.add("   ".to_string());
    assert_eq!(state.count(), 1);
    assert_eq!(state.todos()[0].content, "   ");
}

#[test]
fn add_first_item() {
    let mut state = TodoListState::new();
    state.add("buy milk".to_string());
    assert_eq!(state.count(), 1);
    assert_eq!(state.todos()[0].id, 1);
    assert_eq!(state.todos()[0].content, "buy milk");
    assert!(!state.todos()[0].is_done);
    assert_eq!(state.label(), " todo");
}

#[test]
fn add_two_remove_first() {
    let mut state = TodoListState::new();
    state.add("first".to_string());
    state.add("second".to_string());
    state.remove(1);
    assert_eq!(state.count(), 1);
    assert_eq!(state.todos()[0].id, 2);
    assert_eq!(state.todos()[0].content, "second");
    assert!(!state.todos()[0].is_done);
}

#[test]
fn toggle_twice_restores() {
    let mut state = TodoListState::new();
    state.add("task".to_string());
    let before = state.todos().clone();
    state.toggle(1);
    assert!(state.todos()[0].is_done);
    state.toggle(1);
    assert!(!state.todos()[0].is_done);
    assert_eq!(state.todos(), &before);
}

#[test]
fn edit_changes_content_only() {
    let mut state = TodoListState::new();
    state.add("old text".to_string());
    state.toggle(1);
    state.edit(1, "new text".to_string());
    assert_eq!(state.todos()[0].content, "new text");
    assert_eq!(state.todos()[0].id, 1);
    assert!(state.todos()[0].is_done);
}

#[test]
fn edit_to_empty_is_accepted() {
    let mut state = TodoListState::new();
    state.add("something".to_string());
    state.edit(1, "".to_string());
    assert_eq!(state.todos()[0].content, "");
    assert_eq!(state.count(), 1);
}

#[test]
fn label_pluralizes_at_two() {
    let mut state = TodoListState::new();
    assert_eq!(state.label(), " todo");
    state.add("one".to_string());
    assert_eq!(state.label(), " todo");
    state.add("two".to_string());
    assert_eq!(state.label(), " todos");
    state.remove(1);
    assert_eq!(state.label(), " todo");
}

#[test]
fn missing_id_is_noop() {
    let mut state = TodoListState::new();
    state.add("alpha".to_string());
    state.add("beta".to_string());
    state.toggle(2);
    let before = state.todos().clone();
    state.toggle(99);
    assert_eq!(state.todos(), &before);
    state.edit(99, "changed".to_string());
    assert_eq!(state.todos(), &before);
    state.remove(99);
    assert_eq!(state.todos(), &before);
    assert_eq!(state.count(), 2);
}

#[test]
fn add_clears_pending() {
    let mut state = TodoListState::new();
    state.set_pending("typed so far".to_string());
    assert_eq!(state.pending(), "typed so far");
    assert_eq!(state.count(), 0);
    state.add("entry".to_string());
    assert_eq!(state.pending(), "");
    assert_eq!(state.count(), 1);
}

#[test]
fn submit_adds_pending_text() {
    let mut state = TodoListState::new();
    state.set_pending("task from the input box".to_string());
    state.submit();
    assert_eq!(state.count(), 1);
    assert_eq!(state.todos()[0].content, "task from the input box");
    assert_eq!(state.pending(), "");
}

#[test]
fn submit_of_empty_pending_is_noop() {
    let mut state = TodoListState::new();
    state.add("existing".to_string());
    state.submit();
    assert_eq!(state.count(), 1);
    assert_eq!(state.todos()[0].content, "existing");
}

#[test]
fn dispatch_matches_direct_calls() {
    let mut dispatched = TodoListState::new();
    dispatched.dispatch(Action::Add("walk the dog".to_string()));
    dispatched.dispatch(Action::Add("water plants".to_string()));
    dispatched.dispatch(Action::Toggle(1));
    dispatched.dispatch(Action::Edit(2, "water the plants".to_string()));
    dispatched.dispatch(Action::Remove(1));

    let mut direct = TodoListState::new();
    direct.add("walk the dog".to_string());
    direct.add("water plants".to_string());
    direct.toggle(1);
    direct.edit(2, "water the plants".to_string());
    direct.remove(1);

    assert_eq!(dispatched.todos(), direct.todos());
    assert_eq!(dispatched.count(), 1);
    assert_eq!(dispatched.todos()[0].content, "water the plants");
}

#[test]
fn reused_id_is_removed_wholesale() {
    let mut state = TodoListState::new();
    state.add("first".to_string());
    state.add("second".to_string());
    state.remove(1);
    state.add("third".to_string());
    assert_eq!(state.todos()[0].id, 2);
    assert_eq!(state.todos()[1].id, 2);
    state.toggle(2);
    assert!(state.todos()[0].is_done);
    assert!(!state.todos()[1].is_done);
    state.remove(2);
    assert_eq!(state.count(), 0);
}
