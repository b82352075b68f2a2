use tasklists::nav::Status;
use tasklists::store::{Command, TaskStore};

fn strings(v: &[&str]) -> Vec<String> {
    v.iter().map(|s| s.to_string()).collect()
}

#[test]
fn new_store_is_empty() {
    let s = TaskStore::new();
    assert!(s.todos().is_empty());
    assert!(s.dones().is_empty());
    assert_eq!(s.todo_curr(), 0);
    assert_eq!(s.done_curr(), 0);
    assert_eq!(s.focus(), Status::Todo);
}

#[test]
fn from_text_and_to_text() {
    let s = TaskStore::from_text("DONE: b\nTODO: a\n");
    assert_eq!(*s.todos(), strings(&["a"]));
    assert_eq!(*s.dones(), strings(&["b"]));
    assert_eq!(s.to_text(), "TODO: a\nDONE: b\n");
}

#[test]
fn keys_give_commands() {
    let mut s = TaskStore::new();
    assert_eq!(s.handle_key('q'), Command::Quit);
    assert_eq!(s.handle_key('e'), Command::Save);
    assert_eq!(s.handle_key('x'), Command::Continue);
    assert_eq!(s.handle_key('w'), Command::Continue);
}

#[test]
fn enter_on_empty_list_does_nothing() {
    let mut s = TaskStore::new();
    s.handle_key('\n');
    s.handle_key('\t');
    s.handle_key('\n');
    assert!(s.todos().is_empty());
    assert!(s.dones().is_empty());
    assert_eq!(s.done_curr(), 0);
}

#[test]
fn enter_moves_selected_to_tail_of_other_list() {
    let mut s = TaskStore::from_text("TODO: a\nTODO: b\nTODO: c\nDONE: x\n");
    s.handle_key('s');
    assert_eq!(s.todo_curr(), 1);
    s.handle_key('\n');
    assert_eq!(*s.todos(), strings(&["a", "c"]));
    assert_eq!(*s.dones(), strings(&["x", "b"]));
    assert_eq!(s.todo_curr(), 1);
}

#[test]
fn enter_on_last_row_reclamps_cursor() {
    let mut s = TaskStore::from_text("TODO: a\nTODO: b\n");
    s.handle_key('s');
    s.handle_key('\n');
    assert_eq!(*s.todos(), strings(&["a"]));
    assert_eq!(s.todo_curr(), 0);
    s.handle_key('\n');
    assert!(s.todos().is_empty());
    assert_eq!(s.todo_curr(), 0);
    assert_eq!(*s.dones(), strings(&["b", "a"]));
}

#[test]
fn completed_to_pending() {
    let mut s = TaskStore::from_text("DONE: x\nDONE: y\n");
    s.handle_key('\t');
    s.handle_key('s');
    s.handle_key('\n');
    assert_eq!(*s.todos(), strings(&["y"]));
    assert_eq!(*s.dones(), strings(&["x"]));
    assert_eq!(s.done_curr(), 0);
}

#[test]
fn move_there_and_back_keeps_membership() {
    let mut s = TaskStore::from_text("TODO: a\nTODO: b\nTODO: c\n");
    s.handle_key('s');
    s.handle_key('\n');
    s.handle_key('\t');
    s.handle_key('\n');
    s.handle_key('\t');
    assert_eq!(s.focus(), Status::Todo);
    assert_eq!(*s.todos(), strings(&["a", "c", "b"]));
    assert!(s.dones().is_empty());
}

#[test]
fn toggle_twice_restores_state() {
    let mut s = TaskStore::from_text("TODO: a\nTODO: b\nDONE: c\n");
    s.handle_key('s');
    s.handle_key('\t');
    s.handle_key('\t');
    assert_eq!(s.focus(), Status::Todo);
    assert_eq!(*s.todos(), strings(&["a", "b"]));
    assert_eq!(*s.dones(), strings(&["c"]));
    assert_eq!(s.todo_curr(), 1);
    assert_eq!(s.done_curr(), 0);
}

#[test]
fn cursor_moves_only_in_focused_list() {
    let mut s = TaskStore::from_text("TODO: a\nTODO: b\nDONE: c\nDONE: d\n");
    s.handle_key('\t');
    s.handle_key('s');
    s.handle_key('s');
    assert_eq!(s.done_curr(), 1);
    assert_eq!(s.todo_curr(), 0);
    s.handle_key('w');
    s.handle_key('w');
    assert_eq!(s.done_curr(), 0);
}
