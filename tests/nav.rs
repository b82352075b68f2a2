use tasklists::nav::{list_down, list_up, Status};

fn list(n: usize) -> Vec<String> {
    (0..n).map(|i| format!("task {i}")).collect()
}

#[test]
fn toggle_flips_status() {
    assert_eq!(Status::Todo.toggle(), Status::Done);
    assert_eq!(Status::Done.toggle(), Status::Todo);
}

#[test]
fn move_up_stops_at_zero() {
    let l = list(3);
    let mut cur: usize = 2;
    let mut seen = Vec::new();
    for _ in 0..5 {
        list_up(&l, &mut cur);
        seen.push(cur);
    }
    assert_eq!(seen, vec![1, 0, 0, 0, 0]);
}

#[test]
fn move_down_stops_at_last_row() {
    let l = list(3);
    let mut cur: usize = 0;
    let mut seen = Vec::new();
    for _ in 0..5 {
        list_down(&l, &mut cur);
        seen.push(cur);
    }
    assert_eq!(seen, vec![1, 2, 2, 2, 2]);
}

#[test]
fn move_down_on_empty_list_keeps_zero() {
    let l = list(0);
    let mut cur: usize = 0;
    list_down(&l, &mut cur);
    assert_eq!(cur, 0);
}

#[test]
fn move_down_on_one_row_keeps_zero() {
    let l = list(1);
    let mut cur: usize = 0;
    list_down(&l, &mut cur);
    assert_eq!(cur, 0);
}
