use tasklists::store::TaskStore;
use tasklists::ui::{Cell, Ui, HIGHLIGHT_PAIR, REGULAR_PAIR};

fn rows(ui: &Ui) -> Vec<(usize, usize, String, i16)> {
    ui.cells().iter().map(|c: &Cell| (c.row, c.col, c.text.clone(), c.pair)).collect()
}

#[test]
fn labels_go_down_one_row_each() {
    let mut ui = Ui::default();
    ui.begin(4, 7);
    ui.label("one", REGULAR_PAIR);
    ui.label("two", HIGHLIGHT_PAIR);
    ui.end();
    assert_eq!(
        rows(&ui),
        vec![
            (4, 7, "one".to_string(), REGULAR_PAIR),
            (5, 7, "two".to_string(), HIGHLIGHT_PAIR),
        ]
    );
}

#[test]
fn list_highlights_selected_element() {
    let mut ui = Ui::default();
    ui.begin(0, 0);
    ui.begin_list(1);
    ui.list_element("a", 0);
    ui.list_element("b", 1);
    ui.list_element("c", 2);
    ui.end_list();
    ui.end();
    let pairs: Vec<i16> = ui.cells().iter().map(|c| c.pair).collect();
    assert_eq!(pairs, vec![REGULAR_PAIR, HIGHLIGHT_PAIR, REGULAR_PAIR]);
}

#[test]
fn list_can_reopen_after_end_list() {
    let mut ui = Ui::default();
    ui.begin(0, 0);
    ui.begin_list(0);
    ui.end_list();
    ui.begin_list(5);
    ui.list_element("x", 5);
    ui.end_list();
    assert_eq!(ui.cells()[0].pair, HIGHLIGHT_PAIR);
}

#[test]
fn begin_drops_last_frame() {
    let mut ui = Ui::default();
    ui.begin(0, 0);
    ui.label("old", REGULAR_PAIR);
    ui.end();
    ui.begin(1, 1);
    ui.end();
    assert!(ui.cells().is_empty());
}

#[test]
fn render_pending_frame() {
    let mut s = TaskStore::from_text("TODO: a\nTODO: b\nDONE: c\n");
    s.handle_key('s');
    let mut ui = Ui::default();
    s.render(&mut ui);
    assert_eq!(
        rows(&ui),
        vec![
            (1, 1, "[TODO] DONE  <tab>".to_string(), REGULAR_PAIR),
            (2, 1, "-------------".to_string(), REGULAR_PAIR),
            (3, 1, "- [ ] a".to_string(), REGULAR_PAIR),
            (4, 1, "- [ ] b".to_string(), HIGHLIGHT_PAIR),
        ]
    );
}

#[test]
fn render_completed_frame() {
    let mut s = TaskStore::from_text("TODO: a\nDONE: c\n");
    s.handle_key('\t');
    let mut ui = Ui::default();
    s.render(&mut ui);
    assert_eq!(
        rows(&ui),
        vec![
            (1, 1, " TODO [DONE] <tab>".to_string(), REGULAR_PAIR),
            (2, 1, "-------------".to_string(), REGULAR_PAIR),
            (3, 1, "- [x] c".to_string(), HIGHLIGHT_PAIR),
        ]
    );
}
