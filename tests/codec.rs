use tasklists::codec::{decode, encode, parse_item, split_lines};
use tasklists::nav::Status;

fn strings(v: &[&str]) -> Vec<String> {
    v.iter().map(|s| s.to_string()).collect()
}

#[test]
fn parse_item_todo() {
    let r = parse_item("TODO: buy milk");
    assert_eq!(r, Some((Status::Todo, "buy milk")));
}

#[test]
fn parse_item_done() {
    let r = parse_item("DONE: write report");
    assert_eq!(r, Some((Status::Done, "write report")));
}

#[test]
fn parse_item_empty_title() {
    assert_eq!(parse_item("TODO: "), Some((Status::Todo, "")));
}

#[test]
fn parse_item_other_lines() {
    assert_eq!(parse_item("NOTE: buy milk"), None);
    assert_eq!(parse_item(""), None);
    assert_eq!(parse_item("TODO:missing space"), None);
    assert_eq!(parse_item("todo: lower case"), None);
    assert_eq!(parse_item(" TODO: indented"), None);
}

#[test]
fn parse_item_non_ascii_title() {
    assert_eq!(parse_item("DONE: café ☕"), Some((Status::Done, "café ☕")));
}

#[test]
fn split_lines_newline_terminated() {
    assert_eq!(split_lines("a\nbc\n"), strings(&["a", "bc"]));
}

#[test]
fn split_lines_last_line_unterminated() {
    assert_eq!(split_lines("a\nbc"), strings(&["a", "bc"]));
}

#[test]
fn split_lines_crlf_and_blank() {
    assert_eq!(split_lines("a\r\n\nb\r"), strings(&["a", "", "b\r"]));
    assert_eq!(split_lines(""), strings(&[]));
}

#[test]
fn decode_interleaved_then_encode_regroups() {
    let (todos, dones) = decode("TODO: a\nDONE: b\nTODO: c\n");
    assert_eq!(todos, strings(&["a", "c"]));
    assert_eq!(dones, strings(&["b"]));
    assert_eq!(encode(&todos, &dones), "TODO: a\nTODO: c\nDONE: b\n");
}

#[test]
fn decode_ignores_other_lines() {
    let (todos, dones) = decode("NOTE: buy milk\n\nTODO: x\n");
    assert_eq!(todos, strings(&["x"]));
    assert!(dones.is_empty());
    let (todos, dones) = decode("NOTE: buy milk\n\n");
    assert!(todos.is_empty());
    assert!(dones.is_empty());
}

#[test]
fn decode_crlf_file() {
    let (todos, dones) = decode("TODO: a\r\nDONE: b\r\n");
    assert_eq!(todos, strings(&["a"]));
    assert_eq!(dones, strings(&["b"]));
}

#[test]
fn decode_encode_round_trip_is_byte_exact() {
    let text = "TODO: first\nTODO: second one\nDONE: third\nDONE: \n";
    let (todos, dones) = decode(text);
    assert_eq!(todos, strings(&["first", "second one"]));
    assert_eq!(dones, strings(&["third", ""]));
    assert_eq!(encode(&todos, &dones), text);
}

#[test]
fn encode_empty_lists() {
    assert_eq!(encode(&Vec::new(), &Vec::new()), "");
}
