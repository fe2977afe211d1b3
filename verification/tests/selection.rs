use nutt::error::Error;
use nutt::message::{Headers, Message};
use nutt::selection::MessageList;

fn listed(id: &str, replies: Vec<Message>) -> Message {
    Message {
        id: id.to_string(),
        filename: vec![],
        timestamp: 0,
        date_relative: String::new(),
        tags: vec![],
        body: vec![],
        headers: Headers::new(),
        depth: 0,
        replies,
    }
}

fn three_rows() -> MessageList {
    MessageList::new(vec![listed("a", vec![listed("b", vec![])]), listed("c", vec![])])
}

#[test]
fn new_list_selects_the_first_row() {
    let list = three_rows();
    assert_eq!(list.len(), 3);
    assert_eq!(list.selected(), 0);
    assert!(!list.is_empty());
    assert_eq!(list.messages().len(), 2);
}

#[test]
fn rows_count_replies_too() {
    let deep = listed("a", vec![listed("b", vec![listed("c", vec![listed("d", vec![])])])]);
    assert_eq!(MessageList::new(vec![deep]).len(), 4);
}

#[test]
fn next_stops_at_the_last_row() {
    let mut list = three_rows();
    list.select_next();
    assert_eq!(list.selected(), 1);
    list.select_next();
    assert_eq!(list.selected(), 2);
    list.select_next();
    assert_eq!(list.selected(), 2);
}

#[test]
fn previous_stops_at_the_first_row() {
    let mut list = three_rows();
    list.select_prev();
    assert_eq!(list.selected(), 0);
    list.select_last();
    list.select_prev();
    assert_eq!(list.selected(), 1);
    list.select_prev();
    list.select_prev();
    assert_eq!(list.selected(), 0);
}

#[test]
fn first_and_last_jump_to_the_ends() {
    let mut list = three_rows();
    list.select_last();
    assert_eq!(list.selected(), 2);
    list.select_first();
    assert_eq!(list.selected(), 0);
}

#[test]
fn single_row_is_never_left() {
    let mut list = MessageList::new(vec![listed("only", vec![])]);
    for _ in 0..10 {
        list.select_next();
        assert_eq!(list.selected(), 0);
    }
    list.select_last();
    assert_eq!(list.selected(), 0);
}

#[test]
fn empty_list_keeps_row_zero() {
    let mut list = MessageList::new(vec![]);
    assert!(list.is_empty());
    assert_eq!(list.len(), 0);
    list.select_next();
    assert_eq!(list.selected(), 0);
    list.select_last();
    assert_eq!(list.selected(), 0);
    list.select_prev();
    assert_eq!(list.selected(), 0);
    list.select_first();
    assert_eq!(list.selected(), 0);
}

#[test]
fn selected_message_is_the_row_in_pre_order() {
    let mut list = three_rows();
    assert_eq!(list.get_selected().unwrap().id, "a");
    list.select_next();
    assert_eq!(list.get_selected().unwrap().id, "b");
    list.select_next();
    assert_eq!(list.get_selected().unwrap().id, "c");
}

#[test]
fn empty_list_has_no_selected_message() {
    let list = MessageList::new(vec![]);
    assert_eq!(list.get_selected().err(), Some(Error::EmptySelection));
}
