use nutt::app::{App, AppState};
use nutt::browser::{
    index_event, index_height, index_key, index_window, scroll_into_view, visible_range,
    IndexView,
};
use nutt::error::Error;
use nutt::keys::{Event, Gesture, Key};
use nutt::message::{Headers, Message};

fn row(id: usize) -> Message {
    Message {
        id: id.to_string(),
        filename: vec![],
        timestamp: 0,
        date_relative: String::new(),
        tags: vec![],
        body: vec![],
        headers: Headers::new(),
        depth: 0,
        replies: vec![],
    }
}

fn browsing(rows: usize, height: usize) -> (App, IndexView) {
    let mut app = App::new();
    app.finish_refresh(Ok((0..rows).map(row).collect()));
    let mut view = IndexView::new();
    view.resize(&app.messages, height);
    (app, view)
}

fn type_keys(app: &mut App, view: &mut IndexView, keys: &str) {
    for c in keys.chars() {
        index_key(app, view, Key::Char(c));
    }
}

#[test]
fn offset_stays_while_the_row_is_in_the_window() {
    assert_eq!(scroll_into_view(0, 0, 10, 5), 0);
    assert_eq!(scroll_into_view(0, 4, 10, 5), 0);
    assert_eq!(scroll_into_view(3, 3, 10, 5), 3);
    assert_eq!(scroll_into_view(3, 7, 10, 5), 3);
}

#[test]
fn offset_moves_just_enough_to_show_the_row() {
    assert_eq!(scroll_into_view(0, 5, 10, 5), 1);
    assert_eq!(scroll_into_view(0, 9, 10, 5), 5);
    assert_eq!(scroll_into_view(3, 8, 10, 5), 4);
    assert_eq!(scroll_into_view(5, 4, 10, 5), 4);
    assert_eq!(scroll_into_view(5, 0, 10, 5), 0);
}

#[test]
fn offset_leaves_no_blank_rows_after_a_resize() {
    assert_eq!(scroll_into_view(5, 9, 10, 8), 2);
    assert_eq!(scroll_into_view(5, 9, 10, 20), 0);
    assert_eq!(scroll_into_view(7, 7, 10, 5), 5);
    assert_eq!(scroll_into_view(3, 0, 0, 5), 0);
}

#[test]
fn offset_for_a_window_without_rows() {
    assert_eq!(scroll_into_view(0, 4, 10, 0), 4);
    assert_eq!(scroll_into_view(9, 4, 10, 0), 4);
    assert_eq!(scroll_into_view(0, usize::MAX, usize::MAX, 0), usize::MAX);
}

#[test]
fn window_shows_up_to_its_height() {
    assert_eq!(visible_range(0, 10, 5), (0, 5));
    assert_eq!(visible_range(7, 10, 5), (7, 10));
    assert_eq!(visible_range(12, 10, 5), (10, 10));
    assert_eq!(visible_range(0, 3, 5), (0, 3));
    assert_eq!(visible_range(2, 10, usize::MAX), (2, 10));
}

#[test]
fn new_view_is_at_the_top() {
    let view = IndexView::new();
    assert_eq!(view.scroll, 0);
    assert_eq!(view.height, 0);
    assert!(!view.editing);
    assert_eq!(view.input, "");
    assert_eq!(view.gesture, Gesture::Idle);
}

#[test]
fn moving_down_scrolls_when_the_window_ends() {
    let (mut app, mut view) = browsing(10, 3);
    type_keys(&mut app, &mut view, "jj");
    assert_eq!((app.messages.selected(), view.scroll), (2, 0));
    index_key(&mut app, &mut view, Key::Down);
    assert_eq!((app.messages.selected(), view.scroll), (3, 1));
    type_keys(&mut app, &mut view, "jjjjjjjjjj");
    assert_eq!((app.messages.selected(), view.scroll), (9, 7));
    type_keys(&mut app, &mut view, "k");
    assert_eq!((app.messages.selected(), view.scroll), (8, 7));
    type_keys(&mut app, &mut view, "kk");
    assert_eq!((app.messages.selected(), view.scroll), (6, 6));
    index_key(&mut app, &mut view, Key::Up);
    assert_eq!((app.messages.selected(), view.scroll), (5, 5));
}

#[test]
fn selection_and_offset_stay_in_bounds() {
    let (mut app, mut view) = browsing(7, 3);
    let keys = "jjjkjjjjjjjjkkGkkkkkkkkkkjggjjGjk";
    for c in keys.chars() {
        index_key(&mut app, &mut view, Key::Char(c));
        let selected = app.messages.selected();
        assert!(selected < 7);
        assert!(view.scroll <= 7 - 3);
        assert!(view.scroll <= selected);
        assert!(selected < view.scroll + 3);
    }
}

#[test]
fn resize_keeps_the_selected_row_in_the_window() {
    let (mut app, mut view) = browsing(10, 5);
    type_keys(&mut app, &mut view, "G");
    assert_eq!((app.messages.selected(), view.scroll), (9, 5));
    view.resize(&app.messages, 8);
    assert_eq!((view.height, view.scroll), (8, 2));
    view.resize(&app.messages, 2);
    assert_eq!(view.scroll, 8);
    view.resize(&app.messages, 1);
    assert_eq!(view.scroll, 9);
    view.resize(&app.messages, 30);
    assert_eq!(view.scroll, 0);
}

#[test]
fn next_on_a_single_row_never_moves() {
    let (mut app, mut view) = browsing(1, 5);
    for _ in 0..20 {
        index_key(&mut app, &mut view, Key::Char('j'));
        assert_eq!(app.messages.selected(), 0);
        assert_eq!(view.scroll, 0);
    }
    for _ in 0..20 {
        index_key(&mut app, &mut view, Key::Down);
        assert_eq!(app.messages.selected(), 0);
    }
}

#[test]
fn g_twice_jumps_to_the_top() {
    let (mut app, mut view) = browsing(10, 3);
    type_keys(&mut app, &mut view, "jjjjjj");
    assert_eq!((app.messages.selected(), view.scroll), (6, 4));
    type_keys(&mut app, &mut view, "g");
    assert_eq!(view.gesture, Gesture::Armed);
    assert_eq!((app.messages.selected(), view.scroll), (6, 4));
    type_keys(&mut app, &mut view, "g");
    assert_eq!(view.gesture, Gesture::Idle);
    assert_eq!((app.messages.selected(), view.scroll), (0, 0));
}

#[test]
fn key_between_two_g_prevents_the_jump() {
    for between in [Key::Char('x'), Key::Char('j'), Key::Char('q'), Key::Up, Key::Esc, Key::Other] {
        let (mut app, mut view) = browsing(10, 3);
        type_keys(&mut app, &mut view, "jjjjjj");
        index_key(&mut app, &mut view, Key::Char('g'));
        index_key(&mut app, &mut view, between);
        assert_eq!(view.gesture, Gesture::Idle);
        index_key(&mut app, &mut view, Key::Char('g'));
        assert_eq!((app.messages.selected(), view.scroll), (6, 4));
        assert_eq!(app.state, AppState::Index);
        assert_eq!(view.gesture, Gesture::Armed);
    }
}

#[test]
fn capital_g_jumps_to_the_last_row() {
    let (mut app, mut view) = browsing(10, 4);
    type_keys(&mut app, &mut view, "G");
    assert_eq!((app.messages.selected(), view.scroll), (9, 6));
}

#[test]
fn enter_opens_the_selected_message() {
    let (mut app, mut view) = browsing(2, 4);
    index_key(&mut app, &mut view, Key::Char('\n'));
    assert_eq!(app.state, AppState::View);
}

#[test]
fn enter_on_an_empty_index_does_nothing() {
    let (mut app, mut view) = browsing(0, 4);
    index_key(&mut app, &mut view, Key::Char('\n'));
    assert_eq!(app.state, AppState::Index);
    type_keys(&mut app, &mut view, "jGkgg");
    assert_eq!((app.messages.selected(), view.scroll), (0, 0));
}

#[test]
fn q_quits_and_m_composes() {
    let (mut app, mut view) = browsing(2, 4);
    index_key(&mut app, &mut view, Key::Char('m'));
    assert_eq!(app.state, AppState::Compose);
    let (mut app, mut view) = browsing(2, 4);
    index_key(&mut app, &mut view, Key::Char('q'));
    assert_eq!(app.state, AppState::Exit);
}

#[test]
fn other_keys_change_nothing() {
    let (mut app, mut view) = browsing(5, 4);
    type_keys(&mut app, &mut view, "j");
    for key in [Key::Char('x'), Key::Backspace, Key::Esc, Key::Other, Key::Char('i')] {
        index_key(&mut app, &mut view, key);
        assert_eq!(app.state, AppState::Index);
        assert_eq!((app.messages.selected(), view.scroll), (1, 0));
        assert!(!view.editing);
        assert_eq!(view.input, "");
    }
}

#[test]
fn search_term_is_edited_and_submitted() {
    let (mut app, mut view) = browsing(5, 4);
    type_keys(&mut app, &mut view, "l");
    assert!(view.editing);
    type_keys(&mut app, &mut view, "tag:gjq");
    assert_eq!(view.input, "tag:gjq");
    assert_eq!(app.messages.selected(), 0);
    assert_eq!(app.state, AppState::Index);
    index_key(&mut app, &mut view, Key::Backspace);
    index_key(&mut app, &mut view, Key::Backspace);
    index_key(&mut app, &mut view, Key::Backspace);
    assert_eq!(view.input, "tag:");
    index_key(&mut app, &mut view, Key::Up);
    index_key(&mut app, &mut view, Key::Other);
    type_keys(&mut app, &mut view, "new");
    assert_eq!(app.search_term, "tag:inbox");
    index_key(&mut app, &mut view, Key::Char('\n'));
    assert_eq!(app.search_term, "tag:new");
    assert_eq!(app.state, AppState::Refresh);
    assert_eq!(view.input, "");
    assert!(!view.editing);
}

#[test]
fn backspace_on_an_empty_search_term_does_nothing() {
    let (mut app, mut view) = browsing(5, 4);
    type_keys(&mut app, &mut view, "l");
    index_key(&mut app, &mut view, Key::Backspace);
    assert_eq!(view.input, "");
    assert!(view.editing);
}

#[test]
fn escape_leaves_the_editing_without_a_search() {
    let (mut app, mut view) = browsing(5, 4);
    type_keys(&mut app, &mut view, "labc");
    index_key(&mut app, &mut view, Key::Esc);
    assert!(!view.editing);
    assert_eq!(view.input, "abc");
    assert_eq!(app.search_term, "tag:inbox");
    assert_eq!(app.state, AppState::Index);
    type_keys(&mut app, &mut view, "j");
    assert_eq!(app.messages.selected(), 1);
}

#[test]
fn tick_changes_nothing() {
    let (mut app, mut view) = browsing(5, 2);
    type_keys(&mut app, &mut view, "jjj");
    index_event(&mut app, &mut view, Event::Tick);
    assert_eq!((app.messages.selected(), view.scroll), (3, 2));
    assert_eq!(app.state, AppState::Index);
    index_event(&mut app, &mut view, Event::Input(Key::Char('k')));
    assert_eq!((app.messages.selected(), view.scroll), (2, 2));
}

#[test]
fn failed_refresh_keeps_the_index() {
    let (mut app, mut view) = browsing(5, 2);
    type_keys(&mut app, &mut view, "jj");
    app.finish_refresh(Err(Error::MalformedThread));
    assert_eq!(app.state, AppState::Index);
    assert_eq!(app.status, Some(Error::MalformedThread));
    assert_eq!(app.messages.len(), 5);
    assert_eq!(app.messages.selected(), 2);
}

#[test]
fn window_shows_the_rows_in_sight() {
    let (mut app, mut view) = browsing(10, 3);
    type_keys(&mut app, &mut view, "jjjj");
    assert_eq!((app.messages.selected(), view.scroll), (4, 2));
    let window = index_window(&app.messages, &view);
    let ids: Vec<&str> = window.rows.iter().map(|row| row.message.id.as_str()).collect();
    assert_eq!(ids, vec!["2", "3", "4"]);
    assert_eq!(window.highlighted, Some(2));
    assert_eq!(window.rows[2].title, "<no subject>");
}

#[test]
fn window_at_the_end_shows_what_is_left() {
    let (app, mut view) = browsing(4, 3);
    view.scroll = 2;
    let window = index_window(&app.messages, &view);
    let ids: Vec<&str> = window.rows.iter().map(|row| row.message.id.as_str()).collect();
    assert_eq!(ids, vec!["2", "3"]);
    assert_eq!(window.highlighted, None);
    view.scroll = 9;
    assert!(index_window(&app.messages, &view).rows.is_empty());
}

#[test]
fn window_highlights_nothing_while_editing() {
    let (mut app, mut view) = browsing(4, 3);
    assert_eq!(index_window(&app.messages, &view).highlighted, Some(0));
    type_keys(&mut app, &mut view, "l");
    let window = index_window(&app.messages, &view);
    assert_eq!(window.highlighted, None);
    assert_eq!(window.rows.len(), 3);
}

#[test]
fn window_of_an_empty_index_is_empty() {
    let (app, view) = browsing(0, 3);
    let window = index_window(&app.messages, &view);
    assert!(window.rows.is_empty());
    assert_eq!(window.highlighted, None);
}

#[test]
fn window_is_what_the_frame_leaves() {
    assert_eq!(index_height(24), 19);
    assert_eq!(index_height(5), 0);
    assert_eq!(index_height(3), 0);
    assert_eq!(index_height(0), 0);
}
