use nutt::app::{prepare_draft, App, AppState};
use nutt::error::Error;
use nutt::message::{Headers, Message};

fn found(id: &str) -> Message {
    Message {
        id: id.to_string(),
        filename: vec![],
        timestamp: 0,
        date_relative: String::new(),
        tags: vec![],
        body: vec![],
        headers: Headers::new(),
        depth: 0,
        replies: vec![],
    }
}

#[test]
fn application_starts_with_a_refresh_of_the_inbox() {
    let app = App::new();
    assert_eq!(app.state, AppState::Refresh);
    assert_eq!(app.search_term, "tag:inbox");
    assert!(app.messages.is_empty());
    assert_eq!(app.messages.selected(), 0);
    assert_eq!(app.status, None);
}

#[test]
fn blank_search_becomes_the_inbox_search() {
    let mut app = App::new();
    app.search_term = String::new();
    assert_eq!(app.begin_refresh(), "tag:inbox");
    assert_eq!(app.search_term, "tag:inbox");
    assert_eq!(app.state, AppState::Refresh);
}

#[test]
fn search_term_is_searched_as_it_is() {
    let mut app = App::new();
    app.search_term = "from:ann and tag:unread".to_string();
    assert_eq!(app.begin_refresh(), "from:ann and tag:unread");
    assert_eq!(app.search_term, "from:ann and tag:unread");
    app.search_term = " ".to_string();
    assert_eq!(app.begin_refresh(), " ");
}

#[test]
fn refresh_replaces_the_index() {
    let mut app = App::new();
    app.finish_refresh(Ok(vec![found("a"), found("b"), found("c")]));
    assert_eq!(app.state, AppState::Index);
    assert_eq!(app.messages.len(), 3);
    app.messages.select_last();
    app.report(Error::ExternalToolFailed);
    app.finish_refresh(Ok(vec![found("d"), found("e")]));
    assert_eq!(app.state, AppState::Index);
    assert_eq!(app.messages.len(), 2);
    assert_eq!(app.messages.selected(), 0);
    assert_eq!(app.messages.get_selected().unwrap().id, "d");
    assert_eq!(app.status, None);
}

#[test]
fn failed_search_is_reported_and_the_index_kept() {
    let mut app = App::new();
    app.finish_refresh(Ok(vec![found("a"), found("b")]));
    app.messages.select_next();
    app.state = AppState::Refresh;
    app.finish_refresh(Err(Error::SearchFailed));
    assert_eq!(app.state, AppState::Index);
    assert_eq!(app.status, Some(Error::SearchFailed));
    assert_eq!(app.messages.len(), 2);
    assert_eq!(app.messages.get_selected().unwrap().id, "b");
}

#[test]
fn leaving_the_reader_leads_back_to_the_index() {
    let mut app = App::new();
    app.finish_refresh(Ok(vec![found("a")]));
    app.state = AppState::View;
    app.enter_view();
    assert_eq!(app.state, AppState::Index);
    assert_eq!(app.messages.len(), 1);
}

#[test]
fn composing_leads_to_a_refresh() {
    let mut app = App::new();
    app.state = AppState::Compose;
    app.finish_compose(Ok(()));
    assert_eq!(app.state, AppState::Refresh);
    assert_eq!(app.status, None);
    app.state = AppState::Compose;
    app.finish_compose(Err(Error::ExternalToolFailed));
    assert_eq!(app.state, AppState::Refresh);
    assert_eq!(app.status, Some(Error::ExternalToolFailed));
}

#[test]
fn report_keeps_the_state() {
    let mut app = App::new();
    app.finish_refresh(Ok(vec![found("a")]));
    app.state = AppState::View;
    app.report(Error::AttachmentFetchFailed);
    assert_eq!(app.state, AppState::View);
    assert_eq!(app.status, Some(Error::AttachmentFetchFailed));
    assert_eq!(app.messages.len(), 1);
    assert_eq!(app.search_term, "tag:inbox");
}

#[test]
fn empty_draft_is_not_inserted() {
    assert_eq!(prepare_draft(String::new()), None);
}

#[test]
fn draft_of_one_line_gets_a_line_feed() {
    assert_eq!(prepare_draft("hello".to_string()), Some("hello\n".to_string()));
    assert_eq!(prepare_draft("hello\n".to_string()), Some("hello\n\n".to_string()));
    assert_eq!(prepare_draft("\n".to_string()), Some("\n\n".to_string()));
}

#[test]
fn longer_draft_is_inserted_as_it_is() {
    assert_eq!(prepare_draft("a\nb".to_string()), Some("a\nb".to_string()));
    assert_eq!(prepare_draft("a\nb\n".to_string()), Some("a\nb\n".to_string()));
}
