use nutt::error::Error;
use nutt::message::{Headers, Message, Node};
use nutt::thread::{parse_messages, parse_thread};

fn thread_message(id: &str, subject: &str) -> Message {
    let mut headers = Headers::new();
    headers.insert("Subject".to_string(), subject.to_string());
    Message {
        id: id.to_string(),
        filename: vec![],
        timestamp: 1_600_000_000,
        date_relative: "today".to_string(),
        tags: vec!["inbox".to_string()],
        body: vec![],
        headers,
        depth: 0,
        replies: vec![],
    }
}

fn leaf_thread(id: &str) -> Vec<Node> {
    vec![Node::Msg(thread_message(id, id)), Node::Children(vec![])]
}

#[test]
fn thread_with_one_reply_becomes_a_tree() {
    let thread = vec![
        Node::Msg(thread_message("a", "Hi")),
        Node::Children(vec![vec![
            Node::Msg(thread_message("b", "Re: Hi")),
            Node::Children(vec![]),
        ]]),
    ];
    let mut messages = Vec::new();
    assert_eq!(parse_thread(&thread, 0, &mut messages), Ok(()));
    assert_eq!(messages.len(), 1);
    assert_eq!(messages[0].id, "a");
    assert_eq!(messages[0].depth, 0);
    assert_eq!(messages[0].replies.len(), 1);
    assert_eq!(messages[0].replies[0].id, "b");
    assert_eq!(messages[0].replies[0].depth, 1);
    assert!(messages[0].replies[0].replies.is_empty());
}

#[test]
fn thread_keeps_the_fields_of_its_messages() {
    let thread = vec![Node::Msg(thread_message("a", "Hi"))];
    let mut messages = Vec::new();
    assert_eq!(parse_thread(&thread, 0, &mut messages), Ok(()));
    assert_eq!(messages[0], thread_message("a", "Hi"));
}

#[test]
fn thread_is_appended_after_what_is_there() {
    let mut messages = vec![thread_message("first", "x")];
    assert_eq!(parse_thread(&leaf_thread("second"), 0, &mut messages), Ok(()));
    assert_eq!(messages.len(), 2);
    assert_eq!(messages[0].id, "first");
    assert_eq!(messages[1].id, "second");
}

#[test]
fn thread_starts_at_the_given_depth() {
    let thread = vec![
        Node::Msg(thread_message("a", "a")),
        Node::Children(vec![leaf_thread("b")]),
    ];
    let mut messages = Vec::new();
    assert_eq!(parse_thread(&thread, 3, &mut messages), Ok(()));
    assert_eq!(messages[0].depth, 3);
    assert_eq!(messages[0].replies[0].depth, 4);
}

#[test]
fn depth_is_the_nesting_level() {
    let thread = vec![
        Node::Msg(thread_message("a", "a")),
        Node::Children(vec![
            vec![
                Node::Msg(thread_message("b", "b")),
                Node::Children(vec![vec![
                    Node::Msg(thread_message("c", "c")),
                    Node::Children(vec![leaf_thread("d")]),
                ]]),
            ],
            leaf_thread("e"),
        ]),
    ];
    let forest = parse_messages(&vec![vec![thread]]).unwrap();
    assert_eq!(forest.len(), 1);
    let a = &forest[0];
    assert_eq!((a.id.as_str(), a.depth), ("a", 0));
    assert_eq!(a.replies.len(), 2);
    let b = &a.replies[0];
    assert_eq!((b.id.as_str(), b.depth), ("b", 1));
    let c = &b.replies[0];
    assert_eq!((c.id.as_str(), c.depth), ("c", 2));
    let d = &c.replies[0];
    assert_eq!((d.id.as_str(), d.depth), ("d", 3));
    let e = &a.replies[1];
    assert_eq!((e.id.as_str(), e.depth), ("e", 1));
}

#[test]
fn depth_of_the_input_is_not_taken_over() {
    let mut message = thread_message("a", "a");
    message.depth = 7;
    message.replies = vec![thread_message("stale", "stale")];
    let forest = parse_messages(&vec![vec![vec![Node::Msg(message)]]]).unwrap();
    assert_eq!(forest[0].depth, 0);
    assert!(forest[0].replies.is_empty());
}

#[test]
fn one_top_level_message_for_each_thread_set() {
    let sets = vec![
        vec![leaf_thread("a")],
        vec![vec![Node::Msg(thread_message("b", "b")), Node::Children(vec![leaf_thread("c")])]],
        vec![leaf_thread("d")],
    ];
    let forest = parse_messages(&sets).unwrap();
    assert_eq!(forest.len(), sets.len());
    let ids: Vec<&str> = forest.iter().map(|m| m.id.as_str()).collect();
    assert_eq!(ids, vec!["a", "b", "d"]);
}

#[test]
fn one_top_level_message_for_each_thread() {
    let sets = vec![vec![leaf_thread("a"), leaf_thread("b")], vec![], vec![leaf_thread("c")]];
    let forest = parse_messages(&sets).unwrap();
    let ids: Vec<&str> = forest.iter().map(|m| m.id.as_str()).collect();
    assert_eq!(ids, vec!["a", "b", "c"]);
}

#[test]
fn empty_search_result_is_an_empty_forest() {
    assert_eq!(parse_messages(&vec![]), Ok(vec![]));
    assert_eq!(parse_messages(&vec![vec![], vec![]]), Ok(vec![]));
}

#[test]
fn several_children_nodes_add_up() {
    let thread = vec![
        Node::Msg(thread_message("a", "a")),
        Node::Children(vec![leaf_thread("b")]),
        Node::Children(vec![leaf_thread("c"), leaf_thread("d")]),
    ];
    let forest = parse_messages(&vec![vec![thread]]).unwrap();
    let ids: Vec<&str> = forest[0].replies.iter().map(|m| m.id.as_str()).collect();
    assert_eq!(ids, vec!["b", "c", "d"]);
}

#[test]
fn children_slot_with_a_bare_message_is_malformed() {
    let thread = vec![Node::Msg(thread_message("a", "a")), Node::Msg(thread_message("b", "b"))];
    let mut messages = vec![thread_message("kept", "kept")];
    assert_eq!(parse_thread(&thread, 0, &mut messages), Err(Error::MalformedThread));
    assert_eq!(messages, vec![thread_message("kept", "kept")]);
    assert_eq!(parse_messages(&vec![vec![thread]]), Err(Error::MalformedThread));
}

#[test]
fn thread_without_a_message_is_malformed() {
    let mut messages = Vec::new();
    assert_eq!(parse_thread(&vec![], 0, &mut messages), Err(Error::MalformedThread));
    assert_eq!(
        parse_thread(&vec![Node::Children(vec![])], 0, &mut messages),
        Err(Error::MalformedThread)
    );
    assert!(messages.is_empty());
}

#[test]
fn malformed_reply_fails_the_whole_parse() {
    let broken = vec![
        Node::Msg(thread_message("b", "b")),
        Node::Children(vec![leaf_thread("c"), vec![Node::Children(vec![])]]),
    ];
    let sets = vec![vec![leaf_thread("a")], vec![broken], vec![leaf_thread("z")]];
    assert_eq!(parse_messages(&sets), Err(Error::MalformedThread));
}

#[test]
fn reply_below_the_deepest_level_is_malformed() {
    let thread = vec![Node::Msg(thread_message("a", "a")), Node::Children(vec![leaf_thread("b")])];
    let mut messages = Vec::new();
    assert_eq!(parse_thread(&thread, usize::MAX, &mut messages), Err(Error::MalformedThread));
    assert!(messages.is_empty());
    assert_eq!(parse_thread(&leaf_thread("a"), usize::MAX, &mut messages), Ok(()));
    assert_eq!(messages[0].depth, usize::MAX);
}
