//! The thread parser: from the nested nodes that the index returns for a
//! search to a forest of message trees.
//!
//! A thread is a message node followed by "children" nodes; each children
//! node lists the sub-threads that reply to the message. A search result is a
//! list of thread sets, each a list of threads.

use vstd::prelude::*;
use crate::error::Error;
use crate::message::{
    clone_parts,
    clone_texts,
    forest_model,
    thread_model,
    thread_sets_model,
    threads_model,
    Message,
    MessageModel,
    Node,
    NodeModel,
};

verus! {

/// The tree that a thread stands for, its root at nesting level `depth`.
///
/// `None` when the thread is malformed: it is empty, it does not start with a
/// message, a node after the first is not a children node, a sub-thread is
/// malformed, or a message is nested deeper than a `usize` can count.
pub open spec fn thread_tree(thread: Seq<NodeModel>, depth: nat) -> Option<MessageModel>
    decreases thread,
{
    if thread.len() == 0 || depth > usize::MAX {
        None
    } else {
        match thread[0] {
            NodeModel::Msg(m) => match children_trees(thread.skip(1), depth + 1) {
                Some(replies) => Some(MessageModel { depth, replies, ..m }),
                None => None,
            },
            NodeModel::Children(_) => None,
        }
    }
}

/// The trees of all sub-threads that the children nodes `nodes` list, in
/// order, each root at `depth`.
pub open spec fn children_trees(nodes: Seq<NodeModel>, depth: nat) -> Option<Seq<MessageModel>>
    decreases nodes,
{
    if nodes.len() == 0 {
        Some(Seq::empty())
    } else {
        match nodes.last() {
            NodeModel::Children(threads) => match (
                children_trees(nodes.drop_last(), depth),
                thread_trees(threads, depth),
            ) {
                (Some(before), Some(trees)) => Some(before + trees),
                _ => None,
            },
            NodeModel::Msg(_) => None,
        }
    }
}

/// The trees of the threads `threads`, in order, each root at `depth`.
pub open spec fn thread_trees(threads: Seq<Seq<NodeModel>>, depth: nat) -> Option<
    Seq<MessageModel>,
>
    decreases threads,
{
    if threads.len() == 0 {
        Some(Seq::empty())
    } else {
        match (thread_trees(threads.drop_last(), depth), thread_tree(threads.last(), depth)) {
            (Some(before), Some(tree)) => Some(before.push(tree)),
            _ => None,
        }
    }
}

/// The forest that a search result stands for: the trees of all threads of
/// all thread sets, in order, each root at level 0.
pub open spec fn forest_of(sets: Seq<Seq<Seq<NodeModel>>>) -> Option<Seq<MessageModel>>
    decreases sets.len(),
{
    if sets.len() == 0 {
        Some(Seq::empty())
    } else {
        match (forest_of(sets.drop_last()), thread_trees(sets.last(), 0)) {
            (Some(before), Some(trees)) => Some(before + trees),
            _ => None,
        }
    }
}

/// The number of threads in all thread sets of a search result.
pub open spec fn thread_count(sets: Seq<Seq<Seq<NodeModel>>>) -> nat
    decreases sets.len(),
{
    if sets.len() == 0 {
        0
    } else {
        thread_count(sets.drop_last()) + sets.last().len()
    }
}

/// Whether `m` has depth `level` and every message below it the depth of its
/// nesting: each reply one more than the message it answers.
pub open spec fn levelled(m: MessageModel, level: nat) -> bool
    decreases m,
{
    &&& m.depth == level
    &&& forall|i: int| 0 <= i < m.replies.len() ==> levelled(#[trigger] m.replies[i], level + 1)
}

/// The tree of a thread is levelled from the depth of its root.
proof fn lemma_tree_levelled(thread: Seq<NodeModel>, depth: nat)
    requires
        thread_tree(thread, depth) is Some,
    ensures
        levelled(thread_tree(thread, depth).unwrap(), depth),
    decreases thread, 1nat,
{
    lemma_children_levelled(thread.skip(1), depth + 1);
}

/// The trees of children nodes are levelled from their depth.
proof fn lemma_children_levelled(nodes: Seq<NodeModel>, depth: nat)
    requires
        children_trees(nodes, depth) is Some,
    ensures
        forall|i: int|
            0 <= i < children_trees(nodes, depth).unwrap().len() ==> levelled(
                #[trigger] children_trees(nodes, depth).unwrap()[i],
                depth,
            ),
    decreases nodes, 0nat,
{
    if nodes.len() > 0 {
        lemma_children_levelled(nodes.drop_last(), depth);
        lemma_threads_levelled(nodes.last()->Children_0, depth);
    }
}

/// The trees of a list of threads are as many as the threads, and levelled
/// from their depth.
proof fn lemma_threads_levelled(threads: Seq<Seq<NodeModel>>, depth: nat)
    requires
        thread_trees(threads, depth) is Some,
    ensures
        thread_trees(threads, depth).unwrap().len() == threads.len(),
        forall|i: int|
            0 <= i < threads.len() ==> levelled(
                #[trigger] thread_trees(threads, depth).unwrap()[i],
                depth,
            ),
    decreases threads, 0nat,
{
    if threads.len() > 0 {
        lemma_threads_levelled(threads.drop_last(), depth);
        lemma_tree_levelled(threads.last(), depth);
    }
}

/// Thread sets of one thread each hold as many threads as there are sets.
proof fn lemma_single_threads(sets: Seq<Seq<Seq<NodeModel>>>)
    requires
        forall|i: int| 0 <= i < sets.len() ==> (#[trigger] sets[i]).len() == 1,
    ensures
        thread_count(sets) == sets.len(),
    decreases sets.len(),
{
    if sets.len() > 0 {
        assert forall|i: int| 0 <= i < sets.drop_last().len() implies (
        #[trigger] sets.drop_last()[i]).len() == 1 by {
            assert(sets.drop_last()[i] == sets[i]);
        }
        lemma_single_threads(sets.drop_last());
        assert(sets.last() == sets[sets.len() - 1]);
    }
}

/// A search result that parses gives one top-level message for each thread,
/// so one for each thread set where every thread set holds a single thread.
pub proof fn law_top_level_count(sets: Seq<Seq<Seq<NodeModel>>>)
    requires
        forest_of(sets) is Some,
    ensures
        forest_of(sets).unwrap().len() == thread_count(sets),
        (forall|i: int| 0 <= i < sets.len() ==> (#[trigger] sets[i]).len() == 1) ==> forest_of(
            sets,
        ).unwrap().len() == sets.len(),
    decreases sets.len(),
{
    if sets.len() > 0 {
        law_top_level_count(sets.drop_last());
        lemma_threads_levelled(sets.last(), 0);
    }
    if forall|i: int| 0 <= i < sets.len() ==> (#[trigger] sets[i]).len() == 1 {
        lemma_single_threads(sets);
    }
}

/// In the forest of a search result that parses, every top-level message has
/// depth 0 and every other message a depth one more than the message that it
/// replies to: the depth of a message is its nesting level.
pub proof fn law_depth_is_nesting_level(sets: Seq<Seq<Seq<NodeModel>>>)
    requires
        forest_of(sets) is Some,
    ensures
        forall|i: int|
            0 <= i < forest_of(sets).unwrap().len() ==> levelled(
                #[trigger] forest_of(sets).unwrap()[i],
                0,
            ),
    decreases sets.len(),
{
    if sets.len() > 0 {
        law_depth_is_nesting_level(sets.drop_last());
        lemma_threads_levelled(sets.last(), 0);
    }
}

/// A children list that parses has only prefixes that parse.
proof fn lemma_children_prefix(nodes: Seq<NodeModel>, depth: nat, k: int)
    requires
        0 <= k <= nodes.len(),
        children_trees(nodes, depth) is Some,
    ensures
        children_trees(nodes.take(k), depth) is Some,
    decreases nodes.len(),
{
    if k == nodes.len() {
        assert(nodes.take(k) == nodes);
    } else {
        lemma_children_prefix(nodes.drop_last(), depth, k);
        assert(nodes.drop_last().take(k) == nodes.take(k));
    }
}

/// A list of threads that parses has only prefixes that parse.
proof fn lemma_threads_prefix(threads: Seq<Seq<NodeModel>>, depth: nat, k: int)
    requires
        0 <= k <= threads.len(),
        thread_trees(threads, depth) is Some,
    ensures
        thread_trees(threads.take(k), depth) is Some,
    decreases threads.len(),
{
    if k == threads.len() {
        assert(threads.take(k) == threads);
    } else {
        lemma_threads_prefix(threads.drop_last(), depth, k);
        assert(threads.drop_last().take(k) == threads.take(k));
    }
}

/// A search result that parses has only prefixes that parse.
proof fn lemma_forest_prefix(sets: Seq<Seq<Seq<NodeModel>>>, k: int)
    requires
        0 <= k <= sets.len(),
        forest_of(sets) is Some,
    ensures
        forest_of(sets.take(k)) is Some,
    decreases sets.len(),
{
    if k == sets.len() {
        assert(sets.take(k) == sets);
    } else {
        lemma_forest_prefix(sets.drop_last(), k);
        assert(sets.drop_last().take(k) == sets.take(k));
    }
}

/// Parses one thread into its tree.
fn parse_tree(thread: &Vec<Node>, depth: usize) -> (result: Result<Message, Error>)
    ensures
        match thread_tree(thread_model(*thread), depth as nat) {
            Some(tree) => result matches Ok(m) && m@ == tree,
            None => result == Err::<Message, Error>(Error::MalformedThread),
        },
    decreases thread, 1nat,
{
    if thread.len() == 0 {
        return Err(Error::MalformedThread);
    }
    match &thread[0] {
        Node::Children(_) => Err(Error::MalformedThread),
        Node::Msg(m) => {
            let ghost rest = thread_model(*thread).skip(1);
            let mut replies: Vec<Message> = Vec::new();
            let mut i: usize = 1;
            while i < thread.len()
                invariant
                    1 <= i <= thread.len(),
                    rest == thread_model(*thread).skip(1),
                    children_trees(rest.take(i - 1), (depth + 1) as nat) == Some(
                        forest_model(replies),
                    ),
                decreases thread.len() - i,
            {
                let ghost before = forest_model(replies);
                proof {
                    assert(rest.take(i as int).drop_last() == rest.take(i - 1));
                    assert(rest.take(i as int).last() == thread[i as int]@);
                    if children_trees(rest, (depth + 1) as nat) is Some {
                        lemma_children_prefix(rest, (depth + 1) as nat, i as int);
                    }
                }
                match &thread[i] {
                    Node::Msg(_) => {
                        return Err(Error::MalformedThread);
                    },
                    Node::Children(threads) => {
                        let ghost sub = threads_model(*threads);
                        assert(rest.take(i as int).last() == NodeModel::Children(sub));
                        if depth == usize::MAX {
                            if threads.len() > 0 {
                                proof {
                                    // No message can be one level deeper.
                                    assert(thread_tree(sub[0], (depth + 1) as nat) is None);
                                    assert(sub.take(1).last() == sub[0]);
                                    assert(thread_trees(sub.take(1), (depth + 1) as nat) is None);
                                    if thread_trees(sub, (depth + 1) as nat) is Some {
                                        lemma_threads_prefix(sub, (depth + 1) as nat, 1);
                                    }
                                }
                                return Err(Error::MalformedThread);
                            }
                            assert(thread_trees(sub, (depth + 1) as nat) == Some(
                                Seq::<MessageModel>::empty(),
                            ));
                            assert(before + Seq::<MessageModel>::empty() == before);
                        } else {
                            match parse_threads(threads, depth + 1, &mut replies) {
                                Ok(()) => {},
                                Err(e) => {
                                    return Err(e);
                                },
                            }
                        }
                        assert(children_trees(rest.take(i as int), (depth + 1) as nat) == Some(
                            forest_model(replies),
                        ));
                    },
                }
                i = i + 1;
            }
            assert(rest.take(i - 1) == rest);
            Ok(
                Message {
                    id: m.id.clone(),
                    filename: clone_texts(&m.filename),
                    timestamp: m.timestamp,
                    date_relative: m.date_relative.clone(),
                    tags: clone_texts(&m.tags),
                    body: clone_parts(&m.body),
                    headers: m.headers.clone(),
                    depth,
                    replies,
                },
            )
        },
    }
}

/// Parses the threads of a list and appends their trees to `trees`.
fn parse_threads(threads: &Vec<Vec<Node>>, depth: usize, trees: &mut Vec<Message>) -> (result:
    Result<(), Error>)
    ensures
        match thread_trees(threads_model(*threads), depth as nat) {
            Some(parsed) => result is Ok && forest_model(*final(trees)) == forest_model(
                *old(trees),
            ) + parsed,
            None => result == Err::<(), Error>(Error::MalformedThread),
        },
    decreases threads, 0nat,
{
    let ghost all = threads_model(*threads);
    let ghost start = forest_model(*trees);
    let mut j: usize = 0;
    while j < threads.len()
        invariant
            j <= threads.len(),
            all == threads_model(*threads),
            thread_trees(all.take(j as int), depth as nat) is Some,
            forest_model(*trees) == start + thread_trees(all.take(j as int), depth as nat).unwrap(),
        decreases threads.len() - j,
    {
        proof {
            assert(all.take(j + 1).drop_last() == all.take(j as int));
            assert(all.take(j + 1).last() == thread_model(threads[j as int]));
            if thread_trees(all, depth as nat) is Some {
                lemma_threads_prefix(all, depth as nat, j + 1);
            }
        }
        match parse_tree(&threads[j], depth) {
            Ok(tree) => {
                let ghost before = forest_model(*trees);
                trees.push(tree);
                assert(forest_model(*trees) == before.push(tree@));
            },
            Err(e) => {
                return Err(e);
            },
        }
        j = j + 1;
    }
    assert(all.take(j as int) == all);
    Ok(())
}

/// Parses one thread and appends its tree to `messages`.
///
/// The root of the tree gets `depth`, each reply one more than the message it
/// answers. A malformed thread is refused as a whole: `messages` is then left
/// as it was.
pub fn parse_thread(thread: &Vec<Node>, depth: usize, messages: &mut Vec<Message>) -> (result:
    Result<(), Error>)
    ensures
        match thread_tree(thread_model(*thread), depth as nat) {
            Some(tree) => result is Ok && forest_model(*final(messages)) == forest_model(
                *old(messages),
            ).push(tree),
            None => result == Err::<(), Error>(Error::MalformedThread) && *final(messages) == *old(
                messages,
            ),
        },
{
    match parse_tree(thread, depth) {
        Ok(tree) => {
            let ghost before = forest_model(*messages);
            messages.push(tree);
            assert(forest_model(*messages) == before.push(tree@));
            Ok(())
        },
        Err(e) => Err(e),
    }
}

/// Parses a search result: the threads of every thread set, in order, become
/// the top-level trees of the forest.
///
/// A malformed thread anywhere fails the whole parse.
pub fn parse_messages(thread_sets: &Vec<Vec<Vec<Node>>>) -> (result: Result<Vec<Message>, Error>)
    ensures
        match forest_of(thread_sets_model(*thread_sets)) {
            Some(forest) => result matches Ok(messages) && forest_model(messages) == forest,
            None => result == Err::<Vec<Message>, Error>(Error::MalformedThread),
        },
{
    let ghost all = thread_sets_model(*thread_sets);
    let mut messages: Vec<Message> = Vec::new();
    let mut i: usize = 0;
    while i < thread_sets.len()
        invariant
            i <= thread_sets.len(),
            all == thread_sets_model(*thread_sets),
            forest_of(all.take(i as int)) == Some(forest_model(messages)),
        decreases thread_sets.len() - i,
    {
        proof {
            assert(all.take(i + 1).drop_last() == all.take(i as int));
            assert(all.take(i + 1).last() == threads_model(thread_sets[i as int]));
            if forest_of(all) is Some {
                lemma_forest_prefix(all, i + 1);
            }
        }
        match parse_threads(&thread_sets[i], 0, &mut messages) {
            Ok(()) => {},
            Err(e) => {
                return Err(e);
            },
        }
        i = i + 1;
    }
    assert(all.take(i as int) == all);
    Ok(messages)
}

} // verus!
