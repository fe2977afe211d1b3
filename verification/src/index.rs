//! The flattener: from a forest of message trees to the rows of the index,
//! one row for each message, in pre-order.

use vstd::prelude::*;
use crate::message::{forest_model, texts, Message, MessageModel};
use crate::text::{clip, clip_text, fit, fit_text, spaces};

verus! {

/// Width of the date field of a row, in characters.
pub const DATE_WIDTH: usize = 12;

/// Greatest width of the title of a row, in characters.
pub const TITLE_WIDTH: usize = 45;

/// Model of [`DisplayRow`].
pub struct RowModel {
    pub date: Seq<char>,
    pub from: Seq<char>,
    pub title: Seq<char>,
    pub tags: Seq<char>,
    pub message: MessageModel,
}

/// One line of the index: the rendered fields of a message, and the message.
#[derive(Debug)]
pub struct DisplayRow<'a> {
    /// The relative date, cut or filled up to [`DATE_WIDTH`].
    pub date: String,
    /// The sender.
    pub from: String,
    /// The indented subject, cut to [`TITLE_WIDTH`].
    pub title: String,
    /// The tags, in brackets.
    pub tags: String,
    pub message: &'a Message,
}

impl<'a> View for DisplayRow<'a> {
    type V = RowModel;

    open spec fn view(&self) -> RowModel {
        RowModel {
            date: self.date@,
            from: self.from@,
            title: self.title@,
            tags: self.tags@,
            message: self.message@,
        }
    }
}

/// The models of the rows of a vector.
pub open spec fn rows_model(rows: Vec<DisplayRow>) -> Seq<RowModel> {
    Seq::new(rows.len() as nat, |i: int| rows[i]@)
}

/// The models of the messages that a vector refers to.
pub open spec fn refs_model(refs: Vec<&Message>) -> Seq<MessageModel> {
    Seq::new(refs.len() as nat, |i: int| refs[i]@)
}

/// The messages of a forest in pre-order: each message, then its replies with
/// all that is below them, then the next message of the same level.
pub open spec fn preorder(forest: Seq<MessageModel>) -> Seq<MessageModel>
    decreases forest,
{
    if forest.len() == 0 {
        Seq::empty()
    } else {
        preorder(forest.drop_last()).push(forest.last()) + preorder(forest.last().replies)
    }
}

/// The number of messages in a forest, replies at every level included.
pub open spec fn message_count(forest: Seq<MessageModel>) -> nat
    decreases forest,
{
    if forest.len() == 0 {
        0
    } else {
        message_count(forest.drop_last()) + 1 + message_count(forest.last().replies)
    }
}

/// The pre-order of two forests side by side is the pre-order of the first
/// followed by that of the second.
pub proof fn lemma_preorder_concat(a: Seq<MessageModel>, b: Seq<MessageModel>)
    ensures
        preorder(a + b) == preorder(a) + preorder(b),
    decreases b.len(),
{
    if b.len() == 0 {
        assert(a + b == a);
    } else {
        lemma_preorder_concat(a, b.drop_last());
        assert((a + b).drop_last() == a + b.drop_last());
        assert(preorder(a + b) == (preorder(a) + preorder(b.drop_last())).push(b.last())
            + preorder(b.last().replies));
    }
}

/// The flattened forest has one row for each of its messages.
pub proof fn law_one_row_per_message(forest: Seq<MessageModel>)
    ensures
        preorder(forest).len() == message_count(forest),
    decreases forest,
{
    if forest.len() > 0 {
        law_one_row_per_message(forest.drop_last());
        law_one_row_per_message(forest.last().replies);
    }
}

/// Pre-order: among the messages of one level, a message comes right after
/// all that its preceding siblings and their subtrees take up, its own
/// subtree follows it without a gap, and only then come its later siblings.
/// So the row of a message precedes the rows of all its descendants.
pub proof fn law_preorder(forest: Seq<MessageModel>, i: int)
    requires
        0 <= i < forest.len(),
    ensures
        preorder(forest) == preorder(forest.take(i)).push(forest[i]) + preorder(forest[i].replies)
            + preorder(forest.skip(i + 1)),
        preorder(forest)[preorder(forest.take(i)).len() as int] == forest[i],
{
    let head = forest.take(i + 1);
    let tail = forest.skip(i + 1);
    assert(forest == head + tail);
    lemma_preorder_concat(head, tail);
    assert(head.drop_last() == forest.take(i));
}

/// What stands in the title of a message without a subject.
pub open spec fn no_subject() -> Seq<char> {
    "<no subject>"@
}

/// What stands for the sender of a message without one.
pub open spec fn no_sender() -> Seq<char> {
    "n/a"@
}

/// The title of a message: two spaces for each level of depth, then the
/// subject or its placeholder; cut to [`TITLE_WIDTH`].
pub open spec fn subject_title(subject: Option<Seq<char>>, depth: nat) -> Seq<char> {
    clip(
        spaces(2 * depth) + match subject {
            Some(s) => s,
            None => no_subject(),
        },
        TITLE_WIDTH as nat,
    )
}

/// The strings of `tags` with a comma between each two.
pub open spec fn joined(tags: Seq<Seq<char>>) -> Seq<char>
    decreases tags.len(),
{
    if tags.len() == 0 {
        Seq::empty()
    } else if tags.len() == 1 {
        tags[0]
    } else {
        joined(tags.drop_last()).push(',') + tags.last()
    }
}

/// The tags of a message as the index shows them: joined by commas, in
/// square brackets.
pub open spec fn tags_text(tags: Seq<Seq<char>>) -> Seq<char> {
    (seq!['['] + joined(tags)).push(']')
}

/// The value of a header, or `default` where the message has none.
pub open spec fn header_or(
    headers: Map<Seq<char>, Seq<char>>,
    name: Seq<char>,
    default: Seq<char>,
) -> Seq<char> {
    if headers.contains_key(name) {
        headers[name]
    } else {
        default
    }
}

/// The subject of a message, if it has one.
pub open spec fn subject_of(headers: Map<Seq<char>, Seq<char>>) -> Option<Seq<char>> {
    if headers.contains_key("Subject"@) {
        Some(headers["Subject"@])
    } else {
        None
    }
}

/// The row of a message.
pub open spec fn row_of(m: MessageModel) -> RowModel {
    RowModel {
        date: fit(m.date_relative, DATE_WIDTH as nat),
        from: header_or(m.headers, "From"@, no_sender()),
        title: subject_title(subject_of(m.headers), m.depth),
        tags: tags_text(m.tags),
        message: m,
    }
}

/// Renders the title of a message from its subject and its depth.
pub fn format_subject(subject: Option<&String>, depth: usize) -> (title: String)
    ensures
        title@ == subject_title(text_of_ref(subject), depth as nat),
{
    let mut full = String::new();
    let mut k: usize = 0;
    // Beyond the title width a deeper indentation shows no further.
    while k < depth && k < TITLE_WIDTH
        invariant
            k <= depth,
            k <= TITLE_WIDTH,
            full@ == spaces(2 * (k as nat)),
        decreases TITLE_WIDTH - k,
    {
        full.append("  ");
        proof {
            reveal_strlit("  ");
            assert(full@ == spaces(2 * ((k + 1) as nat)));
        }
        k = k + 1;
    }
    let ghost lead = full@;
    match subject {
        Some(s) => full.append(s.as_str()),
        None => full.append("<no subject>"),
    }
    proof {
        let rest = full@.skip(lead.len() as int);
        assert(full@ == lead + rest);
        assert(clip(full@, TITLE_WIDTH as nat) == clip(
            spaces(2 * (depth as nat)) + rest,
            TITLE_WIDTH as nat,
        ));
    }
    clip_text(full.as_str(), TITLE_WIDTH)
}

/// The characters of an optional reference to a string.
pub open spec fn text_of_ref(s: Option<&String>) -> Option<Seq<char>> {
    match s {
        Some(s) => Some(s@),
        None => None,
    }
}

/// Renders the tags of a message: joined by commas, in square brackets.
pub fn format_tags(tags: &Vec<String>) -> (shown: String)
    ensures
        shown@ == tags_text(texts(*tags)),
{
    let mut shown = String::new();
    shown.push('[');
    let ghost all = texts(*tags);
    let mut i: usize = 0;
    while i < tags.len()
        invariant
            i <= tags.len(),
            all == texts(*tags),
            shown@ == seq!['['] + joined(all.take(i as int)),
        decreases tags.len() - i,
    {
        if i > 0 {
            shown.push(',');
        }
        shown.append(tags[i].as_str());
        assert(all.take(i + 1).drop_last() == all.take(i as int));
        i = i + 1;
    }
    assert(all.take(i as int) == all);
    shown.push(']');
    shown
}

/// Renders the row of a message.
pub fn render_row<'a>(message: &'a Message) -> (row: DisplayRow<'a>)
    ensures
        row@ == row_of(message@),
{
    let from = match message.headers.get("From") {
        Some(sender) => sender.clone(),
        None => String::from_str("n/a"),
    };
    DisplayRow {
        date: fit_text(message.date_relative.as_str(), DATE_WIDTH),
        from,
        title: format_subject(message.headers.get("Subject"), message.depth),
        tags: format_tags(&message.tags),
        message,
    }
}

/// Appends the messages of `forest` to `refs`, in pre-order.
fn collect<'a>(forest: &'a Vec<Message>, refs: &mut Vec<&'a Message>)
    ensures
        refs_model(*final(refs)) == refs_model(*old(refs)) + preorder(forest_model(*forest)),
    decreases forest,
{
    let ghost all = forest_model(*forest);
    let ghost start = refs_model(*refs);
    let mut i: usize = 0;
    while i < forest.len()
        invariant
            i <= forest.len(),
            all == forest_model(*forest),
            refs_model(*refs) == start + preorder(all.take(i as int)),
        decreases forest.len() - i,
    {
        let message = &forest[i];
        refs.push(message);
        collect(&message.replies, refs);
        proof {
            assert(all.take(i + 1).drop_last() == all.take(i as int));
            let done = preorder(all.take(i as int));
            let below = preorder(message@.replies);
            assert((start + done).push(message@) + below == start + (done.push(message@) + below));
        }
        i = i + 1;
    }
    assert(all.take(i as int) == all);
}

/// The messages of a forest, in pre-order.
pub fn messages_in_order<'a>(forest: &'a Vec<Message>) -> (refs: Vec<&'a Message>)
    ensures
        refs_model(refs) == preorder(forest_model(*forest)),
{
    let mut refs: Vec<&'a Message> = Vec::new();
    collect(forest, &mut refs);
    refs
}

/// The rows of the index for a forest: one row for each message, in
/// pre-order.
pub fn flatten<'a>(forest: &'a Vec<Message>) -> (rows: Vec<DisplayRow<'a>>)
    ensures
        rows_model(rows) == preorder(forest_model(*forest)).map_values(
            |m: MessageModel| row_of(m),
        ),
{
    let refs = messages_in_order(forest);
    let mut rows: Vec<DisplayRow<'a>> = Vec::new();
    let mut i: usize = 0;
    while i < refs.len()
        invariant
            i <= refs.len(),
            rows.len() == i,
            forall|j: int| 0 <= j < i ==> (#[trigger] rows[j])@ == row_of(refs[j]@),
        decreases refs.len() - i,
    {
        rows.push(render_row(refs[i]));
        i = i + 1;
    }
    rows
}

} // verus!
