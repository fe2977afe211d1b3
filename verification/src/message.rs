//! The thread model: messages, their headers, multi-part bodies and replies.
//!
//! Every executable type has a mathematical model (`ContentModel`,
//! `BodyModel`, `MessageModel`, `NodeModel`, `AttachmentModel`) reached
//! through its view; all contracts of this crate are stated over those models.

use vstd::prelude::*;

verus! {

/// Model of [`Content`].
pub enum ContentModel {
    Str(Seq<char>),
    Array(Seq<BodyModel>),
}

/// Model of [`Body`].
pub struct BodyModel {
    pub id: nat,
    pub content_type: Seq<char>,
    pub content_transfer_encoding: Option<Seq<char>>,
    pub content_charset: Option<Seq<char>>,
    pub content: Option<ContentModel>,
    pub filename: Option<Seq<char>>,
}

/// Model of [`Message`].
pub struct MessageModel {
    pub id: Seq<char>,
    pub filename: Seq<Seq<char>>,
    pub timestamp: nat,
    pub date_relative: Seq<char>,
    pub tags: Seq<Seq<char>>,
    pub body: Seq<BodyModel>,
    pub headers: Map<Seq<char>, Seq<char>>,
    pub depth: nat,
    pub replies: Seq<MessageModel>,
}

/// Model of [`Node`].
pub enum NodeModel {
    Msg(MessageModel),
    Children(Seq<Seq<NodeModel>>),
}

/// Model of [`Attachment`].
pub enum AttachmentModel {
    Html(Seq<char>),
    File(nat, Seq<char>, Seq<char>),
}

/// The payload of a body part: a leaf string, or the child parts of a
/// multi-part container.
#[derive(Debug, PartialEq, Eq)]
pub enum Content {
    Str(String),
    Array(Vec<Body>),
}

/// One part of a message body.
#[derive(Debug, PartialEq, Eq)]
pub struct Body {
    /// Number of the part, unique within its message.
    pub id: usize,
    pub content_type: String,
    pub content_transfer_encoding: Option<String>,
    pub content_charset: Option<String>,
    pub content: Option<Content>,
    pub filename: Option<String>,
}

/// The headers of a message: a mapping from header name to value.
///
/// Entries are kept in insertion order; a later entry for a name replaces an
/// earlier one, so the view is a map with one value per name.
#[derive(Debug, PartialEq, Eq)]
pub struct Headers {
    entries: Vec<(String, String)>,
}

/// A message with its reply subtree.
#[derive(Debug, PartialEq, Eq)]
pub struct Message {
    pub id: String,
    pub filename: Vec<String>,
    /// Seconds since the epoch.
    pub timestamp: u64,
    pub date_relative: String,
    pub tags: Vec<String>,
    pub body: Vec<Body>,
    pub headers: Headers,
    /// Nesting level: 0 for the root of a thread.
    pub depth: usize,
    pub replies: Vec<Message>,
}

/// One element of a thread as the index delivers it: a message, or the list
/// of the sub-threads that reply to the message before it.
#[derive(Debug, PartialEq, Eq)]
pub enum Node {
    Msg(Message),
    Children(Vec<Vec<Node>>),
}

/// Something a reader can open besides the body text.
#[derive(Debug, PartialEq, Eq)]
pub enum Attachment {
    /// The raw HTML of the message.
    Html(String),
    /// A body part with a file name: part number, file name, content type.
    File(usize, String, String),
}

/// The characters of an optional string.
pub open spec fn text_of(s: Option<String>) -> Option<Seq<char>> {
    match s {
        Some(s) => Some(s@),
        None => None,
    }
}

/// The characters of each string of a vector.
pub open spec fn texts(v: Vec<String>) -> Seq<Seq<char>> {
    Seq::new(v.len() as nat, |i: int| v[i]@)
}

/// The models of the parts of a vector.
pub open spec fn parts_model(parts: Vec<Body>) -> Seq<BodyModel>
    decreases parts,
{
    Seq::new(
        parts.len() as nat,
        |i: int|
            if 0 <= i < parts.len() {
                parts[i]@
            } else {
                arbitrary()
            },
    )
}

/// The models of the messages of a vector.
pub open spec fn forest_model(messages: Vec<Message>) -> Seq<MessageModel>
    decreases messages,
{
    Seq::new(
        messages.len() as nat,
        |i: int|
            if 0 <= i < messages.len() {
                messages[i]@
            } else {
                arbitrary()
            },
    )
}

/// The models of the nodes of a thread.
pub open spec fn thread_model(thread: Vec<Node>) -> Seq<NodeModel>
    decreases thread,
{
    Seq::new(
        thread.len() as nat,
        |i: int|
            if 0 <= i < thread.len() {
                thread[i]@
            } else {
                arbitrary()
            },
    )
}

/// The models of a list of threads.
pub open spec fn threads_model(threads: Vec<Vec<Node>>) -> Seq<Seq<NodeModel>>
    decreases threads,
{
    Seq::new(
        threads.len() as nat,
        |i: int|
            if 0 <= i < threads.len() {
                thread_model(threads[i])
            } else {
                arbitrary()
            },
    )
}

/// The models of a list of lists of threads.
pub open spec fn thread_sets_model(sets: Vec<Vec<Vec<Node>>>) -> Seq<Seq<Seq<NodeModel>>> {
    Seq::new(sets.len() as nat, |i: int| threads_model(sets[i]))
}

/// The models of the attachments of a vector.
pub open spec fn attachments_model(attachments: Vec<Attachment>) -> Seq<AttachmentModel> {
    Seq::new(attachments.len() as nat, |i: int| attachments[i]@)
}

/// The map that a sequence of name and value pairs stands for: each pair is
/// inserted in turn, so the last pair for a name decides its value.
pub open spec fn pairs_map(pairs: Seq<(Seq<char>, Seq<char>)>) -> Map<Seq<char>, Seq<char>>
    decreases pairs.len(),
{
    if pairs.len() == 0 {
        Map::empty()
    } else {
        pairs_map(pairs.drop_last()).insert(pairs.last().0, pairs.last().1)
    }
}

impl View for Content {
    type V = ContentModel;

    open spec fn view(&self) -> ContentModel
        decreases self,
    {
        match self {
            Content::Str(s) => ContentModel::Str(s@),
            Content::Array(parts) => ContentModel::Array(parts_model(*parts)),
        }
    }
}

impl View for Body {
    type V = BodyModel;

    open spec fn view(&self) -> BodyModel
        decreases self,
    {
        BodyModel {
            id: self.id as nat,
            content_type: self.content_type@,
            content_transfer_encoding: text_of(self.content_transfer_encoding),
            content_charset: text_of(self.content_charset),
            content: match self.content {
                Some(c) => Some(c@),
                None => None,
            },
            filename: text_of(self.filename),
        }
    }
}

impl View for Headers {
    type V = Map<Seq<char>, Seq<char>>;

    closed spec fn view(&self) -> Map<Seq<char>, Seq<char>> {
        pairs_map(self.pairs())
    }
}

impl View for Message {
    type V = MessageModel;

    open spec fn view(&self) -> MessageModel
        decreases self,
    {
        MessageModel {
            id: self.id@,
            filename: texts(self.filename),
            timestamp: self.timestamp as nat,
            date_relative: self.date_relative@,
            tags: texts(self.tags),
            body: parts_model(self.body),
            headers: self.headers@,
            depth: self.depth as nat,
            replies: forest_model(self.replies),
        }
    }
}

impl View for Node {
    type V = NodeModel;

    open spec fn view(&self) -> NodeModel
        decreases self,
    {
        match self {
            Node::Msg(m) => NodeModel::Msg(m@),
            Node::Children(threads) => NodeModel::Children(threads_model(*threads)),
        }
    }
}

impl View for Attachment {
    type V = AttachmentModel;

    open spec fn view(&self) -> AttachmentModel {
        match self {
            Attachment::Html(html) => AttachmentModel::Html(html@),
            Attachment::File(part, name, mime) => AttachmentModel::File(*part as nat, name@, mime@),
        }
    }
}

impl Headers {
    /// The entries as pairs of character sequences, in insertion order.
    pub closed spec fn pairs(&self) -> Seq<(Seq<char>, Seq<char>)> {
        Seq::new(self.entries.len() as nat, |i: int| (self.entries[i].0@, self.entries[i].1@))
    }

    /// No headers.
    pub fn new() -> (headers: Headers)
        ensures
            headers@ == Map::<Seq<char>, Seq<char>>::empty(),
    {
        Headers { entries: Vec::new() }
    }

    /// Sets the value of `name`, replacing an earlier one.
    pub fn insert(&mut self, name: String, value: String)
        ensures
            final(self)@ == old(self)@.insert(name@, value@),
    {
        let ghost before = self.pairs();
        self.entries.push((name, value));
        assert(self.pairs().drop_last() == before);
    }

    /// The value of `name`, if the message has that header.
    pub fn get(&self, name: &str) -> (value: Option<&String>)
        ensures
            match value {
                Some(v) => self@.contains_key(name@) && v@ == self@[name@],
                None => !self@.contains_key(name@),
            },
    {
        let wanted = String::from_str(name);
        let mut i: usize = self.entries.len();
        assert(self.pairs().take(i as int) == self.pairs());
        while i > 0
            invariant
                i <= self.entries.len(),
                wanted@ == name@,
                self@.contains_key(name@) <==> pairs_map(self.pairs().take(i as int)).contains_key(
                    name@,
                ),
                self@.contains_key(name@) ==> self@[name@] == pairs_map(
                    self.pairs().take(i as int),
                )[name@],
            decreases i,
        {
            i = i - 1;
            assert(self.pairs().take(i + 1).drop_last() == self.pairs().take(i as int));
            if self.entries[i].0 == wanted {
                return Some(&self.entries[i].1);
            }
        }
        None
    }
}

impl Clone for Headers {
    fn clone(&self) -> (copy: Headers)
        ensures
            copy@ == self@,
    {
        let mut entries: Vec<(String, String)> = Vec::new();
        let mut i: usize = 0;
        while i < self.entries.len()
            invariant
                i <= self.entries.len(),
                entries.len() == i,
                forall|j: int|
                    0 <= j < i ==> entries[j].0@ == self.entries[j].0@ && entries[j].1@
                        == self.entries[j].1@,
            decreases self.entries.len() - i,
        {
            entries.push((self.entries[i].0.clone(), self.entries[i].1.clone()));
            i = i + 1;
        }
        let copy = Headers { entries };
        assert(copy.pairs() == self.pairs());
        copy
    }
}

/// A copy of an optional string.
fn clone_text(s: &Option<String>) -> (copy: Option<String>)
    ensures
        text_of(copy) == text_of(*s),
{
    match s {
        Some(s) => Some(s.clone()),
        None => None,
    }
}

/// A copy of a vector of strings.
pub(crate) fn clone_texts(v: &Vec<String>) -> (copy: Vec<String>)
    ensures
        texts(copy) == texts(*v),
{
    let mut copy: Vec<String> = Vec::new();
    let mut i: usize = 0;
    while i < v.len()
        invariant
            i <= v.len(),
            copy.len() == i,
            forall|j: int| 0 <= j < i ==> copy[j]@ == v[j]@,
        decreases v.len() - i,
    {
        copy.push(v[i].clone());
        i = i + 1;
    }
    copy
}

/// A deep copy of a vector of body parts.
pub(crate) fn clone_parts(parts: &Vec<Body>) -> (copy: Vec<Body>)
    ensures
        parts_model(copy) == parts_model(*parts),
    decreases parts,
{
    let mut copy: Vec<Body> = Vec::new();
    let mut i: usize = 0;
    while i < parts.len()
        invariant
            i <= parts.len(),
            copy.len() == i,
            forall|j: int| 0 <= j < i ==> copy[j]@ == parts[j]@,
        decreases parts.len() - i,
    {
        copy.push(parts[i].clone());
        i = i + 1;
    }
    copy
}

impl Clone for Content {
    fn clone(&self) -> (copy: Content)
        ensures
            copy@ == self@,
        decreases self,
    {
        match self {
            Content::Str(s) => Content::Str(s.clone()),
            Content::Array(parts) => Content::Array(clone_parts(parts)),
        }
    }
}

impl Clone for Body {
    fn clone(&self) -> (copy: Body)
        ensures
            copy@ == self@,
        decreases self,
    {
        Body {
            id: self.id,
            content_type: self.content_type.clone(),
            content_transfer_encoding: clone_text(&self.content_transfer_encoding),
            content_charset: clone_text(&self.content_charset),
            content: match &self.content {
                Some(c) => Some(c.clone()),
                None => None,
            },
            filename: clone_text(&self.filename),
        }
    }
}

/// A deep copy of a vector of messages.
fn clone_forest(messages: &Vec<Message>) -> (copy: Vec<Message>)
    ensures
        forest_model(copy) == forest_model(*messages),
    decreases messages,
{
    let mut copy: Vec<Message> = Vec::new();
    let mut i: usize = 0;
    while i < messages.len()
        invariant
            i <= messages.len(),
            copy.len() == i,
            forall|j: int| 0 <= j < i ==> copy[j]@ == messages[j]@,
        decreases messages.len() - i,
    {
        copy.push(messages[i].clone());
        i = i + 1;
    }
    copy
}

impl Clone for Message {
    fn clone(&self) -> (copy: Message)
        ensures
            copy@ == self@,
        decreases self,
    {
        Message {
            id: self.id.clone(),
            filename: clone_texts(&self.filename),
            timestamp: self.timestamp,
            date_relative: self.date_relative.clone(),
            tags: clone_texts(&self.tags),
            body: clone_parts(&self.body),
            headers: self.headers.clone(),
            depth: self.depth,
            replies: clone_forest(&self.replies),
        }
    }
}

/// A deep copy of a thread.
fn clone_thread(thread: &Vec<Node>) -> (copy: Vec<Node>)
    ensures
        thread_model(copy) == thread_model(*thread),
    decreases thread,
{
    let mut copy: Vec<Node> = Vec::new();
    let mut i: usize = 0;
    while i < thread.len()
        invariant
            i <= thread.len(),
            copy.len() == i,
            forall|j: int| 0 <= j < i ==> copy[j]@ == thread[j]@,
        decreases thread.len() - i,
    {
        copy.push(thread[i].clone());
        i = i + 1;
    }
    copy
}

/// A deep copy of a list of threads.
fn clone_threads(threads: &Vec<Vec<Node>>) -> (copy: Vec<Vec<Node>>)
    ensures
        threads_model(copy) == threads_model(*threads),
    decreases threads,
{
    let mut copy: Vec<Vec<Node>> = Vec::new();
    let mut i: usize = 0;
    while i < threads.len()
        invariant
            i <= threads.len(),
            copy.len() == i,
            forall|j: int| 0 <= j < i ==> thread_model(copy[j]) == thread_model(threads[j]),
        decreases threads.len() - i,
    {
        copy.push(clone_thread(&threads[i]));
        i = i + 1;
    }
    copy
}

impl Clone for Node {
    fn clone(&self) -> (copy: Node)
        ensures
            copy@ == self@,
        decreases self,
    {
        match self {
            Node::Msg(m) => Node::Msg(m.clone()),
            Node::Children(threads) => Node::Children(clone_threads(threads)),
        }
    }
}

impl Clone for Attachment {
    fn clone(&self) -> (copy: Attachment)
        ensures
            copy@ == self@,
    {
        match self {
            Attachment::Html(html) => Attachment::Html(html.clone()),
            Attachment::File(part, name, mime) => Attachment::File(
                *part,
                name.clone(),
                mime.clone(),
            ),
        }
    }
}

} // verus!
