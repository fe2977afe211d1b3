//! The reading view: the header lines of a message, the layout of the
//! screen, and the scrolling of the body with the selection of attachments
//! as its continuation.

use vstd::prelude::*;
use crate::index::header_or;
use crate::keys::{gesture_step, Event, Gesture, Key, Stroke};
use crate::message::{Attachment, AttachmentModel, Message, MessageModel};
use crate::text::{decimal, decimal_string};

verus! {

/// The number of header lines that the reading view shows.
pub const HEADER_LINES: usize = 5;

/// The rows of the screen that the reading view needs besides the header
/// lines, the body and the attachments.
pub const FRAME_ROWS: usize = 4;

/// One header line: the name, a colon and a space, the value, a line feed.
pub open spec fn header_line(name: Seq<char>, value: Seq<char>) -> Seq<char> {
    name + ": "@ + value + "\n"@
}

/// The header lines of a message that has `attachments` attachments: sender,
/// receiver, date, attachments and subject. A header that the message lacks
/// shows as empty, that of the attachments as their number.
pub open spec fn header_lines(m: MessageModel, attachments: nat) -> Seq<Seq<char>> {
    seq![
        header_line("From"@, header_or(m.headers, "From"@, Seq::empty())),
        header_line("To"@, header_or(m.headers, "To"@, Seq::empty())),
        header_line("Date"@, header_or(m.headers, "Date"@, Seq::empty())),
        header_line("Attachments"@, header_or(m.headers, "Attachments"@, decimal(attachments))),
        header_line("Subject"@, header_or(m.headers, "Subject"@, Seq::empty())),
    ]
}

/// Renders one header line.
fn format_header(message: &Message, name: &str, default: String) -> (line: String)
    ensures
        line@ == header_line(name@, header_or(message@.headers, name@, default@)),
{
    let mut line = String::from_str(name);
    line.append(": ");
    match message.headers.get(name) {
        Some(value) => line.append(value.as_str()),
        None => line.append(default.as_str()),
    }
    line.append("\n");
    line
}

/// Renders the header lines of a message for the reading view.
pub fn format_headers(message: &Message, attachments: &Vec<Attachment>) -> (lines: Vec<String>)
    ensures
        lines.len() == HEADER_LINES,
        crate::message::texts(lines) == header_lines(message@, attachments.len() as nat),
{
    let mut lines: Vec<String> = Vec::new();
    lines.push(format_header(message, "From", String::new()));
    lines.push(format_header(message, "To", String::new()));
    lines.push(format_header(message, "Date", String::new()));
    lines.push(format_header(message, "Attachments", decimal_string(attachments.len())));
    lines.push(format_header(message, "Subject", String::new()));
    lines
}

/// What stands for the HTML of a message in the list of attachments.
pub open spec fn html_label() -> Seq<char> {
    "HTML part"@
}

/// The name under which an attachment is listed.
pub open spec fn label_of(attachment: AttachmentModel) -> Seq<char> {
    match attachment {
        AttachmentModel::File(_, name, _) => name,
        AttachmentModel::Html(_) => html_label(),
    }
}

/// The name under which an attachment is listed: its file name, or a fixed
/// name for the HTML of the message.
pub fn attachment_label(attachment: &Attachment) -> (label: String)
    ensures
        label@ == label_of(attachment@),
{
    match attachment {
        Attachment::File(_, name, _) => name.clone(),
        Attachment::Html(_) => String::from_str("HTML part"),
    }
}

/// `a - b`, and 0 where `b` is the greater.
pub open spec fn minus(a: nat, b: nat) -> nat {
    if a >= b {
        (a - b) as nat
    } else {
        0
    }
}

/// The heights of the parts of the reading view.
#[derive(Debug, Clone, Copy, PartialEq, Eq, Structural)]
pub struct ReaderLayout {
    /// The rows for body and attachments together.
    pub view_height: usize,
    /// The rows of the header lines and the blank row below them.
    pub header_rows: usize,
    /// The rows of the body.
    pub body_rows: usize,
    /// The rows of the attachments.
    pub attachment_rows: usize,
}

/// Divides a screen of `frame_height` rows among the header lines, a body of
/// `body_lines` lines and `attachments` attachments.
///
/// What the header lines and the frame leave is for body and attachments.
/// The attachments get a row each; the body gets what is left, and no more
/// than it has lines.
pub fn reader_layout(frame_height: usize, body_lines: usize, attachments: usize) -> (layout:
    ReaderLayout)
    ensures
        layout.view_height == minus(frame_height as nat, (HEADER_LINES + FRAME_ROWS) as nat),
        layout.header_rows == HEADER_LINES + 1,
        layout.body_rows == if minus(layout.view_height as nat, attachments as nat) <= body_lines {
            minus(layout.view_height as nat, attachments as nat)
        } else {
            body_lines as nat
        },
        layout.attachment_rows == attachments,
{
    let view_height = frame_height.saturating_sub(HEADER_LINES + FRAME_ROWS);
    let room = view_height.saturating_sub(attachments);
    ReaderLayout {
        view_height,
        header_rows: HEADER_LINES + 1,
        body_rows: if room <= body_lines {
            room
        } else {
            body_lines
        },
        attachment_rows: attachments,
    }
}

/// Model of [`ReaderView`].
pub struct ReaderModel {
    /// The first line of the body in the window.
    pub scroll: nat,
    /// The greatest offset, as of the last layout.
    pub scroll_max: nat,
    pub body_lines: nat,
    pub attachments: nat,
    /// The selected attachment.
    pub selected: Option<nat>,
    pub gesture: Gesture,
}

/// Model of [`ReaderAction`].
pub enum ActionModel {
    Stay,
    Close,
    Open(nat),
}

/// What the caller has to do after a keystroke in the reading view.
#[derive(Debug, Clone, Copy, PartialEq, Eq)]
pub enum ReaderAction {
    /// Nothing: the view goes on.
    Stay,
    /// Leave the view.
    Close,
    /// Open the attachment with this position in the list; the view goes on.
    Open(usize),
}

impl View for ReaderAction {
    type V = ActionModel;

    open spec fn view(&self) -> ActionModel {
        match self {
            ReaderAction::Stay => ActionModel::Stay,
            ReaderAction::Close => ActionModel::Close,
            ReaderAction::Open(k) => ActionModel::Open(*k as nat),
        }
    }
}

impl ReaderModel {
    /// Whether the offset is within its limit and the selected attachment one
    /// of the attachments.
    pub open spec fn valid(self) -> bool {
        &&& self.scroll <= self.scroll_max
        &&& self.selected matches Some(k) ==> k < self.attachments
    }

    /// The lines that can be scrolled through: those of the body and one for
    /// each attachment.
    pub open spec fn content_len(self) -> nat {
        self.body_lines + self.attachments
    }
}

/// The view one step down: the body scrolls while it can; then the first
/// attachment is selected, then the next, up to the last.
pub open spec fn reader_down(s: ReaderModel) -> ReaderModel {
    if s.scroll < s.scroll_max {
        ReaderModel { scroll: s.scroll + 1, ..s }
    } else {
        match s.selected {
            Some(k) => if k + 1 < s.attachments {
                ReaderModel { selected: Some(k + 1), ..s }
            } else {
                s
            },
            None => if s.attachments > 0 {
                ReaderModel { selected: Some(0), ..s }
            } else {
                s
            },
        }
    }
}

/// The view one step up: the selection moves to the attachment before, off
/// the first attachment to none; only then the body scrolls back.
pub open spec fn reader_up(s: ReaderModel) -> ReaderModel {
    match s.selected {
        Some(k) => if k > 0 {
            ReaderModel { selected: Some((k - 1) as nat), ..s }
        } else {
            ReaderModel { selected: None, ..s }
        },
        None => if s.scroll > 0 {
            ReaderModel { scroll: (s.scroll - 1) as nat, ..s }
        } else {
            s
        },
    }
}

/// What a keystroke does in the reading view while no gesture is under way.
pub open spec fn reader_plain_step(s: ReaderModel, key: Key) -> (ReaderModel, ActionModel) {
    match key {
        Key::Down => (reader_down(s), ActionModel::Stay),
        Key::Up => (reader_up(s), ActionModel::Stay),
        Key::Char(c) => if c == 'q' || c == 'i' {
            (s, ActionModel::Close)
        } else if c == 'j' {
            (reader_down(s), ActionModel::Stay)
        } else if c == 'k' {
            (reader_up(s), ActionModel::Stay)
        } else if c == 'G' {
            (ReaderModel { scroll: s.scroll_max, ..s }, ActionModel::Stay)
        } else if c == '\n' {
            match s.selected {
                Some(k) => if k < s.attachments {
                    (s, ActionModel::Open(k))
                } else {
                    (s, ActionModel::Stay)
                },
                None => (s, ActionModel::Stay),
            }
        } else {
            (s, ActionModel::Stay)
        },
        _ => (s, ActionModel::Stay),
    }
}

/// The reading view after a keystroke, and what the caller has to do.
pub open spec fn reader_step(s: ReaderModel, key: Key) -> (ReaderModel, ActionModel) {
    let (gesture, stroke) = gesture_step(s.gesture, key);
    let t = ReaderModel { gesture, ..s };
    match stroke {
        Stroke::Plain => reader_plain_step(t, key),
        Stroke::Completed => (ReaderModel { scroll: 0, ..t }, ActionModel::Stay),
        Stroke::Started => (t, ActionModel::Stay),
        Stroke::Cancelled => (t, ActionModel::Stay),
    }
}

/// The reading view after a layout that leaves `view_height` rows for body
/// and attachments: the greatest offset is what of the content does not fit,
/// and the offset is at most that.
pub open spec fn reader_resize(s: ReaderModel, view_height: nat) -> ReaderModel {
    let scroll_max = minus(s.content_len(), view_height);
    ReaderModel {
        scroll_max,
        scroll: if s.scroll <= scroll_max {
            s.scroll
        } else {
            scroll_max
        },
        ..s
    }
}

/// A keystroke keeps the offset within its limit and the selected attachment
/// among the attachments.
pub proof fn law_reader_key_keeps_bounds(s: ReaderModel, key: Key)
    requires
        s.valid(),
    ensures
        reader_step(s, key).0.valid(),
        reader_step(s, key).0.scroll_max == s.scroll_max,
        reader_step(s, key).0.attachments == s.attachments,
        reader_step(s, key).0.body_lines == s.body_lines,
{
}

/// After a layout the offset is at most what of the content does not fit
/// into the window.
pub proof fn law_reader_resize_bounds(s: ReaderModel, view_height: nat)
    requires
        s.valid(),
    ensures
        reader_resize(s, view_height).valid(),
        reader_resize(s, view_height).scroll <= minus(s.content_len(), view_height),
{
}

/// Going down, the body is scrolled to its end before an attachment is
/// selected; going up, the selection is given up before the body scrolls
/// back.
pub proof fn law_attachments_continue_scroll(s: ReaderModel)
    requires
        s.valid(),
    ensures
        s.scroll < s.scroll_max ==> reader_down(s).selected == s.selected && reader_down(s).scroll
            == s.scroll + 1,
        reader_down(s).selected != s.selected ==> s.scroll == s.scroll_max,
        s.selected is Some ==> reader_up(s).scroll == s.scroll,
        reader_up(s).scroll != s.scroll ==> s.selected is None,
{
}

/// The reading view is left by `q` and by `i` and by no other key, and an
/// attachment is opened by enter alone, which opens the selected one; in both
/// cases only while no gesture is under way.
pub proof fn law_reader_actions(s: ReaderModel, key: Key)
    requires
        s.valid(),
    ensures
        reader_step(s, key).1 == ActionModel::Close <==> s.gesture == Gesture::Idle && (key
            == Key::Char('q') || key == Key::Char('i')),
        forall|k: nat|
            reader_step(s, key).1 == ActionModel::Open(k) <==> s.gesture == Gesture::Idle && key
                == Key::Char('\n') && s.selected == Some(k),
{
}

/// In the reading view `g` typed twice scrolls the body to the top.
pub proof fn law_reader_jump_to_top(s: ReaderModel)
    ensures
        reader_step(reader_step(s, Key::Char('g')).0, Key::Char('g')).0.scroll == 0,
{
}

/// The state of the reading view between two keystrokes.
#[derive(Debug)]
pub struct ReaderView {
    scroll: usize,
    scroll_max: usize,
    body_lines: usize,
    attachments: usize,
    selected: Option<usize>,
    gesture: Gesture,
}

impl View for ReaderView {
    type V = ReaderModel;

    closed spec fn view(&self) -> ReaderModel {
        ReaderModel {
            scroll: self.scroll as nat,
            scroll_max: self.scroll_max as nat,
            body_lines: self.body_lines as nat,
            attachments: self.attachments as nat,
            selected: match self.selected {
                Some(k) => Some(k as nat),
                None => None,
            },
            gesture: self.gesture,
        }
    }
}

impl ReaderView {
    #[verifier::type_invariant]
    spec fn inv(&self) -> bool {
        &&& self@.valid()
        &&& self.body_lines + self.attachments <= usize::MAX
    }

    /// The view as a message is opened: at the top of the body, no
    /// attachment selected, before any layout.
    pub fn new(body_lines: usize, attachments: usize) -> (view: ReaderView)
        requires
            body_lines + attachments <= usize::MAX,
        ensures
            view@ == (ReaderModel {
                scroll: 0,
                scroll_max: 0,
                body_lines: body_lines as nat,
                attachments: attachments as nat,
                selected: None,
                gesture: Gesture::Idle,
            }),
            view@.valid(),
    {
        ReaderView {
            scroll: 0,
            scroll_max: 0,
            body_lines,
            attachments,
            selected: None,
            gesture: Gesture::Idle,
        }
    }

    /// The first line of the body in the window.
    pub fn scroll(&self) -> (scroll: usize)
        ensures
            scroll == self@.scroll,
            self@.valid(),
    {
        proof {
            use_type_invariant(self);
        }
        self.scroll
    }

    /// The greatest offset, as of the last layout.
    pub fn scroll_max(&self) -> (limit: usize)
        ensures
            limit == self@.scroll_max,
    {
        self.scroll_max
    }

    /// The position of the selected attachment in the list of attachments.
    pub fn selected_attachment(&self) -> (selected: Option<usize>)
        ensures
            match selected {
                Some(k) => self@.selected == Some(k as nat) && k < self@.attachments,
                None => self@.selected is None,
            },
    {
        proof {
            use_type_invariant(self);
        }
        self.selected
    }

    /// Lays the view out for a window that leaves `view_height` rows for
    /// body and attachments.
    pub fn resize(&mut self, view_height: usize)
        ensures
            final(self)@ == reader_resize(old(self)@, view_height as nat),
            final(self)@.valid(),
    {
        proof {
            use_type_invariant(&*self);
        }
        let limit = (self.body_lines + self.attachments).saturating_sub(view_height);
        if self.scroll > limit {
            self.scroll = limit;
            self.scroll_max = limit;
        } else {
            self.scroll_max = limit;
        }
    }

    /// Handles a keystroke in the reading view.
    ///
    /// `j` and `k` and the arrows move down and up, `g` twice scrolls to the
    /// top and `G` to the end, enter opens the selected attachment, `q` and
    /// `i` leave. After `g` the next key decides: another `g` completes the
    /// jump, any other key is dropped.
    pub fn on_key(&mut self, key: Key) -> (action: ReaderAction)
        ensures
            (final(self)@, action@) == reader_step(old(self)@, key),
            final(self)@.valid(),
    {
        proof {
            use_type_invariant(&*self);
        }
        let (gesture, stroke) = self.gesture.feed(key);
        self.gesture = gesture;
        match stroke {
            Stroke::Completed => {
                self.scroll = 0;
                ReaderAction::Stay
            },
            Stroke::Started => ReaderAction::Stay,
            Stroke::Cancelled => ReaderAction::Stay,
            Stroke::Plain => match key {
                Key::Down => {
                    self.down();
                    ReaderAction::Stay
                },
                Key::Up => {
                    self.up();
                    ReaderAction::Stay
                },
                Key::Char(c) => {
                    if c == 'q' || c == 'i' {
                        ReaderAction::Close
                    } else if c == 'j' {
                        self.down();
                        ReaderAction::Stay
                    } else if c == 'k' {
                        self.up();
                        ReaderAction::Stay
                    } else if c == 'G' {
                        self.scroll = self.scroll_max;
                        ReaderAction::Stay
                    } else if c == '\n' {
                        match self.selected {
                            Some(k) => ReaderAction::Open(k),
                            None => ReaderAction::Stay,
                        }
                    } else {
                        ReaderAction::Stay
                    }
                },
                _ => ReaderAction::Stay,
            },
        }
    }

    /// Handles an event in the reading view: a keystroke as
    /// [`ReaderView::on_key`] does; a tick changes nothing.
    pub fn on_event(&mut self, event: Event<Key>) -> (action: ReaderAction)
        ensures
            match event {
                Event::Input(key) => (final(self)@, action@) == reader_step(old(self)@, key),
                Event::Tick => final(self)@ == old(self)@ && action@ == ActionModel::Stay,
            },
    {
        match event {
            Event::Input(key) => self.on_key(key),
            Event::Tick => ReaderAction::Stay,
        }
    }

    fn down(&mut self)
        ensures
            final(self)@ == reader_down(old(self)@),
    {
        proof {
            use_type_invariant(&*self);
        }
        if self.scroll < self.scroll_max {
            self.scroll = self.scroll + 1;
        } else {
            match self.selected {
                Some(k) => {
                    if k + 1 < self.attachments {
                        self.selected = Some(k + 1);
                    }
                },
                None => {
                    if self.attachments > 0 {
                        self.selected = Some(0);
                    }
                },
            }
        }
    }

    fn up(&mut self)
        ensures
            final(self)@ == reader_up(old(self)@),
    {
        proof {
            use_type_invariant(&*self);
        }
        match self.selected {
            Some(k) => {
                if k > 0 {
                    self.selected = Some(k - 1);
                } else {
                    self.selected = None;
                }
            },
            None => {
                if self.scroll > 0 {
                    self.scroll = self.scroll - 1;
                }
            },
        }
    }
}

} // verus!
