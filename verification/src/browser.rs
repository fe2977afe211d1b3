//! The index view: the scroll offset that keeps the selected row in sight,
//! the editing of the search term, and what each keystroke does.

use vstd::prelude::*;
use crate::app::{App, AppState};
use crate::index::{
    messages_in_order,
    refs_model,
    render_row,
    row_of,
    rows_model,
    DisplayRow,
    RowModel,
};
use crate::message::MessageModel;
use crate::keys::{gesture_step, Event, Gesture, Key, Stroke};
use crate::selection::MessageList;

verus! {

/// The rows of the screen that the index needs besides its window: the
/// search box, the heading of the table and its border.
pub const INDEX_FRAME_ROWS: usize = 5;

/// The height of the window of the index on a screen of `frame_height` rows.
pub fn index_height(frame_height: usize) -> (height: usize)
    ensures
        height == if frame_height >= INDEX_FRAME_ROWS {
            frame_height - INDEX_FRAME_ROWS
        } else {
            0
        },
{
    frame_height.saturating_sub(INDEX_FRAME_ROWS)
}

/// The least scroll offset that shows row `selected` in a window of `height`
/// rows.
pub open spec fn least_scroll(selected: nat, height: nat) -> nat {
    if selected >= height {
        (selected - height + 1) as nat
    } else {
        0
    }
}

/// The greatest scroll offset that leaves no blank row at the end of a
/// window of `height` rows that one of `rows` rows could fill.
pub open spec fn scroll_limit(rows: nat, height: nat) -> nat {
    if rows >= height {
        (rows - height) as nat
    } else {
        0
    }
}

/// The greatest scroll offset for row `selected` of `rows` rows: at most the
/// row itself, and at most [`scroll_limit`].
pub open spec fn greatest_scroll(selected: nat, rows: nat, height: nat) -> nat {
    if selected <= scroll_limit(rows, height) {
        selected
    } else {
        scroll_limit(rows, height)
    }
}

/// Whether a window of `height` rows at offset `scroll` holds row `selected`
/// and goes no further down than the `rows` rows do.
pub open spec fn shows(scroll: nat, selected: nat, rows: nat, height: nat) -> bool {
    &&& scroll <= selected
    &&& selected < scroll + height
    &&& scroll <= scroll_limit(rows, height)
}

/// The scroll offset after a layout: `scroll` moved as little as possible
/// into the range from [`least_scroll`] to [`greatest_scroll`].
pub open spec fn scroll_for(scroll: nat, selected: nat, rows: nat, height: nat) -> nat {
    let low = least_scroll(selected, height);
    let high = greatest_scroll(selected, rows, height);
    let raised = if scroll < low {
        low
    } else {
        scroll
    };
    if raised > high {
        high
    } else {
        raised
    }
}

/// Moves a scroll offset as little as possible so that row `selected` of
/// `rows` rows is in a window of `height` rows.
pub fn scroll_into_view(scroll: usize, selected: usize, rows: usize, height: usize) -> (moved:
    usize)
    ensures
        moved == scroll_for(scroll as nat, selected as nat, rows as nat, height as nat),
{
    let end = if rows >= height {
        rows - height
    } else {
        0
    };
    let high = if selected <= end {
        selected
    } else {
        end
    };
    if height == 0 {
        // No offset shows the row: the window stays as near to it as it may.
        return high;
    }
    let low = if selected >= height {
        selected - height + 1
    } else {
        0
    };
    let raised = if scroll < low {
        low
    } else {
        scroll
    };
    if raised > high {
        high
    } else {
        raised
    }
}

/// The first row that a window at `scroll` shows of `rows` rows, and the row
/// after the last: up to `height` rows from `scroll`, as far as there are
/// rows.
pub open spec fn window_bounds(scroll: nat, rows: nat, height: nat) -> (nat, nat) {
    let start = if scroll <= rows {
        scroll
    } else {
        rows
    };
    let end = if start + height <= rows {
        start + height
    } else {
        rows
    };
    (start, end)
}

/// The rows that a window shows: from `scroll` up to `height` rows, as far as
/// there are rows.
pub fn visible_range(scroll: usize, rows: usize, height: usize) -> (range: (usize, usize))
    ensures
        (range.0 as nat, range.1 as nat) == window_bounds(
            scroll as nat,
            rows as nat,
            height as nat,
        ),
        range.0 <= range.1 <= rows,
{
    let start = if scroll <= rows {
        scroll
    } else {
        rows
    };
    let end = if height <= rows - start {
        start + height
    } else {
        rows
    };
    (start, end)
}

/// Model of [`IndexWindow`].
pub struct WindowModel {
    pub rows: Seq<RowModel>,
    pub highlighted: Option<nat>,
}

/// What the index shows in its window.
#[derive(Debug)]
pub struct IndexWindow<'a> {
    /// The rows in the window, from the top.
    pub rows: Vec<DisplayRow<'a>>,
    /// The place in `rows` of the row to highlight.
    pub highlighted: Option<usize>,
}

impl<'a> View for IndexWindow<'a> {
    type V = WindowModel;

    open spec fn view(&self) -> WindowModel {
        WindowModel {
            rows: rows_model(self.rows),
            highlighted: match self.highlighted {
                Some(k) => Some(k as nat),
                None => None,
            },
        }
    }
}

/// What a window at `scroll` with `height` rows shows of the messages
/// `messages` in pre-order: the rows of those within its bounds, and among
/// them the selected one highlighted, unless the search term is being edited.
pub open spec fn window_of(
    messages: Seq<MessageModel>,
    selected: nat,
    scroll: nat,
    height: nat,
    editing: bool,
) -> WindowModel {
    let (start, end) = window_bounds(scroll, messages.len(), height);
    WindowModel {
        rows: messages.subrange(start as int, end as int).map_values(|m: MessageModel| row_of(m)),
        highlighted: if !editing && start <= selected < end {
            Some((selected - start) as nat)
        } else {
            None
        },
    }
}

/// The state of the index view between two keystrokes.
///
/// A view is made anew each time the index is entered.
#[derive(Debug)]
pub struct IndexView {
    /// The first row in the window.
    pub scroll: usize,
    /// The rows that the window holds, as of the last layout.
    pub height: usize,
    /// Whether keystrokes edit the search term.
    pub editing: bool,
    /// The search term as edited so far.
    pub input: String,
    /// The state of the jump to the top.
    pub gesture: Gesture,
}

/// Model of the index view together with what it shows of the application.
pub struct IndexModel {
    pub state: AppState,
    pub rows: nat,
    pub selected: nat,
    pub scroll: nat,
    pub height: nat,
    pub editing: bool,
    pub input: Seq<char>,
    pub search_term: Seq<char>,
    pub gesture: Gesture,
}

/// The model of an application and its index view.
pub open spec fn index_model(app: App, view: IndexView) -> IndexModel {
    IndexModel {
        state: app.state,
        rows: app.messages.rows().len(),
        selected: app.messages.position(),
        scroll: view.scroll as nat,
        height: view.height as nat,
        editing: view.editing,
        input: view.input@,
        search_term: app.search_term@,
        gesture: view.gesture,
    }
}

impl IndexModel {
    /// Whether the selected row is one of the rows, or row 0 of none.
    pub open spec fn in_range(self) -> bool {
        &&& self.rows > 0 ==> self.selected < self.rows
        &&& self.rows == 0 ==> self.selected == 0
    }

    /// Whether the window holds the selected row and goes no further down
    /// than the rows do.
    pub open spec fn in_view(self) -> bool {
        shows(self.scroll, self.selected, self.rows, self.height)
    }

    /// Whether the window is where a layout puts it.
    pub open spec fn settled(self) -> bool {
        self.scroll == scroll_for(self.scroll, self.selected, self.rows, self.height)
    }

    /// The model with row `selected` selected.
    pub open spec fn select(self, selected: nat) -> IndexModel {
        IndexModel { selected, ..self }
    }
}

/// The row that "next" selects.
pub open spec fn row_after(selected: nat, rows: nat) -> nat {
    if selected + 1 < rows {
        selected + 1
    } else {
        selected
    }
}

/// The row that "previous" selects.
pub open spec fn row_before(selected: nat) -> nat {
    if selected > 0 {
        (selected - 1) as nat
    } else {
        0
    }
}

/// The row that "last" selects.
pub open spec fn last_row(selected: nat, rows: nat) -> nat {
    if rows > 0 {
        (rows - 1) as nat
    } else {
        selected
    }
}

/// What a keystroke does while the search term is edited.
pub open spec fn edit_step(s: IndexModel, key: Key) -> IndexModel {
    match key {
        Key::Char(c) => if c == '\n' {
            IndexModel {
                state: AppState::Refresh,
                search_term: s.input,
                input: Seq::empty(),
                editing: false,
                ..s
            }
        } else {
            IndexModel { input: s.input.push(c), ..s }
        },
        Key::Backspace => IndexModel {
            input: if s.input.len() > 0 {
                s.input.drop_last()
            } else {
                s.input
            },
            ..s
        },
        Key::Esc => IndexModel { editing: false, ..s },
        _ => s,
    }
}

/// What a keystroke does while the index is browsed and no gesture is under
/// way.
pub open spec fn browse_step(s: IndexModel, key: Key) -> IndexModel {
    match key {
        Key::Down => s.select(row_after(s.selected, s.rows)),
        Key::Up => s.select(row_before(s.selected)),
        Key::Char(c) => if c == 'j' {
            s.select(row_after(s.selected, s.rows))
        } else if c == 'k' {
            s.select(row_before(s.selected))
        } else if c == 'G' {
            s.select(last_row(s.selected, s.rows))
        } else if c == 'q' {
            IndexModel { state: AppState::Exit, ..s }
        } else if c == '\n' {
            if s.rows > 0 {
                IndexModel { state: AppState::View, ..s }
            } else {
                s
            }
        } else if c == 'm' {
            IndexModel { state: AppState::Compose, ..s }
        } else if c == 'l' {
            IndexModel { editing: true, ..s }
        } else {
            s
        },
        _ => s,
    }
}

/// What a keystroke does to the index before the window follows.
pub open spec fn key_step(s: IndexModel, key: Key) -> IndexModel {
    if s.editing {
        edit_step(s, key)
    } else {
        let (gesture, stroke) = gesture_step(s.gesture, key);
        let t = IndexModel { gesture, ..s };
        match stroke {
            Stroke::Plain => browse_step(t, key),
            Stroke::Completed => t.select(0),
            Stroke::Started => t,
            Stroke::Cancelled => t,
        }
    }
}

/// The model with its window moved to where a layout puts it.
pub open spec fn settle(s: IndexModel) -> IndexModel {
    IndexModel { scroll: scroll_for(s.scroll, s.selected, s.rows, s.height), ..s }
}

/// The index after a keystroke: the key is handled, then the window follows
/// the selected row.
pub open spec fn index_step(s: IndexModel, key: Key) -> IndexModel {
    settle(key_step(s, key))
}

/// The index after a layout with a window of `height` rows.
pub open spec fn index_resize(s: IndexModel, height: nat) -> IndexModel {
    settle(IndexModel { height, ..s })
}

/// The index after a sequence of keystrokes.
pub open spec fn index_run(s: IndexModel, keys: Seq<Key>) -> IndexModel
    decreases keys.len(),
{
    if keys.len() == 0 {
        s
    } else {
        index_step(index_run(s, keys.drop_last()), keys.last())
    }
}

/// A layout moves the window as little as it can: the offsets that hold the
/// selected row and go no further down than the rows do are those from
/// [`least_scroll`] to [`greatest_scroll`]; an offset among them stays, one
/// above the selected row's reach goes to the nearest of them, and so does
/// one below it.
pub proof fn law_scroll_is_least_move(scroll: nat, selected: nat, rows: nat, height: nat)
    requires
        selected < rows,
        height > 0,
    ensures
        least_scroll(selected, height) <= greatest_scroll(selected, rows, height),
        forall|x: nat| #[trigger]
            shows(x, selected, rows, height) <==> (least_scroll(selected, height) <= x && x
                <= greatest_scroll(selected, rows, height)),
        least_scroll(selected, height) <= scroll <= greatest_scroll(selected, rows, height)
            ==> scroll_for(scroll, selected, rows, height) == scroll,
        scroll < least_scroll(selected, height) ==> scroll_for(scroll, selected, rows, height)
            == least_scroll(selected, height),
        scroll > greatest_scroll(selected, rows, height) ==> scroll_for(
            scroll,
            selected,
            rows,
            height,
        ) == greatest_scroll(selected, rows, height),
{
}

/// A keystroke keeps the selected row among the rows, or at 0 where there is
/// none, whatever the key; the rows and the window's height stay.
pub proof fn law_key_keeps_selection_in_range(s: IndexModel, key: Key)
    requires
        s.in_range(),
    ensures
        index_step(s, key).in_range(),
        index_step(s, key).rows == s.rows,
        index_step(s, key).height == s.height,
{
}

/// After a keystroke the window is settled and goes no further down than the
/// rows do; if it holds a row at all, it holds the selected one.
pub proof fn law_key_keeps_window(s: IndexModel, key: Key)
    requires
        s.in_range(),
    ensures
        index_step(s, key).settled(),
        index_step(s, key).scroll <= index_step(s, key).selected,
        index_step(s, key).scroll <= scroll_limit(s.rows, s.height),
        s.height > 0 ==> index_step(s, key).in_view(),
{
}

/// However many keys are typed, the selected row stays among the rows and
/// the scroll offset within its limit.
pub proof fn law_keys_keep_bounds(s: IndexModel, keys: Seq<Key>)
    requires
        s.in_range(),
        s.scroll <= scroll_limit(s.rows, s.height),
    ensures
        index_run(s, keys).in_range(),
        index_run(s, keys).rows == s.rows,
        index_run(s, keys).height == s.height,
        index_run(s, keys).scroll <= scroll_limit(s.rows, s.height),
    decreases keys.len(),
{
    if keys.len() > 0 {
        law_keys_keep_bounds(s, keys.drop_last());
        let t = index_run(s, keys.drop_last());
        law_key_keeps_selection_in_range(t, keys.last());
        law_key_keeps_window(t, keys.last());
    }
}

/// After a layout for a window that holds at least one row, the window holds
/// the selected row and goes no further down than the rows do.
pub proof fn law_resize_shows_selection(s: IndexModel, height: nat)
    requires
        s.in_range(),
        height > 0,
    ensures
        index_resize(s, height).in_view(),
        index_resize(s, height).settled(),
        index_resize(s, height).selected == s.selected,
{
}

/// Where there is one row, no run of "next" moves the selection off row 0.
pub proof fn law_single_row_stays(s: IndexModel, n: nat)
    requires
        s.in_range(),
        s.rows == 1,
        !s.editing,
    ensures
        index_run(s, Seq::new(n, |i: int| Key::Down)).selected == 0,
    decreases n,
{
    let keys = Seq::new(n, |i: int| Key::Down);
    if n > 0 {
        assert(keys.drop_last() == Seq::new((n - 1) as nat, |i: int| Key::Down));
        law_single_row_stays(s, (n - 1) as nat);
        lemma_run_keeps_mode(s, keys.drop_last());
    }
}

/// Keys other than those that edit or leave do not start the editing.
proof fn lemma_run_keeps_mode(s: IndexModel, keys: Seq<Key>)
    requires
        !s.editing,
        forall|i: int| 0 <= i < keys.len() ==> keys[i] == Key::Down,
    ensures
        !index_run(s, keys).editing,
        index_run(s, keys).rows == s.rows,
    decreases keys.len(),
{
    if keys.len() > 0 {
        lemma_run_keeps_mode(s, keys.drop_last());
    }
}

/// A window that holds the selected row of an index with rows shows it
/// highlighted while the index is browsed, at its distance from the top of
/// the window, and shows as many rows as it has room for or as are left.
pub proof fn law_window_highlights_selection(s: IndexModel, messages: Seq<MessageModel>)
    requires
        messages.len() == s.rows,
        s.rows > 0,
        s.in_range(),
        s.in_view(),
        !s.editing,
    ensures
        ({
            let window = window_of(messages, s.selected, s.scroll, s.height, s.editing);
            &&& window.highlighted == Some((s.selected - s.scroll) as nat)
            &&& window.rows.len() == if s.scroll + s.height <= s.rows {
                s.height
            } else {
                (s.rows - s.scroll) as nat
            }
            &&& window.rows[s.selected - s.scroll] == row_of(messages[s.selected as int])
        }),
{
}

/// The index is left only in these ways: the edited search term is submitted
/// with enter, which asks for a refresh with that term; or, while browsing
/// with no gesture under way, `q` quits, `m` composes, and enter opens the
/// selected message, which needs a row to select. Any other keystroke stays
/// in the index.
pub proof fn law_index_is_left_by_its_keys(s: IndexModel, key: Key)
    requires
        s.state == AppState::Index,
    ensures
        ({
            let t = index_step(s, key);
            let browsing = !s.editing && s.gesture == Gesture::Idle;
            &&& t.state == AppState::Refresh <==> s.editing && key == Key::Char('\n')
            &&& t.state == AppState::Refresh ==> t.search_term == s.input
            &&& t.state == AppState::Exit <==> browsing && key == Key::Char('q')
            &&& t.state == AppState::Compose <==> browsing && key == Key::Char('m')
            &&& t.state == AppState::View <==> browsing && key == Key::Char('\n') && s.rows > 0
            &&& t.state != AppState::Refresh ==> t.search_term == s.search_term
        }),
{
}

/// While the index is browsed, `g` typed twice selects row 0 and moves the
/// window to the top, whatever was selected.
pub proof fn law_jump_to_top(s: IndexModel)
    requires
        !s.editing,
    ensures
        index_step(index_step(s, Key::Char('g')), Key::Char('g')).selected == 0,
        index_step(index_step(s, Key::Char('g')), Key::Char('g')).scroll == 0,
{
}

/// While the index is browsed with a settled window, a key other than `g`
/// typed between two `g` prevents the jump: the selection and the window stay
/// as they were, and so does the state of the application.
pub proof fn law_interrupted_jump(s: IndexModel, key: Key)
    requires
        !s.editing,
        s.gesture == Gesture::Idle,
        s.settled(),
        key != Key::Char('g'),
    ensures
        ({
            let t = index_step(index_step(index_step(s, Key::Char('g')), key), Key::Char('g'));
            &&& t.selected == s.selected
            &&& t.scroll == s.scroll
            &&& t.state == s.state
            &&& t.input == s.input
            &&& t.search_term == s.search_term
        }),
{
}

impl IndexView {
    /// The view as the index is entered: at the top, not editing, with a
    /// window of which nothing is known yet.
    pub fn new() -> (view: IndexView)
        ensures
            view.scroll == 0,
            view.height == 0,
            !view.editing,
            view.input@ == Seq::<char>::empty(),
            view.gesture == Gesture::Idle,
    {
        IndexView {
            scroll: 0,
            height: 0,
            editing: false,
            input: String::new(),
            gesture: Gesture::Idle,
        }
    }

    /// Lays the view out for a window of `height` rows: the window moves as
    /// little as possible to hold the selected row.
    pub fn resize(&mut self, messages: &MessageList, height: usize)
        ensures
            final(self).height == height,
            final(self).scroll == scroll_for(
                old(self).scroll as nat,
                messages.position(),
                messages.rows().len(),
                height as nat,
            ),
            final(self).editing == old(self).editing,
            final(self).input == old(self).input,
            final(self).gesture == old(self).gesture,
    {
        self.height = height;
        self.scroll = scroll_into_view(self.scroll, messages.selected(), messages.len(), height);
    }
}

/// Renders what the index shows in the window of `view`.
pub fn index_window<'a>(messages: &'a MessageList, view: &IndexView) -> (window: IndexWindow<'a>)
    ensures
        window@ == window_of(
            messages.rows(),
            messages.position(),
            view.scroll as nat,
            view.height as nat,
            view.editing,
        ),
{
    let refs = messages_in_order(messages.messages());
    let (start, end) = visible_range(view.scroll, refs.len(), view.height);
    let mut rows: Vec<DisplayRow<'a>> = Vec::new();
    let mut i: usize = start;
    while i < end
        invariant
            start <= i <= end <= refs.len(),
            rows.len() == i - start,
            forall|j: int| 0 <= j < i - start ==> (#[trigger] rows[j])@ == row_of(refs[start + j]@),
        decreases end - i,
    {
        rows.push(render_row(refs[i]));
        i = i + 1;
    }
    let selected = messages.selected();
    let highlighted = if !view.editing && start <= selected && selected < end {
        Some(selected - start)
    } else {
        None
    };
    assert(rows_model(rows) == refs_model(refs).subrange(start as int, end as int).map_values(
        |m: MessageModel| row_of(m),
    ));
    IndexWindow { rows, highlighted }
}

/// Handles a keystroke in the index.
///
/// While the search term is edited, characters are appended to it, backspace
/// removes its last character, escape leaves the editing, and enter makes it
/// the search term and asks for a refresh. Otherwise `j` and `k` and the
/// arrows move the selection by a row, `g` twice selects the first row and
/// `G` the last, enter opens the selected message, `m` composes, `l` starts
/// editing and `q` quits. After `g` the next key decides: another `g`
/// completes the jump, any other key is dropped.
pub fn index_key(app: &mut App, view: &mut IndexView, key: Key)
    ensures
        index_model(*final(app), *final(view)) == index_step(
            index_model(*old(app), *old(view)),
            key,
        ),
        final(app).messages.forest() == old(app).messages.forest(),
        final(app).status == old(app).status,
        final(app).messages.in_range(),
{
    let ghost before = index_model(*app, *view);
    if view.editing {
        match key {
            Key::Char(c) => {
                if c == '\n' {
                    app.search_term = view.input.clone();
                    view.input = String::new();
                    view.editing = false;
                    app.state = AppState::Refresh;
                } else {
                    view.input.push(c);
                }
            },
            Key::Backspace => {
                let _ = view.input.pop();
            },
            Key::Esc => {
                view.editing = false;
            },
            _ => {},
        }
    } else {
        let (gesture, stroke) = view.gesture.feed(key);
        view.gesture = gesture;
        match stroke {
            Stroke::Completed => {
                app.messages.select_first();
            },
            Stroke::Started => {},
            Stroke::Cancelled => {},
            Stroke::Plain => {
                match key {
                    Key::Down => {
                        app.messages.select_next();
                    },
                    Key::Up => {
                        app.messages.select_prev();
                    },
                    Key::Char(c) => {
                        if c == 'j' {
                            app.messages.select_next();
                        } else if c == 'k' {
                            app.messages.select_prev();
                        } else if c == 'G' {
                            app.messages.select_last();
                        } else if c == 'q' {
                            app.state = AppState::Exit;
                        } else if c == '\n' {
                            if !app.messages.is_empty() {
                                app.state = AppState::View;
                            }
                        } else if c == 'm' {
                            app.state = AppState::Compose;
                        } else if c == 'l' {
                            view.editing = true;
                        }
                    },
                    _ => {},
                }
            },
        }
    }
    assert(index_model(*app, *view) == key_step(before, key));
    view.scroll = scroll_into_view(
        view.scroll,
        app.messages.selected(),
        app.messages.len(),
        view.height,
    );
}

/// Handles an event in the index: a keystroke as [`index_key`] does; a tick
/// changes nothing.
pub fn index_event(app: &mut App, view: &mut IndexView, event: Event<Key>)
    ensures
        match event {
            Event::Input(key) => index_model(*final(app), *final(view)) == index_step(
                index_model(*old(app), *old(view)),
                key,
            ),
            Event::Tick => *final(app) == *old(app) && *final(view) == *old(view),
        },
        final(app).messages.forest() == old(app).messages.forest(),
        final(app).status == old(app).status,
{
    match event {
        Event::Input(key) => index_key(app, view, key),
        Event::Tick => {},
    }
}

} // verus!
