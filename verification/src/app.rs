//! The application state machine: which view is active, and what moves the
//! application from one to the next.
//!
//! The states are dispatched in turn until [`AppState::Exit`] is reached.
//! Searching, editing and viewing are done by the caller; this module decides
//! what they are asked to do and what follows from their outcome.

use vstd::prelude::*;
use crate::error::Error;
use crate::message::{forest_model, text_of, Message};
use crate::selection::MessageList;
use crate::text::{count_lines, line_count};

verus! {

/// The states of the application.
#[derive(Debug, Clone, Copy, PartialEq, Eq, Structural)]
pub enum AppState {
    /// The search is run and the index rebuilt.
    Refresh,
    /// The index is browsed.
    Index,
    /// The selected message is read.
    View,
    /// A new message is written.
    Compose,
    /// The application ends.
    Exit,
}

/// The application: its state, the index, and the search that filled it.
#[derive(Debug)]
pub struct App {
    pub state: AppState,
    pub messages: MessageList,
    pub search_term: String,
    /// The last failure, for the user to see.
    pub status: Option<Error>,
}

/// The search that is run where none is given.
pub open spec fn default_search() -> Seq<char> {
    "tag:inbox"@
}

/// The search that a refresh runs for the search term `term`.
pub open spec fn effective_search(term: Seq<char>) -> Seq<char> {
    if term.len() == 0 {
        default_search()
    } else {
        term
    }
}

/// What a draft becomes before it is handed on: nothing if it is empty, and
/// else the draft, a draft of a single line with a line feed added.
pub open spec fn prepared_draft(draft: Seq<char>) -> Option<Seq<char>> {
    if draft.len() == 0 {
        None
    } else if line_count(draft) == 1 {
        Some(draft.push('\n'))
    } else {
        Some(draft)
    }
}

/// Decides what of an edited draft is inserted into the index.
///
/// An empty draft is not inserted. A draft of one line gets a line feed at
/// its end; any other draft is inserted as it is.
pub fn prepare_draft(draft: String) -> (body: Option<String>)
    ensures
        text_of(body) == prepared_draft(draft@),
{
    if draft.as_str().is_empty() {
        None
    } else if count_lines(draft.as_str()) == 1 {
        let mut body = draft;
        body.push('\n');
        Some(body)
    } else {
        Some(draft)
    }
}

impl App {
    /// The application as it starts: about to refresh an empty index with the
    /// default search.
    pub fn new() -> (app: App)
        ensures
            app.state == AppState::Refresh,
            app.search_term@ == default_search(),
            app.messages.rows().len() == 0,
            app.messages.position() == 0,
            app.status is None,
    {
        let messages = MessageList::new(Vec::new());
        App {
            state: AppState::Refresh,
            messages,
            search_term: String::from_str("tag:inbox"),
            status: None,
        }
    }

    /// Starts a refresh: a blank search term becomes the default search, and
    /// the search to run is returned.
    pub fn begin_refresh(&mut self) -> (query: String)
        ensures
            query@ == effective_search(old(self).search_term@),
            final(self).search_term@ == effective_search(old(self).search_term@),
            final(self).state == old(self).state,
            final(self).messages == old(self).messages,
            final(self).status == old(self).status,
    {
        if self.search_term.as_str().is_empty() {
            self.search_term = String::from_str("tag:inbox");
        }
        self.search_term.clone()
    }

    /// Ends a refresh with the outcome of the search.
    ///
    /// A forest replaces the index, its first row selected. A failure leaves
    /// the index as it was and is kept for the user to see. Either way the
    /// application goes on to the index.
    pub fn finish_refresh(&mut self, outcome: Result<Vec<Message>, Error>)
        ensures
            final(self).state == AppState::Index,
            final(self).search_term == old(self).search_term,
            match outcome {
                Ok(forest) => {
                    &&& final(self).messages.forest() == forest_model(forest)
                    &&& final(self).messages.position() == 0
                    &&& final(self).status is None
                },
                Err(e) => {
                    &&& final(self).messages == old(self).messages
                    &&& final(self).status == Some(e)
                },
            },
    {
        match outcome {
            Ok(forest) => {
                self.messages = MessageList::new(forest);
                self.status = None;
            },
            Err(e) => {
                self.status = Some(e);
            },
        }
        self.state = AppState::Index;
    }

    /// Enters the reading view: the application is set to come back to the
    /// index whenever the view is left.
    pub fn enter_view(&mut self)
        ensures
            final(self).state == AppState::Index,
            final(self).messages == old(self).messages,
            final(self).search_term == old(self).search_term,
            final(self).status == old(self).status,
    {
        self.state = AppState::Index;
    }

    /// Ends the writing of a message with the outcome of its insertion:
    /// a failure is kept for the user to see, and either way the index is
    /// refreshed next.
    pub fn finish_compose(&mut self, outcome: Result<(), Error>)
        ensures
            final(self).state == AppState::Refresh,
            final(self).messages == old(self).messages,
            final(self).search_term == old(self).search_term,
            final(self).status == match outcome {
                Ok(()) => None,
                Err(e) => Some(e),
            },
    {
        self.state = AppState::Refresh;
        self.status = match outcome {
            Ok(()) => None,
            Err(e) => Some(e),
        };
    }

    /// Keeps a failure for the user to see; the application stays in the
    /// state it is in, with the index it has.
    pub fn report(&mut self, error: Error)
        ensures
            final(self).status == Some(error),
            final(self).state == old(self).state,
            final(self).messages == old(self).messages,
            final(self).search_term == old(self).search_term,
    {
        self.status = Some(error);
    }
}

} // verus!
