//! The selection controller of the index: the forest that is shown, and the
//! row that is selected in its flattened form.

use vstd::prelude::*;
use crate::error::Error;
use crate::index::{messages_in_order, preorder};
use crate::message::{forest_model, Message, MessageModel};

verus! {

/// The forest of the index together with the selected row.
///
/// Rows are counted in pre-order over the forest. The selected row is always
/// one of them, and row 0 while there is none.
#[derive(Debug)]
pub struct MessageList {
    list: Vec<Message>,
    count: usize,
    selected: usize,
}

impl MessageList {
    #[verifier::type_invariant]
    spec fn valid(&self) -> bool {
        &&& self.count == preorder(forest_model(self.list)).len()
        &&& self.count > 0 ==> self.selected < self.count
        &&& self.count == 0 ==> self.selected == 0
    }

    /// The forest that the list holds.
    pub closed spec fn forest(&self) -> Seq<MessageModel> {
        forest_model(self.list)
    }

    /// The rows of the list: the messages of the forest in pre-order.
    pub open spec fn rows(&self) -> Seq<MessageModel> {
        preorder(self.forest())
    }

    /// The selected row.
    pub closed spec fn position(&self) -> nat {
        self.selected as nat
    }

    /// Whether the selected row is one of the rows, or row 0 of none.
    pub open spec fn in_range(&self) -> bool {
        &&& self.rows().len() > 0 ==> self.position() < self.rows().len()
        &&& self.rows().len() == 0 ==> self.position() == 0
    }

    /// A list over `list`, with its first row selected.
    pub fn new(list: Vec<Message>) -> (messages: MessageList)
        ensures
            messages.forest() == forest_model(list),
            messages.position() == 0,
            messages.in_range(),
    {
        let count = messages_in_order(&list).len();
        MessageList { list, count, selected: 0 }
    }

    /// The number of rows.
    pub fn len(&self) -> (n: usize)
        ensures
            n == self.rows().len(),
            self.in_range(),
    {
        proof {
            use_type_invariant(self);
        }
        self.count
    }

    /// Whether there is no row.
    pub fn is_empty(&self) -> (empty: bool)
        ensures
            empty == (self.rows().len() == 0),
    {
        proof {
            use_type_invariant(self);
        }
        self.count == 0
    }

    /// The selected row.
    pub fn selected(&self) -> (row: usize)
        ensures
            row == self.position(),
            self.in_range(),
    {
        proof {
            use_type_invariant(self);
        }
        self.selected
    }

    /// The forest.
    pub fn messages(&self) -> (list: &Vec<Message>)
        ensures
            forest_model(*list) == self.forest(),
    {
        &self.list
    }

    /// Selects the row after the selected one; on the last row, and without
    /// rows, nothing changes.
    pub fn select_next(&mut self)
        ensures
            final(self).forest() == old(self).forest(),
            final(self).position() == if old(self).position() + 1 < old(self).rows().len() {
                old(self).position() + 1
            } else {
                old(self).position()
            },
            final(self).in_range(),
    {
        proof {
            use_type_invariant(&*self);
        }
        if self.count > 0 && self.selected < self.count - 1 {
            self.selected = self.selected + 1;
        }
    }

    /// Selects the row before the selected one; on the first row nothing
    /// changes.
    pub fn select_prev(&mut self)
        ensures
            final(self).forest() == old(self).forest(),
            final(self).position() == if old(self).position() > 0 {
                old(self).position() - 1
            } else {
                0
            },
            final(self).in_range(),
    {
        proof {
            use_type_invariant(&*self);
        }
        if self.selected > 0 {
            self.selected = self.selected - 1;
        }
    }

    /// Selects the first row.
    pub fn select_first(&mut self)
        ensures
            final(self).forest() == old(self).forest(),
            final(self).position() == 0,
            final(self).in_range(),
    {
        proof {
            use_type_invariant(&*self);
        }
        self.selected = 0;
    }

    /// Selects the last row; without rows nothing changes.
    pub fn select_last(&mut self)
        ensures
            final(self).forest() == old(self).forest(),
            final(self).position() == if old(self).rows().len() > 0 {
                old(self).rows().len() - 1
            } else {
                old(self).position() as int
            },
            final(self).in_range(),
    {
        proof {
            use_type_invariant(&*self);
        }
        if self.count > 0 {
            self.selected = self.count - 1;
        }
    }

    /// The message of the selected row.
    pub fn get_selected(&self) -> (result: Result<&Message, Error>)
        ensures
            self.rows().len() == 0 ==> result == Err::<&Message, Error>(Error::EmptySelection),
            self.rows().len() > 0 ==> result is Ok && result.unwrap()@
                == self.rows()[self.position() as int],
    {
        proof {
            use_type_invariant(self);
        }
        if self.count == 0 {
            Err(Error::EmptySelection)
        } else {
            let refs = messages_in_order(&self.list);
            Ok(refs[self.selected])
        }
    }
}

} // verus!
