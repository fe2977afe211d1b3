//! The failures that the mail reader distinguishes.

use vstd::prelude::*;

verus! {

/// Why an operation of the mail reader failed.
#[derive(Debug, Clone, Copy, PartialEq, Eq, Structural)]
pub enum Error {
    /// The index could not be searched.
    SearchFailed,
    /// The index returned threads that do not have the expected shape.
    MalformedThread,
    /// The HTML of a message could not be turned into text.
    ConversionFailed,
    /// The raw content of an attachment could not be fetched.
    AttachmentFetchFailed,
    /// The editor, the viewer or the insertion of a new message failed.
    ExternalToolFailed,
    /// A message was asked for, and the list is empty.
    EmptySelection,
}

impl Error {
    /// The words that [`Error::message`] returns.
    pub open spec fn text(self) -> Seq<char> {
        match self {
            Error::SearchFailed => "the search failed"@,
            Error::MalformedThread => "the threads of the search result are malformed"@,
            Error::ConversionFailed => "the HTML body could not be converted to text"@,
            Error::AttachmentFetchFailed => "the attachment could not be fetched"@,
            Error::ExternalToolFailed => "an external program failed"@,
            Error::EmptySelection => "no message is selected"@,
        }
    }

    /// A sentence for the user.
    pub fn message(&self) -> (words: String)
        ensures
            words@ == self.text(),
    {
        match self {
            Error::SearchFailed => String::from_str("the search failed"),
            Error::MalformedThread => String::from_str(
                "the threads of the search result are malformed",
            ),
            Error::ConversionFailed => String::from_str(
                "the HTML body could not be converted to text",
            ),
            Error::AttachmentFetchFailed => String::from_str("the attachment could not be fetched"),
            Error::ExternalToolFailed => String::from_str("an external program failed"),
            Error::EmptySelection => String::from_str("no message is selected"),
        }
    }
}

} // verus!
