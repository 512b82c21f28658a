//! The chat message: optional text with an optional attachment.

use crate::file::{File, FileView};
use vstd::prelude::*;
use vstd::string::*;

verus! {

/// One chat message. Either part may be absent; with both absent the message
/// is empty.
#[derive(Debug, Clone, PartialEq, Eq)]
pub struct Message {
    pub data: Option<String>,
    pub file: Option<File>,
}

/// What a `Message` is, mathematically.
pub struct MessageView {
    pub data: Option<Seq<char>>,
    pub file: Option<FileView>,
}

impl View for Message {
    type V = MessageView;

    open spec fn view(&self) -> MessageView {
        MessageView {
            data: match self.data {
                Some(text) => Some(text@),
                None => None,
            },
            file: match self.file {
                Some(file) => Some(file@),
                None => None,
            },
        }
    }
}

impl MessageView {
    /// A message is empty when it has neither text nor attachment.
    pub open spec fn is_empty(self) -> bool {
        self.data is None && self.file is None
    }

    /// The line a front end shows for the message.
    pub open spec fn rendered(self) -> Seq<char> {
        match (self.data, self.file) {
            (Some(text), Some(file)) => text + ", File: "@ + file.name,
            (Some(text), None) => text,
            (None, Some(file)) => "File: "@ + file.name,
            (None, None) => "*Empty message*"@,
        }
    }
}

impl Message {
    /// A text message without attachment.
    pub fn new(data: String) -> (message: Message)
        ensures
            message.data == Some(data),
            message.file is None,
    {
        Message { data: Some(data), file: None }
    }

    /// A message of the given parts.
    pub fn build(data: Option<String>, file: Option<File>) -> (message: Message)
        ensures
            message.data == data,
            message.file == file,
    {
        Message { data, file }
    }

    /// Whether the message has neither text nor attachment.
    pub fn is_empty(&self) -> (empty: bool)
        ensures
            empty == self@.is_empty(),
    {
        self.data.is_none() && self.file.is_none()
    }

    /// The attachment, if the message carries one, for saving it.
    pub fn into_file(self) -> (file: Option<File>)
        ensures
            file == self.file,
    {
        self.file
    }

    /// The line a front end shows for the message: the text, then the
    /// attachment's name after `File: `, or a note that the message is empty.
    pub fn to_string(&self) -> (line: String)
        ensures
            line@ == self@.rendered(),
    {
        match (&self.data, &self.file) {
            (Some(text), Some(file)) => {
                let line = text.clone().concat(", File: ").concat(file.name.as_str());
                line
            },
            (Some(text), None) => text.clone(),
            (None, Some(file)) => String::from_str("File: ").concat(file.name.as_str()),
            (None, None) => String::from_str("*Empty message*"),
        }
    }
}

} // verus!
