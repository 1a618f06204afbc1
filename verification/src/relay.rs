//! The relay of a chat completion that arrives in pieces: what is done with
//! each piece of the stream, and the text that is gathered on the way.

use vstd::prelude::*;
use vstd::string::StringExecFns;

verus! {

/// What the stream of a completion brings.
pub enum StreamItem {
    /// A piece of the answer, with the text of its first choice, if it has
    /// one.
    Chunk { content: Option<String> },
    /// An error, with its message. `stream` marks an error of the stream
    /// itself, as opposed to one of the request.
    Failure { stream: bool, message: String },
}

/// What the relay does with an item.
#[derive(Clone, Copy, Debug, PartialEq, Eq, Structural)]
pub enum Relayed {
    /// The piece is sent on, and the relay goes on.
    Forward,
    /// The stream is over: nothing is sent, and the relay ends.
    End,
    /// The error is sent on, and the relay ends.
    Fail,
}

/// The message by which the stream says that it is over.
pub open spec fn stream_end() -> Seq<char> {
    "Stream ended"@
}

/// What the relay does with `item`.
pub open spec fn relayed(item: StreamItem) -> Relayed {
    match item {
        StreamItem::Chunk { .. } => Relayed::Forward,
        StreamItem::Failure { stream, message } => if stream && message@ == stream_end() {
            Relayed::End
        } else {
            Relayed::Fail
        },
    }
}

/// The text gathered after `item`, where `before` was gathered before it.
pub open spec fn gathered(before: Seq<char>, item: StreamItem) -> Seq<char> {
    match item {
        StreamItem::Chunk { content: Some(text) } => before + text@,
        _ => before,
    }
}

/// The text of the answer as far as it has arrived.
pub struct ChatCapture {
    output: String,
}

impl ChatCapture {
    /// The text gathered so far.
    pub closed spec fn view(&self) -> Seq<char> {
        self.output@
    }

    /// A capture that has gathered nothing.
    pub fn new() -> (capture: ChatCapture)
        ensures
            capture@ == Seq::<char>::empty(),
    {
        ChatCapture { output: String::new() }
    }

    /// Takes one item of the stream: gathers its text and says what is to be
    /// done with it.
    pub fn relay(&mut self, item: &StreamItem) -> (action: Relayed)
        ensures
            final(self)@ == gathered(old(self)@, *item),
            action == relayed(*item),
    {
        match item {
            StreamItem::Chunk { content } => {
                if let Some(text) = content {
                    self.output.append(text.as_str());
                }
                Relayed::Forward
            },
            StreamItem::Failure { stream, message } => {
                let end = String::from_str("Stream ended");
                if *stream && *message == end {
                    Relayed::End
                } else {
                    Relayed::Fail
                }
            },
        }
    }

    /// The text that was gathered.
    pub fn into_output(self) -> (text: String)
        ensures
            text@ == self@,
    {
        self.output
    }
}

} // verus!
