//! The transcript of a chat session and the draft being typed.

use vstd::prelude::*;

use crate::editor::{EditOp, EditorView, TextEditBuffer};

verus! {

/// Who wrote a message.
#[derive(PartialEq, Eq, Structural, Clone, Copy, Debug)]
pub enum Chatter {
    AI,
    Human,
}

/// One message of the transcript.
pub struct ChatMessage {
    pub role: Chatter,
    pub message: String,
}

/// A message as mathematics: its author and its characters.
pub struct MessageView {
    pub role: Chatter,
    pub text: Seq<char>,
}

impl View for ChatMessage {
    type V = MessageView;

    open spec fn view(&self) -> MessageView {
        MessageView { role: self.role, text: self.message@ }
    }
}

/// The order in which to walk the transcript.
#[derive(PartialEq, Eq, Structural, Clone, Copy, Debug)]
pub enum MessageOrder {
    OldestFirst,
    NewestFirst,
}

/// The characters of several texts, one after the other.
pub open spec fn concat_texts(texts: Seq<Seq<char>>) -> Seq<char>
    decreases texts.len(),
{
    if texts.len() == 0 {
        Seq::empty()
    } else {
        concat_texts(texts.drop_last()) + texts.last()
    }
}

/// Joins `parts` into one string, first to last, with nothing between them.
pub fn concat_strings(parts: &Vec<String>) -> (r: String)
    ensures
        r@ == concat_texts(parts@.map_values(|s: String| s@)),
{
    let ghost views = parts@.map_values(|s: String| s@);
    let mut r = String::new();
    let mut i: usize = 0;
    while i < parts.len()
        invariant
            i <= parts.len(),
            views == parts@.map_values(|s: String| s@),
            r@ == concat_texts(views.subrange(0, i as int)),
        decreases parts.len() - i,
    {
        r.append(parts[i].as_str());
        proof {
            assert(views.subrange(0, i + 1).drop_last() == views.subrange(0, i as int));
        }
        i = i + 1;
    }
    proof {
        assert(views.subrange(0, i as int) == views);
    }
    r
}

/// What a chat session holds: the transcript and the draft.
pub struct ChatView {
    pub messages: Seq<MessageView>,
    pub editor: EditorView,
}

impl ChatView {
    /// A fresh session: no messages and an empty draft.
    pub open spec fn fresh() -> ChatView {
        ChatView { messages: Seq::empty(), editor: EditorView::empty() }
    }

    /// The message at position `i` when the transcript is walked in `order`.
    pub open spec fn message_in_order(self, order: MessageOrder, i: int) -> MessageView {
        match order {
            MessageOrder::OldestFirst => self.messages[i],
            MessageOrder::NewestFirst => self.messages[self.messages.len() - 1 - i],
        }
    }
}

/// The transcript of one chat session, oldest message first, and the draft
/// message being typed.
pub struct ChatState {
    messages: Vec<ChatMessage>,
    text_area: TextEditBuffer,
}

impl View for ChatState {
    type V = ChatView;

    closed spec fn view(&self) -> ChatView {
        ChatView { messages: self.messages@.map_values(|m: ChatMessage| m@), editor: self.text_area@ }
    }
}

impl ChatState {
    /// No messages and an empty draft.
    pub fn new() -> (r: ChatState)
        ensures
            r@ == ChatView::fresh(),
    {
        let r = ChatState { messages: Vec::new(), text_area: TextEditBuffer::new() };
        proof {
            assert(r@.messages == Seq::<MessageView>::empty());
        }
        r
    }

    /// Appends a message at the end of the transcript.
    pub fn append(&mut self, role: Chatter, message: String)
        ensures
            final(self)@ == (ChatView {
                messages: old(self)@.messages.push(MessageView { role, text: message@ }),
                editor: old(self)@.editor,
            }),
    {
        let m = ChatMessage { role, message };
        self.messages.push(m);
        proof {
            assert(final(self)@.messages == old(self)@.messages.push(m@));
        }
    }

    /// Performs one editing step on the draft.
    pub fn edit(&mut self, op: EditOp)
        requires
            op is Insert ==> old(self)@.editor.content.len() < usize::MAX,
        ensures
            final(self)@ == (ChatView { messages: old(self)@.messages, editor: old(self)@.editor.apply(op) }),
    {
        self.text_area.apply(op);
    }

    /// Empties the draft.
    pub fn clear_draft(&mut self)
        ensures
            final(self)@ == (ChatView { messages: old(self)@.messages, editor: EditorView::empty() }),
    {
        self.text_area.clear();
    }

    /// The number of messages.
    pub fn len(&self) -> (r: usize)
        ensures
            r == self@.messages.len(),
    {
        self.messages.len()
    }

    /// The transcript, oldest message first.
    pub fn messages(&self) -> (r: &Vec<ChatMessage>)
        ensures
            r@.map_values(|m: ChatMessage| m@) == self@.messages,
    {
        &self.messages
    }

    /// The message at position `i` when the transcript is walked in `order`.
    pub fn message_at(&self, order: MessageOrder, i: usize) -> (r: &ChatMessage)
        requires
            i < self@.messages.len(),
        ensures
            r@ == self@.message_in_order(order, i as int),
    {
        match order {
            MessageOrder::OldestFirst => &self.messages[i],
            MessageOrder::NewestFirst => &self.messages[self.messages.len() - 1 - i],
        }
    }

    /// The draft.
    pub fn text_area(&self) -> (r: &TextEditBuffer)
        ensures
            r@ == self@.editor,
    {
        &self.text_area
    }
}

} // verus!
