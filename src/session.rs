//! The session controller: which screen is shown, how input events change the
//! session, and the life of the one completion request that may be in flight.

use vstd::prelude::*;

use crate::chat::{concat_texts, concat_strings, ChatMessage, ChatState, ChatView, Chatter, MessageView};
use crate::editor::{EditOp, EditorView};
use crate::models::{ModelSelector, ModelView};
use crate::scroll::{ScrollState, ScrollView};
use crate::text::{trim_whitespace, trimmed};

verus! {

/// The screen on display.
#[derive(PartialEq, Eq, Structural, Clone, Copy, Debug)]
pub enum CurrentScreen {
    MainMenu,
    Chat,
}

/// Why a chat session could not be started.
#[derive(PartialEq, Eq, Structural, Clone, Copy, Debug)]
pub enum SessionError {
    /// No API credential has been loaded.
    MissingCredential,
}

/// One input event, already decoded from the terminal.
#[derive(PartialEq, Eq, Structural, Clone, Copy, Debug)]
pub enum InputEvent {
    Char(char),
    Enter,
    Esc,
    Tab,
    Up,
    Down,
    Left,
    Right,
    Backspace,
    ScrollUp,
    ScrollDown,
    Other,
}

/// What the caller has to do after an event was handled.
pub enum Reaction {
    /// Nothing beyond drawing the new state.
    Stay,
    /// End the program.
    Quit,
    /// Open a completion session for the model at this index.
    OpenSession(usize),
    /// Starting a session was refused.
    Refused(SessionError),
    /// Send this text to the completion service and hand the reply back.
    Dispatch(String),
}

/// A [`Reaction`] as mathematics.
pub enum ReactionView {
    Stay,
    Quit,
    OpenSession(nat),
    Refused(SessionError),
    Dispatch(Seq<char>),
}

impl View for Reaction {
    type V = ReactionView;

    open spec fn view(&self) -> ReactionView {
        match self {
            Reaction::Stay => ReactionView::Stay,
            Reaction::Quit => ReactionView::Quit,
            Reaction::OpenSession(i) => ReactionView::OpenSession(*i as nat),
            Reaction::Refused(e) => ReactionView::Refused(*e),
            Reaction::Dispatch(t) => ReactionView::Dispatch(t@),
        }
    }
}

/// The whole session as mathematics.
pub struct SessionView {
    pub screen: CurrentScreen,
    pub chat: ChatView,
    pub api_key: Option<Seq<char>>,
    pub scroll: ScrollView,
    pub models: ModelView,
    /// A completion request is in flight.
    pub pending: bool,
}

impl SessionView {
    /// A session begun afresh: the chat screen, an empty transcript and draft,
    /// the view at the top and no request in flight.
    pub open spec fn chat_started(self) -> SessionView {
        SessionView {
            screen: CurrentScreen::Chat,
            chat: ChatView::fresh(),
            scroll: ScrollView { offset: 0, content_length: self.scroll.content_length },
            pending: false,
            ..self
        }
    }

    /// What starting a chat session gives: it needs a credential.
    pub open spec fn start_outcome(self) -> Result<(), SessionError> {
        if self.api_key is None {
            Err(SessionError::MissingCredential)
        } else {
            Ok(())
        }
    }

    /// The state after an attempt to start a chat session.
    pub open spec fn after_start(self) -> SessionView {
        if self.api_key is None {
            self
        } else {
            self.chat_started()
        }
    }

    /// A message may be submitted: the chat screen is shown and no request is in flight.
    pub open spec fn can_submit(self) -> bool {
        self.screen == CurrentScreen::Chat && !self.pending
    }

    /// The text that a submission sends, if one is made.
    pub open spec fn submit_text(self) -> Option<Seq<char>> {
        if self.can_submit() {
            Some(self.chat.editor.content)
        } else {
            None
        }
    }

    /// The state after a submission: the draft becomes a human message, the
    /// draft is emptied, the view goes back to the top and a request is in
    /// flight. Nothing changes where no submission may be made.
    pub open spec fn submitted(self) -> SessionView {
        if self.can_submit() {
            SessionView {
                chat: ChatView {
                    messages: self.chat.messages.push(
                        MessageView { role: Chatter::Human, text: self.chat.editor.content },
                    ),
                    editor: EditorView::empty(),
                },
                scroll: ScrollView { offset: 0, content_length: self.scroll.content_length },
                pending: true,
                ..self
            }
        } else {
            self
        }
    }

    /// The state once the reply `text` to the request in flight has arrived:
    /// it is appended as the assistant's message and the request is done.
    /// Nothing changes where no request is in flight.
    pub open spec fn replied(self, text: Seq<char>) -> SessionView {
        if self.pending {
            SessionView {
                chat: ChatView {
                    messages: self.chat.messages.push(MessageView { role: Chatter::AI, text }),
                    editor: self.chat.editor,
                },
                pending: false,
                ..self
            }
        } else {
            self
        }
    }

    /// The state after one editing step on the draft; an insertion into a
    /// draft of the largest size is dropped.
    pub open spec fn edited(self, op: EditOp) -> SessionView {
        if op is Insert && self.chat.editor.content.len() >= usize::MAX {
            self
        } else {
            SessionView {
                chat: ChatView { messages: self.chat.messages, editor: self.chat.editor.apply(op) },
                ..self
            }
        }
    }

    pub open spec fn with_screen(self, screen: CurrentScreen) -> SessionView {
        SessionView { screen, ..self }
    }

    pub open spec fn with_scroll(self, scroll: ScrollView) -> SessionView {
        SessionView { scroll, ..self }
    }

    pub open spec fn with_models(self, models: ModelView) -> SessionView {
        SessionView { models, ..self }
    }

    /// The state after `event` is handled.
    pub open spec fn step(self, event: InputEvent) -> SessionView {
        match self.screen {
            CurrentScreen::MainMenu => match event {
                InputEvent::Char('n') => self.after_start(),
                InputEvent::Tab => self.with_models(self.models.cycled()),
                _ => self,
            },
            CurrentScreen::Chat => match event {
                InputEvent::Enter => self.submitted(),
                InputEvent::Esc => self.with_screen(CurrentScreen::MainMenu),
                InputEvent::Up | InputEvent::ScrollUp => self.with_scroll(self.scroll.scrolled_up()),
                InputEvent::Down | InputEvent::ScrollDown => self.with_scroll(
                    self.scroll.scrolled_down(),
                ),
                InputEvent::Char(c) => self.edited(EditOp::Insert(c)),
                InputEvent::Backspace => self.edited(EditOp::DeleteBefore),
                InputEvent::Left => self.edited(EditOp::MoveLeft),
                InputEvent::Right => self.edited(EditOp::MoveRight),
                _ => self,
            },
        }
    }

    /// What the caller is asked to do after `event` is handled.
    pub open spec fn reaction(self, event: InputEvent) -> ReactionView {
        match self.screen {
            CurrentScreen::MainMenu => match event {
                InputEvent::Char('n') => match self.start_outcome() {
                    Ok(_) => ReactionView::OpenSession(self.models.selected),
                    Err(e) => ReactionView::Refused(e),
                },
                InputEvent::Char('q') => ReactionView::Quit,
                _ => ReactionView::Stay,
            },
            CurrentScreen::Chat => match event {
                InputEvent::Enter => match self.submit_text() {
                    Some(t) => ReactionView::Dispatch(t),
                    None => ReactionView::Stay,
                },
                _ => ReactionView::Stay,
            },
        }
    }

}

/// While a request is in flight a second submission sends nothing and changes
/// nothing; once the reply has arrived, the next submission goes through.
pub proof fn lemma_one_request_in_flight(s: SessionView, reply: Seq<char>)
    requires
        s.screen == CurrentScreen::Chat,
        !s.pending,
    ensures
        s.submit_text() is Some,
        s.submitted().pending,
        s.submitted().submit_text() is None,
        s.submitted().submitted() == s.submitted(),
        !s.submitted().replied(reply).pending,
        s.submitted().replied(reply).submit_text() is Some,
{
}

/// A submission puts the draft into the transcript as a human message and
/// empties the draft before any reply; the assistant's reply then comes right
/// after it.
pub proof fn lemma_submission_order(s: SessionView, reply: Seq<char>)
    requires
        s.can_submit(),
    ensures
        s.submitted().chat.messages == s.chat.messages.push(
            MessageView { role: Chatter::Human, text: s.chat.editor.content },
        ),
        s.submitted().chat.editor == EditorView::empty(),
        s.submitted().scroll.offset == 0,
        s.submitted().replied(reply).chat.messages == s.chat.messages.push(
            MessageView { role: Chatter::Human, text: s.chat.editor.content },
        ).push(MessageView { role: Chatter::AI, text: reply }),
{
}

/// The interactive session: the screen shown, the chat transcript and draft,
/// the loaded credential, scrolling, model selection and the in-flight guard.
pub struct AppState {
    chat_menu: ChatState,
    api_key: Option<String>,
    current_screen: CurrentScreen,
    scroll: ScrollState,
    models: ModelSelector,
    pending_request: bool,
}

impl View for AppState {
    type V = SessionView;

    closed spec fn view(&self) -> SessionView {
        SessionView {
            screen: self.current_screen,
            chat: self.chat_menu@,
            api_key: match self.api_key {
                Some(k) => Some(k@),
                None => None,
            },
            scroll: self.scroll@,
            models: self.models@,
            pending: self.pending_request,
        }
    }
}

impl AppState {
    /// The main menu, with the first of `model_names` selected, no credential
    /// and an empty chat.
    pub fn new(model_names: Vec<String>) -> (r: AppState)
        requires
            model_names.len() > 0,
        ensures
            r@ == (SessionView {
                screen: CurrentScreen::MainMenu,
                chat: ChatView::fresh(),
                api_key: None,
                scroll: ScrollView { offset: 0, content_length: 0 },
                models: ModelView { names: model_names@.map_values(|s: String| s@), selected: 0 },
                pending: false,
            }),
    {
        AppState {
            chat_menu: ChatState::new(),
            api_key: None,
            current_screen: CurrentScreen::MainMenu,
            scroll: ScrollState::new(),
            models: ModelSelector::new(model_names),
            pending_request: false,
        }
    }

    /// Keeps the credential read from a file, without surrounding whitespace.
    pub fn load_api_key(&mut self, contents: &str)
        ensures
            final(self)@ == (SessionView { api_key: Some(trimmed(contents@)), ..old(self)@ }),
    {
        self.api_key = Some(trim_whitespace(contents));
    }

    /// Starts a fresh chat session on the chat screen; refused, with nothing
    /// changed, while no credential is loaded.
    pub fn new_chat(&mut self) -> (r: Result<(), SessionError>)
        ensures
            r == old(self)@.start_outcome(),
            final(self)@ == old(self)@.after_start(),
    {
        if self.api_key.is_none() {
            return Err(SessionError::MissingCredential);
        }
        self.chat_menu = ChatState::new();
        self.scroll.reset();
        self.pending_request = false;
        self.current_screen = CurrentScreen::Chat;
        Ok(())
    }

    /// Back to the main menu; the chat is discarded when the next one starts.
    pub fn leave_chat(&mut self)
        ensures
            final(self)@ == old(self)@.with_screen(CurrentScreen::MainMenu),
    {
        self.current_screen = CurrentScreen::MainMenu;
    }

    /// Selects the next model, wrapping around.
    pub fn cycle_model(&mut self)
        ensures
            final(self)@ == old(self)@.with_models(old(self)@.models.cycled()),
    {
        self.models.cycle();
    }

    /// Performs one editing step on the draft; an insertion into a draft of
    /// the largest size is dropped.
    pub fn enter_char(&mut self, op: EditOp)
        ensures
            final(self)@ == old(self)@.edited(op),
    {
        if let EditOp::Insert(_) = op {
            if self.chat_menu.text_area().char_count() == usize::MAX {
                return;
            }
        }
        self.chat_menu.edit(op);
    }

    /// Submits the draft: it is appended as a human message, the draft is
    /// emptied and the view goes back to the top, all before the text is handed
    /// back to be sent. An empty draft is submitted as an empty message.
    /// Nothing happens, and `None` comes back, off the chat screen or while a
    /// request is in flight.
    pub fn send_message(&mut self) -> (r: Option<String>)
        ensures
            final(self)@ == old(self)@.submitted(),
            match r {
                Some(t) => old(self)@.submit_text() == Some(t@),
                None => old(self)@.submit_text() is None,
            },
    {
        if self.current_screen != CurrentScreen::Chat || self.pending_request {
            return None;
        }
        let text = self.chat_menu.text_area().content();
        self.chat_menu.append(Chatter::Human, text.clone());
        self.chat_menu.clear_draft();
        self.scroll.reset();
        self.pending_request = true;
        Some(text)
    }

    /// Takes the reply to the request in flight: the contents of its choices,
    /// joined in order, become the assistant's message and the request is
    /// done. Returns whether a request was in flight; without one nothing changes.
    pub fn receive_reply(&mut self, choices: &Vec<String>) -> (r: bool)
        ensures
            r == old(self)@.pending,
            final(self)@ == old(self)@.replied(concat_texts(choices@.map_values(|s: String| s@))),
    {
        if !self.pending_request {
            return false;
        }
        let text = concat_strings(choices);
        self.chat_menu.append(Chatter::AI, text);
        self.pending_request = false;
        true
    }

    /// Scrolls the transcript one line up.
    pub fn move_row_start_up(&mut self)
        ensures
            final(self)@ == old(self)@.with_scroll(old(self)@.scroll.scrolled_up()),
    {
        self.scroll.scroll_up();
    }

    /// Scrolls the transcript one line down, stopping at the last line.
    pub fn move_row_start_down(&mut self)
        ensures
            final(self)@ == old(self)@.with_scroll(old(self)@.scroll.scrolled_down()),
    {
        self.scroll.scroll_down();
    }

    /// Records how many transcript lines there are to scroll over.
    pub fn sync_content_length(&mut self, n: u16)
        ensures
            final(self)@ == old(self)@.with_scroll(old(self)@.scroll.with_length(n as nat)),
    {
        self.scroll.sync_content_length(n);
    }

    /// Handles one input event and says what the caller has to do next.
    pub fn handle_event(&mut self, event: InputEvent) -> (r: Reaction)
        ensures
            final(self)@ == old(self)@.step(event),
            r@ == old(self)@.reaction(event),
    {
        match self.current_screen {
            CurrentScreen::MainMenu => match event {
                InputEvent::Char('n') => match self.new_chat() {
                    Ok(()) => Reaction::OpenSession(self.models.selected_index()),
                    Err(e) => Reaction::Refused(e),
                },
                InputEvent::Char('q') => Reaction::Quit,
                InputEvent::Tab => {
                    self.cycle_model();
                    Reaction::Stay
                },
                _ => Reaction::Stay,
            },
            CurrentScreen::Chat => match event {
                InputEvent::Enter => match self.send_message() {
                    Some(t) => Reaction::Dispatch(t),
                    None => Reaction::Stay,
                },
                InputEvent::Esc => {
                    self.leave_chat();
                    Reaction::Stay
                },
                InputEvent::Up | InputEvent::ScrollUp => {
                    self.move_row_start_up();
                    Reaction::Stay
                },
                InputEvent::Down | InputEvent::ScrollDown => {
                    self.move_row_start_down();
                    Reaction::Stay
                },
                InputEvent::Char(c) => {
                    self.enter_char(EditOp::Insert(c));
                    Reaction::Stay
                },
                InputEvent::Backspace => {
                    self.enter_char(EditOp::DeleteBefore);
                    Reaction::Stay
                },
                InputEvent::Left => {
                    self.enter_char(EditOp::MoveLeft);
                    Reaction::Stay
                },
                InputEvent::Right => {
                    self.enter_char(EditOp::MoveRight);
                    Reaction::Stay
                },
                _ => Reaction::Stay,
            },
        }
    }

    /// The screen on display.
    pub fn current_screen(&self) -> (r: CurrentScreen)
        ensures
            r == self@.screen,
    {
        self.current_screen
    }

    /// The transcript and the draft.
    pub fn chat_menu(&self) -> (r: &ChatState)
        ensures
            r@ == self@.chat,
    {
        &self.chat_menu
    }

    /// The loaded credential, if any.
    pub fn api_key(&self) -> (r: Option<&String>)
        ensures
            match r {
                Some(k) => self@.api_key == Some(k@),
                None => self@.api_key is None,
            },
    {
        self.api_key.as_ref()
    }

    /// The scroll position.
    pub fn scroll(&self) -> (r: &ScrollState)
        ensures
            r@ == self@.scroll,
    {
        &self.scroll
    }

    /// The model list and the selection.
    pub fn models(&self) -> (r: &ModelSelector)
        ensures
            r@ == self@.models,
    {
        &self.models
    }

    /// Whether a completion request is in flight.
    pub fn pending_request(&self) -> (r: bool)
        ensures
            r == self@.pending,
    {
        self.pending_request
    }
}

} // verus!
