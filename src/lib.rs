//! Session state for a terminal chat client: the draft editor, the transcript,
//! scrolling, model selection and the single in-flight request guard.

pub mod chat;
pub mod editor;
pub mod models;
pub mod scroll;
pub mod session;
pub mod text;
