//! The editing core of JamesevIM, a small modal text editor.
//!
//! `editor::Editor` is the editor: a text, a cursor in it, and what is under way. It is driven
//! by key presses (`input`), shows itself as frames (`screen`), and leaves files and the
//! terminal to its caller. `state::EditorState` is the mathematical model that the contracts
//! speak of; `consistency` and `laws` prove what holds of it.
pub mod command;
pub mod command_laws;
pub mod consistency;
pub mod document;
pub mod edit_laws;
pub mod editor;
pub mod format;
pub mod input;
pub mod key_laws;
pub mod keys;
pub mod laws;
pub mod screen;
pub mod screen_laws;
pub mod state;
pub mod text;
