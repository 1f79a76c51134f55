//! Double Ctrl+C chord detection for a desktop chat client: a detector that
//! decides, for each low-level keyboard event, whether a chord has fired, and
//! the construction of the script that submits clipboard text into the chat
//! window.
pub mod hotkey;
pub mod script;
