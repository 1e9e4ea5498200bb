//! Terminal chat client core: input editing, conversation history, request
//! building and reply classification for a remote completion endpoint.
//!
//! - `editor`: the text-entry buffer and its cursor.
//! - `session`: the session state machine, driven by key presses and by the
//!   outcomes of the exchanges it asks for.
//! - `client`: credentials, generation options, requests and replies.
//! - `models`, `errors`: the data and the errors of an exchange.
//! - `tools`, `cli`: console answers and the start-up decision.
//! - `text`: string helpers.

pub mod text;
pub mod errors;
pub mod models;
pub mod client;
pub mod editor;
pub mod session;
pub mod tools;
pub mod cli;

pub use client::GPTClient;
pub use errors::GPTError;
pub use models::{AccessData, ApiRequest, ChatMessage, CompletionOptions, GPTOptions, URL_API};
pub use session::App;
