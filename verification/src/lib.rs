//! Control-plane and backend-lifecycle logic of a reverse proxy.
//!
//! `network` holds what the event loop consults for every session: the
//! readiness states, the backend records and their retry policy. `command`
//! holds the administrative side: the vocabulary of commands and answers,
//! the correlation of answers with commands, and the operations built on it.
//! `text` writes the numbers of report cells.

pub mod command;
pub mod network;
pub mod text;
