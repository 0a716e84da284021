//! Core of a self-service panel for virtual servers: the address pool of the
//! configured network, the session tokens that gate every request, and the
//! lifecycle of a server between the local registry and the remote
//! provisioning controller.
//!
//! The library talks to no store, mailer or controller itself. A use case is
//! a sequence of steps: each step says what the caller is to do next, and
//! takes what came of it.
//!
//! - `text`: numerals, hexadecimal, joined and split texts.
//! - `ip_calc`: the hosts of a network block, and the choice of a free one.
//! - `error`: the kinds of failure and their statuses.
//! - `token`: session tokens, their text, and their authorization.
//! - `domain`: what is exchanged with the provisioning controller.
//! - `server`: servers, plans, and what is derived from them.
//! - `lifecycle`: creating, listing, reading, deleting and switching servers.
//! - `setup_script`: setup scripts as they are reported.
//! - `user`: registration, login, and the user's own data.

pub mod text;
pub mod ip_calc;
pub mod error;
pub mod token;
pub mod domain;
pub mod server;
pub mod lifecycle;
pub mod setup_script;
pub mod user;
