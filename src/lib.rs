//! A chat bot's command logic: what each command replies, computed from plain
//! values so that the gateway client only has to carry requests and replies.
pub mod assets;
pub mod canvas;
pub mod config;
pub mod replies;
