//! Core of a terminal front-end for a byte-oriented serial link: the
//! transcripts that render raw bytes as ASCII or hex, the blinking cursor,
//! and the modal session that turns keystrokes into outgoing bytes.
pub mod text;
pub mod codec;
pub mod channel;
pub mod screen;
pub mod cursor;
pub mod app;
pub mod scroll;
