//! Core of a CLI agent that lets a chat model drive a code review: the
//! bounded multi-turn conversation controller, the dispatcher of the two
//! read-only inspection tools it declares, the indentation-based block
//! extractor behind the file reader, and the capped regex search.
//!
//! Everything that decides or computes lives here, verified. The caller
//! supplies the I/O the contracts are parameterized over: file contents for
//! the reader, the walked file list for the search, the chat exchange and
//! the tool execution for the controller.

use vstd::prelude::*;

pub mod agent;
pub mod args;
pub mod chars;
pub mod chat;
pub mod dispatch;
pub mod extract;
pub mod gitdata;
pub mod jsonio;
pub mod lines;
pub mod numfmt;
pub mod patterns;
pub mod prompt;
pub mod read;
pub mod search;
pub mod render;
pub mod strutil;
pub mod tooldefs;

verus! {

} // verus!
