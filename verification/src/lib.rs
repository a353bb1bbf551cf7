//! The control plane of a terminal client: key bindings, the modal keystroke
//! handler, the command dispatcher and the page model they act on.

pub mod app;
pub mod bindings;
pub mod command_palette;
pub mod command_to_event;
pub mod commands;
pub mod input;
pub mod keys;
pub mod listener;
pub mod page;
pub mod post;
pub mod prefs;
pub mod subreddit_listing_page;
pub mod surface;
pub mod text;
pub mod trie;
