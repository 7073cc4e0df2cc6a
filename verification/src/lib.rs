//! Lock-resolution engine: given a file path, find which processes hold an
//! open handle on it, resolve each holder to an image path, terminate a
//! holder set on request, and watch the holder set for changes over time.
//!
//! All calls into the operating system go through the [`facility::ResourceQuery`]
//! trait; the logic here is verified against that boundary alone.

pub mod types;

pub mod detect;

pub mod decimal;

pub mod facility;

pub mod resolve;

pub mod inspect;

pub mod terminate;

pub mod monitor;

pub mod scripted;

pub mod confirm;

pub mod corroborate;

pub mod context_menu;

pub mod utils;
