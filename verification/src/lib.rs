//! Opens a URL by handing it to the first handler script whose regular
//! expression matches, falling back to a default script when nothing matches
//! or the chosen handler declines.
//!
//! The crate holds the dispatch logic itself: which handler a URL selects,
//! what is run with which arguments, and what each failure means. Reading the
//! configuration file, parsing command-line arguments and spawning the script
//! processes happen outside, around this library.

pub mod config;
pub mod dispatch;
pub mod laws;
