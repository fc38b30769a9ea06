//! A small command-line front-end that maps human-friendly verbs
//! (install, remove, update, search, ...) onto invocations of an
//! Arch-style system package manager, with a fuzzy "did you mean"
//! suggestion for mistyped verbs.

pub mod autoremove;
pub mod command;
pub mod dispatch;
pub mod distance;
pub mod suggest;
pub mod verbs;
