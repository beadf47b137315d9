//! Keystroke buffering and transformation triggering for a Vietnamese input
//! method: the per-word state machine that decides what to buffer, when to
//! give up on a word, and how many characters to erase before a rewrite.

pub mod input;
pub mod laws;
