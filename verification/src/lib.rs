//! Proposal-authoring dialogue engine for a chat governance bot.
//!
//! The crate walks a user through collecting the fields of a proposal
//! (title, description, starting date, expiration date) via prompts and
//! inline keyboard buttons, keeps a single draft message consistent with
//! the conversation state, and stores completed proposals for listing
//! and voting.  Everything that computes — the text template engine, the
//! keyboard model, the registries and the dialogue state machine — lives
//! here and is verified; the transport shell around it is ordinary code.

pub mod fields;
pub mod keyboards;
pub mod handler;
pub mod lines;
pub mod messages;
pub mod numbers;
pub mod storage;
pub mod utils;
