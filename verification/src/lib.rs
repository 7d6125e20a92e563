//! Cooperative thread-status supervision for an interactive rebase editor.
//!
//! Worker threads report lifecycle signals through a [`notifier::Notifier`];
//! a single-threaded [`controller::Controller`] consumes those signals,
//! tracks every thread in a [`registry::Registry`], derives the aggregate
//! run state and publishes a cooperative control signal that workers poll.
//! The rebase instruction script itself is modelled by
//! [`git_interactive::GitInteractive`].

pub mod action;
pub mod controller;
pub mod git_interactive;
pub mod line;
pub mod notifier;
pub mod registry;
pub mod search;
pub mod status;
pub mod text;
