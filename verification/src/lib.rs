//! Playback control for a command-driven audio player.
//!
//! The crate holds the decisions of the player and none of its effects. A
//! [`controller::Controller`] owns the track queue and a model of the one audio
//! sink. For every event it says which transport operations the surrounding
//! program has to carry out ([`controller::Controller::plan`]) and, once their
//! outcome is known, moves to the next state and hands back the notifications
//! for the front end ([`controller::Controller::apply`]).

pub mod track;
pub mod queue;
pub mod sink;
pub mod message;
pub mod controller;
pub mod command;
pub mod laws;
