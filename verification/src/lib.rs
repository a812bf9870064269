//! Decisions of the builder's HTTP handlers.
//!
//! Each handler is a function from a state and an event to a step. The first call takes the
//! handler's `Start` state, filled in from the request, and `Event::Begin`. A step names an action
//! to perform and the state to go on in, or it ends the request with an answer or an error. The
//! server performs the action and calls the handler again with the event that came of it.
//!
//! What a handler does in one step is stated as a table over the views of states, events and steps;
//! what it does over a whole request is stated over the runs of module [`run`]. Module [`requests`]
//! follows each request from its first action to its answer, and module [`views`] says what the
//! views show.
#![allow(unused_imports)]

pub mod accounts;
pub mod encoding;
pub mod integrations;
pub mod jobs;
pub mod json;
pub mod param;
pub mod project_create;
pub mod project_update;
pub mod projects;
pub mod requests;
pub mod run;
pub mod text;
pub mod types;
pub mod views;
