//! The core of a small client that lists posts and shows one post with its comments.
//!
//! The controller (`App::update`) maps a state and a message to the next state and the
//! fetches to start; the projection (`App::view`) maps a state to a toolkit-neutral list
//! of widgets. Fetching and drawing are left to the host.
use vstd::prelude::*;

pub mod data;
pub mod route;
pub mod state;
pub mod text;
pub mod view;

verus! {

} // verus!
