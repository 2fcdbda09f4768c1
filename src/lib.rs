//! Window-lifecycle core of a multi-window sticky-notes application,
//! together with the note model and its identifiers.

pub mod config;
pub mod factory;
pub mod geometry;
pub mod ids;
pub mod label;
pub mod laws;
pub mod logline;
pub mod manager;
pub mod models;

use vstd::prelude::*;

verus! {

/// Application-wide state shared with the windowing runtime; it holds
/// nothing yet.
pub struct AppState {}

impl Default for AppState {
    fn default() -> (r: AppState)
        ensures
            r == (AppState {}),
    {
        AppState {}
    }
}

} // verus!
