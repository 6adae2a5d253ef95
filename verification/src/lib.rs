//! Turn-based battle and overworld user-interface driver.
//!
//! A game is a [`state::GameState`] that the frame loop owns. Once per frame the loop
//! takes an [`input::InputSnapshot`], hands both to [`update::update_state`], and draws
//! the commands that [`render::draw_graphics`] returns. Both dispatchers are keyed on the
//! active [`phase::UIPhase`].

pub mod phase;
pub mod input;
pub mod state;
pub mod collision;
pub mod update;
pub mod invariants;
pub mod render;
pub mod frame;
