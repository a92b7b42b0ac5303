//! Domain rules of a space-combat arcade game.
//!
//! Ships and missiles move under player input and under the pull of stars. The
//! rules are written against gateways to the game state, and against the
//! vector arithmetic of whoever runs them: a scalar is held as the 32-bit word
//! of a single-precision number. This crate stores such words, passes them on
//! and changes their sign; every other computation on them is the caller's.

pub mod physics;
pub mod repo;
pub mod repo_interfaces;
pub mod user_input;
pub mod world;
