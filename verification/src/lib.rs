//! A two-paddle ball game as a per-frame state transition.
//!
//! All quantities are fixed-point integers: positions, speeds, angles and
//! colour channels count thousandths (see [`state::fixed::UNIT`]). Every
//! function carries a contract over an exact integer model of the state,
//! and the laws of the game are proved of that model in [`state::laws`].

pub mod state;
