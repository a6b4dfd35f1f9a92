//! Evolution logic for a fighter that grows from Gastly to Haunter to Gengar.
//!
//! Everything here works on plain values: the game engine is read and driven
//! by the caller, which hands each step the facts it observed and performs
//! the actions the step asks for.
//!
//! Percentages (damage) are fixed-point integers in thousandths of a percent,
//! and fractional animation frames in thousandths of a frame.
pub mod hashing;
pub mod stage;
pub mod state;
pub mod icons;
pub mod evolution;
pub mod readiness;
pub mod toggles;
pub mod tracking;
pub mod shadowball;
pub mod model;
pub mod looping;
pub mod frame;
pub mod ui;
pub mod darkfx;
pub mod sounds;
pub mod reset;
pub mod evofx;
pub mod shadowfx;
pub mod gastlyfx;
pub mod mods;
pub mod attack;
