//! Capture orchestration for a two-axis photo turntable and a tethered camera.
//!
//! The library holds the logic: the wire encoding of turntable commands, the
//! open-loop timing of each motion, the stepping sequence, and the two device
//! state machines (turntable and camera) written as functions from state and
//! event to next state and action. The program around it performs the actions.
pub mod camera;
pub mod command;
pub mod files;
pub mod stepping;
pub mod sync;
pub mod text;
pub mod turntable;
pub mod worker;
