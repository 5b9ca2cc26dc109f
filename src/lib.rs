//! Episode control for a Game Boy Tetris environment: packed-BCD counter
//! decoding, debounced key tracking, the running/ended episode state machine
//! and frame-buffer conversion.

pub mod bcd;
pub mod keys;
pub mod environment;
