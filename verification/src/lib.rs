//! Core logic of an interrupt-driven cellular-automaton controller for a
//! 5x5 LED matrix with two buttons.
//!
//! Everything here is pure decision logic, verified with Verus: the automaton
//! grid and its transition function, the per-button debounce latches, the
//! pause/step state machine, and the handler-level transitions that the two
//! input strategies (hardware edge events and periodic polling) and the
//! periodic advance tick drive. Hardware wiring (GPIO channels, real-time
//! counters, the LED driver, critical sections) lives outside the library and
//! hands these functions plain values.

pub mod control;
pub mod debounce;
pub mod grid;
pub mod pause;
