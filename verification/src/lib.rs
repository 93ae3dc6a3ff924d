//! Input-acquisition core for a small USB macropad controller.
//!
//! The library turns raw, electrically noisy samples from a switch matrix and
//! a mechanical rotary encoder into clean, debounced, edge-triggered key and
//! rotation events, and maps those events to output report codes. Reading the
//! electrical levels themselves, and handing the resulting report codes to an
//! output transport, are the owning application's concern: every function here
//! works on plain values and is verified.

pub mod debounce;
pub mod key_mapping;
pub mod keyboard_matrix;
pub mod rotary_encoder;
pub mod transport;
