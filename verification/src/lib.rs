//! A CHIP-8 virtual machine with machine-checked contracts.
//!
//! The machine is [`Chip8`]. A host builds one, loads a program, reports key
//! presses and calls `tick` with the wall-clock time that has passed; each
//! tick runs at most one instruction and fires at most one timer event, and
//! tells the host whether to present the framebuffer and whether to beep.
//!
//! * [`state`] is the mathematical model: the architectural state and the
//!   meaning of every instruction and of a tick as functions on it.
//! * [`chip8`] is the executable machine; its contracts say that it does
//!   what the model says.
//! * [`instruction`] holds the instruction set and its decoding.
//! * [`laws`] holds properties proved of the model.
//! * [`font`], [`rng`] and [`time`] are the parts the machine is built from.
//! * [`config`], [`display`] and [`keypad`] serve a host: its settings, the
//!   layout of the framebuffer on a window and of the keypad on a keyboard.

pub mod chip8;
pub mod config;
pub mod display;
pub mod font;
pub mod instruction;
pub mod keypad;
pub mod laws;
pub mod rng;
pub mod state;
pub mod time;

pub use chip8::{Chip8, Chip8TickResult};
pub use config::Config;
pub use instruction::Instruction;
pub use rng::Rng;
pub use state::{Fault, DISPLAY_HEIGHT, DISPLAY_WIDTH};
