//! A CHIP-8 virtual machine: program loading, instruction decoding and
//! execution, sprite drawing, timers and the wait-for-key latch, each stated
//! and proved against a mathematical model of the machine.

pub mod display;
pub mod keyboard;
pub mod laws;
pub mod machine;
pub mod opcode;
pub mod semantics;

pub use display::{half_block, pixel, Graphics, Input, Renderer};
pub use keyboard::{key_press_command, HostKey, KeyTracker, KeyboardCommand};
pub use machine::{timers_due, LoadError, MachineState, State};
pub use opcode::{decode, ExecutionError, Instruction};
