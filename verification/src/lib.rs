//! Verified core of the Amber sensor-board firmware and its host tools:
//! flash layout, SPI NOR command framing, page transfer protocol,
//! ADC calibration arithmetic, and the command-handling state machines.
use vstd::prelude::*;

pub mod layout;
pub mod mock;
pub mod board_flash;
pub mod calibration;
pub mod camera;
pub mod comms;
pub mod console;
pub mod debug_led;
pub mod flash_control;
pub mod flash_file;
pub mod flash_task;
pub mod flow;
pub mod fpga;
pub mod framing;
pub mod fpga_flash;
pub mod nvm;
pub mod page;
pub mod power;
pub mod programmer;
pub mod sensors;
pub mod session;
pub mod state_machine;
pub mod user_params;

verus! {

} // verus!
