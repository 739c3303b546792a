//! The logic of a USB HID GPIO bridge: a host configures the direction, pull
//! resistor and output level of 26 pins and reads their input levels through
//! fixed-size reports, while a pin sequencer drives and samples the pins.
//!
//! - `pull`: the 2-bit pull codes of a pull word.
//! - `pins`: the pull mode of every GPIO, updated group by group.
//! - `report`: the little-endian wire layout of the Output and Input Reports.
//! - `state`: the logical state and how an Output Report changes it.
//! - `coordinator`: the control loop's decisions, from event to next action.
pub mod coordinator;
pub mod pins;
pub mod pull;
pub mod report;
pub mod state;
