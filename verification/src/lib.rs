//! Xbox Elite Wireless Controller Series 2: protocol and input logic.
//!
//! The library holds what the driver decides: decoding HID and GIP reports,
//! the profile page layout of the controller's hardware profiles and the
//! edits applied to it, the input transformation engine, the rumble reports,
//! the daemon's request handling and the configuration model of the GUI.
//! Devices, sockets and threads are handled by the programs around it.

pub mod types;
pub mod transform;
pub mod hid;
pub mod gip_types;
pub mod hw_profile;
pub mod pages;
pub mod frames;
pub mod daemon;
pub mod rumble;
pub mod name;
pub mod gui_model;
pub mod cli;
pub mod legacy;
pub mod text;
pub mod tools;
pub mod devices;
pub mod uinput;
pub mod paths;
pub mod replay;
