//! The hardware assistant tools: circuit analysis, datasheet extraction,
//! firmware flashing help, pin mapping, protocol debugging and timing
//! calculation.

pub mod firmware_flasher;
pub mod pinout_mapper;
pub mod protocol_debugger;
pub mod circuit_analyzer;
pub mod timing_calculator;
pub mod datasheet_analyzer;
