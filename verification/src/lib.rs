//! Acquisition and health core of an air-quality monitoring node.
//!
//! Three sensor lines (particulate matter over a framed UART stream, CO2 over a
//! Modbus-like UART exchange, VOC/NOx over I2C) are decoded here, combined into
//! one snapshot per polling cycle, and judged by a watchdog that decides whether
//! the external reset timer may be fed.
//!
//! The library never touches a transport or a clock. Every driver is a state
//! machine: it names the next transfer it needs, and is handed what came back.

pub mod config;
pub mod device;
pub mod sensors;
pub mod watchdog;
