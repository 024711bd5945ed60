//! An instruction-accurate MOS 6502 core for the Nintendo Entertainment System,
//! together with the CPU bus and the cartridge mappers that feed it.
//!
//! Every executable function carries a contract over a mathematical model of the
//! machine; the models are the `open spec` functions next to each type.
pub mod types;
pub mod ram;
pub mod rom;
pub mod bus;
pub mod helper;
pub mod cpu_registers;
pub mod cpu;
pub mod cartridge;
pub mod mapper;
pub mod mapper_cnrom;
pub mod mapper_nrom;
pub mod mapper_sxrom;
pub mod mapper_uxrom;
pub mod main_bus;
pub mod controller;
pub mod nestest;
pub mod emulator;
