//! Cartridge handling for a handheld game-console emulator: the ROM header
//! layout, its checksum, and the publisher and mapper name tables.
pub mod tables;
pub mod header;
pub mod cart;
pub mod emu;
