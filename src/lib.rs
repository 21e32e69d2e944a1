//! A cycle-counting emulation core for the DMG-01 Game Boy: the
//! SM83 CPU, the memory map with cartridge bank controllers, the picture
//! processing unit, the timer and the interrupt controller.
pub mod cpu;
pub mod memory;
pub mod mmu;
pub mod cartridge;
pub mod gb;
pub mod ppu;
pub mod timer;
