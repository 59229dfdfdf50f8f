//! Cycle-accurate core of a classic 8-bit handheld game console
//! (Sharp LR35902-class CPU): instruction decoding, the register and
//! flag model, the memory bus, the interval timer, and the five-source
//! interrupt controller.

pub mod cpu;
pub mod gpu;
pub mod interrupt_flag;
pub mod memory_bus;
pub mod ppu;
pub mod timer;
