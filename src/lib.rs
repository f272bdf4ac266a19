//! Memory bus of a handheld console emulator (monochrome and color models):
//! address decoding, sprite and VRAM DMA engines, interrupt flags, and the
//! edge-triggered divider/timer unit.

pub mod devices;
pub mod laws;
pub mod mmu;
pub mod mode;
pub mod timer;
