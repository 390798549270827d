//! A cycle-counted core of the first monochrome handheld console: CPU,
//! memory bus, pixel processor and timer, stepped one instruction at a time.

pub mod address;
pub mod framebuffer;
pub mod joypad_events;
pub mod utils;
pub mod instruction_decoder;
pub mod cycles;
pub mod text;
pub mod header;
pub mod fault;
pub mod cartridge;
pub mod timer;
pub mod joypad;
pub mod serial;
pub mod video;
pub mod drawing_order;
pub mod mmu;
pub mod flags;
pub mod register_pair;
pub mod alu;
pub mod reference;
pub mod cpu;
pub mod gameboy;
pub mod stepping;
pub mod frame_latch;
pub mod billing;
pub mod memory;
pub mod platform;
