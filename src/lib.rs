//! Decode/execute engine of a dual-instruction-set handheld console processor:
//! bit-field helpers, the status word, the banked register file, both
//! instruction decoders, the barrel shifter and ALU, the memory bus and the
//! micro-operation pipeline, plus the pixel, keypad and sound value types.
pub mod bits;
pub mod enums;
pub mod psr;
pub mod registers;
pub mod instruction;
pub mod arm_decode;
pub mod thumb_decode;
pub mod thumb_exec;
pub mod alu;
pub mod memory;
pub mod cpu;
pub mod micro_ops;
pub mod transfer;
pub mod block;
pub mod control;
pub mod video;
pub mod sound;
pub mod gb;
