//! A Motorola MC68000 processor core: register file and status register,
//! prefetch latch, integer and flag arithmetic, effective-address
//! calculation, instruction handlers, the opcode dispatch table and the
//! exception model, together with a sparse logging memory to run it on.
//!
//! Every executable function is verified against a pure model of the
//! processor state: `cpu::CoreState` is a core as a mathematical value,
//! and each function that changes a core says which state its model
//! gives. On top of the models stand proofs of what the functions have
//! in common: what the arithmetic means in numbers, how far an
//! instruction moves the program counter, how often the prefetch latch
//! goes to the bus, and that no two entries of the instruction set claim
//! one instruction word.

pub mod bits;
pub mod constants;
pub mod cpu;
pub mod ram;
