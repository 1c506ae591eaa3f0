//! The processor: instructions, their decoding, the register file and the
//! execution engine.

pub mod alu;
pub mod decode;
pub mod flags;
pub mod laws;
pub mod machine;
pub mod op;
pub mod pattern;
pub mod registers;
pub mod vm;

pub use self::decode::{decode, decode_extended};
pub use self::flags::{Flags, F_CARRY, F_HALF_CARRY, F_SUBTRACTION, F_ZERO};
pub use self::op::{Cond, Family, Op, R16, R16Stk, R16mem, R8};
pub use self::registers::{Register16, Register8, Registers};
pub use self::vm::{fetch, ExecError, RunState, VM};
