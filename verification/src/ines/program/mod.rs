//! Instructions: opcodes, addressing modes and operands.

pub mod addressing;
pub mod command;
pub mod mode;
pub mod operand;
pub mod order_set;
pub mod program;
pub mod programs;

pub use command::Command;
pub use mode::Mode;
pub use operand::Operand;
pub use order_set::{OrderSet, OrderSets};
pub use program::Program;
pub use programs::Programs;
