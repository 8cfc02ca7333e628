//! A small fixed-width virtual machine: decoding of 48-bit instruction words,
//! operand addressing, and an execution engine whose every step is specified.

pub mod arithmetic_operation;
pub mod error;
pub mod instruction;
pub mod lemmas;
pub mod operand;
pub mod rsmisc;
pub mod text;
