use vstd::prelude::*;
use crate::text::{hex_lower, push_digits, push_str};

verus! {

/// The kinds of fault that stop an execution step.
#[derive(Clone, Copy, Debug, PartialEq, Eq, Structural)]
pub enum ErrorKind {
    /// MOV into a constant or a memory word.
    InvalidMoveTarget,
    /// ULD into a constant.
    InvalidUnloadTarget,
    /// ULD on an empty evaluation stack.
    StackUnderflow,
    /// RET on an empty call stack.
    CallStackEmpty,
    /// SWI with a code that names no interrupt.
    UnimplementedInterrupt,
    /// DIV by zero.
    DivisionByZero,
    /// A multi-byte access that would run past the end of memory.
    MemoryFault,
}

/// A fault: its kind, its numeric code, and the instruction pointer at which it came.
#[derive(Clone, Copy, Debug, PartialEq, Eq, Structural)]
pub struct RsmiscError {
    pub kind: ErrorKind,
    pub code: i32,
    pub address: u16,
}

/// The numeric code of each kind of fault.
pub open spec fn error_code(kind: ErrorKind) -> i32 {
    match kind {
        ErrorKind::CallStackEmpty => -2i32,
        ErrorKind::UnimplementedInterrupt => -3i32,
        ErrorKind::StackUnderflow => -4i32,
        ErrorKind::InvalidUnloadTarget => -5i32,
        ErrorKind::InvalidMoveTarget => -6i32,
        ErrorKind::DivisionByZero => -7i32,
        ErrorKind::MemoryFault => -8i32,
    }
}

/// The fault of kind `kind` at instruction pointer `address`.
pub open spec fn fault(kind: ErrorKind, address: u16) -> RsmiscError {
    RsmiscError { kind, code: error_code(kind), address }
}

/// The name under which each kind of fault is reported.
pub open spec fn error_name(kind: ErrorKind) -> Seq<char> {
    match kind {
        ErrorKind::InvalidMoveTarget => "INVALID_MOVE_TARGET"@,
        ErrorKind::InvalidUnloadTarget => "INVALID_UNLOAD_TARGET"@,
        ErrorKind::StackUnderflow => "NO_ELEMENTS_IN_STACK"@,
        ErrorKind::CallStackEmpty => "CALL_STACK_EMPTY"@,
        ErrorKind::UnimplementedInterrupt => "UNIMPLEMENTED_SOFTWARE_INTERRUPT"@,
        ErrorKind::DivisionByZero => "DIVISION_BY_ZERO"@,
        ErrorKind::MemoryFault => "MEMORY_FAULT"@,
    }
}

impl RsmiscError {
    /// The fault of kind `kind` at instruction pointer `address`.
    pub fn new(kind: ErrorKind, address: u16) -> (r: RsmiscError)
        ensures
            r == fault(kind, address),
    {
        let code: i32 = match kind {
            ErrorKind::CallStackEmpty => -2,
            ErrorKind::UnimplementedInterrupt => -3,
            ErrorKind::StackUnderflow => -4,
            ErrorKind::InvalidUnloadTarget => -5,
            ErrorKind::InvalidMoveTarget => -6,
            ErrorKind::DivisionByZero => -7,
            ErrorKind::MemoryFault => -8,
        };
        RsmiscError { kind, code, address }
    }

    /// The report of this fault: `<NAME> (at 0x<hex address>)`.
    pub fn message(&self) -> (r: String)
        ensures
            r@ == error_name(self.kind) + " (at 0x"@ + hex_lower(self.address as nat) + ")"@,
    {
        let name = match self.kind {
            ErrorKind::InvalidMoveTarget => "INVALID_MOVE_TARGET",
            ErrorKind::InvalidUnloadTarget => "INVALID_UNLOAD_TARGET",
            ErrorKind::StackUnderflow => "NO_ELEMENTS_IN_STACK",
            ErrorKind::CallStackEmpty => "CALL_STACK_EMPTY",
            ErrorKind::UnimplementedInterrupt => "UNIMPLEMENTED_SOFTWARE_INTERRUPT",
            ErrorKind::DivisionByZero => "DIVISION_BY_ZERO",
            ErrorKind::MemoryFault => "MEMORY_FAULT",
        };
        let mut s = String::new();
        push_str(&mut s, name);
        push_str(&mut s, " (at 0x");
        push_digits(&mut s, self.address as u64, 16, false);
        push_str(&mut s, ")");
        assert(s@ =~= error_name(self.kind) + " (at 0x"@ + hex_lower(self.address as nat) + ")"@);
        s
    }
}

} // verus!
