use vstd::prelude::*;

verus! {

/// The four binary operations of the arithmetic unit.
#[derive(Clone, Copy, Debug, PartialEq, Eq, Structural)]
pub enum ArithmeticOperation {
    Add,
    Sub,
    Mul,
    Div,
}

/// The result of `op` on `target` and `source` modulo 2^16, or `None` for a
/// division by zero.
pub open spec fn arithmetic_spec(op: ArithmeticOperation, target: u16, source: u16) -> Option<u16> {
    match op {
        ArithmeticOperation::Add => Some(((target + source) % 0x10000) as u16),
        ArithmeticOperation::Sub => Some(((target - source + 0x10000) % 0x10000) as u16),
        ArithmeticOperation::Mul => Some(((target * source) % 0x10000) as u16),
        ArithmeticOperation::Div => if source == 0 {
            None
        } else {
            Some((target / source) as u16)
        },
    }
}

impl ArithmeticOperation {
    /// Applies this operation to `target` and `source` with 16-bit wrap-around;
    /// `None` exactly for a division by zero.
    pub fn apply(self, target: u16, source: u16) -> (r: Option<u16>)
        ensures
            r == arithmetic_spec(self, target, source),
    {
        match self {
            ArithmeticOperation::Add => Some(target.wrapping_add(source)),
            ArithmeticOperation::Sub => Some(target.wrapping_sub(source)),
            ArithmeticOperation::Mul => Some(target.wrapping_mul(source)),
            ArithmeticOperation::Div => if source == 0 {
                None
            } else {
                Some(target / source)
            },
        }
    }
}

} // verus!
