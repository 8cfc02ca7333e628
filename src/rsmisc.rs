use vstd::prelude::*;
use crate::arithmetic_operation::{ArithmeticOperation, arithmetic_spec};
use crate::error::{ErrorKind, RsmiscError, fault};
use crate::instruction::{Instruction, Opcode, decode, instruction_text};
use crate::operand::{Operand, OperandType};
use crate::text::{decimal, hex_lower, push_char, push_digits, push_str};

verus! {

/// The number of bytes of memory.
pub const MEMORY_SIZE: usize = 0x10000;

/// The width of an instruction in bytes.
pub const INSTRUCTION_SIZE: u16 = 6;

/// The machine as a mathematical value.
pub ghost struct MachineState {
    pub memory: Seq<u8>,
    pub ip: u16,
    pub registers: Seq<u16>,
    pub stack: Seq<u16>,
    pub call_stack: Seq<u16>,
    /// Text written to the console and not yet taken.
    pub output: Seq<char>,
}

impl MachineState {
    /// Memory has its full size and there are four registers.
    pub open spec fn wf(self) -> bool {
        &&& self.memory.len() == MEMORY_SIZE
        &&& self.registers.len() == 4
    }

    pub open spec fn with_ip(self, ip: u16) -> MachineState {
        MachineState { ip, ..self }
    }

    pub open spec fn with_register(self, index: int, value: u16) -> MachineState {
        MachineState { registers: self.registers.update(index, value), ..self }
    }

    pub open spec fn with_stack(self, stack: Seq<u16>) -> MachineState {
        MachineState { stack, ..self }
    }

    pub open spec fn with_call_stack(self, call_stack: Seq<u16>) -> MachineState {
        MachineState { call_stack, ..self }
    }

    pub open spec fn with_memory(self, memory: Seq<u8>) -> MachineState {
        MachineState { memory, ..self }
    }

    pub open spec fn with_output(self, output: Seq<char>) -> MachineState {
        MachineState { output, ..self }
    }
}

/// `a + b` modulo 2^16.
pub open spec fn add16(a: u16, b: u16) -> u16 {
    ((a + b) % 0x10000) as u16
}

/// `a - b` modulo 2^16.
pub open spec fn sub16(a: u16, b: u16) -> u16 {
    ((a - b + 0x10000) % 0x10000) as u16
}

/// The `n` bytes from `address` lie inside memory.
pub open spec fn fits(address: u16, n: int) -> bool {
    address + n <= MEMORY_SIZE
}

/// The big-endian 16-bit word at `a`.
pub open spec fn word16(m: Seq<u8>, a: int) -> u16 {
    (m[a] * 0x100 + m[a + 1]) as u16
}

/// The big-endian 48-bit word at `a`.
pub open spec fn word48(m: Seq<u8>, a: int) -> u64 {
    (m[a] * 0x100_0000_0000 + m[a + 1] * 0x1_0000_0000 + m[a + 2] * 0x100_0000 + m[a + 3]
        * 0x1_0000 + m[a + 4] * 0x100 + m[a + 5]) as u64
}

/// Memory after the big-endian store of `v` at `a`.
pub open spec fn store16(m: Seq<u8>, a: int, v: u16) -> Seq<u8> {
    m.update(a, (v / 0x100) as u8).update(a + 1, (v % 0x100) as u8)
}

/// The trace line of instruction `i` fetched at `ip`.
pub open spec fn trace_line(ip: u16, i: Instruction) -> Seq<char> {
    "0x"@ + hex_lower(ip as nat) + ":\t "@ + instruction_text(i) + "\n"@
}

/// The state once the trace line of `i` is written, when tracing is on.
pub open spec fn traced(s: MachineState, i: Instruction, print: bool) -> MachineState {
    if print {
        s.with_output(s.output + trace_line(s.ip, i))
    } else {
        s
    }
}

/// The value of operand `o` with immediate `imm`: a register, the
/// instruction pointer, the immediate itself, or the memory word at it.
pub open spec fn operand_value(s: MachineState, o: Operand, imm: u16) -> Result<u16, RsmiscError> {
    match o {
        Operand::R1 => Ok(s.registers[0]),
        Operand::R2 => Ok(s.registers[1]),
        Operand::R3 => Ok(s.registers[2]),
        Operand::R4 => Ok(s.registers[3]),
        Operand::IP => Ok(s.ip),
        Operand::CT => Ok(imm),
        Operand::MA => if fits(imm, 2) {
            Ok(word16(s.memory, imm as int))
        } else {
            Err(fault(ErrorKind::MemoryFault, s.ip))
        },
    }
}

/// The operand and the immediate on side `side` of `i`.
pub open spec fn side_value(s: MachineState, i: Instruction, side: OperandType) -> Result<u16, RsmiscError> {
    match side {
        OperandType::TARGET => operand_value(s, i.target, i.target_imm),
        OperandType::SOURCE => operand_value(s, i.source, i.source_imm),
    }
}

/// A register or the instruction pointer: the operands that MOV can write.
pub open spec fn is_writable(o: Operand) -> bool {
    !(o is CT) && !(o is MA)
}

/// The state after `v` is written into the register or instruction pointer `o`.
pub open spec fn write_operand(s: MachineState, o: Operand, v: u16) -> MachineState {
    match o {
        Operand::R1 => s.with_register(0, v),
        Operand::R2 => s.with_register(1, v),
        Operand::R3 => s.with_register(2, v),
        Operand::R4 => s.with_register(3, v),
        _ => s.with_ip(v),
    }
}

/// One arithmetic instruction: both operands are read and the result is pushed.
pub open spec fn arithmetic_step(s: MachineState, i: Instruction, op: ArithmeticOperation) -> (MachineState, Result<bool, RsmiscError>) {
    match side_value(s, i, OperandType::TARGET) {
        Err(e) => (s, Err(e)),
        Ok(t) => match side_value(s, i, OperandType::SOURCE) {
            Err(e) => (s, Err(e)),
            Ok(v) => match arithmetic_spec(op, t, v) {
                None => (s, Err(fault(ErrorKind::DivisionByZero, s.ip))),
                Some(x) => (s.with_stack(s.stack.push(x)), Ok(true)),
            },
        },
    }
}

/// MOV: the source value is written into the target.
pub open spec fn mov_step(s: MachineState, i: Instruction) -> (MachineState, Result<bool, RsmiscError>) {
    match side_value(s, i, OperandType::SOURCE) {
        Err(e) => (s, Err(e)),
        Ok(v) => if is_writable(i.target) {
            (write_operand(s, i.target, v), Ok(true))
        } else {
            (s, Err(fault(ErrorKind::InvalidMoveTarget, s.ip)))
        },
    }
}

/// LD: the target value is pushed onto the evaluation stack.
pub open spec fn ld_step(s: MachineState, i: Instruction) -> (MachineState, Result<bool, RsmiscError>) {
    match side_value(s, i, OperandType::TARGET) {
        Err(e) => (s, Err(e)),
        Ok(v) => (s.with_stack(s.stack.push(v)), Ok(true)),
    }
}

/// ULD: the top of the evaluation stack is popped and written into the
/// target (a register, the instruction pointer, or the memory word at the
/// target immediate).
pub open spec fn uld_step(s: MachineState, i: Instruction) -> (MachineState, Result<bool, RsmiscError>) {
    if s.stack.len() == 0 {
        (s, Err(fault(ErrorKind::StackUnderflow, s.ip)))
    } else {
        let v = s.stack.last();
        let p = s.with_stack(s.stack.drop_last());
        match i.target {
            Operand::CT => (p, Err(fault(ErrorKind::InvalidUnloadTarget, s.ip))),
            Operand::MA => if fits(i.target_imm, 2) {
                (p.with_memory(store16(p.memory, i.target_imm as int, v)), Ok(true))
            } else {
                (p, Err(fault(ErrorKind::MemoryFault, s.ip)))
            },
            _ => (write_operand(p, i.target, v), Ok(true)),
        }
    }
}

/// BZ: when the target value is zero, the next instruction is the one at
/// the source value.
pub open spec fn bz_step(s: MachineState, i: Instruction) -> (MachineState, Result<bool, RsmiscError>) {
    match side_value(s, i, OperandType::TARGET) {
        Err(e) => (s, Err(e)),
        Ok(t) => match side_value(s, i, OperandType::SOURCE) {
            Err(e) => (s, Err(e)),
            Ok(v) => if t == 0 {
                (s.with_ip(sub16(v, INSTRUCTION_SIZE)), Ok(true))
            } else {
                (s, Ok(true))
            },
        },
    }
}

/// Whether `n` is a Unicode scalar value.
pub open spec fn is_scalar_value(n: u32) -> bool {
    n < 0xD800 || (0xE000 <= n && n <= 0x10FFFF)
}

/// Relies on `char::from_u32`: the character with scalar value `n`, or
/// `None` when `n` is a surrogate or above 0x10FFFF.
#[verifier::external_body]
fn char_from_u32(n: u32) -> (r: Option<char>)
    ensures
        r is Some <==> is_scalar_value(n),
        r matches Some(c) ==> c == n as char,
{
    char::from_u32(n)
}

/// SWI: code 0 writes R1 as a character (nothing when it is no scalar
/// value), code 1 writes R1 in decimal; other codes are not implemented.
pub open spec fn swi_step(s: MachineState, i: Instruction) -> (MachineState, Result<bool, RsmiscError>) {
    if i.target_imm == 0 {
        if is_scalar_value(s.registers[0] as u32) {
            (s.with_output(s.output.push((s.registers[0] as u32) as char)), Ok(true))
        } else {
            (s, Ok(true))
        }
    } else if i.target_imm == 1 {
        (s.with_output(s.output + decimal(s.registers[0] as nat)), Ok(true))
    } else {
        (s, Err(fault(ErrorKind::UnimplementedInterrupt, s.ip)))
    }
}

/// CALL: the address of the next instruction is pushed on the call stack,
/// and the next instruction is the one at the target value.
pub open spec fn call_step(s: MachineState, i: Instruction) -> (MachineState, Result<bool, RsmiscError>) {
    match side_value(s, i, OperandType::TARGET) {
        Err(e) => (s, Err(e)),
        Ok(t) => (
            s.with_call_stack(s.call_stack.push(add16(s.ip, INSTRUCTION_SIZE))).with_ip(
                sub16(t, INSTRUCTION_SIZE),
            ),
            Ok(true),
        ),
    }
}

/// RET: the next instruction is the one at the address popped from the call stack.
pub open spec fn ret_step(s: MachineState) -> (MachineState, Result<bool, RsmiscError>) {
    if s.call_stack.len() == 0 {
        (s, Err(fault(ErrorKind::CallStackEmpty, s.ip)))
    } else {
        (
            s.with_call_stack(s.call_stack.drop_last()).with_ip(
                sub16(s.call_stack.last(), INSTRUCTION_SIZE),
            ),
            Ok(true),
        )
    }
}

/// The effect of instruction `i` before the instruction pointer advances:
/// `Ok(false)` stops the machine, `Ok(true)` lets it go on.
pub open spec fn dispatch(s: MachineState, i: Instruction) -> (MachineState, Result<bool, RsmiscError>) {
    match i.op_code {
        Opcode::HALT => (s, Ok(false)),
        Opcode::ADD => arithmetic_step(s, i, ArithmeticOperation::Add),
        Opcode::SUB => arithmetic_step(s, i, ArithmeticOperation::Sub),
        Opcode::MUL => arithmetic_step(s, i, ArithmeticOperation::Mul),
        Opcode::DIV => arithmetic_step(s, i, ArithmeticOperation::Div),
        Opcode::MOV => mov_step(s, i),
        Opcode::LD => ld_step(s, i),
        Opcode::ULD => uld_step(s, i),
        Opcode::BZ => bz_step(s, i),
        Opcode::SWI => swi_step(s, i),
        Opcode::CALL => call_step(s, i),
        Opcode::RET => ret_step(s),
        Opcode::NOP => (s, Ok(true)),
    }
}

/// One step of the machine: fetch the word at `ip`, decode it, dispatch
/// it, and on success move `ip` past it. A fault leaves `ip` where it was
/// after the dispatch.
pub open spec fn step(s: MachineState, print: bool) -> (MachineState, Result<bool, RsmiscError>) {
    if !fits(s.ip, INSTRUCTION_SIZE as int) {
        (s, Err(fault(ErrorKind::MemoryFault, s.ip)))
    } else {
        let i = decode(word48(s.memory, s.ip as int));
        let (t, r) = dispatch(traced(s, i, print), i);
        if r is Ok {
            (t.with_ip(add16(t.ip, INSTRUCTION_SIZE)), r)
        } else {
            (t, r)
        }
    }
}

/// The top and the depth of a stack: `<name>: 0x<top>\t<depth name>: 0x<depth>`,
/// or `<name>: -\t\t<depth name>: 0x0` when it is empty.
pub open spec fn stack_text(name: Seq<char>, depth_name: Seq<char>, st: Seq<u16>) -> Seq<char> {
    if st.len() == 0 {
        name + ": -\t\t"@ + depth_name + ": 0x0"@
    } else {
        name + ": 0x"@ + hex_lower(st.last() as nat) + "\t"@ + depth_name + ": 0x"@ + hex_lower(st.len())
    }
}

/// The dump of a machine: call stack, evaluation stack, registers and `ip`,
/// each in hexadecimal, one per line after a heading.
pub open spec fn state_text(s: MachineState) -> Seq<char> {
    "| Machine state\n|\n| "@ + stack_text("CS"@, "CSP"@, s.call_stack) + "\n| "@ + stack_text(
        "S"@,
        "SP"@,
        s.stack,
    ) + "\n| "@ + "R1: 0x"@ + hex_lower(s.registers[0] as nat) + "\tR2: 0x"@ + hex_lower(
        s.registers[1] as nat,
    ) + "\n| "@ + "R3: 0x"@ + hex_lower(s.registers[2] as nat) + "\tR4: 0x"@ + hex_lower(
        s.registers[3] as nat,
    ) + "\n| "@ + "IP: 0x"@ + hex_lower(s.ip as nat)
}

/// Appends `stack_text(name, depth_name, st)` to `s`.
fn push_stack_text(s: &mut String, name: &str, depth_name: &str, st: &Vec<u16>)
    ensures
        final(s)@ == old(s)@ + stack_text(name@, depth_name@, st@),
{
    push_str(s, name);
    if st.len() == 0 {
        push_str(s, ": -\t\t");
        push_str(s, depth_name);
        push_str(s, ": 0x0");
    } else {
        push_str(s, ": 0x");
        push_digits(s, st[st.len() - 1] as u64, 16, false);
        push_str(s, "\t");
        push_str(s, depth_name);
        push_str(s, ": 0x");
        push_digits(s, st.len() as u64, 16, false);
    }
    assert(s@ =~= old(s)@ + stack_text(name@, depth_name@, st@));
}

/// The machine: memory, registers, instruction pointer, evaluation stack,
/// call stack, and the console text that it has written.
pub struct Rsmisc {
    memory: Vec<u8>,
    ip: u16,
    registers: Vec<u16>,
    stack: Vec<u16>,
    call_stack: Vec<u16>,
    output: String,
}

impl View for Rsmisc {
    type V = MachineState;

    closed spec fn view(&self) -> MachineState {
        MachineState {
            memory: self.memory@,
            ip: self.ip,
            registers: self.registers@,
            stack: self.stack@,
            call_stack: self.call_stack@,
            output: self.output@,
        }
    }
}

impl Rsmisc {
    /// A machine with `program` loaded at address 0, all else zero and both
    /// stacks empty; a program larger than memory is a memory fault.
    pub fn new(program: &Vec<u8>) -> (r: Result<Self, RsmiscError>)
        ensures
            program@.len() > MEMORY_SIZE <==> r is Err,
            r matches Err(e) ==> e == fault(ErrorKind::MemoryFault, 0),
            r matches Ok(m) ==> {
                &&& m@.wf()
                &&& m@.ip == 0
                &&& m@.registers == seq![0u16, 0u16, 0u16, 0u16]
                &&& m@.stack.len() == 0
                &&& m@.call_stack.len() == 0
                &&& m@.output.len() == 0
                &&& forall|a: int|
                    0 <= a < MEMORY_SIZE ==> #[trigger] m@.memory[a] == if a < program@.len() {
                        program@[a]
                    } else {
                        0u8
                    }
            },
    {
        let length: usize = program.len();
        if length > MEMORY_SIZE {
            return Err(RsmiscError::new(ErrorKind::MemoryFault, 0));
        }
        let mut memory: Vec<u8> = vec![0u8; MEMORY_SIZE];
        let mut address: usize = 0;
        while address < length
            invariant
                length == program@.len() <= MEMORY_SIZE,
                address <= length,
                memory@.len() == MEMORY_SIZE,
                forall|a: int|
                    0 <= a < MEMORY_SIZE ==> #[trigger] memory@[a] == if a < address {
                        program@[a]
                    } else {
                        0u8
                    },
            decreases length - address,
        {
            memory.set(address, program[address]);
            address = address + 1;
        }
        let registers: Vec<u16> = vec![0u16; 4];
        assert(registers@ =~= seq![0u16, 0u16, 0u16, 0u16]);
        Ok(Rsmisc {
            memory,
            ip: 0,
            registers,
            stack: Vec::new(),
            call_stack: Vec::new(),
            output: String::new(),
        })
    }

    /// The big-endian 48-bit word at `address`, or a memory fault when its
    /// six bytes run past the end of memory.
    pub fn load_48(&self, address: u16) -> (r: Result<u64, RsmiscError>)
        requires
            self@.wf(),
        ensures
            r == if fits(address, 6) {
                Ok(word48(self@.memory, address as int))
            } else {
                Err(fault(ErrorKind::MemoryFault, self@.ip))
            },
    {
        if address as usize + INSTRUCTION_SIZE as usize > MEMORY_SIZE {
            return Err(RsmiscError::new(ErrorKind::MemoryFault, self.ip));
        }
        let a: usize = address as usize;
        let result: u64 = (self.memory[a] as u64) * 0x100_0000_0000u64 + (self.memory[a + 1] as u64)
            * 0x1_0000_0000u64 + (self.memory[a + 2] as u64) * 0x100_0000u64 + (self.memory[a + 3] as u64)
            * 0x1_0000u64 + (self.memory[a + 4] as u64) * 0x100u64 + (self.memory[a + 5] as u64);
        Ok(result)
    }

    /// The big-endian 16-bit word at `address`, or a memory fault when its
    /// second byte lies past the end of memory.
    pub fn load_16(&self, address: u16) -> (r: Result<u16, RsmiscError>)
        requires
            self@.wf(),
        ensures
            r == if fits(address, 2) {
                Ok(word16(self@.memory, address as int))
            } else {
                Err(fault(ErrorKind::MemoryFault, self@.ip))
            },
    {
        if address as usize + 2 > MEMORY_SIZE {
            return Err(RsmiscError::new(ErrorKind::MemoryFault, self.ip));
        }
        let a: usize = address as usize;
        Ok((self.memory[a] as u16) * 0x100u16 + (self.memory[a + 1] as u16))
    }

    /// Stores `value` big-endian at `address`, or reports a memory fault
    /// (and changes nothing) when its second byte lies past the end of memory.
    pub fn store_16(&mut self, address: u16, value: u16) -> (r: Result<(), RsmiscError>)
        requires
            old(self)@.wf(),
        ensures
            final(self)@.wf(),
            fits(address, 2) ==> r is Ok && final(self)@ == old(self)@.with_memory(
                store16(old(self)@.memory, address as int, value),
            ),
            !fits(address, 2) ==> r == Err::<(), RsmiscError>(fault(ErrorKind::MemoryFault, old(self)@.ip))
                && final(self)@ == old(self)@,
    {
        if address as usize + 2 > MEMORY_SIZE {
            return Err(RsmiscError::new(ErrorKind::MemoryFault, self.ip));
        }
        let a: usize = address as usize;
        self.memory.set(a, (value / 0x100u16) as u8);
        self.memory.set(a + 1, (value % 0x100u16) as u8);
        Ok(())
    }

    /// The value of side `operand_type` of `instruction`: a register, the
    /// instruction pointer, the immediate, or the memory word at the immediate.
    pub fn get_operand_value(&self, instruction: Instruction, operand_type: OperandType) -> (r: Result<u16, RsmiscError>)
        requires
            self@.wf(),
        ensures
            r == side_value(self@, instruction, operand_type),
    {
        let operand = match operand_type {
            OperandType::TARGET => instruction.target,
            OperandType::SOURCE => instruction.source,
        };
        let immediate = match operand_type {
            OperandType::TARGET => instruction.target_imm,
            OperandType::SOURCE => instruction.source_imm,
        };
        match operand {
            Operand::R1 => Ok(self.registers[0]),
            Operand::R2 => Ok(self.registers[1]),
            Operand::R3 => Ok(self.registers[2]),
            Operand::R4 => Ok(self.registers[3]),
            Operand::IP => Ok(self.ip),
            Operand::CT => Ok(immediate),
            Operand::MA => self.load_16(immediate),
        }
    }

    /// Writes `value` into a register or the instruction pointer.
    fn write_operand(&mut self, operand: Operand, value: u16)
        requires
            old(self)@.wf(),
            is_writable(operand),
        ensures
            final(self)@ == write_operand(old(self)@, operand, value),
    {
        match operand {
            Operand::R1 => self.registers.set(0, value),
            Operand::R2 => self.registers.set(1, value),
            Operand::R3 => self.registers.set(2, value),
            Operand::R4 => self.registers.set(3, value),
            _ => self.ip = value,
        }
    }

    /// Appends the trace line of `instruction` to the console text when `print` holds.
    fn trace(&mut self, instruction: &Instruction, print: bool)
        requires
            old(self)@.wf(),
        ensures
            final(self)@ == traced(old(self)@, *instruction, print),
    {
        if print {
            let ghost before = self.output@;
            push_str(&mut self.output, "0x");
            push_digits(&mut self.output, self.ip as u64, 16, false);
            push_str(&mut self.output, ":\t ");
            instruction.push_text(&mut self.output);
            push_str(&mut self.output, "\n");
            assert(self.output@ =~= before + trace_line(self.ip, *instruction));
        }
    }

    /// HALT: stops the machine.
    pub fn halt(&mut self, instruction: Instruction, print: bool) -> (r: Result<bool, RsmiscError>)
        requires
            old(self)@.wf(),
        ensures
            final(self)@.wf(),
            (final(self)@, r) == (traced(old(self)@, instruction, print), Ok::<bool, RsmiscError>(false)),
    {
        self.trace(&instruction, print);
        Ok(false)
    }

    /// ADD: pushes the sum of the target and source values, modulo 2^16.
    pub fn add(&mut self, instruction: Instruction, print: bool) -> (r: Result<bool, RsmiscError>)
        requires
            old(self)@.wf(),
        ensures
            final(self)@.wf(),
            (final(self)@, r) == arithmetic_step(traced(old(self)@, instruction, print), instruction, ArithmeticOperation::Add),
    {
        self.trace(&instruction, print);
        self.arithmetic_operation(instruction, ArithmeticOperation::Add)
    }

    /// SUB: pushes the target value minus the source value, modulo 2^16.
    pub fn sub(&mut self, instruction: Instruction, print: bool) -> (r: Result<bool, RsmiscError>)
        requires
            old(self)@.wf(),
        ensures
            final(self)@.wf(),
            (final(self)@, r) == arithmetic_step(traced(old(self)@, instruction, print), instruction, ArithmeticOperation::Sub),
    {
        self.trace(&instruction, print);
        self.arithmetic_operation(instruction, ArithmeticOperation::Sub)
    }

    /// MUL: pushes the product of the target and source values, modulo 2^16.
    pub fn mul(&mut self, instruction: Instruction, print: bool) -> (r: Result<bool, RsmiscError>)
        requires
            old(self)@.wf(),
        ensures
            final(self)@.wf(),
            (final(self)@, r) == arithmetic_step(traced(old(self)@, instruction, print), instruction, ArithmeticOperation::Mul),
    {
        self.trace(&instruction, print);
        self.arithmetic_operation(instruction, ArithmeticOperation::Mul)
    }

    /// DIV: pushes the target value divided by the source value; division by
    /// zero is a fault.
    pub fn div(&mut self, instruction: Instruction, print: bool) -> (r: Result<bool, RsmiscError>)
        requires
            old(self)@.wf(),
        ensures
            final(self)@.wf(),
            (final(self)@, r) == arithmetic_step(traced(old(self)@, instruction, print), instruction, ArithmeticOperation::Div),
    {
        self.trace(&instruction, print);
        self.arithmetic_operation(instruction, ArithmeticOperation::Div)
    }

    /// Reads both operands of `instruction`, applies `operation`, and pushes
    /// the result onto the evaluation stack.
    pub fn arithmetic_operation(&mut self, instruction: Instruction, operation: ArithmeticOperation) -> (r: Result<bool, RsmiscError>)
        requires
            old(self)@.wf(),
        ensures
            final(self)@.wf(),
            (final(self)@, r) == arithmetic_step(old(self)@, instruction, operation),
    {
        let target = match self.get_operand_value(instruction, OperandType::TARGET) {
            Ok(v) => v,
            Err(e) => return Err(e),
        };
        let source = match self.get_operand_value(instruction, OperandType::SOURCE) {
            Ok(v) => v,
            Err(e) => return Err(e),
        };
        match operation.apply(target, source) {
            Some(value) => {
                self.stack.push(value);
                Ok(true)
            },
            None => Err(RsmiscError::new(ErrorKind::DivisionByZero, self.ip)),
        }
    }

    /// MOV: writes the source value into the target register or instruction
    /// pointer; a constant or memory target is a fault.
    pub fn mov(&mut self, instruction: Instruction, print: bool) -> (r: Result<bool, RsmiscError>)
        requires
            old(self)@.wf(),
        ensures
            final(self)@.wf(),
            (final(self)@, r) == mov_step(traced(old(self)@, instruction, print), instruction),
    {
        self.trace(&instruction, print);
        let source = match self.get_operand_value(instruction, OperandType::SOURCE) {
            Ok(v) => v,
            Err(e) => return Err(e),
        };
        match instruction.target {
            Operand::CT | Operand::MA => Err(RsmiscError::new(ErrorKind::InvalidMoveTarget, self.ip)),
            target => {
                self.write_operand(target, source);
                Ok(true)
            },
        }
    }

    /// LD: pushes the target value onto the evaluation stack.
    pub fn ld(&mut self, instruction: Instruction, print: bool) -> (r: Result<bool, RsmiscError>)
        requires
            old(self)@.wf(),
        ensures
            final(self)@.wf(),
            (final(self)@, r) == ld_step(traced(old(self)@, instruction, print), instruction),
    {
        self.trace(&instruction, print);
        let value = match self.get_operand_value(instruction, OperandType::TARGET) {
            Ok(v) => v,
            Err(e) => return Err(e),
        };
        self.stack.push(value);
        Ok(true)
    }

    /// ULD: pops the evaluation stack into the target register, instruction
    /// pointer or memory word; an empty stack or a constant target is a fault.
    pub fn uld(&mut self, instruction: Instruction, print: bool) -> (r: Result<bool, RsmiscError>)
        requires
            old(self)@.wf(),
        ensures
            final(self)@.wf(),
            (final(self)@, r) == uld_step(traced(old(self)@, instruction, print), instruction),
    {
        self.trace(&instruction, print);
        match self.stack.pop() {
            Some(value) => match instruction.target {
                Operand::CT => Err(RsmiscError::new(ErrorKind::InvalidUnloadTarget, self.ip)),
                Operand::MA => match self.store_16(instruction.target_imm, value) {
                    Ok(()) => Ok(true),
                    Err(e) => Err(e),
                },
                target => {
                    self.write_operand(target, value);
                    Ok(true)
                },
            },
            None => Err(RsmiscError::new(ErrorKind::StackUnderflow, self.ip)),
        }
    }

    /// BZ: when the target value is zero, the next instruction is the one at
    /// the source value.
    pub fn bz(&mut self, instruction: Instruction, print: bool) -> (r: Result<bool, RsmiscError>)
        requires
            old(self)@.wf(),
        ensures
            final(self)@.wf(),
            (final(self)@, r) == bz_step(traced(old(self)@, instruction, print), instruction),
    {
        self.trace(&instruction, print);
        let target = match self.get_operand_value(instruction, OperandType::TARGET) {
            Ok(v) => v,
            Err(e) => return Err(e),
        };
        let source = match self.get_operand_value(instruction, OperandType::SOURCE) {
            Ok(v) => v,
            Err(e) => return Err(e),
        };
        if target == 0 {
            self.ip = source.wrapping_sub(INSTRUCTION_SIZE);
        }
        Ok(true)
    }

    /// CALL: pushes the address of the next instruction on the call stack;
    /// the next instruction is the one at the target value.
    pub fn call(&mut self, instruction: Instruction, print: bool) -> (r: Result<bool, RsmiscError>)
        requires
            old(self)@.wf(),
        ensures
            final(self)@.wf(),
            (final(self)@, r) == call_step(traced(old(self)@, instruction, print), instruction),
    {
        self.trace(&instruction, print);
        let target = match self.get_operand_value(instruction, OperandType::TARGET) {
            Ok(v) => v,
            Err(e) => return Err(e),
        };
        self.call_stack.push(self.ip.wrapping_add(INSTRUCTION_SIZE));
        self.ip = target.wrapping_sub(INSTRUCTION_SIZE);
        Ok(true)
    }

    /// RET: the next instruction is the one at the address popped from the
    /// call stack; an empty call stack is a fault.
    pub fn ret(&mut self, instruction: Instruction, print: bool) -> (r: Result<bool, RsmiscError>)
        requires
            old(self)@.wf(),
        ensures
            final(self)@.wf(),
            (final(self)@, r) == ret_step(traced(old(self)@, instruction, print)),
    {
        self.trace(&instruction, print);
        match self.call_stack.pop() {
            Some(value) => {
                self.ip = value.wrapping_sub(INSTRUCTION_SIZE);
                Ok(true)
            },
            None => Err(RsmiscError::new(ErrorKind::CallStackEmpty, self.ip)),
        }
    }

    /// NOP: changes nothing.
    pub fn nop(&mut self, instruction: Instruction, print: bool) -> (r: Result<bool, RsmiscError>)
        requires
            old(self)@.wf(),
        ensures
            final(self)@.wf(),
            (final(self)@, r) == (traced(old(self)@, instruction, print), Ok::<bool, RsmiscError>(true)),
    {
        self.trace(&instruction, print);
        Ok(true)
    }

    /// SWI: code 0 (the target immediate) writes R1 as a character to the
    /// console text, code 1 writes R1 in decimal; other codes are a fault.
    pub fn swi(&mut self, instruction: Instruction, print: bool) -> (r: Result<bool, RsmiscError>)
        requires
            old(self)@.wf(),
        ensures
            final(self)@.wf(),
            (final(self)@, r) == swi_step(traced(old(self)@, instruction, print), instruction),
    {
        self.trace(&instruction, print);
        if instruction.target_imm == 0 {
            if let Some(printable) = char_from_u32(self.registers[0] as u32) {
                push_char(&mut self.output, printable);
            }
            Ok(true)
        } else if instruction.target_imm == 1 {
            push_digits(&mut self.output, self.registers[0] as u64, 10, false);
            Ok(true)
        } else {
            Err(RsmiscError::new(ErrorKind::UnimplementedInterrupt, self.ip))
        }
    }

    /// Fetches, decodes and executes the instruction at `ip`, writing its
    /// trace line first when `print` holds. `Ok(true)`: go on; `Ok(false)`:
    /// HALT was reached; `Err`: a fault, after which `ip` is not advanced.
    pub fn execute_next(&mut self, print: bool) -> (r: Result<bool, RsmiscError>)
        requires
            old(self)@.wf(),
        ensures
            final(self)@.wf(),
            (final(self)@, r) == step(old(self)@, print),
    {
        let word = match self.load_48(self.ip) {
            Ok(w) => w,
            Err(e) => return Err(e),
        };
        let instruction = Instruction::from(word);
        assert(instruction == decode(word));
        let result = match instruction.op_code {
            Opcode::HALT => self.halt(instruction, print),
            Opcode::ADD => self.add(instruction, print),
            Opcode::SUB => self.sub(instruction, print),
            Opcode::MUL => self.mul(instruction, print),
            Opcode::DIV => self.div(instruction, print),
            Opcode::MOV => self.mov(instruction, print),
            Opcode::LD => self.ld(instruction, print),
            Opcode::ULD => self.uld(instruction, print),
            Opcode::BZ => self.bz(instruction, print),
            Opcode::SWI => self.swi(instruction, print),
            Opcode::CALL => self.call(instruction, print),
            Opcode::RET => self.ret(instruction, print),
            Opcode::NOP => self.nop(instruction, print),
        };
        if result.is_ok() {
            self.ip = self.ip.wrapping_add(INSTRUCTION_SIZE);
        }
        result
    }

    /// The instruction pointer.
    pub fn ip(&self) -> (r: u16)
        ensures
            r == self@.ip,
    {
        self.ip
    }

    /// Register R1 to R4 by `index` 0 to 3.
    pub fn register(&self, index: usize) -> (r: u16)
        requires
            self@.wf(),
            index < 4,
        ensures
            r == self@.registers[index as int],
    {
        self.registers[index]
    }

    /// Sets register R1 to R4 by `index` 0 to 3.
    pub fn set_register(&mut self, index: usize, value: u16)
        requires
            old(self)@.wf(),
            index < 4,
        ensures
            final(self)@ == old(self)@.with_register(index as int, value),
            final(self)@.wf(),
    {
        self.registers.set(index, value);
    }

    /// The evaluation stack, bottom first.
    pub fn stack(&self) -> (r: &[u16])
        ensures
            r@ == self@.stack,
    {
        self.stack.as_slice()
    }

    /// The call stack, bottom first.
    pub fn call_stack(&self) -> (r: &[u16])
        ensures
            r@ == self@.call_stack,
    {
        self.call_stack.as_slice()
    }

    /// The byte at `address`.
    pub fn memory_byte(&self, address: u16) -> (r: u8)
        requires
            self@.wf(),
        ensures
            r == self@.memory[address as int],
    {
        self.memory[address as usize]
    }

    /// The dump of the machine state (see `state_text`).
    pub fn to_string(&self) -> (r: String)
        requires
            self@.wf(),
        ensures
            r@ == state_text(self@),
    {
        let mut s = String::new();
        push_str(&mut s, "| Machine state\n|\n| ");
        push_stack_text(&mut s, "CS", "CSP", &self.call_stack);
        push_str(&mut s, "\n| ");
        push_stack_text(&mut s, "S", "SP", &self.stack);
        push_str(&mut s, "\n| ");
        push_str(&mut s, "R1: 0x");
        push_digits(&mut s, self.registers[0] as u64, 16, false);
        push_str(&mut s, "\tR2: 0x");
        push_digits(&mut s, self.registers[1] as u64, 16, false);
        push_str(&mut s, "\n| ");
        push_str(&mut s, "R3: 0x");
        push_digits(&mut s, self.registers[2] as u64, 16, false);
        push_str(&mut s, "\tR4: 0x");
        push_digits(&mut s, self.registers[3] as u64, 16, false);
        push_str(&mut s, "\n| ");
        push_str(&mut s, "IP: 0x");
        push_digits(&mut s, self.ip as u64, 16, false);
        assert(s@ =~= state_text(self@));
        s
    }

    /// Hands out the console text written so far and clears it.
    pub fn take_output(&mut self) -> (r: String)
        ensures
            r@ == old(self)@.output,
            final(self)@ == old(self)@.with_output(Seq::empty()),
    {
        let text = self.output.clone();
        self.output = String::new();
        text
    }
}

} // verus!
