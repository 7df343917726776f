use vstd::prelude::*;
use crate::fault::{Fault, Status};
use crate::instruction::{decode_spec, Instruction};

verus! {

/// The number of general-purpose registers.
pub const REGISTER_COUNT: usize = 16;

/// The number of bytes of memory.
pub const MEMORY_SIZE: usize = 4096;

/// The number of return addresses that the call stack can hold.
pub const STACK_DEPTH: usize = 16;

/// The index of the register that doubles as the carry flag.
pub const FLAG_REGISTER: u8 = 0xF;

/// The width of one instruction, in bytes.
pub const INSTRUCTION_WIDTH: usize = 2;

/// The machine as a mathematical value: what a `CPU` holds at one moment.
pub struct CpuState {
    /// The sixteen registers, by index.
    pub registers: Seq<u8>,
    /// The offset in memory of the next instruction.
    pub program_counter: nat,
    /// The bytes of memory, by address.
    pub memory: Seq<u8>,
    /// The slots of the call stack; those below `stack_pointer` are occupied.
    pub stack: Seq<u16>,
    /// The number of occupied stack slots, which is the index of the next free one.
    pub stack_pointer: nat,
}

/// The low eight bits of a sum of two bytes.
pub open spec fn wrapped(sum: int) -> u8 {
    (sum % 256) as u8
}

/// 1 if a sum of two bytes does not fit in a byte, else 0.
pub open spec fn carry(sum: int) -> u8 {
    if sum > 255 {
        1
    } else {
        0
    }
}

impl CpuState {
    /// The three sequences have their fixed lengths and the stack pointer
    /// does not exceed the stack's depth.
    pub open spec fn wf(self) -> bool {
        &&& self.registers.len() == REGISTER_COUNT
        &&& self.memory.len() == MEMORY_SIZE
        &&& self.stack.len() == STACK_DEPTH
        &&& self.stack_pointer <= STACK_DEPTH
    }

    /// The state in which every cell and both counters are zero.
    pub open spec fn zeroed() -> CpuState {
        CpuState {
            registers: Seq::new(REGISTER_COUNT as nat, |i: int| 0u8),
            program_counter: 0,
            memory: Seq::new(MEMORY_SIZE as nat, |i: int| 0u8),
            stack: Seq::new(STACK_DEPTH as nat, |i: int| 0u16),
            stack_pointer: 0,
        }
    }

    /// This state with `value` in register `x`.
    pub open spec fn with_register(self, x: u8, value: u8) -> CpuState {
        CpuState { registers: self.registers.update(x as int, value), ..self }
    }

    /// This state with the program counter at `target`.
    pub open spec fn with_program_counter(self, target: nat) -> CpuState {
        CpuState { program_counter: target, ..self }
    }

    /// This state with `bytes` written to memory from address `base` on.
    pub open spec fn with_memory(self, base: nat, bytes: Seq<u8>) -> CpuState {
        CpuState {
            memory: Seq::new(
                self.memory.len(),
                |a: int|
                    if base <= a < base + bytes.len() {
                        bytes[a - base]
                    } else {
                        self.memory[a]
                    },
            ),
            ..self
        }
    }

    /// The program counter moved past one instruction.
    pub open spec fn advance(self) -> CpuState {
        self.with_program_counter(self.program_counter + INSTRUCTION_WIDTH as nat)
    }

    /// A conditional skip: one more instruction is passed over if `condition` holds.
    pub open spec fn skip_if(self, condition: bool) -> CpuState {
        if condition {
            self.advance()
        } else {
            self
        }
    }

    /// A jump: execution continues at `addr`.
    pub open spec fn jump(self, addr: u16) -> CpuState {
        self.with_program_counter(addr as nat)
    }

    /// A call, where a stack slot is free: the program counter, cut to
    /// sixteen bits, is pushed and execution continues at `addr`.
    pub open spec fn call(self, addr: u16) -> CpuState {
        CpuState {
            stack: self.stack.update(self.stack_pointer as int, self.program_counter as u16),
            stack_pointer: self.stack_pointer + 1,
            program_counter: addr as nat,
            ..self
        }
    }

    /// A return, where the stack is not empty: the address on top of the
    /// stack is popped into the program counter.
    pub open spec fn ret(self) -> CpuState {
        CpuState {
            stack_pointer: (self.stack_pointer - 1) as nat,
            program_counter: self.stack[self.stack_pointer - 1] as nat,
            ..self
        }
    }

    /// Register `x` increased by `kk` modulo 256. No flag is set.
    pub open spec fn add_immediate(self, x: u8, kk: u8) -> CpuState {
        self.with_register(x, wrapped(self.registers[x as int] + kk))
    }

    /// Register `x` increased by register `y` modulo 256, and then the flag
    /// register set to the carry of that sum. Where `x` is the flag register
    /// itself, the carry is what it holds in the end.
    pub open spec fn add_registers(self, x: u8, y: u8) -> CpuState {
        let sum = self.registers[x as int] + self.registers[y as int];
        self.with_register(x, wrapped(sum)).with_register(FLAG_REGISTER, carry(sum))
    }

    /// The opcode at the program counter: the byte there as the high half,
    /// the next byte as the low half. There is none if either byte lies
    /// beyond the end of memory.
    pub open spec fn fetch(self) -> Result<u16, Fault> {
        let p = self.program_counter as int;
        if p + 1 < self.memory.len() {
            Ok((self.memory[p] * 256 + self.memory[p + 1]) as u16)
        } else {
            Err(Fault::OutOfBounds)
        }
    }

    /// Whether `instruction` can be carried out from this state: its operands
    /// are in range, and if it is a skip, the program counter can still grow
    /// by one instruction within the machine's word. Every state that a
    /// successful fetch leaves admits every decoded instruction.
    pub open spec fn admits(self, instruction: Instruction) -> bool {
        &&& instruction.well_formed()
        &&& instruction.is_skip() ==> self.program_counter + INSTRUCTION_WIDTH <= usize::MAX
    }

    /// The effect of one decoded instruction on a state whose program counter
    /// has already been moved past it, with the machine's status afterwards.
    /// A call on a full stack and a return on an empty one change nothing.
    pub open spec fn execute(self, instruction: Instruction) -> (CpuState, Status) {
        match instruction {
            Instruction::Halt => (self, Status::Halted),
            Instruction::ClearScreen => (self, Status::Running),
            Instruction::Return => if self.stack_pointer == 0 {
                (self, Status::Faulted(Fault::StackUnderflow))
            } else {
                (self.ret(), Status::Running)
            },
            Instruction::Jump { addr } => (self.jump(addr), Status::Running),
            Instruction::Call { addr } => if self.stack_pointer >= STACK_DEPTH {
                (self, Status::Faulted(Fault::StackOverflow))
            } else {
                (self.call(addr), Status::Running)
            },
            Instruction::SkipEqualImmediate { x, kk } => (
                self.skip_if(self.registers[x as int] == kk),
                Status::Running,
            ),
            Instruction::SkipNotEqualImmediate { x, kk } => (
                self.skip_if(self.registers[x as int] != kk),
                Status::Running,
            ),
            Instruction::SkipEqualRegisters { x, y } => (
                self.skip_if(self.registers[x as int] == self.registers[y as int]),
                Status::Running,
            ),
            Instruction::LoadImmediate { x, kk } => (self.with_register(x, kk), Status::Running),
            Instruction::AddImmediate { x, kk } => (self.add_immediate(x, kk), Status::Running),
            Instruction::Move { x, y } => (
                self.with_register(x, self.registers[y as int]),
                Status::Running,
            ),
            Instruction::Or { x, y } => (
                self.with_register(x, self.registers[x as int] | self.registers[y as int]),
                Status::Running,
            ),
            Instruction::And { x, y } => (
                self.with_register(x, self.registers[x as int] & self.registers[y as int]),
                Status::Running,
            ),
            Instruction::Xor { x, y } => (
                self.with_register(x, self.registers[x as int] ^ self.registers[y as int]),
                Status::Running,
            ),
            Instruction::AddRegisters { x, y } => (self.add_registers(x, y), Status::Running),
        }
    }

    /// One turn of the machine. A failed fetch changes nothing. Otherwise the
    /// program counter moves past the opcode first, and stays there if the
    /// opcode encodes nothing; a decoded instruction then has its effect.
    pub open spec fn step(self) -> (CpuState, Status) {
        match self.fetch() {
            Err(fault) => (self, Status::Faulted(fault)),
            Ok(opcode) => match decode_spec(opcode) {
                Err(fault) => (self.advance(), Status::Faulted(fault)),
                Ok(instruction) => self.advance().execute(instruction),
            },
        }
    }

    /// At most `max_steps` turns of the machine, ending with the first one
    /// that halts or faults. The status is `Running` exactly if all
    /// `max_steps` turns were taken and none of them halted or faulted.
    pub open spec fn run(self, max_steps: nat) -> (CpuState, Status)
        decreases max_steps,
    {
        if max_steps == 0 {
            (self, Status::Running)
        } else {
            let (next, status) = self.step();
            if status is Running {
                next.run((max_steps - 1) as nat)
            } else {
                (next, status)
            }
        }
    }
}

} // verus!
