use vstd::prelude::*;
use crate::fault::{Fault, Status};
use crate::instruction::{decode, Instruction};
use crate::model::{
    carry, CpuState, FLAG_REGISTER, INSTRUCTION_WIDTH, MEMORY_SIZE, REGISTER_COUNT, STACK_DEPTH,
};

verus! {

/// The machine: sixteen byte registers, 4096 bytes of memory, a call stack of
/// sixteen return addresses, and the two counters that index them.
///
/// A `CPU` is owned by whoever drives it. The stack pointer never exceeds the
/// stack's depth.
pub struct CPU {
    registers: [u8; REGISTER_COUNT],
    program_counter: usize,
    memory: [u8; MEMORY_SIZE],
    stack: [u16; STACK_DEPTH],
    stack_pointer: usize,
}

impl View for CPU {
    type V = CpuState;

    /// What the machine holds, field by field.
    closed spec fn view(&self) -> CpuState {
        CpuState {
            registers: self.registers@,
            program_counter: self.program_counter as nat,
            memory: self.memory@,
            stack: self.stack@,
            stack_pointer: self.stack_pointer as nat,
        }
    }
}

impl CPU {
    #[verifier::type_invariant]
    spec fn stack_pointer_in_range(&self) -> bool {
        self.stack_pointer <= STACK_DEPTH
    }

    /// A machine with every register, memory cell and stack slot zero, and
    /// both counters zero.
    pub fn new() -> (cpu: CPU)
        ensures
            cpu@ == CpuState::zeroed(),
            cpu@.wf(),
    {
        let cpu = CPU {
            registers: [0; REGISTER_COUNT],
            program_counter: 0,
            memory: [0; MEMORY_SIZE],
            stack: [0; STACK_DEPTH],
            stack_pointer: 0,
        };
        assert(cpu@.registers =~= CpuState::zeroed().registers);
        assert(cpu@.memory =~= CpuState::zeroed().memory);
        assert(cpu@.stack =~= CpuState::zeroed().stack);
        cpu
    }

    /// The value of register `x`.
    pub fn register(&self, x: u8) -> (value: u8)
        requires
            x < REGISTER_COUNT,
        ensures
            value == self@.registers[x as int],
    {
        self.registers[x as usize]
    }

    /// The offset in memory of the next instruction.
    pub fn program_counter(&self) -> (pc: usize)
        ensures
            pc == self@.program_counter,
    {
        self.program_counter
    }

    /// The number of occupied stack slots.
    pub fn stack_pointer(&self) -> (sp: usize)
        ensures
            sp == self@.stack_pointer,
            sp <= STACK_DEPTH,
    {
        proof {
            use_type_invariant(self);
        }
        self.stack_pointer
    }

    /// The return address in stack slot `slot`, if there is such a slot.
    pub fn stack_at(&self, slot: usize) -> (entry: Option<u16>)
        ensures
            entry == if slot < STACK_DEPTH {
                Some(self@.stack[slot as int])
            } else {
                None
            },
    {
        if slot < STACK_DEPTH {
            Some(self.stack[slot])
        } else {
            None
        }
    }

    /// The byte of memory at `addr`, if `addr` lies within memory.
    pub fn byte_at(&self, addr: usize) -> (byte: Option<u8>)
        ensures
            byte == if addr < MEMORY_SIZE {
                Some(self@.memory[addr as int])
            } else {
                None
            },
    {
        if addr < MEMORY_SIZE {
            Some(self.memory[addr])
        } else {
            None
        }
    }

    /// Moves the program counter to `target`. Any offset is accepted: one
    /// from which no opcode can be read makes the next fetch fail.
    pub fn set_program_counter(&mut self, target: usize)
        ensures
            final(self)@ == old(self)@.with_program_counter(target as nat),
            final(self)@.wf(),
    {
        proof {
            use_type_invariant(&*self);
        }
        self.program_counter = target;
    }

    /// Copies `bytes` into memory from address `base` on, or changes nothing
    /// and reports `OutOfBounds` if they do not all fit.
    pub fn load(&mut self, base: usize, bytes: &[u8]) -> (result: Result<(), Fault>)
        ensures
            result is Ok <==> base + bytes@.len() <= MEMORY_SIZE,
            result is Ok ==> final(self)@ == old(self)@.with_memory(base as nat, bytes@),
            result is Err ==> result == Err::<(), Fault>(Fault::OutOfBounds) && final(self)@
                == old(self)@,
            final(self)@.wf(),
    {
        proof {
            use_type_invariant(&*self);
        }
        let len: usize = bytes.len();
        if base > MEMORY_SIZE || len > MEMORY_SIZE - base {
            return Err(Fault::OutOfBounds);
        }
        let mut i: usize = 0;
        assert(self@.memory =~= old(self)@.with_memory(base as nat, bytes@.take(0)).memory);
        while i < len
            invariant
                i <= len,
                len == bytes@.len(),
                base + len <= MEMORY_SIZE,
                self@ == old(self)@.with_memory(base as nat, bytes@.take(i as int)),
                self@.wf(),
            decreases len - i,
        {
            proof {
                use_type_invariant(&*self);
            }
            self.memory[base + i] = bytes[i];
            i += 1;
            assert(self@.memory =~= old(self)@.with_memory(
                base as nat,
                bytes@.take(i as int),
            ).memory);
        }
        assert(bytes@.take(len as int) =~= bytes@);
        Ok(())
    }

    /// 00EE: returns from the current subroutine.
    pub fn ret(&mut self) -> (result: Result<(), Fault>)
        ensures
            result is Err <==> old(self)@.stack_pointer == 0,
            result is Err ==> result == Err::<(), Fault>(Fault::StackUnderflow) && final(self)@
                == old(self)@,
            result is Ok ==> final(self)@ == old(self)@.ret(),
            final(self)@.wf(),
    {
        proof {
            use_type_invariant(&*self);
        }
        if self.stack_pointer == 0 {
            return Err(Fault::StackUnderflow);
        }
        self.stack_pointer -= 1;
        let call_addr: u16 = self.stack[self.stack_pointer];
        self.program_counter = call_addr as usize;
        Ok(())
    }

    /// 1nnn: continues at `addr`.
    pub fn jump(&mut self, addr: u16)
        ensures
            final(self)@ == old(self)@.jump(addr),
            final(self)@.wf(),
    {
        proof {
            use_type_invariant(&*self);
        }
        self.program_counter = addr as usize;
    }

    /// 2nnn: calls the subroutine at `addr`. The return address pushed is the
    /// program counter, cut to the sixteen bits of a stack slot.
    pub fn call(&mut self, addr: u16) -> (result: Result<(), Fault>)
        ensures
            result is Err <==> old(self)@.stack_pointer == STACK_DEPTH,
            result is Err ==> result == Err::<(), Fault>(Fault::StackOverflow) && final(self)@
                == old(self)@,
            result is Ok ==> final(self)@ == old(self)@.call(addr),
            final(self)@.wf(),
    {
        proof {
            use_type_invariant(&*self);
        }
        let stack_ptr: usize = self.stack_pointer;
        if stack_ptr >= STACK_DEPTH {
            return Err(Fault::StackOverflow);
        }
        self.stack[stack_ptr] = #[verifier::truncate]
        (self.program_counter as u16);
        self.stack_pointer += 1;
        self.program_counter = addr as usize;
        Ok(())
    }

    /// 3xkk: skips the next instruction if register `x` equals `kk`.
    pub fn se_xkk(&mut self, x: u8, kk: u8)
        requires
            x < REGISTER_COUNT,
            old(self)@.program_counter + INSTRUCTION_WIDTH <= usize::MAX,
        ensures
            final(self)@ == old(self)@.skip_if(old(self)@.registers[x as int] == kk),
            final(self)@.wf(),
    {
        proof {
            use_type_invariant(&*self);
        }
        if self.registers[x as usize] == kk {
            self.program_counter += INSTRUCTION_WIDTH;
        }
    }

    /// 4xkk: skips the next instruction if `vx`, the value of the
    /// instruction's register, differs from `kk`.
    pub fn sne(&mut self, vx: u8, kk: u8)
        requires
            old(self)@.program_counter + INSTRUCTION_WIDTH <= usize::MAX,
        ensures
            final(self)@ == old(self)@.skip_if(vx != kk),
            final(self)@.wf(),
    {
        proof {
            use_type_invariant(&*self);
        }
        if vx != kk {
            self.program_counter += INSTRUCTION_WIDTH;
        }
    }

    /// 5xy0: skips the next instruction if registers `x` and `y` are equal.
    pub fn se_xy(&mut self, x: u8, y: u8)
        requires
            x < REGISTER_COUNT,
            y < REGISTER_COUNT,
            old(self)@.program_counter + INSTRUCTION_WIDTH <= usize::MAX,
        ensures
            final(self)@ == old(self)@.skip_if(
                old(self)@.registers[x as int] == old(self)@.registers[y as int],
            ),
            final(self)@.wf(),
    {
        proof {
            use_type_invariant(&*self);
        }
        let vx: u8 = self.registers[x as usize];
        let vy: u8 = self.registers[y as usize];
        if vx == vy {
            self.program_counter += INSTRUCTION_WIDTH;
        }
    }

    /// 6xkk: puts `kk` into register `x`.
    pub fn set(&mut self, x: u8, kk: u8)
        requires
            x < REGISTER_COUNT,
        ensures
            final(self)@ == old(self)@.with_register(x, kk),
            final(self)@.registers[x as int] == kk,
            final(self)@.wf(),
    {
        proof {
            use_type_invariant(&*self);
        }
        self.registers[x as usize] = kk;
    }

    /// 7xkk: adds `kk` to register `x`, modulo 256. No register but `x`
    /// changes: the flag register is not set.
    pub fn add(&mut self, x: u8, kk: u8)
        requires
            x < REGISTER_COUNT,
        ensures
            final(self)@ == old(self)@.add_immediate(x, kk),
            final(self)@.registers[x as int] == (old(self)@.registers[x as int] + kk) % 256,
            x != FLAG_REGISTER ==> final(self)@.registers[FLAG_REGISTER as int] == old(
                self,
            )@.registers[FLAG_REGISTER as int],
            final(self)@.wf(),
    {
        proof {
            use_type_invariant(&*self);
        }
        let vx: u8 = self.registers[x as usize];
        self.registers[x as usize] = vx.wrapping_add(kk);
    }

    /// 8xy2: bitwise and of registers `x` and `y`, into `x`.
    pub fn and_xy(&mut self, x: u8, y: u8)
        requires
            x < REGISTER_COUNT,
            y < REGISTER_COUNT,
        ensures
            final(self)@ == old(self)@.with_register(
                x,
                old(self)@.registers[x as int] & old(self)@.registers[y as int],
            ),
            final(self)@.wf(),
    {
        proof {
            use_type_invariant(&*self);
        }
        let vx: u8 = self.registers[x as usize];
        let vy: u8 = self.registers[y as usize];
        self.registers[x as usize] = vx & vy;
    }

    /// 8xy1: bitwise or of registers `x` and `y`, into `x`.
    pub fn or_xy(&mut self, x: u8, y: u8)
        requires
            x < REGISTER_COUNT,
            y < REGISTER_COUNT,
        ensures
            final(self)@ == old(self)@.with_register(
                x,
                old(self)@.registers[x as int] | old(self)@.registers[y as int],
            ),
            final(self)@.wf(),
    {
        proof {
            use_type_invariant(&*self);
        }
        let vx: u8 = self.registers[x as usize];
        let vy: u8 = self.registers[y as usize];
        self.registers[x as usize] = vx | vy;
    }

    /// 8xy3: bitwise exclusive or of registers `x` and `y`, into `x`.
    pub fn xor_xy(&mut self, x: u8, y: u8)
        requires
            x < REGISTER_COUNT,
            y < REGISTER_COUNT,
        ensures
            final(self)@ == old(self)@.with_register(
                x,
                old(self)@.registers[x as int] ^ old(self)@.registers[y as int],
            ),
            final(self)@.wf(),
    {
        proof {
            use_type_invariant(&*self);
        }
        let vx: u8 = self.registers[x as usize];
        let vy: u8 = self.registers[y as usize];
        self.registers[x as usize] = vx ^ vy;
    }

    /// 8xy4: adds register `y` to register `x`, modulo 256, and then sets
    /// the flag register to 1 if the sum exceeded 255 and to 0 if not.
    pub fn add_xy(&mut self, x: u8, y: u8)
        requires
            x < REGISTER_COUNT,
            y < REGISTER_COUNT,
        ensures
            final(self)@ == old(self)@.add_registers(x, y),
            final(self)@.registers[FLAG_REGISTER as int] == carry(
                old(self)@.registers[x as int] + old(self)@.registers[y as int],
            ),
            x != FLAG_REGISTER ==> final(self)@.registers[x as int] == (old(
                self,
            )@.registers[x as int] + old(self)@.registers[y as int]) % 256,
            final(self)@.wf(),
    {
        proof {
            use_type_invariant(&*self);
        }
        let vx: u8 = self.registers[x as usize];
        let vy: u8 = self.registers[y as usize];
        let val: u8 = vx.wrapping_add(vy);
        let overflow: bool = val < vx;
        self.registers[x as usize] = val;
        if overflow {
            self.registers[FLAG_REGISTER as usize] = 1;
        } else {
            self.registers[FLAG_REGISTER as usize] = 0;
        }
    }

    /// Reads the opcode at the program counter, high byte first.
    pub fn fetch(&self) -> (result: Result<u16, Fault>)
        ensures
            result == self@.fetch(),
            result is Err <==> self@.program_counter + 1 >= MEMORY_SIZE,
    {
        let p: usize = self.program_counter;
        if p >= MEMORY_SIZE - 1 {
            return Err(Fault::OutOfBounds);
        }
        let op_byte1: u16 = self.memory[p] as u16;
        let op_byte2: u16 = self.memory[p + 1] as u16;
        assert((op_byte1 << 8) | op_byte2 == op_byte1 * 256 + op_byte2) by (bit_vector)
            requires
                op_byte1 < 256,
                op_byte2 < 256,
        ;
        Ok((op_byte1 << 8) | op_byte2)
    }

    /// Carries out one decoded instruction. The program counter is taken to
    /// stand behind the instruction already.
    pub fn execute(&mut self, instruction: Instruction) -> (status: Status)
        requires
            old(self)@.admits(instruction),
        ensures
            (final(self)@, status) == old(self)@.execute(instruction),
            final(self)@.wf(),
    {
        proof {
            use_type_invariant(&*self);
        }
        match instruction {
            Instruction::Halt => {
                return Status::Halted;
            },
            Instruction::ClearScreen => {},
            Instruction::Return => {
                if let Err(fault) = self.ret() {
                    return Status::Faulted(fault);
                }
            },
            Instruction::Jump { addr } => self.jump(addr),
            Instruction::Call { addr } => {
                if let Err(fault) = self.call(addr) {
                    return Status::Faulted(fault);
                }
            },
            Instruction::SkipEqualImmediate { x, kk } => self.se_xkk(x, kk),
            Instruction::SkipNotEqualImmediate { x, kk } => {
                let vx: u8 = self.registers[x as usize];
                self.sne(vx, kk)
            },
            Instruction::SkipEqualRegisters { x, y } => self.se_xy(x, y),
            Instruction::LoadImmediate { x, kk } => self.set(x, kk),
            Instruction::AddImmediate { x, kk } => self.add(x, kk),
            Instruction::Move { x, y } => {
                let vy: u8 = self.registers[y as usize];
                self.set(x, vy);
            },
            Instruction::Or { x, y } => self.or_xy(x, y),
            Instruction::And { x, y } => self.and_xy(x, y),
            Instruction::Xor { x, y } => self.xor_xy(x, y),
            Instruction::AddRegisters { x, y } => self.add_xy(x, y),
        }
        Status::Running
    }

    /// One turn of the machine: fetches the opcode at the program counter,
    /// moves the program counter past it, decodes it and carries it out.
    ///
    /// A failed fetch leaves the machine as it was. An opcode that encodes
    /// nothing, a call on a full stack and a return on an empty one leave
    /// only the program counter changed, behind the offending opcode.
    pub fn step(&mut self) -> (status: Status)
        ensures
            (final(self)@, status) == old(self)@.step(),
            final(self)@.wf(),
    {
        proof {
            use_type_invariant(&*self);
        }
        let opcode: u16 = match self.fetch() {
            Ok(opcode) => opcode,
            Err(fault) => {
                return Status::Faulted(fault);
            },
        };
        self.program_counter += INSTRUCTION_WIDTH;
        match decode(opcode) {
            Ok(instruction) => self.execute(instruction),
            Err(fault) => Status::Faulted(fault),
        }
    }

    /// Runs the machine for at most `max_steps` instructions, and stops at
    /// the first that halts or faults.
    ///
    /// The status returned is `Halted` or `Faulted` if such an instruction
    /// was met, and `Running` if `max_steps` instructions were carried out
    /// without one: the machine can then be run further.
    pub fn run(&mut self, max_steps: u64) -> (status: Status)
        ensures
            (final(self)@, status) == old(self)@.run(max_steps as nat),
            final(self)@.wf(),
    {
        proof {
            use_type_invariant(&*self);
        }
        let mut remaining: u64 = max_steps;
        while remaining > 0
            invariant
                self@.run(remaining as nat) == old(self)@.run(max_steps as nat),
                self@.wf(),
            decreases remaining,
        {
            let status = self.step();
            match status {
                Status::Running => {},
                _ => {
                    return status;
                },
            }
            remaining -= 1;
        }
        Status::Running
    }
}

} // verus!
