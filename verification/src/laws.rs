use vstd::prelude::*;
use crate::fault::{Fault, Status};
use crate::instruction::{decode_spec, Instruction};
use crate::model::{CpuState, FLAG_REGISTER, MEMORY_SIZE, REGISTER_COUNT, STACK_DEPTH};

verus! {

/// The condition that the skip `instruction` tests in state `s`.
pub open spec fn skip_condition(s: CpuState, instruction: Instruction) -> bool {
    match instruction {
        Instruction::SkipEqualImmediate { x, kk } => s.registers[x as int] == kk,
        Instruction::SkipNotEqualImmediate { x, kk } => s.registers[x as int] != kk,
        Instruction::SkipEqualRegisters { x, y } => s.registers[x as int] == s.registers[y as int],
        _ => false,
    }
}

/// The opcodes that encode an instruction are the three control codes
/// `0000`, `00E0` and `00EE`, every word that starts with the digit 1, 2, 3,
/// 4, 6 or 7, the words `5xy0`, and the words `8xy0` to `8xy4`.
pub proof fn law_recognized_opcodes(opcode: u16)
    ensures
        decode_spec(opcode) is Ok <==> {
            ||| opcode == 0x0000
            ||| opcode == 0x00E0
            ||| opcode == 0x00EE
            ||| 0x1000 <= opcode <= 0x4FFF
            ||| 0x5000 <= opcode <= 0x5FFF && opcode % 16 == 0
            ||| 0x6000 <= opcode <= 0x7FFF
            ||| 0x8000 <= opcode <= 0x8FFF && opcode % 16 <= 4
        },
        decode_spec(opcode) is Err ==> decode_spec(opcode) == Err::<Instruction, Fault>(
            Fault::UnimplementedOpcode(opcode),
        ),
        decode_spec(opcode) matches Ok(instruction) ==> instruction.well_formed(),
{
}

/// A well-formed state stays well-formed under every instruction with
/// operands in range, and under every turn of the machine.
pub proof fn law_step_keeps_well_formedness(s: CpuState, instruction: Instruction)
    requires
        s.wf(),
    ensures
        instruction.well_formed() ==> s.execute(instruction).0.wf(),
        s.step().0.wf(),
{
}

/// A well-formed state stays well-formed under every run.
pub proof fn law_run_keeps_well_formedness(s: CpuState, max_steps: nat)
    requires
        s.wf(),
    ensures
        s.run(max_steps).0.wf(),
    decreases max_steps,
{
    if max_steps > 0 && s.step().1 is Running {
        law_run_keeps_well_formedness(s.step().0, (max_steps - 1) as nat);
    }
}

/// Loading an immediate into a register and then reading that register
/// yields the immediate.
pub proof fn law_load_then_read(s: CpuState, x: u8, kk: u8)
    requires
        s.wf(),
        x < REGISTER_COUNT,
    ensures
        s.execute(Instruction::LoadImmediate { x, kk }).0.registers[x as int] == kk,
        s.execute(Instruction::LoadImmediate { x, kk }).1 == Status::Running,
{
}

/// Adding register `y`, which holds `b`, to register `x`, which holds `a`,
/// leaves the carry of `a + b` in the flag register: 1 if the sum exceeds
/// 255, else 0. Register `x` then holds `a + b` modulo 256, unless it is the
/// flag register itself, which holds the carry. No other register changes.
pub proof fn law_add_registers(s: CpuState, x: u8, y: u8, a: u8, b: u8)
    requires
        s.wf(),
        x < REGISTER_COUNT,
        y < REGISTER_COUNT,
        s.registers[x as int] == a,
        s.registers[y as int] == b,
    ensures
        s.execute(Instruction::AddRegisters { x, y }).1 == Status::Running,
        ({
            let t = s.execute(Instruction::AddRegisters { x, y }).0;
            &&& t.registers[FLAG_REGISTER as int] == if a + b > 255 {
                1u8
            } else {
                0u8
            }
            &&& x != FLAG_REGISTER ==> t.registers[x as int] == (a + b) % 256
            &&& forall|r: int|
                0 <= r < REGISTER_COUNT && r != x && r != FLAG_REGISTER ==> t.registers[r]
                    == s.registers[r]
        }),
{
}

/// Adding an immediate never sets the flag register: the flag register
/// changes only where it is itself the register added to, and the immediate
/// is not zero.
pub proof fn law_add_immediate_keeps_flag(s: CpuState, x: u8, kk: u8)
    requires
        s.wf(),
        x < REGISTER_COUNT,
        x != FLAG_REGISTER || kk == 0,
    ensures
        s.execute(Instruction::AddImmediate { x, kk }).0.registers[FLAG_REGISTER as int]
            == s.registers[FLAG_REGISTER as int],
{
}

/// A call followed at once by a return resumes behind the call. If the
/// opcode at the program counter is a call to `addr`, a stack slot is free,
/// and the opcode at `addr` is a return, then two turns of the machine leave
/// the program counter two bytes behind where it was, and the registers, the
/// memory and the stack pointer as they were.
pub proof fn law_call_then_return(s: CpuState, addr: u16)
    requires
        s.wf(),
        s.fetch() matches Ok(opcode) && decode_spec(opcode) == Ok::<Instruction, Fault>(
            Instruction::Call { addr },
        ),
        s.stack_pointer < STACK_DEPTH,
        s.with_program_counter(addr as nat).fetch() == Ok::<u16, Fault>(0x00EE),
    ensures
        s.step().1 == Status::Running,
        s.step().0.program_counter == addr,
        s.step().0.step().1 == Status::Running,
        s.step().0.step().0.program_counter == s.program_counter + 2,
        s.step().0.step().0.stack_pointer == s.stack_pointer,
        s.step().0.step().0.registers == s.registers,
        s.step().0.step().0.memory == s.memory,
        s.run(2) == s.step().0.step(),
{
    reveal_with_fuel(CpuState::run, 3);
}

/// A conditional skip moves the program counter by exactly four bytes if its
/// condition holds, two for the fetch and two for the skip, and by exactly
/// two if not. Nothing else changes.
pub proof fn law_skip_advance(s: CpuState, instruction: Instruction)
    requires
        s.wf(),
        s.fetch() matches Ok(opcode) && decode_spec(opcode) == Ok::<Instruction, Fault>(
            instruction,
        ),
        instruction.is_skip(),
    ensures
        s.step().1 == Status::Running,
        s.step().0 == s.with_program_counter(
            if skip_condition(s, instruction) {
                s.program_counter + 4
            } else {
                s.program_counter + 2
            },
        ),
{
}

/// An opcode that encodes no instruction is reported as unimplemented, and
/// the turn that meets it changes nothing but the program counter, which
/// stands behind the opcode: no register, memory cell or stack slot changes.
pub proof fn law_unimplemented_opcode(s: CpuState, opcode: u16)
    requires
        s.wf(),
        s.fetch() == Ok::<u16, Fault>(opcode),
        decode_spec(opcode) is Err,
    ensures
        s.step().1 == Status::Faulted(Fault::UnimplementedOpcode(opcode)),
        s.step().0 == s.with_program_counter(s.program_counter + 2),
        s.step().0.registers == s.registers,
        forall|max_steps: nat|
            max_steps > 0 ==> #[trigger] s.run(max_steps) == (
                s.with_program_counter(s.program_counter + 2),
                Status::Faulted(Fault::UnimplementedOpcode(opcode)),
            ),
{
}

/// A return on an empty stack faults with an underflow, a call on a full
/// stack with an overflow, and neither changes anything. Every other return
/// and call succeeds.
pub proof fn law_stack_faults(s: CpuState, addr: u16)
    requires
        s.wf(),
    ensures
        s.stack_pointer == 0 ==> s.execute(Instruction::Return) == (
            s,
            Status::Faulted(Fault::StackUnderflow),
        ),
        s.stack_pointer != 0 ==> s.execute(Instruction::Return).1 == Status::Running,
        s.stack_pointer == STACK_DEPTH ==> s.execute(Instruction::Call { addr }) == (
            s,
            Status::Faulted(Fault::StackOverflow),
        ),
        s.stack_pointer != STACK_DEPTH ==> s.execute(Instruction::Call { addr }).1
            == Status::Running,
{
}

/// A turn of the machine faults as out of bounds exactly if the program
/// counter is above 4094, so that one of the opcode's two bytes would lie
/// beyond the end of memory; such a turn changes nothing.
pub proof fn law_fetch_out_of_bounds(s: CpuState)
    requires
        s.wf(),
    ensures
        s.step().1 == Status::Faulted(Fault::OutOfBounds) <==> s.program_counter > MEMORY_SIZE - 2,
        s.program_counter > MEMORY_SIZE - 2 ==> s.step().0 == s,
{
}

/// A program image is a dense sequence of opcodes, each written high byte
/// first. Once `bytes` have been written to memory from `base` on, a fetch at
/// `offset` bytes into the image yields the two bytes there as one opcode,
/// and every byte of memory outside the image is as it was.
pub proof fn law_written_opcode_is_fetched(s: CpuState, base: nat, bytes: Seq<u8>, offset: nat)
    requires
        s.wf(),
        base + bytes.len() <= MEMORY_SIZE,
        offset + 1 < bytes.len(),
    ensures
        s.with_memory(base, bytes).wf(),
        s.with_memory(base, bytes).with_program_counter(base + offset).fetch() == Ok::<
            u16,
            Fault,
        >((bytes[offset as int] * 256 + bytes[offset as int + 1]) as u16),
        forall|a: int|
            0 <= a < MEMORY_SIZE && !(base <= a < base + bytes.len()) ==> s.with_memory(
                base,
                bytes,
            ).memory[a] == s.memory[a],
{
}

/// A run can be taken in two parts: running for `first + second` turns is
/// running for `first` turns and, if the machine is still running then, for
/// `second` more.
pub proof fn law_run_in_parts(s: CpuState, first: nat, second: nat)
    ensures
        s.run(first + second) == if s.run(first).1 is Running {
            s.run(first).0.run(second)
        } else {
            s.run(first)
        },
    decreases first,
{
    if first > 0 && s.step().1 is Running {
        law_run_in_parts(s.step().0, (first - 1) as nat, second);
    }
}

/// Once a run has ended in a halt or a fault, allowing more turns changes
/// nothing: every larger allowance gives the same state and the same status.
/// So the allowance bounds how long a run may take, not what it computes.
pub proof fn law_ended_run_is_final(s: CpuState, max_steps: nat, more: nat)
    requires
        !(s.run(max_steps).1 is Running),
    ensures
        s.run(max_steps + more) == s.run(max_steps),
{
    law_run_in_parts(s, max_steps, more);
}

} // verus!
