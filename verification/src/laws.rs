//! What holds of every step of the engine, proved from the definition of a
//! step.

use vstd::prelude::*;
use crate::display::drawn;
use crate::display::is_frame;
use crate::display::lemma_draw_twice;
use crate::display::lights;
use crate::display::lemma_drawn_is_frame;
use crate::instruction::Instruction;
use crate::state::flag;
use crate::state::CpuState;
use crate::state::Machine;
use crate::state::Step;
use crate::state::FLAG;
use crate::state::REGISTER_COUNT;
use crate::state::STACK_SIZE;

verus! {

/// Whether `machine` is well formed and about to execute `instruction`.
pub open spec fn about_to(machine: Machine, instruction: Instruction) -> bool {
    &&& machine.cpu.wf()
    &&& machine.cpu.can_fetch()
    &&& machine.cpu.instruction() == instruction
}

/// A step keeps the sizes of memory, registers and stack, and the frame a
/// frame.
pub proof fn lemma_step_keeps_well_formed(machine: Machine, key: Option<u8>, random: u8)
    requires
        machine.cpu.wf(),
        is_frame(machine.frame),
    ensures
        machine.step(key, random).cpu.wf(),
        is_frame(machine.step(key, random).frame),
{
    if machine.cpu.fault().is_none() {
        match machine.cpu.instruction() {
            Instruction::ClearDisplay => {},
            Instruction::Return => {},
            Instruction::Jump { .. } => {},
            Instruction::Call { .. } => {},
            Instruction::SkipEqual { .. } => {},
            Instruction::SkipNotEqual { .. } => {},
            Instruction::SkipRegistersEqual { .. } => {},
            Instruction::Load { .. } => {},
            Instruction::Add { .. } => {},
            Instruction::Move { .. } => {},
            Instruction::Or { .. } => {},
            Instruction::And { .. } => {},
            Instruction::Xor { .. } => {},
            Instruction::AddRegister { .. } => {},
            Instruction::Subtract { .. } => {},
            Instruction::ShiftRight { .. } => {},
            Instruction::SubtractFrom { .. } => {},
            Instruction::ShiftLeft { .. } => {},
            Instruction::SkipRegistersNotEqual { .. } => {},
            Instruction::LoadIndex { .. } => {},
            Instruction::JumpOffset { .. } => {},
            Instruction::Random { .. } => {},
            Instruction::Draw { x, y, rows } => {
                lemma_drawn_is_frame(
                    machine.frame,
                    machine.cpu.sprite(rows as int),
                    machine.cpu.v[x as int] as int,
                    machine.cpu.v[y as int] as int,
                );
            },
            Instruction::SkipKeyPressed { .. } => {},
            Instruction::SkipKeyNotPressed { .. } => {},
            Instruction::ReadDelay { .. } => {},
            Instruction::WaitKey { .. } => {},
            Instruction::SetDelay { .. } => {},
            Instruction::SetSound { .. } => {},
            Instruction::AddIndex { .. } => {},
            Instruction::LoadGlyph { .. } => {},
            Instruction::StoreDecimal { .. } => {},
            Instruction::StoreRegisters { .. } => {},
            Instruction::LoadRegisters { .. } => {},
            Instruction::Unrecognized { .. } => {},
        }
    }
}

/// Adding register `y` to register `x`: the flag register ends as 1 if the
/// sum is above 255 and as 0 if it is not, and register `x`, unless it is the
/// flag register itself, ends as the sum modulo 256.
pub proof fn lemma_add_sets_carry(machine: Machine, x: u8, y: u8, key: Option<u8>, random: u8)
    requires
        about_to(machine, Instruction::AddRegister { x, y }),
        x < REGISTER_COUNT,
        y < REGISTER_COUNT,
    ensures
        ({
            let before = machine.cpu.v;
            let after = machine.step(key, random).cpu.v;
            let sum = before[x as int] + before[y as int];
            &&& after[FLAG as int] == 1 <==> sum > 255
            &&& after[FLAG as int] == 0 <==> sum <= 255
            &&& x != FLAG ==> after[x as int] == sum % 256
        }),
{
}

/// Subtracting register `y` from register `x`: the flag register ends as 1
/// if register `x` was at least register `y`, so that nothing was borrowed,
/// and as 0 if it was not, and register `x`, unless it is the flag register
/// itself, ends as the difference modulo 256.
pub proof fn lemma_subtract_sets_no_borrow(
    machine: Machine,
    x: u8,
    y: u8,
    key: Option<u8>,
    random: u8,
)
    requires
        about_to(machine, Instruction::Subtract { x, y }),
        x < REGISTER_COUNT,
        y < REGISTER_COUNT,
    ensures
        ({
            let before = machine.cpu.v;
            let after = machine.step(key, random).cpu.v;
            &&& after[FLAG as int] == 1 <==> before[x as int] >= before[y as int]
            &&& after[FLAG as int] == 0 <==> before[x as int] < before[y as int]
            &&& x != FLAG ==> after[x as int] == (before[x as int] - before[y as int]) % 256
        }),
{
}

/// The reversed subtraction, register `y` less register `x` into register
/// `x`: as `lemma_subtract_sets_no_borrow` with the two operands exchanged.
pub proof fn lemma_subtract_from_sets_no_borrow(
    machine: Machine,
    x: u8,
    y: u8,
    key: Option<u8>,
    random: u8,
)
    requires
        about_to(machine, Instruction::SubtractFrom { x, y }),
        x < REGISTER_COUNT,
        y < REGISTER_COUNT,
    ensures
        ({
            let before = machine.cpu.v;
            let after = machine.step(key, random).cpu.v;
            &&& after[FLAG as int] == 1 <==> before[y as int] >= before[x as int]
            &&& after[FLAG as int] == 0 <==> before[y as int] < before[x as int]
            &&& x != FLAG ==> after[x as int] == (before[y as int] - before[x as int]) % 256
        }),
{
}

/// Shifting a register other than the flag register to the right: the flag
/// register ends as the lowest bit of the register, and the register as its
/// upper seven bits, moved down by one place.
pub proof fn lemma_shift_right(machine: Machine, x: u8, key: Option<u8>, random: u8)
    requires
        about_to(machine, Instruction::ShiftRight { x }),
        x < FLAG,
    ensures
        ({
            let before = machine.cpu.v[x as int];
            let after = machine.step(key, random).cpu.v;
            &&& after[FLAG as int] == before & 1
            &&& after[x as int] == before >> 1
            &&& before == after[x as int] * 2 + after[FLAG as int]
        }),
{
    let before = machine.cpu.v[x as int];
    assert(before & 1 == before % 2) by (bit_vector);
    assert(before >> 1 == before / 2) by (bit_vector);
}

/// Shifting a register other than the flag register to the left: the flag
/// register ends as the highest bit of the register, and the register as its
/// lower seven bits, moved up by one place.
pub proof fn lemma_shift_left(machine: Machine, x: u8, key: Option<u8>, random: u8)
    requires
        about_to(machine, Instruction::ShiftLeft { x }),
        x < FLAG,
    ensures
        ({
            let before = machine.cpu.v[x as int];
            let after = machine.step(key, random).cpu.v;
            &&& after[FLAG as int] == before >> 7
            &&& after[x as int] == before << 1
            &&& before * 2 == after[FLAG as int] * 256 + after[x as int]
        }),
{
    let before = machine.cpu.v[x as int];
    assert(before >> 7 == before / 128) by (bit_vector);
    assert(before << 1 == (before * 2 % 256) as u8) by (bit_vector);
}

/// The same sprite drawn twice at the same place, by two instructions one
/// after the other that name no flag register for the place: the frame is
/// as it was before the two, and the flag register tells whether the first
/// of them lit a pixel.
pub proof fn lemma_draw_twice_restores_frame(
    machine: Machine,
    x: u8,
    y: u8,
    rows: u8,
    key: Option<u8>,
    random: u8,
    other: u8,
)
    requires
        about_to(machine, Instruction::Draw { x, y, rows }),
        machine.cpu.fault().is_none(),
        is_frame(machine.frame),
        x < FLAG,
        y < FLAG,
        machine.step(key, random).cpu.can_fetch(),
        machine.step(key, random).cpu.instruction() == (Instruction::Draw { x, y, rows }),
    ensures
        machine.step(key, random).step(key, other).frame == machine.frame,
        machine.step(key, random).step(key, other).cpu.v[FLAG as int] == flag(
            lights(
                machine.frame,
                machine.cpu.sprite(rows as int),
                machine.cpu.v[x as int] as int,
                machine.cpu.v[y as int] as int,
            ),
        ),
{
    let sprite = machine.cpu.sprite(rows as int);
    let vx = machine.cpu.v[x as int] as int;
    let vy = machine.cpu.v[y as int] as int;
    let once = machine.step(key, random);
    assert(once.frame == drawn(machine.frame, sprite, vx, vy));
    assert(once.cpu.sprite(rows as int) =~= sprite);
    assert(once.cpu.v[x as int] == machine.cpu.v[x as int]);
    assert(once.cpu.v[y as int] == machine.cpu.v[y as int]);
    assert(once.cpu.fault().is_none());
    lemma_draw_twice(machine.frame, sprite, vx, vy);
}

/// A call of a subroutine that returns at once: after the two steps the
/// program counter stands behind the call, and the stack and all the rest of
/// the machine are as they were before it.
pub proof fn lemma_call_then_return(
    machine: Machine,
    address: u16,
    key: Option<u8>,
    random: u8,
    other: u8,
)
    requires
        about_to(machine, Instruction::Call { address }),
        machine.cpu.stack.len() < STACK_SIZE,
        machine.cpu.at(address as int).can_fetch(),
        machine.cpu.at(address as int).instruction() == Instruction::Return,
    ensures
        machine.step(key, random).cpu.pc == address,
        machine.step(key, random).cpu.stack == machine.cpu.stack.push((machine.cpu.pc + 2) as u16),
        machine.step(key, random).step(key, other) == (Machine {
            cpu: machine.cpu.at(machine.cpu.pc + 2),
            frame: machine.frame,
        }),
{
    let called = machine.step(key, random);
    assert(called.cpu.stack == machine.cpu.stack.push((machine.cpu.pc + 2) as u16));
    assert(called.cpu.fetch() == machine.cpu.at(address as int).fetch());
    assert(called.cpu.instruction() == Instruction::Return);
    let returned = called.step(key, other);
    assert(returned.cpu.stack =~= machine.cpu.stack);
}

/// While no key is latched, an engine that waits for a key stays as it is,
/// whatever the number of steps: the program counter, and all the rest of
/// the machine, are unchanged, and each step reports that it waits.
pub proof fn lemma_wait_for_key_holds(machine: Machine, x: u8, randoms: Seq<u8>)
    requires
        about_to(machine, Instruction::WaitKey { x }),
    ensures
        machine.run(None, randoms) == machine,
        machine.outcome(None) == Ok::<Step, crate::state::Fault>(Step::Waiting),
    decreases randoms.len(),
{
    if randoms.len() > 0 {
        lemma_wait_for_key_holds(machine, x, randoms.drop_last());
    }
}

/// Once a key is latched, the next step of an engine that waits for a key
/// stores the key's code in the register and moves the program counter on by
/// 2. Nothing else changes.
pub proof fn lemma_wait_for_key_resumes(machine: Machine, x: u8, code: u8, random: u8)
    requires
        about_to(machine, Instruction::WaitKey { x }),
        x < REGISTER_COUNT,
    ensures
        ({
            let after = machine.step(Some(code), random);
            &&& after.cpu.v[x as int] == code
            &&& after.cpu.pc == machine.cpu.pc + 2
            &&& after.cpu == (CpuState {
                pc: after.cpu.pc,
                v: machine.cpu.v.update(x as int, code),
                ..machine.cpu
            })
            &&& after.frame == machine.frame
        }),
        machine.outcome(Some(code)) == Ok::<Step, crate::state::Fault>(Step::Executed),
{
}

/// A step over an operation code that stands for no instruction moves the
/// program counter on by 2, reports the code and its address, and changes
/// nothing else: not the registers, not memory, not the frame.
pub proof fn lemma_unrecognized_is_passed_over(
    machine: Machine,
    opcode: u16,
    key: Option<u8>,
    random: u8,
)
    requires
        about_to(machine, Instruction::Unrecognized { opcode }),
    ensures
        ({
            let after = machine.step(key, random);
            &&& after.cpu.pc == machine.cpu.pc + 2
            &&& after.cpu == (CpuState { pc: after.cpu.pc, ..machine.cpu })
            &&& after.frame == machine.frame
        }),
        opcode == machine.cpu.fetch(),
        machine.outcome(key) == Ok::<Step, crate::state::Fault>(
            Step::Unrecognized { address: machine.cpu.pc, opcode },
        ),
{
}

/// The random byte matters to no instruction but `Random`: with any other
/// instruction at the program counter, a step is the same step whatever the
/// byte.
pub proof fn lemma_random_byte_matters_to_random_only(
    machine: Machine,
    key: Option<u8>,
    random: u8,
    other: u8,
)
    requires
        !(machine.cpu.instruction() is Random),
    ensures
        machine.step(key, random) == machine.step(key, other),
{
    match machine.cpu.instruction() {
        Instruction::ClearDisplay => {},
        Instruction::Return => {},
        Instruction::Jump { .. } => {},
        Instruction::Call { .. } => {},
        Instruction::SkipEqual { .. } => {},
        Instruction::SkipNotEqual { .. } => {},
        Instruction::SkipRegistersEqual { .. } => {},
        Instruction::Load { .. } => {},
        Instruction::Add { .. } => {},
        Instruction::Move { .. } => {},
        Instruction::Or { .. } => {},
        Instruction::And { .. } => {},
        Instruction::Xor { .. } => {},
        Instruction::AddRegister { .. } => {},
        Instruction::Subtract { .. } => {},
        Instruction::ShiftRight { .. } => {},
        Instruction::SubtractFrom { .. } => {},
        Instruction::ShiftLeft { .. } => {},
        Instruction::SkipRegistersNotEqual { .. } => {},
        Instruction::LoadIndex { .. } => {},
        Instruction::JumpOffset { .. } => {},
        Instruction::Random { .. } => {},
        Instruction::Draw { .. } => {},
        Instruction::SkipKeyPressed { .. } => {},
        Instruction::SkipKeyNotPressed { .. } => {},
        Instruction::ReadDelay { .. } => {},
        Instruction::WaitKey { .. } => {},
        Instruction::SetDelay { .. } => {},
        Instruction::SetSound { .. } => {},
        Instruction::AddIndex { .. } => {},
        Instruction::LoadGlyph { .. } => {},
        Instruction::StoreDecimal { .. } => {},
        Instruction::StoreRegisters { .. } => {},
        Instruction::LoadRegisters { .. } => {},
        Instruction::Unrecognized { .. } => {},
    }
}

/// Whether `instruction` sets the program counter itself: a jump, a call or
/// a return.
pub open spec fn is_transfer(instruction: Instruction) -> bool {
    ||| instruction is Jump
    ||| instruction is JumpOffset
    ||| instruction is Call
    ||| instruction is Return
}

/// Whether `instruction` is one of those that may skip the next instruction.
pub open spec fn is_skip(instruction: Instruction) -> bool {
    ||| instruction is SkipEqual
    ||| instruction is SkipNotEqual
    ||| instruction is SkipRegistersEqual
    ||| instruction is SkipRegistersNotEqual
    ||| instruction is SkipKeyPressed
    ||| instruction is SkipKeyNotPressed
}

/// An instruction that does not jump, call or return moves the program
/// counter on by 2; a skip moves it on by 2 or by 4. The one exception is the
/// wait for a key, which leaves it in place while no key is latched.
pub proof fn lemma_program_counter_advances(machine: Machine, key: Option<u8>, random: u8)
    requires
        machine.cpu.wf(),
        machine.cpu.fault().is_none(),
        !is_transfer(machine.cpu.instruction()),
    ensures
        ({
            let before = machine.cpu.pc;
            let after = machine.step(key, random).cpu.pc;
            let instruction = machine.cpu.instruction();
            if instruction is WaitKey && key.is_none() {
                after == before
            } else if is_skip(instruction) {
                after == before + 2 || after == before + 4
            } else {
                after == before + 2
            }
        }),
{
    match machine.cpu.instruction() {
        Instruction::ClearDisplay => {},
        Instruction::Return => {},
        Instruction::Jump { .. } => {},
        Instruction::Call { .. } => {},
        Instruction::SkipEqual { .. } => {},
        Instruction::SkipNotEqual { .. } => {},
        Instruction::SkipRegistersEqual { .. } => {},
        Instruction::Load { .. } => {},
        Instruction::Add { .. } => {},
        Instruction::Move { .. } => {},
        Instruction::Or { .. } => {},
        Instruction::And { .. } => {},
        Instruction::Xor { .. } => {},
        Instruction::AddRegister { .. } => {},
        Instruction::Subtract { .. } => {},
        Instruction::ShiftRight { .. } => {},
        Instruction::SubtractFrom { .. } => {},
        Instruction::ShiftLeft { .. } => {},
        Instruction::SkipRegistersNotEqual { .. } => {},
        Instruction::LoadIndex { .. } => {},
        Instruction::JumpOffset { .. } => {},
        Instruction::Random { .. } => {},
        Instruction::Draw { .. } => {},
        Instruction::SkipKeyPressed { .. } => {},
        Instruction::SkipKeyNotPressed { .. } => {},
        Instruction::ReadDelay { .. } => {},
        Instruction::WaitKey { .. } => {},
        Instruction::SetDelay { .. } => {},
        Instruction::SetSound { .. } => {},
        Instruction::AddIndex { .. } => {},
        Instruction::LoadGlyph { .. } => {},
        Instruction::StoreDecimal { .. } => {},
        Instruction::StoreRegisters { .. } => {},
        Instruction::LoadRegisters { .. } => {},
        Instruction::Unrecognized { .. } => {},
    }
}

/// From an even program counter, an instruction that does not jump, call or
/// return leaves the program counter even.
#[verifier::rlimit(30)]
pub proof fn lemma_program_counter_stays_even(machine: Machine, key: Option<u8>, random: u8)
    requires
        machine.cpu.wf(),
        machine.cpu.pc % 2 == 0,
        !is_transfer(machine.cpu.instruction()),
    ensures
        machine.step(key, random).cpu.pc % 2 == 0,
{
    match machine.cpu.instruction() {
        Instruction::ClearDisplay => {},
        Instruction::Return => {},
        Instruction::Jump { .. } => {},
        Instruction::Call { .. } => {},
        Instruction::SkipEqual { .. } => {},
        Instruction::SkipNotEqual { .. } => {},
        Instruction::SkipRegistersEqual { .. } => {},
        Instruction::Load { .. } => {},
        Instruction::Add { .. } => {},
        Instruction::Move { .. } => {},
        Instruction::Or { .. } => {},
        Instruction::And { .. } => {},
        Instruction::Xor { .. } => {},
        Instruction::AddRegister { .. } => {},
        Instruction::Subtract { .. } => {},
        Instruction::ShiftRight { .. } => {},
        Instruction::SubtractFrom { .. } => {},
        Instruction::ShiftLeft { .. } => {},
        Instruction::SkipRegistersNotEqual { .. } => {},
        Instruction::LoadIndex { .. } => {},
        Instruction::JumpOffset { .. } => {},
        Instruction::Random { .. } => {},
        Instruction::Draw { .. } => {},
        Instruction::SkipKeyPressed { .. } => {},
        Instruction::SkipKeyNotPressed { .. } => {},
        Instruction::ReadDelay { .. } => {},
        Instruction::WaitKey { .. } => {},
        Instruction::SetDelay { .. } => {},
        Instruction::SetSound { .. } => {},
        Instruction::AddIndex { .. } => {},
        Instruction::LoadGlyph { .. } => {},
        Instruction::StoreDecimal { .. } => {},
        Instruction::StoreRegisters { .. } => {},
        Instruction::LoadRegisters { .. } => {},
        Instruction::Unrecognized { .. } => {},
    }
}

} // verus!
