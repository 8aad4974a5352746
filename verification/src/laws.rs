//! General facts about the semantics, proved once and for all.
//!
//! Each public proof function states a law of the interpreter over the
//! functions of `semantics`, which are the functions the contract of
//! `Cpu::step` is written in. What a law says of `step` therefore holds of
//! every instruction the processor executes.

use vstd::prelude::*;
use crate::addressing::{
    addressing_cycles, effective_address, indirect_high_address, operand_word, page_crossed,
};
use crate::alu::{asl_result, carry_value, lsr_result, rol_result, ror_result};
use crate::bytes::{
    bit0, bit7, lemma_wrap_byte_absorbs, lemma_wrap_word_absorbs, peek, same_page, signed,
    word_of, wrap_byte, wrap_word,
};
use crate::cpu::Cpu;
use crate::decode::{
    Access, Instruction, Mnemonic, Mode, decode_spec, instruction, lemma_decoded_well_formed,
};
use crate::semantics::{MAX_INSTRUCTION_CYCLES, Machine, execute_instruction, step};
use crate::status::{StatusFlags, lemma_status_round_trip};

verus! {

// Vocabulary

/// Whether `instr` is the instruction the machine is about to execute.
pub open spec fn about_to_execute(m: Machine, instr: Instruction) -> bool {
    decode_spec(m.next_opcode()) == Some(instr)
}

/// The machine just after the opcode fetch, with the program counter on the
/// first operand byte, as the addressing functions expect it.
pub open spec fn after_opcode_fetch(m: Machine) -> Machine {
    m.with_cpu(m.cpu.advance(1)).tick(1)
}

/// The cycles the next instruction takes.
pub open spec fn cycles_taken(m: Machine) -> int {
    m.cycles - step(m).cycles
}

// Cycle counts

/// The cycle counts of the 6502 data sheet, without the penalties for page
/// crossings and taken branches.
pub open spec fn published_cycles(instr: Instruction) -> int {
    match instr.mnemonic {
        Mnemonic::Brk => 7,
        Mnemonic::Jsr | Mnemonic::Rts | Mnemonic::Rti => 6,
        Mnemonic::Pla | Mnemonic::Plp => 4,
        Mnemonic::Pha | Mnemonic::Php => 3,
        Mnemonic::Jmp => match instr.mode {
            Mode::Indirect => 5,
            _ => 3,
        },
        Mnemonic::Sta | Mnemonic::Stx | Mnemonic::Sty => match instr.mode {
            Mode::ZeroPage => 3,
            Mode::ZeroPageX | Mode::ZeroPageY | Mode::Absolute => 4,
            Mode::AbsoluteX | Mode::AbsoluteY => 5,
            _ => 6,
        },
        Mnemonic::Inc
        | Mnemonic::Dec
        | Mnemonic::Asl
        | Mnemonic::Lsr
        | Mnemonic::Rol
        | Mnemonic::Ror => match instr.mode {
            Mode::Accumulator => 2,
            Mode::ZeroPage => 5,
            Mode::ZeroPageX | Mode::Absolute => 6,
            _ => 7,
        },
        Mnemonic::Lda
        | Mnemonic::Ldx
        | Mnemonic::Ldy
        | Mnemonic::And
        | Mnemonic::Ora
        | Mnemonic::Eor
        | Mnemonic::Bit
        | Mnemonic::Adc
        | Mnemonic::Sbc
        | Mnemonic::Cmp
        | Mnemonic::Cpx
        | Mnemonic::Cpy => match instr.mode {
            Mode::Immediate => 2,
            Mode::ZeroPage => 3,
            Mode::IndirectX => 6,
            Mode::IndirectY => 5,
            _ => 4,
        },
        _ => 2,
    }
}

/// Whether the mode adds an index register to a full 16-bit address.
pub open spec fn indexes_full_address(mode: Mode) -> bool {
    mode is AbsoluteX || mode is AbsoluteY || mode is IndirectY
}

/// Whether `instr` only reads through an indexed address that lies on
/// another page than its base. `fetched` is the machine that has just
/// fetched the opcode.
pub open spec fn crosses_page(instr: Instruction, fetched: Machine) -> bool {
    &&& indexes_full_address(instr.mode)
    &&& instr.mnemonic.access() is Read
    &&& page_crossed(instr.mode, fetched.cpu, fetched.mem)
}

/// The cycle a read pays for crossing a page.
pub open spec fn page_penalty(instr: Instruction, fetched: Machine) -> int {
    if crosses_page(instr, fetched) {
        1
    } else {
        0
    }
}

/// Whether the condition of a branch holds in the given processor state.
/// False for every operation that is not a branch.
pub open spec fn branch_condition(mnemonic: Mnemonic, cpu: Cpu) -> bool {
    match mnemonic {
        Mnemonic::Beq => cpu.status.zero,
        Mnemonic::Bne => !cpu.status.zero,
        Mnemonic::Bcs => cpu.status.carry,
        Mnemonic::Bcc => !cpu.status.carry,
        Mnemonic::Bmi => cpu.status.negative,
        Mnemonic::Bpl => !cpu.status.negative,
        Mnemonic::Bvs => cpu.status.overflow,
        Mnemonic::Bvc => !cpu.status.overflow,
        _ => false,
    }
}

/// Where a branch leads when it is taken: the signed offset away from the
/// instruction after the branch. `fetched` is the machine that has just
/// fetched the opcode of the branch.
pub open spec fn branch_target(fetched: Machine) -> u16 {
    wrap_word(fetched.cpu.pc + 1 + signed(peek(fetched.mem, fetched.cpu.pc)))
}

/// The cycles a branch pays on top of its listed count: none when it is
/// not taken, one when it is taken, two when it is taken to another page
/// than that of the instruction after the branch.
pub open spec fn branch_penalty(instr: Instruction, fetched: Machine) -> int {
    if !branch_condition(instr.mnemonic, fetched.cpu) {
        0
    } else if same_page(wrap_word(fetched.cpu.pc + 1), branch_target(fetched)) {
        1
    } else {
        2
    }
}

/// Every instruction but BRK takes the cycles the data sheet lists for it,
/// plus one when a read through an indexed address crosses a page, plus one
/// when a branch is taken and one more when the taken branch leaves the page
/// of the instruction that follows it. In particular, without a page
/// crossing and without a taken branch the count is the listed one.
pub proof fn lemma_cycles_match_data_sheet(m: Machine, instr: Instruction)
    requires
        about_to_execute(m, instr),
        !(instr.mnemonic is Brk),
    ensures
        cycles_taken(m) == published_cycles(instr) + page_penalty(instr, after_opcode_fetch(m))
            + branch_penalty(instr, after_opcode_fetch(m)),
        !crosses_page(instr, after_opcode_fetch(m)) && !branch_condition(instr.mnemonic, m.cpu)
            ==> cycles_taken(m) == published_cycles(instr),
{
    lemma_decoded_well_formed(m.next_opcode());
    lemma_instruction_cycles(instr, after_opcode_fetch(m));
}

/// Whether `instr`, run from just after its opcode fetch, takes the cycles
/// the data sheet lists plus its penalties. The opcode fetch is the one
/// cycle that has passed already.
spec fn takes_listed_cycles(instr: Instruction, fetched: Machine) -> bool {
    fetched.cycles - execute_instruction(instr, fetched).cycles + 1 == published_cycles(instr)
        + page_penalty(instr, fetched) + branch_penalty(instr, fetched)
}

/// The cycle law for a decoded instruction.
proof fn lemma_instruction_cycles(instr: Instruction, fetched: Machine)
    requires
        instr.well_formed(),
        !(instr.mnemonic is Brk),
    ensures
        takes_listed_cycles(instr, fetched),
{
    if instr.mode is Relative {
        lemma_cycles_of_branch(instr, fetched);
    } else if instr.mode is Implied || instr.mode is Accumulator {
        lemma_cycles_without_operand(instr, fetched);
    } else if instr.mnemonic.access() is Write {
        lemma_cycles_of_write(instr, fetched);
    } else if instr.mnemonic is Jmp || instr.mnemonic is Jsr {
        lemma_cycles_of_jump(instr, fetched);
    } else {
        lemma_cycles_of_read(instr, fetched);
    }
}

/// The cycle law for the branches.
proof fn lemma_cycles_of_branch(instr: Instruction, fetched: Machine)
    requires
        instr.well_formed(),
        instr.mode is Relative,
    ensures
        takes_listed_cycles(instr, fetched),
{
}

/// The cycle law for the instructions that have no operand bytes.
proof fn lemma_cycles_without_operand(instr: Instruction, fetched: Machine)
    requires
        instr.well_formed(),
        instr.mode is Implied || instr.mode is Accumulator,
        !(instr.mnemonic is Brk),
    ensures
        takes_listed_cycles(instr, fetched),
{
}

/// The cycle law for the stores and the read-modify-write instructions on
/// memory.
proof fn lemma_cycles_of_write(instr: Instruction, fetched: Machine)
    requires
        instr.well_formed(),
        instr.mode.addresses_memory(),
        instr.mnemonic.access() is Write,
    ensures
        takes_listed_cycles(instr, fetched),
{
}

/// The cycle law for JMP and JSR.
proof fn lemma_cycles_of_jump(instr: Instruction, fetched: Machine)
    requires
        instr.well_formed(),
        instr.mnemonic is Jmp || instr.mnemonic is Jsr,
    ensures
        takes_listed_cycles(instr, fetched),
{
}

/// The cycle law for the instructions that read an operand from memory.
proof fn lemma_cycles_of_read(instr: Instruction, fetched: Machine)
    requires
        instr.well_formed(),
        instr.mode.addresses_memory(),
        instr.mnemonic.access() is Read,
        !(instr.mnemonic is Jmp || instr.mnemonic is Jsr),
    ensures
        takes_listed_cycles(instr, fetched),
{
}

/// An instruction other than BRK takes at least two and at most seven
/// cycles. BRK leaves no budget at all.
pub proof fn lemma_step_cost(m: Machine)
    requires
        m.can_step(),
    ensures
        about_to_execute(m, instruction(Mnemonic::Brk, Mode::Implied)) ==> step(m).cycles == 0,
        !about_to_execute(m, instruction(Mnemonic::Brk, Mode::Implied)) ==> 2 <= cycles_taken(m)
            <= MAX_INSTRUCTION_CYCLES,
{
    lemma_decoded_well_formed(m.next_opcode());
    match decode_spec(m.next_opcode()) {
        Some(instr) => {
            if instr.mnemonic is Brk {
                lemma_break_exhausts_budget(m, instr);
            } else {
                lemma_cycles_match_data_sheet(m, instr);
            }
        },
        None => {},
    }
}

/// BRK is the one instruction whose cost is not a cycle count: it sets B,
/// steps past its opcode and leaves no budget, whatever the budget was.
pub proof fn lemma_break_exhausts_budget(m: Machine, instr: Instruction)
    requires
        about_to_execute(m, instr),
        instr.mnemonic is Brk,
    ensures
        step(m).cycles == 0,
        step(m).cpu.status.break_command,
        step(m).cpu.pc == wrap_word(m.cpu.pc + 1),
        step(m).mem == m.mem,
{
    lemma_decoded_well_formed(m.next_opcode());
}

/// The cycles of an indexed mode before the index is counted: one for each
/// operand byte fetched and one for each pointer byte read.
pub open spec fn unindexed_cycles(mode: Mode) -> int {
    match mode {
        Mode::ZeroPageX | Mode::ZeroPageY => 1,
        Mode::AbsoluteX | Mode::AbsoluteY => 2,
        _ => 3,
    }
}

/// The indexing cycle. Adding the index costs a write one cycle in every
/// indexed mode, whether or not a page is crossed. It costs a read one
/// cycle in the modes that index within page zero, and in the modes that
/// index a full address exactly when the index crosses a page.
pub proof fn lemma_index_penalty(mode: Mode, cpu: Cpu, mem: Seq<u8>)
    requires
        mode is ZeroPageX || mode is ZeroPageY || mode is IndirectX || indexes_full_address(mode),
    ensures
        addressing_cycles(mode, Access::Write, cpu, mem) == unindexed_cycles(mode) + 1,
        !indexes_full_address(mode) ==> addressing_cycles(mode, Access::Read, cpu, mem)
            == unindexed_cycles(mode) + 1,
        indexes_full_address(mode) && page_crossed(mode, cpu, mem) ==> addressing_cycles(
            mode,
            Access::Read,
            cpu,
            mem,
        ) == unindexed_cycles(mode) + 1,
        indexes_full_address(mode) && !page_crossed(mode, cpu, mem) ==> addressing_cycles(
            mode,
            Access::Read,
            cpu,
            mem,
        ) == unindexed_cycles(mode),
{
}

/// A branch costs two cycles when it is not taken, three when it is taken
/// to the page of the instruction that follows it, and four when it is
/// taken to another page. A branch that is not taken continues at the next
/// instruction; one that is taken continues at its target, the signed
/// offset away from the next instruction.
pub proof fn lemma_branch_cycles(m: Machine, instr: Instruction)
    requires
        about_to_execute(m, instr),
        instr.mode is Relative,
    ensures
        branch_target(after_opcode_fetch(m)) == wrap_word(
            m.cpu.pc + 2 + signed(peek(m.mem, wrap_word(m.cpu.pc + 1))),
        ),
        step(m).cpu.pc == (if branch_condition(instr.mnemonic, m.cpu) {
            branch_target(after_opcode_fetch(m))
        } else {
            wrap_word(m.cpu.pc + 2)
        }),
        cycles_taken(m) == (if !branch_condition(instr.mnemonic, m.cpu) {
            2int
        } else if same_page(wrap_word(m.cpu.pc + 2), branch_target(after_opcode_fetch(m))) {
            3int
        } else {
            4int
        }),
{
    let fetched = after_opcode_fetch(m);
    lemma_decoded_well_formed(m.next_opcode());
    lemma_branch_continues(instr, fetched);
    lemma_cycles_of_branch(instr, fetched);
    lemma_wrap_word_absorbs(m.cpu.pc + 1, 1);
    lemma_wrap_word_absorbs(m.cpu.pc + 1, 1 + signed(peek(m.mem, fetched.cpu.pc)));
}

/// Where a decoded branch continues.
proof fn lemma_branch_continues(instr: Instruction, fetched: Machine)
    requires
        instr.well_formed(),
        instr.mode is Relative,
    ensures
        execute_instruction(instr, fetched).cpu.pc == (if branch_condition(
            instr.mnemonic,
            fetched.cpu,
        ) {
            branch_target(fetched)
        } else {
            wrap_word(fetched.cpu.pc + 1)
        }),
{
    lemma_wrap_word_absorbs(fetched.cpu.pc + 1, signed(peek(fetched.mem, fetched.cpu.pc)));
}

// Zero and negative

/// Whether the operation sets Z and N from a value it produced.
pub open spec fn sets_zn(mnemonic: Mnemonic) -> bool {
    match mnemonic {
        Mnemonic::Lda
        | Mnemonic::Ldx
        | Mnemonic::Ldy
        | Mnemonic::Tax
        | Mnemonic::Tay
        | Mnemonic::Txa
        | Mnemonic::Tya
        | Mnemonic::Tsx
        | Mnemonic::Pla
        | Mnemonic::And
        | Mnemonic::Ora
        | Mnemonic::Eor
        | Mnemonic::Adc
        | Mnemonic::Sbc
        | Mnemonic::Cmp
        | Mnemonic::Cpx
        | Mnemonic::Cpy
        | Mnemonic::Inc
        | Mnemonic::Dec
        | Mnemonic::Inx
        | Mnemonic::Iny
        | Mnemonic::Dex
        | Mnemonic::Dey
        | Mnemonic::Asl
        | Mnemonic::Lsr
        | Mnemonic::Rol
        | Mnemonic::Ror => true,
        _ => false,
    }
}

/// Whether the operation leaves Z and N alone: the stores, TXS, the flag
/// operations, the pushes, the jumps, the branches, NOP and BRK. What is
/// left are BIT, which takes N from its operand, and PLP and RTI, which
/// take both flags from the stack.
pub open spec fn keeps_zn(mnemonic: Mnemonic) -> bool {
    !sets_zn(mnemonic) && !(mnemonic is Bit || mnemonic is Plp || mnemonic is Rti)
}

/// The value from which `instr` sets Z and N, read off the machine that has
/// just fetched its opcode and the machine after the instruction: the
/// register it wrote, the byte it left in memory or, for a compare, the
/// difference of register and operand modulo 256.
pub open spec fn zn_target(instr: Instruction, fetched: Machine, after: Machine) -> u8 {
    let addr = effective_address(instr.mode, fetched.cpu, fetched.mem);
    let operand = peek(fetched.mem, addr);
    match instr.mnemonic {
        Mnemonic::Ldx | Mnemonic::Tax | Mnemonic::Tsx | Mnemonic::Inx | Mnemonic::Dex =>
            after.cpu.reg_x,
        Mnemonic::Ldy | Mnemonic::Tay | Mnemonic::Iny | Mnemonic::Dey => after.cpu.reg_y,
        Mnemonic::Cmp => wrap_byte(fetched.cpu.reg_a - operand),
        Mnemonic::Cpx => wrap_byte(fetched.cpu.reg_x - operand),
        Mnemonic::Cpy => wrap_byte(fetched.cpu.reg_y - operand),
        Mnemonic::Inc | Mnemonic::Dec => peek(after.mem, addr),
        Mnemonic::Asl | Mnemonic::Lsr | Mnemonic::Rol | Mnemonic::Ror => {
            if instr.mode is Accumulator {
                after.cpu.reg_a
            } else {
                peek(after.mem, addr)
            }
        },
        _ => after.cpu.reg_a,
    }
}

/// After an instruction that sets Z and N, Z tells whether the value it
/// produced is zero and N whether that value is 128 or more.
pub proof fn lemma_sets_zero_and_negative(m: Machine, instr: Instruction)
    requires
        m.mem.len() == 65536,
        about_to_execute(m, instr),
        sets_zn(instr.mnemonic),
    ensures
        step(m).cpu.status.zero == (zn_target(instr, after_opcode_fetch(m), step(m)) == 0),
        step(m).cpu.status.negative == (zn_target(instr, after_opcode_fetch(m), step(m)) >= 128),
{
    lemma_decoded_well_formed(m.next_opcode());
    lemma_instruction_sets_zn(instr, after_opcode_fetch(m));
}

/// Whether Z and N, after `instr` has run, follow the value it produced.
spec fn zn_follows_target(instr: Instruction, fetched: Machine) -> bool {
    let after = execute_instruction(instr, fetched);
    &&& after.cpu.status.zero == (zn_target(instr, fetched, after) == 0)
    &&& after.cpu.status.negative == (zn_target(instr, fetched, after) >= 128)
}

/// The law of Z and N for a decoded instruction.
proof fn lemma_instruction_sets_zn(instr: Instruction, fetched: Machine)
    requires
        fetched.mem.len() == 65536,
        instr.well_formed(),
        sets_zn(instr.mnemonic),
    ensures
        zn_follows_target(instr, fetched),
{
    match instr.mnemonic {
        Mnemonic::And | Mnemonic::Ora | Mnemonic::Eor => lemma_zn_of_logic(instr, fetched),
        Mnemonic::Adc | Mnemonic::Sbc => lemma_zn_of_arithmetic(instr, fetched),
        Mnemonic::Cmp | Mnemonic::Cpx | Mnemonic::Cpy => lemma_zn_of_compare(instr, fetched),
        Mnemonic::Inc | Mnemonic::Dec => lemma_zn_of_memory(instr, fetched),
        Mnemonic::Asl | Mnemonic::Lsr | Mnemonic::Rol | Mnemonic::Ror => lemma_zn_of_shift(
            instr,
            fetched,
        ),
        _ => lemma_zn_of_register(instr, fetched),
    }
}

/// The law of Z and N for the loads, the transfers, PLA and the increments
/// and decrements of X and Y.
proof fn lemma_zn_of_register(instr: Instruction, fetched: Machine)
    requires
        instr.well_formed(),
        instr.mnemonic is Lda || instr.mnemonic is Ldx || instr.mnemonic is Ldy
            || instr.mnemonic is Tax || instr.mnemonic is Tay || instr.mnemonic is Txa
            || instr.mnemonic is Tya || instr.mnemonic is Tsx || instr.mnemonic is Pla
            || instr.mnemonic is Inx || instr.mnemonic is Iny || instr.mnemonic is Dex
            || instr.mnemonic is Dey,
    ensures
        zn_follows_target(instr, fetched),
{
}

/// The law of Z and N for AND, ORA and EOR.
proof fn lemma_zn_of_logic(instr: Instruction, fetched: Machine)
    requires
        instr.well_formed(),
        instr.mnemonic is And || instr.mnemonic is Ora || instr.mnemonic is Eor,
    ensures
        zn_follows_target(instr, fetched),
{
}

/// The law of Z and N for ADC and SBC.
proof fn lemma_zn_of_arithmetic(instr: Instruction, fetched: Machine)
    requires
        instr.well_formed(),
        instr.mnemonic is Adc || instr.mnemonic is Sbc,
    ensures
        zn_follows_target(instr, fetched),
{
}

/// The law of Z and N for CMP, CPX and CPY.
proof fn lemma_zn_of_compare(instr: Instruction, fetched: Machine)
    requires
        instr.well_formed(),
        instr.mnemonic is Cmp || instr.mnemonic is Cpx || instr.mnemonic is Cpy,
    ensures
        zn_follows_target(instr, fetched),
{
}

/// The law of Z and N for INC and DEC.
proof fn lemma_zn_of_memory(instr: Instruction, fetched: Machine)
    requires
        fetched.mem.len() == 65536,
        instr.well_formed(),
        instr.mnemonic is Inc || instr.mnemonic is Dec,
    ensures
        zn_follows_target(instr, fetched),
{
}

/// The law of Z and N for the shifts and rotates.
proof fn lemma_zn_of_shift(instr: Instruction, fetched: Machine)
    requires
        fetched.mem.len() == 65536,
        instr.well_formed(),
        instr.mnemonic is Asl || instr.mnemonic is Lsr || instr.mnemonic is Rol
            || instr.mnemonic is Ror,
    ensures
        zn_follows_target(instr, fetched),
{
}

/// The stores, TXS, the flag operations, the pushes, the jumps, the
/// branches, NOP and BRK leave Z and N as they were.
pub proof fn lemma_keeps_zero_and_negative(m: Machine, instr: Instruction)
    requires
        about_to_execute(m, instr),
        keeps_zn(instr.mnemonic),
    ensures
        step(m).cpu.status.zero == m.cpu.status.zero,
        step(m).cpu.status.negative == m.cpu.status.negative,
{
    lemma_decoded_well_formed(m.next_opcode());
}

// Arithmetic

/// ADC against plain integer arithmetic. With `sum = A + operand + C`, the
/// new A is `sum` modulo 256 and C tells whether `sum` exceeded 255. V is
/// set when A and the operand had the same sign and the result has the
/// other, which is exactly when the sum of the signed readings does not fit
/// in a signed byte. Z and N follow the new A.
pub proof fn lemma_adc_is_integer_addition(cpu: Cpu, operand: u8)
    ensures
        ({
            let sum = cpu.reg_a + operand + carry_value(cpu.status.carry);
            let signed_sum = signed(cpu.reg_a) + signed(operand) + carry_value(cpu.status.carry);
            let after = cpu.after_adc(operand);
            &&& after.reg_a == sum % 256
            &&& after.status.carry == (sum > 255)
            &&& after.status.overflow == ((cpu.reg_a >= 128) == (operand >= 128) && (cpu.reg_a
                >= 128) != (after.reg_a >= 128))
            &&& after.status.overflow == !(-128 <= signed_sum <= 127)
            &&& after.status.zero == (after.reg_a == 0)
            &&& after.status.negative == (after.reg_a >= 128)
        }),
{
}

/// SBC is ADC of `255 - operand`. In integer terms it computes
/// `A - operand - (1 - C)` modulo 256, and leaves C set when no borrow was
/// needed.
pub proof fn lemma_sbc_is_adc_of_complement(cpu: Cpu, operand: u8)
    ensures
        cpu.after_sbc(operand) == cpu.after_adc((255 - operand) as u8),
        ({
            let difference = cpu.reg_a - operand - (1 - carry_value(cpu.status.carry));
            &&& cpu.after_sbc(operand).reg_a == wrap_byte(difference)
            &&& cpu.after_sbc(operand).status.carry == (difference >= 0)
        }),
{
}

/// A compare sets C, Z and N as a subtraction with the carry set would, and
/// changes neither the register nor V.
pub proof fn lemma_compare_is_subtraction(cpu: Cpu, reg: u8, operand: u8)
    ensures
        ({
            let minuend = Cpu {
                reg_a: reg,
                status: StatusFlags { carry: true, ..cpu.status },
                ..cpu
            };
            let compared = cpu.after_compare(reg, operand).status;
            let subtracted = minuend.after_sbc(operand).status;
            &&& compared.carry == subtracted.carry
            &&& compared.zero == subtracted.zero
            &&& compared.negative == subtracted.negative
            &&& compared.overflow == cpu.status.overflow
        }),
{
}

/// Shifts and rotates lose no bit: the bit that falls out is in C, and the
/// bit that comes in is zero for a shift and the old C for a rotate.
pub proof fn lemma_shifts_conserve_bits(operand: u8, carry: bool)
    ensures
        256 * carry_value(bit7(operand)) + asl_result(operand) == 2 * operand,
        2 * lsr_result(operand) + carry_value(bit0(operand)) == operand,
        256 * carry_value(bit7(operand)) + rol_result(operand, carry) == 2 * operand
            + carry_value(carry),
        2 * ror_result(operand, carry) + carry_value(bit0(operand)) == operand + 256
            * carry_value(carry),
{
}

/// A rotate to the right undoes a rotate to the left, and the other way
/// round: the operand and the carry come back.
pub proof fn lemma_rotates_are_inverse(operand: u8, carry: bool)
    ensures
        ror_result(rol_result(operand, carry), bit7(operand)) == operand,
        bit0(rol_result(operand, carry)) == carry,
        rol_result(ror_result(operand, carry), bit0(operand)) == operand,
        bit7(ror_result(operand, carry)) == carry,
{
}

// Control flow

/// The indirect jump does not carry into the high byte of its pointer: both
/// bytes of the target come from the page of the pointer, and a pointer on
/// the last byte of a page takes the high byte of the target from the first
/// byte of that page.
pub proof fn lemma_indirect_jump_stays_on_page(cpu: Cpu, mem: Seq<u8>)
    ensures
        ({
            let ptr = operand_word(cpu, mem);
            let target = effective_address(Mode::Indirect, cpu, mem);
            &&& same_page(ptr, indirect_high_address(ptr))
            &&& ptr % 256 == 255 ==> target == word_of(mem[ptr as int], mem[ptr - 255])
            &&& ptr % 256 != 255 ==> target == word_of(mem[ptr as int], mem[ptr + 1])
        }),
{
}

/// JSR pushes the address of its own last byte and continues at its
/// operand. An RTS that finds the stack as the JSR left it continues one
/// past the pushed address, at the instruction after the JSR, with the stack
/// pointer where it was before the call.
pub proof fn lemma_return_follows_call(call: Machine, ret: Machine)
    requires
        call.mem.len() == 65536,
        about_to_execute(call, instruction(Mnemonic::Jsr, Mode::Absolute)),
        about_to_execute(ret, instruction(Mnemonic::Rts, Mode::Implied)),
        ret.cpu.sp == step(call).cpu.sp,
        ret.stacked(1) == step(call).stacked(1),
        ret.stacked(2) == step(call).stacked(2),
    ensures
        step(call).stacked_word(1) == wrap_word(call.cpu.pc + 2),
        step(call).cpu.pc == word_of(
            peek(call.mem, wrap_word(call.cpu.pc + 1)),
            peek(call.mem, wrap_word(call.cpu.pc + 2)),
        ),
        step(ret).cpu.pc == wrap_word(call.cpu.pc + 3),
        step(ret).cpu.sp == call.cpu.sp,
{
    lemma_call_pushes_its_last_byte(call);
    lemma_return_continues_past_pulled_address(ret);
    lemma_wrap_word_absorbs(call.cpu.pc + 2, 1);
    lemma_wrap_byte_absorbs(call.cpu.sp - 2, 2);
}

/// What JSR leaves behind: the stack pointer two bytes down, the address of
/// the last byte of the JSR on the stack and its operand in the program
/// counter.
proof fn lemma_call_pushes_its_last_byte(call: Machine)
    requires
        call.mem.len() == 65536,
        about_to_execute(call, instruction(Mnemonic::Jsr, Mode::Absolute)),
    ensures
        step(call).cpu.sp == wrap_byte(call.cpu.sp - 2),
        step(call).stacked_word(1) == wrap_word(call.cpu.pc + 2),
        step(call).cpu.pc == word_of(
            peek(call.mem, wrap_word(call.cpu.pc + 1)),
            peek(call.mem, wrap_word(call.cpu.pc + 2)),
        ),
{
    let after = step(call);
    assert(after == execute_instruction(
        instruction(Mnemonic::Jsr, Mode::Absolute),
        after_opcode_fetch(call),
    ));
    assert(after.cpu.sp == wrap_byte(call.cpu.sp - 2));
    assert(after.cpu.stack_slot(1) == call.cpu.stack_slot(-1));
    assert(after.cpu.stack_slot(2) == call.cpu.stack_slot(0));
    assert(call.cpu.stack_slot(-1) != call.cpu.stack_slot(0));
    lemma_wrap_word_absorbs(call.cpu.pc + 1, 1);
    lemma_wrap_word_absorbs(call.cpu.pc + 1, 2);
    lemma_wrap_word_absorbs(call.cpu.pc + 3, -1);
}

/// Where RTS continues: one past the address on the stack, with the stack
/// pointer two bytes up.
proof fn lemma_return_continues_past_pulled_address(ret: Machine)
    requires
        about_to_execute(ret, instruction(Mnemonic::Rts, Mode::Implied)),
    ensures
        step(ret).cpu.pc == wrap_word(ret.stacked_word(1) + 1),
        step(ret).cpu.sp == wrap_byte(ret.cpu.sp + 2),
{
}

/// PLA gives back what PHA pushed: a PLA that finds the stack as a PHA left
/// it loads the accumulator of the PHA and puts the stack pointer back.
pub proof fn lemma_pull_follows_push(push: Machine, pull: Machine)
    requires
        push.mem.len() == 65536,
        about_to_execute(push, instruction(Mnemonic::Pha, Mode::Implied)),
        about_to_execute(pull, instruction(Mnemonic::Pla, Mode::Implied)),
        pull.cpu.sp == step(push).cpu.sp,
        pull.stacked(1) == step(push).stacked(1),
    ensures
        step(push).stacked(1) == push.cpu.reg_a,
        step(pull).cpu.reg_a == push.cpu.reg_a,
        step(pull).cpu.sp == push.cpu.sp,
{
}

/// PLP gives back what PHP pushed: a PLP that finds the stack as a PHP left
/// it restores C, Z, I, D, V and N of the PHP and puts the stack pointer
/// back. B and the unused bit are not pulled.
pub proof fn lemma_pull_status_follows_push_status(push: Machine, pull: Machine)
    requires
        push.mem.len() == 65536,
        about_to_execute(push, instruction(Mnemonic::Php, Mode::Implied)),
        about_to_execute(pull, instruction(Mnemonic::Plp, Mode::Implied)),
        pull.cpu.sp == step(push).cpu.sp,
        pull.stacked(1) == step(push).stacked(1),
    ensures
        step(push).stacked(1) == push.cpu.status.packed(),
        step(pull).cpu.status == (StatusFlags {
            break_command: pull.cpu.status.break_command,
            unused: pull.cpu.status.unused,
            ..push.cpu.status
        }),
        step(pull).cpu.sp == push.cpu.sp,
{
    lemma_status_round_trip(push.cpu.status, pull.cpu.status);
}

// Memory

/// Whether the instruction can change memory: the stores, the increments,
/// decrements, shifts and rotates of memory, the pushes and JSR.
pub open spec fn writes_memory(instr: Instruction) -> bool {
    match instr.mnemonic {
        Mnemonic::Sta
        | Mnemonic::Stx
        | Mnemonic::Sty
        | Mnemonic::Inc
        | Mnemonic::Dec
        | Mnemonic::Pha
        | Mnemonic::Php
        | Mnemonic::Jsr => true,
        Mnemonic::Asl | Mnemonic::Lsr | Mnemonic::Rol | Mnemonic::Ror => !(instr.mode
            is Accumulator),
        _ => false,
    }
}

/// An instruction that is not a store, a push, a JSR or a read-modify-write
/// of memory leaves every byte of memory as it was.
pub proof fn lemma_reads_leave_memory_alone(m: Machine, instr: Instruction)
    requires
        about_to_execute(m, instr),
        !writes_memory(instr),
    ensures
        step(m).mem == m.mem,
{
    lemma_decoded_well_formed(m.next_opcode());
}

/// A store writes its register at the effective address and changes no
/// other byte, no register and no flag.
pub proof fn lemma_store_writes_one_byte(m: Machine, instr: Instruction)
    requires
        about_to_execute(m, instr),
        instr.mnemonic is Sta || instr.mnemonic is Stx || instr.mnemonic is Sty,
    ensures
        step(m).mem == m.mem.update(
            effective_address(instr.mode, after_opcode_fetch(m).cpu, m.mem) as int,
            match instr.mnemonic {
                Mnemonic::Sta => m.cpu.reg_a,
                Mnemonic::Stx => m.cpu.reg_x,
                _ => m.cpu.reg_y,
            },
        ),
        step(m).cpu == m.cpu.advance(1 + instr.mode.operand_length()),
{
    lemma_decoded_well_formed(m.next_opcode());
}

} // verus!
