//! The mathematical model of the processor: its state as plain values and
//! the effect of each instruction on that state.
use crate::cpu::AddressingMode;
use crate::flags::{
    is_set, with_flag, with_zn, BREAK, BREAK2, CARRY, DECIMAL_MODE, INTERRUPT_DISABLE, NEGATIV,
    OVERFLOW, ZERO,
};
use crate::opcodes::{opcode_table, Mnemonic, OpCode};
use vstd::prelude::*;

verus! {

/// Size of the address space, in bytes.
pub const MEMORY_SIZE: usize = 0x10000;

/// Base address of the stack page.
pub const STACK: u16 = 0x0100;

/// Stack pointer after a reset.
pub const STACK_RESET: u8 = 0xfd;

/// Status register after a reset: INTERRUPT_DISABLE and BREAK2 set.
pub const STATUS_RESET: u8 = 0b0010_0100;

/// Where a program is loaded, and the value written to the reset vector.
pub const LOAD_ADDRESS: u16 = 0x0600;

/// Address of the little-endian reset vector.
pub const RESET_VECTOR: u16 = 0xfffc;

/// The whole architectural state of the processor.
pub struct Machine {
    pub a: u8,
    pub x: u8,
    pub y: u8,
    pub sp: u8,
    pub pc: u16,
    pub p: u8,
    pub mem: Seq<u8>,
}

/// Why execution stopped other than at a BRK.
#[derive(Clone, Copy, Debug, PartialEq, Eq, Structural)]
pub enum CpuError {
    /// The byte `code` at address `pc` is not a documented opcode.
    UnknownOpcode { code: u8, pc: u16 },
    /// A program of `len` bytes does not fit between the load address and the
    /// end of memory.
    ProgramTooLarge { len: usize },
    /// The instruction budget of a run was spent before a BRK was reached.
    StepLimit,
}

/// What one step of the dispatch loop did.
#[derive(Clone, Copy, Debug, PartialEq, Eq, Structural)]
pub enum StepOutcome {
    /// An instruction other than BRK ran; execution goes on.
    Executed,
    /// A BRK was decoded; execution stops.
    Halted,
}

/// A state whose memory covers the whole address space.
pub open spec fn valid(m: Machine) -> bool {
    m.mem.len() == MEMORY_SIZE
}

/// `a + b` modulo 2^16.
pub open spec fn add16(a: u16, b: int) -> u16 {
    ((a + b) % 0x10000) as u16
}

/// `a + b` modulo 2^8.
pub open spec fn add8(a: u8, b: int) -> u8 {
    ((a + b) % 0x100) as u8
}

/// The byte at `addr`.
pub open spec fn rd(m: Machine, addr: u16) -> u8 {
    m.mem[addr as int]
}

/// The little-endian word of bytes `lo` and `hi`.
pub open spec fn word(lo: u8, hi: u8) -> u16 {
    (lo + 256 * hi) as u16
}

/// The little-endian word at `addr`; the high byte comes from `addr + 1`
/// modulo 2^16.
pub open spec fn rd16(m: Machine, addr: u16) -> u16 {
    word(rd(m, addr), rd(m, add16(addr, 1)))
}

/// `m` with `v` stored at `addr`.
pub open spec fn wr(m: Machine, addr: u16, v: u8) -> Machine {
    Machine { mem: m.mem.update(addr as int, v), ..m }
}

/// The word made of the bytes at zero-page address `p` and `p + 1` modulo 2^8.
pub open spec fn rd16_zero_page(m: Machine, p: u8) -> u16 {
    word(rd(m, p as u16), rd(m, add8(p, 1) as u16))
}

/// The target of an indirect jump through pointer `q`: when the low byte of
/// `q` is 0xff the high byte is fetched from the start of the same page.
pub open spec fn indirect_target(m: Machine, q: u16) -> u16 {
    if q % 256 == 0xff {
        word(rd(m, q), rd(m, (q - 0xff) as u16))
    } else {
        rd16(m, q)
    }
}

/// The effective address of `mode`, with `m.pc` at the first operand byte.
pub open spec fn operand_addr(m: Machine, mode: AddressingMode) -> u16 {
    match mode {
        AddressingMode::Immediate => m.pc,
        AddressingMode::ZeroPage => rd(m, m.pc) as u16,
        AddressingMode::ZeroPage_X => add8(rd(m, m.pc), m.x as int) as u16,
        AddressingMode::ZeroPage_Y => add8(rd(m, m.pc), m.y as int) as u16,
        AddressingMode::Absolute => rd16(m, m.pc),
        AddressingMode::Absolute_X => add16(rd16(m, m.pc), m.x as int),
        AddressingMode::Absolute_Y => add16(rd16(m, m.pc), m.y as int),
        AddressingMode::Indirect => indirect_target(m, rd16(m, m.pc)),
        AddressingMode::Indirect_X => rd16_zero_page(m, add8(rd(m, m.pc), m.x as int)),
        AddressingMode::Indirect_Y => add16(rd16_zero_page(m, rd(m, m.pc)), m.y as int),
        AddressingMode::NoneAddressing => 0,
    }
}

/// The operand byte of `mode`.
pub open spec fn operand(m: Machine, mode: AddressingMode) -> u8 {
    rd(m, operand_addr(m, mode))
}

/// `m` with status register `p`.
pub open spec fn with_p(m: Machine, p: u8) -> Machine {
    Machine { p, ..m }
}

/// `m` with ZERO and NEGATIVE set from `result`.
pub open spec fn zn(m: Machine, result: u8) -> Machine {
    with_p(m, with_zn(m.p, result))
}

/// `m` with A set to `v`, and ZERO and NEGATIVE from it.
pub open spec fn set_a(m: Machine, v: u8) -> Machine {
    zn(Machine { a: v, ..m }, v)
}

/// `m` with X set to `v`, and ZERO and NEGATIVE from it.
pub open spec fn set_x(m: Machine, v: u8) -> Machine {
    zn(Machine { x: v, ..m }, v)
}

/// `m` with Y set to `v`, and ZERO and NEGATIVE from it.
pub open spec fn set_y(m: Machine, v: u8) -> Machine {
    zn(Machine { y: v, ..m }, v)
}

/// The carry flag as 0 or 1.
pub open spec fn carry_in(m: Machine) -> int {
    if is_set(m.p, CARRY) {
        1
    } else {
        0
    }
}

/// `A + v + CARRY` as an unbounded sum.
pub open spec fn adc_sum(m: Machine, v: u8) -> int {
    m.a + v + carry_in(m)
}

/// The low eight bits of `adc_sum`.
pub open spec fn adc_result(m: Machine, v: u8) -> u8 {
    (adc_sum(m, v) % 256) as u8
}

/// Whether adding `v` to A overflows as a signed sum.
pub open spec fn adc_overflow(m: Machine, v: u8) -> bool {
    (v ^ adc_result(m, v)) & (adc_result(m, v) ^ m.a) & 0x80 != 0
}

/// Binary add with carry of `v` into A.
pub open spec fn add_to_a(m: Machine, v: u8) -> Machine {
    let with_carry = with_flag(m.p, CARRY, adc_sum(m, v) > 0xff);
    let with_overflow = with_flag(with_carry, OVERFLOW, adc_overflow(m, v));
    set_a(with_p(m, with_overflow), adc_result(m, v))
}

/// Compare `reg` with `v`: CARRY when `v <= reg`, ZERO and NEGATIVE from
/// `reg - v` modulo 2^8.
pub open spec fn compare(m: Machine, reg: u8, v: u8) -> Machine {
    let m1 = with_p(m, with_flag(m.p, CARRY, v <= reg));
    zn(m1, add8(reg, -(v as int)))
}

/// BIT: ZERO from `A & v`, NEGATIVE from bit 7 of `v`, OVERFLOW from bit 6.
pub open spec fn bit_test(m: Machine, v: u8) -> Machine {
    let with_zero = with_flag(m.p, ZERO, m.a & v == 0);
    let with_negative = with_flag(with_zero, NEGATIV, v & 0x80 != 0);
    with_p(m, with_flag(with_negative, OVERFLOW, v & 0x40 != 0))
}

/// The result of a shift or rotate of `v`, given the carry flag `c` before it.
pub open spec fn shifted(op: Mnemonic, v: u8, c: bool) -> u8 {
    match op {
        Mnemonic::Asl => v << 1u8,
        Mnemonic::Lsr => v >> 1u8,
        Mnemonic::Rol => (v << 1u8) | (if c { 1u8 } else { 0u8 }),
        _ => (v >> 1u8) | (if c { 0x80u8 } else { 0u8 }),
    }
}

/// The carry out of a shift or rotate of `v`: bit 7 to the left, bit 0 to
/// the right.
pub open spec fn shifted_out(op: Mnemonic, v: u8) -> bool {
    match op {
        Mnemonic::Asl | Mnemonic::Rol => v >> 7u8 == 1,
        _ => v & 1 == 1,
    }
}

/// The status register after a shift or rotate of `v` that gives `r`.
pub open spec fn shift_flags(m: Machine, op: Mnemonic, v: u8) -> u8 {
    let r = shifted(op, v, is_set(m.p, CARRY));
    with_zn(with_flag(m.p, CARRY, shifted_out(op, v)), r)
}

/// A shift or rotate of A.
pub open spec fn shift_a(m: Machine, op: Mnemonic) -> Machine {
    let r = shifted(op, m.a, is_set(m.p, CARRY));
    Machine { a: r, p: shift_flags(m, op, m.a), ..m }
}

/// A shift or rotate of the byte at `addr`.
pub open spec fn shift_mem(m: Machine, op: Mnemonic, addr: u16) -> Machine {
    let v = rd(m, addr);
    let r = shifted(op, v, is_set(m.p, CARRY));
    with_p(wr(m, addr, r), shift_flags(m, op, v))
}

/// The byte at `addr` plus `delta` modulo 2^8, written back, with ZERO and
/// NEGATIVE from it.
pub open spec fn step_mem(m: Machine, addr: u16, delta: int) -> Machine {
    let r = add8(rd(m, addr), delta);
    zn(wr(m, addr, r), r)
}

/// The stack address that SP names.
pub open spec fn stack_addr(sp: u8) -> u16 {
    (STACK + sp) as u16
}

/// Push `v`: store it at the stack address, then decrement SP modulo 2^8.
pub open spec fn push(m: Machine, v: u8) -> Machine {
    Machine { sp: add8(m.sp, -1), ..wr(m, stack_addr(m.sp), v) }
}

/// The state after a pop: SP incremented modulo 2^8.
pub open spec fn popped(m: Machine) -> Machine {
    Machine { sp: add8(m.sp, 1), ..m }
}

/// The byte that a pop returns.
pub open spec fn pop_value(m: Machine) -> u8 {
    rd(m, stack_addr(add8(m.sp, 1)))
}

/// Push the high byte of `v`, then its low byte.
pub open spec fn push16(m: Machine, v: u16) -> Machine {
    push(push(m, (v / 256) as u8), (v % 256) as u8)
}

/// The state after popping a word.
pub open spec fn popped16(m: Machine) -> Machine {
    popped(popped(m))
}

/// The word popped: low byte first, then high byte.
pub open spec fn pop16_value(m: Machine) -> u16 {
    word(pop_value(m), pop_value(popped(m)))
}

/// The status byte that PLP and RTI leave after popping `v`: BREAK clear,
/// BREAK2 set.
pub open spec fn pulled_status(v: u8) -> u8 {
    with_flag(with_flag(v, BREAK, false), BREAK2, true)
}

/// The target of a taken branch: the signed offset at PC added to PC + 1,
/// modulo 2^16.
pub open spec fn branch_target(m: Machine) -> u16 {
    let b = rd(m, m.pc);
    let offset: int = if b < 0x80 {
        b as int
    } else {
        b - 0x100
    };
    add16(m.pc, 1 + offset)
}

/// `m` with PC at the branch target when `cond` holds, unchanged otherwise.
pub open spec fn branch(m: Machine, cond: bool) -> Machine {
    if cond {
        Machine { pc: branch_target(m), ..m }
    } else {
        m
    }
}

/// The effect of instruction `op`, with PC at its first operand byte, before
/// PC is moved past the operand.
#[verifier::opaque]
pub open spec fn execute(m: Machine, op: OpCode) -> Machine {
    let mode = op.mode;
    match op.mnemonic {
        Mnemonic::Lda => set_a(m, operand(m, mode)),
        Mnemonic::Ldx => set_x(m, operand(m, mode)),
        Mnemonic::Ldy => set_y(m, operand(m, mode)),
        Mnemonic::Sta => wr(m, operand_addr(m, mode), m.a),
        Mnemonic::Stx => wr(m, operand_addr(m, mode), m.x),
        Mnemonic::Sty => wr(m, operand_addr(m, mode), m.y),
        Mnemonic::Tax => set_x(m, m.a),
        Mnemonic::Tay => set_y(m, m.a),
        Mnemonic::Txa => set_a(m, m.x),
        Mnemonic::Tya => set_a(m, m.y),
        Mnemonic::Tsx => set_x(m, m.sp),
        Mnemonic::Txs => Machine { sp: m.x, ..m },
        Mnemonic::Adc => add_to_a(m, operand(m, mode)),
        Mnemonic::Sbc => add_to_a(m, !operand(m, mode)),
        Mnemonic::And => set_a(m, m.a & operand(m, mode)),
        Mnemonic::Eor => set_a(m, m.a ^ operand(m, mode)),
        Mnemonic::Ora => set_a(m, m.a | operand(m, mode)),
        Mnemonic::Bit => bit_test(m, operand(m, mode)),
        Mnemonic::Asl | Mnemonic::Lsr | Mnemonic::Rol | Mnemonic::Ror => {
            if mode is NoneAddressing {
                shift_a(m, op.mnemonic)
            } else {
                shift_mem(m, op.mnemonic, operand_addr(m, mode))
            }
        },
        Mnemonic::Inc => step_mem(m, operand_addr(m, mode), 1),
        Mnemonic::Dec => step_mem(m, operand_addr(m, mode), -1),
        Mnemonic::Inx => set_x(m, add8(m.x, 1)),
        Mnemonic::Iny => set_y(m, add8(m.y, 1)),
        Mnemonic::Dex => set_x(m, add8(m.x, -1)),
        Mnemonic::Dey => set_y(m, add8(m.y, -1)),
        Mnemonic::Cmp => compare(m, m.a, operand(m, mode)),
        Mnemonic::Cpx => compare(m, m.x, operand(m, mode)),
        Mnemonic::Cpy => compare(m, m.y, operand(m, mode)),
        Mnemonic::Clc => with_p(m, with_flag(m.p, CARRY, false)),
        Mnemonic::Sec => with_p(m, with_flag(m.p, CARRY, true)),
        Mnemonic::Cli => with_p(m, with_flag(m.p, INTERRUPT_DISABLE, false)),
        Mnemonic::Sei => with_p(m, with_flag(m.p, INTERRUPT_DISABLE, true)),
        Mnemonic::Cld => with_p(m, with_flag(m.p, DECIMAL_MODE, false)),
        Mnemonic::Sed => with_p(m, with_flag(m.p, DECIMAL_MODE, true)),
        Mnemonic::Clv => with_p(m, with_flag(m.p, OVERFLOW, false)),
        Mnemonic::Jmp => Machine { pc: operand_addr(m, mode), ..m },
        Mnemonic::Jsr => {
            let m1 = push16(m, add16(m.pc, 1));
            Machine { pc: rd16(m1, m.pc), ..m1 }
        },
        Mnemonic::Rts => Machine { pc: add16(pop16_value(m), 1), ..popped16(m) },
        Mnemonic::Rti => {
            let m1 = with_p(popped(m), pulled_status(pop_value(m)));
            Machine { pc: pop16_value(m1), ..popped16(m1) }
        },
        Mnemonic::Bcc => branch(m, !is_set(m.p, CARRY)),
        Mnemonic::Bcs => branch(m, is_set(m.p, CARRY)),
        Mnemonic::Bne => branch(m, !is_set(m.p, ZERO)),
        Mnemonic::Beq => branch(m, is_set(m.p, ZERO)),
        Mnemonic::Bpl => branch(m, !is_set(m.p, NEGATIV)),
        Mnemonic::Bmi => branch(m, is_set(m.p, NEGATIV)),
        Mnemonic::Bvc => branch(m, !is_set(m.p, OVERFLOW)),
        Mnemonic::Bvs => branch(m, is_set(m.p, OVERFLOW)),
        Mnemonic::Pha => push(m, m.a),
        Mnemonic::Pla => set_a(popped(m), pop_value(m)),
        Mnemonic::Php => push(m, with_flag(with_flag(m.p, BREAK, true), BREAK2, true)),
        Mnemonic::Plp => with_p(popped(m), pulled_status(pop_value(m))),
        Mnemonic::Brk | Mnemonic::Nop => m,
    }
}

/// One turn of the dispatch loop: fetch the opcode at PC, run it, and move PC
/// past its operand unless the instruction moved PC itself. An unknown opcode
/// leaves the state as it was.
pub open spec fn step(m: Machine) -> (Machine, Result<StepOutcome, CpuError>) {
    let code = rd(m, m.pc);
    let pc1 = add16(m.pc, 1);
    match opcode_table(code) {
        None => (m, Err(CpuError::UnknownOpcode { code, pc: m.pc })),
        Some(op) => {
            let m1 = Machine { pc: pc1, ..m };
            if op.mnemonic is Brk {
                (m1, Ok(StepOutcome::Halted))
            } else {
                let m2 = execute(m1, op);
                if m2.pc == pc1 {
                    (Machine { pc: add16(pc1, op.len - 1), ..m2 }, Ok(StepOutcome::Executed))
                } else {
                    (m2, Ok(StepOutcome::Executed))
                }
            }
        },
    }
}

/// Steps until a BRK, an unknown opcode, or `fuel` instructions have run.
pub open spec fn run(m: Machine, fuel: nat) -> (Machine, Result<(), CpuError>)
    decreases fuel,
{
    if fuel == 0 {
        (m, Err(CpuError::StepLimit))
    } else {
        let (m1, r) = step(m);
        match r {
            Err(e) => (m1, Err(e)),
            Ok(StepOutcome::Halted) => (m1, Ok(())),
            Ok(StepOutcome::Executed) => run(m1, (fuel - 1) as nat),
        }
    }
}

/// The longest program that fits between the load address and the end of
/// memory.
pub const MAX_PROGRAM_LEN: usize = 0xfa00;

/// Memory `mem` with `prog` copied to the load address and the load address
/// written little-endian to the reset vector.
pub open spec fn loaded_memory(mem: Seq<u8>, prog: Seq<u8>) -> Seq<u8> {
    Seq::new(
        mem.len(),
        |i: int|
            if i == RESET_VECTOR as int {
                (LOAD_ADDRESS % 256) as u8
            } else if i == RESET_VECTOR + 1 {
                (LOAD_ADDRESS / 256) as u8
            } else if LOAD_ADDRESS <= i < LOAD_ADDRESS + prog.len() {
                prog[i - LOAD_ADDRESS]
            } else {
                mem[i]
            },
    )
}

/// The state after loading `prog`: only memory changes.
pub open spec fn load(m: Machine, prog: Seq<u8>) -> Machine {
    Machine { mem: loaded_memory(m.mem, prog), ..m }
}

/// The state after a reset: registers cleared, SP and status at their reset
/// values, PC from the reset vector, memory untouched.
pub open spec fn reset(m: Machine) -> Machine {
    Machine {
        a: 0,
        x: 0,
        y: 0,
        sp: STACK_RESET,
        pc: rd16(m, RESET_VECTOR),
        p: STATUS_RESET,
        mem: m.mem,
    }
}

/// The instruction budget of a run.
pub const RUN_FUEL: u64 = 0xffff_ffff_ffff_ffff;

/// Table entries that name a memory operand have an addressing mode, and
/// every entry is at least one byte long.
pub open spec fn entry_fits(op: OpCode) -> bool {
    &&& op.len >= 1
    &&& match op.mnemonic {
        Mnemonic::Lda | Mnemonic::Ldx | Mnemonic::Ldy | Mnemonic::Sta | Mnemonic::Stx
        | Mnemonic::Sty | Mnemonic::Adc | Mnemonic::Sbc | Mnemonic::And | Mnemonic::Eor
        | Mnemonic::Ora | Mnemonic::Bit | Mnemonic::Inc | Mnemonic::Dec | Mnemonic::Cmp
        | Mnemonic::Cpx | Mnemonic::Cpy | Mnemonic::Jmp | Mnemonic::Jsr => {
            !(op.mode is NoneAddressing)
        },
        _ => true,
    }
}

/// Every entry of the opcode table fits its instruction.
pub proof fn lemma_table_entries_fit(code: u8)
    ensures
        opcode_table(code) matches Some(op) ==> entry_fits(op) && op.code == code,
{
}

} // verus!
