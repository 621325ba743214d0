//! The processor: registers, status, 64 KiB of memory, and the engine that
//! decodes and executes instructions.
use crate::flags::{
    with_flag, CpuFlags, BREAK, BREAK2, CARRY, DECIMAL_MODE, INTERRUPT_DISABLE, NEGATIV, OVERFLOW,
    ZERO,
};
use crate::machine::{
    add16, add8, add_to_a, bit_test, branch, compare, entry_fits, execute, indirect_target,
    lemma_table_entries_fit, load, loaded_memory, operand, operand_addr, pop16_value, pop_value,
    popped, popped16, pulled_status, push, push16, rd, rd16_zero_page, reset, run, set_a, set_x,
    set_y, shift_a, shift_mem, step, step_mem, with_p, word, wr, zn, CpuError, Machine,
    StepOutcome, LOAD_ADDRESS, MAX_PROGRAM_LEN, MEMORY_SIZE, RESET_VECTOR, RUN_FUEL, STACK,
    STACK_RESET, STATUS_RESET,
};
use crate::opcodes::{lookup, opcode_table, Mnemonic, OpCode};
use vstd::prelude::*;

verus! {

/// How an instruction finds its operand.
#[allow(non_camel_case_types)]
#[derive(Clone, Copy, Debug, PartialEq, Eq, Structural)]
pub enum AddressingMode {
    Immediate,
    ZeroPage,
    ZeroPage_X,
    ZeroPage_Y,
    Absolute,
    Absolute_X,
    Absolute_Y,
    Indirect,
    Indirect_X,
    Indirect_Y,
    NoneAddressing,
}

/// A byte-addressed bus over the 16-bit address space. The word accesses are
/// little-endian and built from the byte accesses.
pub trait Mem {
    /// The byte that a read of `addr` returns.
    spec fn peek(&self, addr: u16) -> u8;

    /// Reads the byte at `addr`.
    fn mem_read(&self, addr: u16) -> (r: u8)
        ensures
            r == self.peek(addr),
    ;

    /// Stores `data` at `addr`, leaving every other address as it was.
    fn mem_write(&mut self, addr: u16, data: u8)
        ensures
            forall|a: u16|
                #[trigger] final(self).peek(a) == if a == addr {
                    data
                } else {
                    old(self).peek(a)
                },
    ;

    /// The byte at `pos` as the low half, and the byte at `pos + 1` modulo
    /// 2^16 as the high half.
    fn mem_read_u16(&self, pos: u16) -> (r: u16)
        ensures
            r == word(self.peek(pos), self.peek(add16(pos, 1))),
    {
        let lo = self.mem_read(pos) as u16;
        let hi = self.mem_read(pos.wrapping_add(1)) as u16;
        proof {
            lemma_word(lo as u8, hi as u8);
        }
        (hi << 8) | lo
    }

    /// Writes the low byte at `pos`, then the high byte at `pos + 1` modulo
    /// 2^16.
    fn mem_write_u16(&mut self, pos: u16, data: u16)
        ensures
            forall|a: u16|
                #[trigger] final(self).peek(a) == if a == pos {
                    (data % 256) as u8
                } else if a == add16(pos, 1) {
                    (data / 256) as u8
                } else {
                    old(self).peek(a)
                },
    {
        let hi = (data >> 8) as u8;
        let lo = (data & 0xff) as u8;
        proof {
            lemma_halves(data);
        }
        self.mem_write(pos, lo);
        self.mem_write(pos.wrapping_add(1), hi);
    }
}

/// The shift-and-or form of a little-endian word is its arithmetic form.
pub proof fn lemma_word(lo: u8, hi: u8)
    ensures
        ((hi as u16) << 8u16) | (lo as u16) == word(lo, hi),
{
    assert(((hi as u16) << 8u16) | (lo as u16) == (lo as u16) + 256 * (hi as u16))
        by (bit_vector);
}

/// The shift and mask forms of a word's halves are its quotient and remainder
/// by 256.
pub proof fn lemma_halves(data: u16)
    ensures
        ((data >> 8u16) as u8) == (data / 256) as u8,
        ((data & 0xffu16) as u8) == (data % 256) as u8,
{
    assert((data >> 8u16) == data / 256) by (bit_vector);
    assert((data & 0xffu16) == data % 256) by (bit_vector);
}

/// The processor. Registers and status are public so that a host can inspect
/// and adjust them between instructions; memory is reached through `Mem`.
pub struct CPU {
    pub register_a: u8,
    pub register_x: u8,
    pub register_y: u8,
    pub status: CpuFlags,
    pub program_counter: u16,
    pub stack_pointer: u8,
    memory: [u8; 0x10000],
}

impl CPU {
    /// The contents of memory.
    pub closed spec fn mem_view(&self) -> Seq<u8> {
        self.memory@
    }

    /// Memory covers the whole address space, and the bus reads the model's
    /// memory.
    pub proof fn lemma_mem_len(&self)
        ensures
            self@.mem.len() == MEMORY_SIZE,
            forall|a: u16| #[trigger] self.peek(a) == self@.mem[a as int],
    {
    }
}

impl View for CPU {
    type V = Machine;

    closed spec fn view(&self) -> Machine {
        Machine {
            a: self.register_a,
            x: self.register_x,
            y: self.register_y,
            sp: self.stack_pointer,
            pc: self.program_counter,
            p: self.status.bits,
            mem: self.mem_view(),
        }
    }
}

impl Mem for CPU {
    open spec fn peek(&self, addr: u16) -> u8 {
        self.mem_view()[addr as int]
    }

    fn mem_read(&self, addr: u16) -> (r: u8) {
        self.read(addr)
    }

    fn mem_write(&mut self, addr: u16, data: u8)
        ensures
            final(self)@ == wr(old(self)@, addr, data),
    {
        self.write(addr, data)
    }
}

impl CPU {
    /// A processor with zeroed registers and memory, SP at 0xfd and the
    /// status register at its reset value.
    pub fn new() -> (r: Self)
        ensures
            r@ == (Machine {
                a: 0,
                x: 0,
                y: 0,
                sp: STACK_RESET,
                pc: 0,
                p: STATUS_RESET,
                mem: Seq::new(MEMORY_SIZE as nat, |i: int| 0u8),
            }),
    {
        let r = CPU {
            register_a: 0,
            register_x: 0,
            register_y: 0,
            stack_pointer: STACK_RESET,
            program_counter: 0,
            status: CpuFlags::from_bits_truncate(STATUS_RESET),
            memory: [0u8; 0x10000],
        };
        assert(r.memory@ =~= Seq::new(MEMORY_SIZE as nat, |i: int| 0u8));
        r
    }

    /// The value of A.
    pub fn a(&self) -> (r: u8)
        ensures
            r == self@.a,
    {
        self.register_a
    }

    /// Sets A to `v`, leaving everything else as it was.
    pub fn put_a(&mut self, v: u8)
        ensures
            final(self)@ == (Machine { a: v, ..old(self)@ }),
    {
        self.register_a = v;
    }

    /// The value of X.
    pub fn x(&self) -> (r: u8)
        ensures
            r == self@.x,
    {
        self.register_x
    }

    /// Sets X to `v`, leaving everything else as it was.
    pub fn put_x(&mut self, v: u8)
        ensures
            final(self)@ == (Machine { x: v, ..old(self)@ }),
    {
        self.register_x = v;
    }

    /// The value of Y.
    pub fn y(&self) -> (r: u8)
        ensures
            r == self@.y,
    {
        self.register_y
    }

    /// Sets Y to `v`, leaving everything else as it was.
    pub fn put_y(&mut self, v: u8)
        ensures
            final(self)@ == (Machine { y: v, ..old(self)@ }),
    {
        self.register_y = v;
    }

    /// The value of the stack pointer.
    pub fn sp(&self) -> (r: u8)
        ensures
            r == self@.sp,
    {
        self.stack_pointer
    }

    /// Sets the stack pointer to `v`, leaving everything else as it was.
    pub fn put_sp(&mut self, v: u8)
        ensures
            final(self)@ == (Machine { sp: v, ..old(self)@ }),
    {
        self.stack_pointer = v;
    }

    /// The value of the program counter.
    pub fn pc(&self) -> (r: u16)
        ensures
            r == self@.pc,
    {
        self.program_counter
    }

    /// Sets the program counter to `v`, leaving everything else as it was.
    pub fn put_pc(&mut self, v: u16)
        ensures
            final(self)@ == (Machine { pc: v, ..old(self)@ }),
    {
        self.program_counter = v;
    }

    /// The packed status register.
    pub fn p(&self) -> (r: u8)
        ensures
            r == self@.p,
    {
        self.status.bits
    }

    /// Sets the packed status register to `v`, leaving everything else as it
    /// was.
    pub fn put_p(&mut self, v: u8)
        ensures
            final(self)@ == (Machine { p: v, ..old(self)@ }),
    {
        self.status.bits = v;
    }

    /// The byte at `addr`, with the rest of the state as a frame.
    fn read(&self, addr: u16) -> (r: u8)
        ensures
            r == rd(self@, addr),
    {
        self.memory[addr as usize]
    }

    /// Stores `data` at `addr`; registers and status stay as they were.
    fn write(&mut self, addr: u16, data: u8)
        ensures
            final(self)@ == wr(old(self)@, addr, data),
    {
        self.memory[addr as usize] = data;
    }

    /// The word at zero-page address `ptr`; the high byte comes from
    /// `ptr + 1` modulo 2^8, so it never leaves page zero.
    fn read_u16_zero_page(&self, ptr: u8) -> (r: u16)
        ensures
            r == rd16_zero_page(self@, ptr),
    {
        let lo = self.mem_read(ptr as u16);
        let hi = self.mem_read(ptr.wrapping_add(1) as u16);
        proof {
            lemma_word(lo, hi);
        }
        (hi as u16) << 8 | (lo as u16)
    }

    /// The target of an indirect jump through `ptr`, with the 6502's
    /// page-wrap: when the low byte of `ptr` is 0xff the high byte comes from
    /// the start of the same page.
    fn indirect_target(&self, ptr: u16) -> (r: u16)
        ensures
            r == indirect_target(self@, ptr),
    {
        proof {
            assert(ptr & 0x00ff == ptr % 256) by (bit_vector);
        }
        if ptr & 0x00ff == 0x00ff {
            let lo = self.mem_read(ptr);
            let hi = self.mem_read(ptr & 0xff00);
            proof {
                lemma_word(lo, hi);
                assert(ptr & 0x00ff == 0x00ff ==> ptr & 0xff00 == ptr - 0xff) by (bit_vector);
            }
            (hi as u16) << 8 | (lo as u16)
        } else {
            self.mem_read_u16(ptr)
        }
    }

    /// The effective address of `mode`, with PC at the first operand byte.
    fn get_operand_address(&self, mode: &AddressingMode) -> (r: u16)
        requires
            !(*mode is NoneAddressing),
        ensures
            r == operand_addr(self@, *mode),
    {
        match mode {
            AddressingMode::Immediate => self.program_counter,
            AddressingMode::ZeroPage => self.mem_read(self.program_counter) as u16,
            AddressingMode::Absolute => self.mem_read_u16(self.program_counter),
            AddressingMode::ZeroPage_X => {
                let pos = self.mem_read(self.program_counter);
                pos.wrapping_add(self.register_x) as u16
            },
            AddressingMode::ZeroPage_Y => {
                let pos = self.mem_read(self.program_counter);
                pos.wrapping_add(self.register_y) as u16
            },
            AddressingMode::Absolute_X => {
                let base = self.mem_read_u16(self.program_counter);
                base.wrapping_add(self.register_x as u16)
            },
            AddressingMode::Absolute_Y => {
                let base = self.mem_read_u16(self.program_counter);
                base.wrapping_add(self.register_y as u16)
            },
            AddressingMode::Indirect => {
                let ptr = self.mem_read_u16(self.program_counter);
                self.indirect_target(ptr)
            },
            AddressingMode::Indirect_X => {
                let base = self.mem_read(self.program_counter);
                let ptr: u8 = base.wrapping_add(self.register_x);
                self.read_u16_zero_page(ptr)
            },
            AddressingMode::Indirect_Y => {
                let base = self.mem_read(self.program_counter);
                let deref_base = self.read_u16_zero_page(base);
                deref_base.wrapping_add(self.register_y as u16)
            },
            AddressingMode::NoneAddressing => 0,
        }
    }
}


impl CPU {
    /// Sets ZERO from `result == 0` and NEGATIVE from bit 7 of `result`.
    fn update_zero_and_negative_flags(&mut self, result: u8)
        ensures
            final(self)@ == zn(old(self)@, result),
    {
        self.status.set(ZERO, result == 0);
        proof {
            assert((result >> 7u8 == 1u8) == (result >= 0x80u8)) by (bit_vector);
        }
        self.status.set(NEGATIV, result >> 7 == 1);
    }

    fn set_register_a(&mut self, value: u8)
        ensures
            final(self)@ == set_a(old(self)@, value),
    {
        self.register_a = value;
        self.update_zero_and_negative_flags(self.register_a);
    }

    fn lda(&mut self, mode: &AddressingMode)
        requires
            !(*mode is NoneAddressing),
        ensures
            final(self)@ == set_a(old(self)@, operand(old(self)@, *mode)),
    {
        let addr = self.get_operand_address(mode);
        let value = self.read(addr);
        self.set_register_a(value);
    }

    fn ldx(&mut self, mode: &AddressingMode)
        requires
            !(*mode is NoneAddressing),
        ensures
            final(self)@ == set_x(old(self)@, operand(old(self)@, *mode)),
    {
        let addr = self.get_operand_address(mode);
        let data = self.read(addr);
        self.register_x = data;
        self.update_zero_and_negative_flags(self.register_x);
    }

    fn ldy(&mut self, mode: &AddressingMode)
        requires
            !(*mode is NoneAddressing),
        ensures
            final(self)@ == set_y(old(self)@, operand(old(self)@, *mode)),
    {
        let addr = self.get_operand_address(mode);
        let data = self.read(addr);
        self.register_y = data;
        self.update_zero_and_negative_flags(self.register_y);
    }

    /// Stores `value` at the effective address of `mode`.
    fn store(&mut self, mode: &AddressingMode, value: u8)
        requires
            !(*mode is NoneAddressing),
        ensures
            final(self)@ == wr(old(self)@, operand_addr(old(self)@, *mode), value),
    {
        let addr = self.get_operand_address(mode);
        self.write(addr, value);
    }

    fn sta(&mut self, mode: &AddressingMode)
        requires
            !(*mode is NoneAddressing),
        ensures
            final(self)@ == wr(old(self)@, operand_addr(old(self)@, *mode), old(self)@.a),
    {
        self.store(mode, self.register_a);
    }

    fn and(&mut self, mode: &AddressingMode)
        requires
            !(*mode is NoneAddressing),
        ensures
            final(self)@ == set_a(old(self)@, old(self)@.a & operand(old(self)@, *mode)),
    {
        let addr = self.get_operand_address(mode);
        let data = self.read(addr);
        self.set_register_a(self.register_a & data);
    }

    fn eor(&mut self, mode: &AddressingMode)
        requires
            !(*mode is NoneAddressing),
        ensures
            final(self)@ == set_a(old(self)@, old(self)@.a ^ operand(old(self)@, *mode)),
    {
        let addr = self.get_operand_address(mode);
        let data = self.read(addr);
        self.set_register_a(self.register_a ^ data);
    }

    fn ora(&mut self, mode: &AddressingMode)
        requires
            !(*mode is NoneAddressing),
        ensures
            final(self)@ == set_a(old(self)@, old(self)@.a | operand(old(self)@, *mode)),
    {
        let addr = self.get_operand_address(mode);
        let data = self.read(addr);
        self.set_register_a(self.register_a | data);
    }

    fn tax(&mut self)
        ensures
            final(self)@ == set_x(old(self)@, old(self)@.a),
    {
        self.register_x = self.register_a;
        self.update_zero_and_negative_flags(self.register_x);
    }

    fn inx(&mut self)
        ensures
            final(self)@ == set_x(old(self)@, add8(old(self)@.x, 1)),
    {
        self.register_x = self.register_x.wrapping_add(1);
        self.update_zero_and_negative_flags(self.register_x);
    }

    fn iny(&mut self)
        ensures
            final(self)@ == set_y(old(self)@, add8(old(self)@.y, 1)),
    {
        self.register_y = self.register_y.wrapping_add(1);
        self.update_zero_and_negative_flags(self.register_y);
    }

    fn dex(&mut self)
        ensures
            final(self)@ == set_x(old(self)@, add8(old(self)@.x, -1)),
    {
        self.register_x = self.register_x.wrapping_sub(1);
        self.update_zero_and_negative_flags(self.register_x);
    }

    fn dey(&mut self)
        ensures
            final(self)@ == set_y(old(self)@, add8(old(self)@.y, -1)),
    {
        self.register_y = self.register_y.wrapping_sub(1);
        self.update_zero_and_negative_flags(self.register_y);
    }

    fn set_carry_flag(&mut self)
        ensures
            final(self)@ == with_p(old(self)@, with_flag(old(self)@.p, CARRY, true)),
    {
        self.status.insert(CARRY);
    }

    fn clear_carry_flag(&mut self)
        ensures
            final(self)@ == with_p(old(self)@, with_flag(old(self)@.p, CARRY, false)),
    {
        self.status.remove(CARRY);
    }

    /// Binary add with carry: CARRY from the unsigned carry out of the 9-bit
    /// sum, OVERFLOW from a signed overflow, ZERO and NEGATIVE from the result.
    fn add_to_register_a(&mut self, data: u8)
        ensures
            final(self)@ == add_to_a(old(self)@, data),
    {
        let sum = self.register_a as u16 + data as u16 + (if self.status.contains(CARRY) {
            1
        } else {
            0
        }) as u16;
        self.status.set(CARRY, sum > 0xff);
        let result = sum as u8;
        proof {
            assert((sum as u8) == ((sum % 256) as u8)) by (bit_vector);
        }
        self.status.set(OVERFLOW, (data ^ result) & (result ^ self.register_a) & 0x80 != 0);
        self.set_register_a(result);
    }

    fn adc(&mut self, mode: &AddressingMode)
        requires
            !(*mode is NoneAddressing),
        ensures
            final(self)@ == add_to_a(old(self)@, operand(old(self)@, *mode)),
    {
        let addr = self.get_operand_address(mode);
        let value = self.read(addr);
        self.add_to_register_a(value);
    }

    /// Subtraction with borrow is addition of the operand's complement.
    fn sbc(&mut self, mode: &AddressingMode)
        requires
            !(*mode is NoneAddressing),
        ensures
            final(self)@ == add_to_a(old(self)@, !operand(old(self)@, *mode)),
    {
        let addr = self.get_operand_address(mode);
        let data = self.read(addr);
        self.add_to_register_a(!data);
    }

    fn stack_pop(&mut self) -> (r: u8)
        ensures
            r == pop_value(old(self)@),
            final(self)@ == popped(old(self)@),
    {
        self.stack_pointer = self.stack_pointer.wrapping_add(1);
        self.read(STACK + self.stack_pointer as u16)
    }

    fn stack_push(&mut self, data: u8)
        ensures
            final(self)@ == push(old(self)@, data),
    {
        self.write(STACK + self.stack_pointer as u16, data);
        self.stack_pointer = self.stack_pointer.wrapping_sub(1);
    }

    fn stack_push_u16(&mut self, data: u16)
        ensures
            final(self)@ == push16(old(self)@, data),
    {
        let hi = (data >> 8) as u8;
        let lo = (data & 0xff) as u8;
        proof {
            lemma_halves(data);
        }
        self.stack_push(hi);
        self.stack_push(lo);
    }

    fn stack_pop_u16(&mut self) -> (r: u16)
        ensures
            r == pop16_value(old(self)@),
            final(self)@ == popped16(old(self)@),
    {
        let lo = self.stack_pop() as u16;
        let hi = self.stack_pop() as u16;
        proof {
            lemma_word(lo as u8, hi as u8);
        }
        hi << 8 | lo
    }

    fn pla(&mut self)
        ensures
            final(self)@ == set_a(popped(old(self)@), pop_value(old(self)@)),
    {
        let data = self.stack_pop();
        self.set_register_a(data);
    }

    fn plp(&mut self)
        ensures
            final(self)@ == with_p(popped(old(self)@), pulled_status(pop_value(old(self)@))),
    {
        self.status.bits = self.stack_pop();
        self.status.remove(BREAK);
        self.status.insert(BREAK2);
    }

    fn php(&mut self)
        ensures
            final(self)@ == push(
                old(self)@,
                with_flag(with_flag(old(self)@.p, BREAK, true), BREAK2, true),
            ),
    {
        let mut flags = self.status;
        flags.insert(BREAK);
        flags.insert(BREAK2);
        self.stack_push(flags.bits());
    }

    fn bit(&mut self, mode: &AddressingMode)
        requires
            !(*mode is NoneAddressing),
        ensures
            final(self)@ == bit_test(old(self)@, operand(old(self)@, *mode)),
    {
        let addr = self.get_operand_address(mode);
        let data = self.read(addr);
        let and = self.register_a & data;
        self.status.set(ZERO, and == 0);
        self.status.set(NEGATIV, data & 0b1000_0000 != 0);
        self.status.set(OVERFLOW, data & 0b0100_0000 != 0);
    }

    fn compare(&mut self, mode: &AddressingMode, compare_with: u8)
        requires
            !(*mode is NoneAddressing),
        ensures
            final(self)@ == compare(old(self)@, compare_with, operand(old(self)@, *mode)),
    {
        let addr = self.get_operand_address(mode);
        let data = self.read(addr);
        self.status.set(CARRY, data <= compare_with);
        self.update_zero_and_negative_flags(compare_with.wrapping_sub(data));
    }

    fn branch(&mut self, condition: bool)
        ensures
            final(self)@ == branch(old(self)@, condition),
    {
        if condition {
            let b = self.read(self.program_counter);
            let jump = b as i8;
            proof {
                assert(b < 0x80u8 ==> ((b as i8) as u16) == (b as u16)) by (bit_vector);
                assert(b >= 0x80u8 ==> ((b as i8) as u16) == ((b as u16) | 0xff00u16))
                    by (bit_vector);
                assert(b >= 0x80u8 ==> ((b as u16) | 0xff00u16) == (b as u16) + 0xff00u16)
                    by (bit_vector);
            }
            let jump_addr = self.program_counter.wrapping_add(1).wrapping_add(jump as u16);
            self.program_counter = jump_addr;
        }
    }
}

impl CPU {
    fn asl_accumulator(&mut self)
        ensures
            final(self)@ == shift_a(old(self)@, Mnemonic::Asl),
    {
        let data = self.register_a;
        self.status.set(CARRY, data >> 7 == 1);
        self.set_register_a(data << 1);
    }

    fn asl(&mut self, mode: &AddressingMode)
        requires
            !(*mode is NoneAddressing),
        ensures
            final(self)@ == shift_mem(old(self)@, Mnemonic::Asl, operand_addr(old(self)@, *mode)),
    {
        let addr = self.get_operand_address(mode);
        let data = self.read(addr);
        self.status.set(CARRY, data >> 7 == 1);
        let result = data << 1;
        self.write(addr, result);
        self.update_zero_and_negative_flags(result);
    }

    fn lsr_accumulator(&mut self)
        ensures
            final(self)@ == shift_a(old(self)@, Mnemonic::Lsr),
    {
        let data = self.register_a;
        self.status.set(CARRY, data & 1 == 1);
        self.set_register_a(data >> 1);
    }

    fn lsr(&mut self, mode: &AddressingMode)
        requires
            !(*mode is NoneAddressing),
        ensures
            final(self)@ == shift_mem(old(self)@, Mnemonic::Lsr, operand_addr(old(self)@, *mode)),
    {
        let addr = self.get_operand_address(mode);
        let data = self.read(addr);
        self.status.set(CARRY, data & 1 == 1);
        let result = data >> 1;
        self.write(addr, result);
        self.update_zero_and_negative_flags(result);
    }

    fn rol_accumulator(&mut self)
        ensures
            final(self)@ == shift_a(old(self)@, Mnemonic::Rol),
    {
        let data = self.register_a;
        let old_carry = self.status.contains(CARRY);
        let bit: u8 = if old_carry {
            1
        } else {
            0
        };
        self.status.set(CARRY, data >> 7 == 1);
        self.set_register_a((data << 1) | bit);
    }

    fn rol(&mut self, mode: &AddressingMode)
        requires
            !(*mode is NoneAddressing),
        ensures
            final(self)@ == shift_mem(old(self)@, Mnemonic::Rol, operand_addr(old(self)@, *mode)),
    {
        let addr = self.get_operand_address(mode);
        let data = self.read(addr);
        let old_carry = self.status.contains(CARRY);
        let bit: u8 = if old_carry {
            1
        } else {
            0
        };
        self.status.set(CARRY, data >> 7 == 1);
        let result = (data << 1) | bit;
        self.write(addr, result);
        self.update_zero_and_negative_flags(result);
    }

    fn ror_accumulator(&mut self)
        ensures
            final(self)@ == shift_a(old(self)@, Mnemonic::Ror),
    {
        let data = self.register_a;
        let old_carry = self.status.contains(CARRY);
        let bit: u8 = if old_carry {
            0b1000_0000
        } else {
            0
        };
        self.status.set(CARRY, data & 1 == 1);
        self.set_register_a((data >> 1) | bit);
    }

    fn ror(&mut self, mode: &AddressingMode)
        requires
            !(*mode is NoneAddressing),
        ensures
            final(self)@ == shift_mem(old(self)@, Mnemonic::Ror, operand_addr(old(self)@, *mode)),
    {
        let addr = self.get_operand_address(mode);
        let data = self.read(addr);
        let old_carry = self.status.contains(CARRY);
        let bit: u8 = if old_carry {
            0b1000_0000
        } else {
            0
        };
        self.status.set(CARRY, data & 1 == 1);
        let result = (data >> 1) | bit;
        self.write(addr, result);
        self.update_zero_and_negative_flags(result);
    }

    fn inc(&mut self, mode: &AddressingMode)
        requires
            !(*mode is NoneAddressing),
        ensures
            final(self)@ == step_mem(old(self)@, operand_addr(old(self)@, *mode), 1),
    {
        let addr = self.get_operand_address(mode);
        let data = self.read(addr).wrapping_add(1);
        self.write(addr, data);
        self.update_zero_and_negative_flags(data);
    }

    fn dec(&mut self, mode: &AddressingMode)
        requires
            !(*mode is NoneAddressing),
        ensures
            final(self)@ == step_mem(old(self)@, operand_addr(old(self)@, *mode), -1),
    {
        let addr = self.get_operand_address(mode);
        let data = self.read(addr).wrapping_sub(1);
        self.write(addr, data);
        self.update_zero_and_negative_flags(data);
    }
}

impl CPU {
    /// Runs instruction `op`, with PC at its first operand byte.
    fn execute(&mut self, op: &OpCode)
        requires
            entry_fits(*op),
        ensures
            final(self)@ == execute(old(self)@, *op),
    {
        match op.mnemonic {
            Mnemonic::Lda | Mnemonic::Ldx | Mnemonic::Ldy | Mnemonic::Sta | Mnemonic::Stx
            | Mnemonic::Sty | Mnemonic::Tax | Mnemonic::Tay | Mnemonic::Txa | Mnemonic::Tya
            | Mnemonic::Tsx | Mnemonic::Txs => self.execute_transfer(op),
            Mnemonic::Adc | Mnemonic::Sbc | Mnemonic::And | Mnemonic::Eor | Mnemonic::Ora
            | Mnemonic::Bit | Mnemonic::Cmp | Mnemonic::Cpx | Mnemonic::Cpy | Mnemonic::Inc
            | Mnemonic::Dec | Mnemonic::Inx | Mnemonic::Iny | Mnemonic::Dex | Mnemonic::Dey
                => self.execute_arithmetic(op),
            Mnemonic::Asl | Mnemonic::Lsr | Mnemonic::Rol | Mnemonic::Ror => self.execute_shift(op),
            Mnemonic::Clc | Mnemonic::Sec | Mnemonic::Cli | Mnemonic::Sei | Mnemonic::Cld
            | Mnemonic::Sed | Mnemonic::Clv | Mnemonic::Bcc | Mnemonic::Bcs | Mnemonic::Bne
            | Mnemonic::Beq | Mnemonic::Bpl | Mnemonic::Bmi | Mnemonic::Bvc | Mnemonic::Bvs
                => self.execute_flag_or_branch(op),
            Mnemonic::Jmp | Mnemonic::Jsr | Mnemonic::Rts | Mnemonic::Rti | Mnemonic::Pha
            | Mnemonic::Pla | Mnemonic::Php | Mnemonic::Plp | Mnemonic::Brk | Mnemonic::Nop
                => self.execute_control(op),
        }
    }

    /// Runs `op`, a load, store or register transfer.
    fn execute_transfer(&mut self, op: &OpCode)
        requires
            entry_fits(*op),
            op.mnemonic is Lda || op.mnemonic is Ldx || op.mnemonic is Ldy || op.mnemonic is Sta
                || op.mnemonic is Stx || op.mnemonic is Sty || op.mnemonic is Tax
                || op.mnemonic is Tay || op.mnemonic is Txa || op.mnemonic is Tya
                || op.mnemonic is Tsx || op.mnemonic is Txs,
        ensures
            final(self)@ == execute(old(self)@, *op),
    {
        proof {
            reveal(execute);
        }
        let mode = &op.mode;
        match op.mnemonic {
            Mnemonic::Lda => self.lda(mode),
            Mnemonic::Ldx => self.ldx(mode),
            Mnemonic::Ldy => self.ldy(mode),
            Mnemonic::Sta => self.sta(mode),
            Mnemonic::Stx => self.store(mode, self.register_x),
            Mnemonic::Sty => self.store(mode, self.register_y),
            Mnemonic::Tax => self.tax(),
            Mnemonic::Tay => {
                self.register_y = self.register_a;
                self.update_zero_and_negative_flags(self.register_y);
            },
            Mnemonic::Txa => self.set_register_a(self.register_x),
            Mnemonic::Tya => self.set_register_a(self.register_y),
            Mnemonic::Tsx => {
                self.register_x = self.stack_pointer;
                self.update_zero_and_negative_flags(self.register_x);
            },
            Mnemonic::Txs => self.stack_pointer = self.register_x,
            _ => {},
        }
    }

    /// Runs `op`, an arithmetic, logic, compare, increment or decrement.
    fn execute_arithmetic(&mut self, op: &OpCode)
        requires
            entry_fits(*op),
            op.mnemonic is Adc || op.mnemonic is Sbc || op.mnemonic is And || op.mnemonic is Eor
                || op.mnemonic is Ora || op.mnemonic is Bit || op.mnemonic is Cmp
                || op.mnemonic is Cpx || op.mnemonic is Cpy || op.mnemonic is Inc
                || op.mnemonic is Dec || op.mnemonic is Inx || op.mnemonic is Iny
                || op.mnemonic is Dex || op.mnemonic is Dey,
        ensures
            final(self)@ == execute(old(self)@, *op),
    {
        proof {
            reveal(execute);
        }
        let mode = &op.mode;
        match op.mnemonic {
            Mnemonic::Adc => self.adc(mode),
            Mnemonic::Sbc => self.sbc(mode),
            Mnemonic::And => self.and(mode),
            Mnemonic::Eor => self.eor(mode),
            Mnemonic::Ora => self.ora(mode),
            Mnemonic::Bit => self.bit(mode),
            Mnemonic::Inc => self.inc(mode),
            Mnemonic::Dec => self.dec(mode),
            Mnemonic::Inx => self.inx(),
            Mnemonic::Iny => self.iny(),
            Mnemonic::Dex => self.dex(),
            Mnemonic::Dey => self.dey(),
            Mnemonic::Cmp => self.compare(mode, self.register_a),
            Mnemonic::Cpx => self.compare(mode, self.register_x),
            Mnemonic::Cpy => self.compare(mode, self.register_y),
            _ => {},
        }
    }

    /// Runs `op`, a shift or rotate.
    fn execute_shift(&mut self, op: &OpCode)
        requires
            entry_fits(*op),
            op.mnemonic is Asl || op.mnemonic is Lsr || op.mnemonic is Rol || op.mnemonic is Ror,
        ensures
            final(self)@ == execute(old(self)@, *op),
    {
        proof {
            reveal(execute);
        }
        let mode = &op.mode;
        match op.mnemonic {
            Mnemonic::Asl => if op.mode == AddressingMode::NoneAddressing {
                self.asl_accumulator()
            } else {
                self.asl(mode)
            },
            Mnemonic::Lsr => if op.mode == AddressingMode::NoneAddressing {
                self.lsr_accumulator()
            } else {
                self.lsr(mode)
            },
            Mnemonic::Rol => if op.mode == AddressingMode::NoneAddressing {
                self.rol_accumulator()
            } else {
                self.rol(mode)
            },
            Mnemonic::Ror => if op.mode == AddressingMode::NoneAddressing {
                self.ror_accumulator()
            } else {
                self.ror(mode)
            },
            _ => {},
        }
    }

    /// Runs `op`, a flag operation or branch.
    fn execute_flag_or_branch(&mut self, op: &OpCode)
        requires
            entry_fits(*op),
            op.mnemonic is Clc || op.mnemonic is Sec || op.mnemonic is Cli || op.mnemonic is Sei
                || op.mnemonic is Cld || op.mnemonic is Sed || op.mnemonic is Clv
                || op.mnemonic is Bcc || op.mnemonic is Bcs || op.mnemonic is Bne
                || op.mnemonic is Beq || op.mnemonic is Bpl || op.mnemonic is Bmi
                || op.mnemonic is Bvc || op.mnemonic is Bvs,
        ensures
            final(self)@ == execute(old(self)@, *op),
    {
        proof {
            reveal(execute);
        }
        match op.mnemonic {
            Mnemonic::Clc => self.clear_carry_flag(),
            Mnemonic::Sec => self.set_carry_flag(),
            Mnemonic::Cli => self.status.remove(INTERRUPT_DISABLE),
            Mnemonic::Sei => self.status.insert(INTERRUPT_DISABLE),
            Mnemonic::Cld => self.status.remove(DECIMAL_MODE),
            Mnemonic::Sed => self.status.insert(DECIMAL_MODE),
            Mnemonic::Clv => self.status.remove(OVERFLOW),
            Mnemonic::Bcc => self.branch(!self.status.contains(CARRY)),
            Mnemonic::Bcs => self.branch(self.status.contains(CARRY)),
            Mnemonic::Bne => self.branch(!self.status.contains(ZERO)),
            Mnemonic::Beq => self.branch(self.status.contains(ZERO)),
            Mnemonic::Bpl => self.branch(!self.status.contains(NEGATIV)),
            Mnemonic::Bmi => self.branch(self.status.contains(NEGATIV)),
            Mnemonic::Bvc => self.branch(!self.status.contains(OVERFLOW)),
            Mnemonic::Bvs => self.branch(self.status.contains(OVERFLOW)),
            _ => {},
        }
    }

    /// Runs `op`, a jump, subroutine, stack operation, BRK or NOP.
    fn execute_control(&mut self, op: &OpCode)
        requires
            entry_fits(*op),
            op.mnemonic is Jmp || op.mnemonic is Jsr || op.mnemonic is Rts || op.mnemonic is Rti
                || op.mnemonic is Pha || op.mnemonic is Pla || op.mnemonic is Php
                || op.mnemonic is Plp || op.mnemonic is Brk || op.mnemonic is Nop,
        ensures
            final(self)@ == execute(old(self)@, *op),
    {
        proof {
            reveal(execute);
        }
        let mode = &op.mode;
        match op.mnemonic {
            Mnemonic::Jmp => {
                self.program_counter = self.get_operand_address(mode);
            },
            Mnemonic::Jsr => {
                self.stack_push_u16(self.program_counter.wrapping_add(1));
                let target_address = self.mem_read_u16(self.program_counter);
                self.program_counter = target_address;
            },
            Mnemonic::Rts => {
                self.program_counter = self.stack_pop_u16().wrapping_add(1);
            },
            Mnemonic::Rti => {
                self.plp();
                self.program_counter = self.stack_pop_u16();
            },
            Mnemonic::Pha => self.stack_push(self.register_a),
            Mnemonic::Pla => self.pla(),
            Mnemonic::Php => self.php(),
            Mnemonic::Plp => self.plp(),
            Mnemonic::Brk | Mnemonic::Nop => {},
            _ => {},
        }
    }

    /// One turn of the dispatch loop: fetch the opcode at PC, run it, and
    /// move PC past its operand unless the instruction moved PC itself. BRK
    /// halts with PC just past it; an unknown opcode is reported with its
    /// address and leaves the state unchanged.
    pub fn step(&mut self) -> (r: Result<StepOutcome, CpuError>)
        ensures
            (final(self)@, r) == step(old(self)@),
    {
        let pc = self.program_counter;
        let code = self.read(pc);
        match lookup(code) {
            None => Err(CpuError::UnknownOpcode { code, pc }),
            Some(op) => {
                proof {
                    lemma_table_entries_fit(code);
                }
                self.program_counter = pc.wrapping_add(1);
                if op.mnemonic == Mnemonic::Brk {
                    return Ok(StepOutcome::Halted);
                }
                let program_counter_state = self.program_counter;
                self.execute(&op);
                if program_counter_state == self.program_counter {
                    self.program_counter = self.program_counter.wrapping_add((op.len - 1) as u16);
                }
                Ok(StepOutcome::Executed)
            },
        }
    }

    /// Executes instructions until a BRK, which ends the run with `Ok`, or an
    /// unknown opcode. A run gives up with `StepLimit` after 2^64 - 1
    /// instructions.
    pub fn run(&mut self) -> (r: Result<(), CpuError>)
        ensures
            (final(self)@, r) == run(old(self)@, RUN_FUEL as nat),
    {
        let mut fuel: u64 = RUN_FUEL;
        loop
            invariant
                run(self@, fuel as nat) == run(old(self)@, RUN_FUEL as nat),
            decreases fuel,
        {
            if fuel == 0 {
                return Err(CpuError::StepLimit);
            }
            match self.step() {
                Err(e) => return Err(e),
                Ok(StepOutcome::Halted) => return Ok(()),
                Ok(StepOutcome::Executed) => {},
            }
            fuel = fuel - 1;
        }
    }

    /// Executes instructions like `run`, handing the processor to `callback`
    /// after each one that completed, PC already moved on; the next step runs
    /// on what the callback left. A BRK at PC ends the run with `Ok`, one step
    /// on, and calls no callback; an unknown opcode at PC ends it with
    /// `UnknownOpcode` and changes nothing. The callback may change registers
    /// and memory, so of a longer run what is known is how it stopped: `Ok`
    /// right after a BRK, or an unknown opcode at PC.
    pub fn run_with_callback<F>(&mut self, mut callback: F) -> (r: Result<(), CpuError>)
        where
            F: FnMut(&mut CPU),
        requires
            forall|c: &mut CPU| call_requires(callback, (c,)),
        ensures
            r is Ok ==> exists|m: Machine|
                step(m) == (final(self)@, Ok::<StepOutcome, CpuError>(StepOutcome::Halted)),
            r matches Err(CpuError::UnknownOpcode { code, pc }) ==> final(self)@.pc == pc
                && rd(final(self)@, pc) == code && opcode_table(code) is None,
            opcode_table(rd(old(self)@, old(self)@.pc)) is None ==> r == Err::<(), CpuError>(
                CpuError::UnknownOpcode { code: rd(old(self)@, old(self)@.pc), pc: old(self)@.pc },
            ) && final(self)@ == old(self)@,
            (opcode_table(rd(old(self)@, old(self)@.pc)) matches Some(op) && op.mnemonic is Brk)
                ==> r is Ok && final(self)@ == step(old(self)@).0,
    {
        let mut fuel: u64 = RUN_FUEL;
        loop
            invariant
                forall|c: &mut CPU| call_requires(callback, (c,)),
                fuel == RUN_FUEL ==> self@ == old(self)@,
                fuel < RUN_FUEL ==> (opcode_table(rd(old(self)@, old(self)@.pc)) matches Some(op)
                    && !(op.mnemonic is Brk)),
            decreases fuel,
        {
            if fuel == 0 {
                return Err(CpuError::StepLimit);
            }
            match self.step() {
                Err(e) => return Err(e),
                Ok(StepOutcome::Halted) => return Ok(()),
                Ok(StepOutcome::Executed) => {},
            }
            callback(self);
            fuel = fuel - 1;
        }
    }

    /// Clears A, X and Y, sets SP and the status register to their reset
    /// values, and loads PC from the reset vector at 0xfffc.
    pub fn reset(&mut self)
        ensures
            final(self)@ == reset(old(self)@),
    {
        self.register_a = 0;
        self.register_x = 0;
        self.register_y = 0;
        self.stack_pointer = STACK_RESET;
        self.status = CpuFlags::from_bits_truncate(STATUS_RESET);
        self.program_counter = self.mem_read_u16(RESET_VECTOR);
    }

    /// Copies `program` to memory at the load address 0x0600 and points the
    /// reset vector there. A program longer than the space up to the end of
    /// memory is refused and nothing changes.
    pub fn load(&mut self, program: Vec<u8>) -> (r: Result<(), CpuError>)
        ensures
            program@.len() > MAX_PROGRAM_LEN ==> r == Err::<(), CpuError>(
                CpuError::ProgramTooLarge { len: program@.len() as usize },
            ) && final(self)@ == old(self)@,
            program@.len() <= MAX_PROGRAM_LEN ==> r is Ok && final(self)@ == load(
                old(self)@,
                program@,
            ),
    {
        if program.len() > MAX_PROGRAM_LEN {
            return Err(CpuError::ProgramTooLarge { len: program.len() });
        }
        let ghost m0 = self@;
        proof {
            self.lemma_mem_len();
        }
        let mut i: usize = 0;
        assert(self@.mem =~= Seq::new(
            MEMORY_SIZE as nat,
            |j: int|
                if LOAD_ADDRESS <= j < LOAD_ADDRESS + i {
                    program@[j - LOAD_ADDRESS]
                } else {
                    m0.mem[j]
                },
        ));
        while i < program.len()
            invariant
                i <= program@.len() <= MAX_PROGRAM_LEN,
                m0.mem.len() == MEMORY_SIZE,
                self@ == (Machine {
                    mem: Seq::new(
                        MEMORY_SIZE as nat,
                        |j: int|
                            if LOAD_ADDRESS <= j < LOAD_ADDRESS + i {
                                program@[j - LOAD_ADDRESS]
                            } else {
                                m0.mem[j]
                            },
                    ),
                    ..m0
                }),
            decreases program@.len() - i,
        {
            self.write(LOAD_ADDRESS + i as u16, program[i]);
            i = i + 1;
            assert(self@.mem =~= Seq::new(
                MEMORY_SIZE as nat,
                |j: int|
                    if LOAD_ADDRESS <= j < LOAD_ADDRESS + i {
                        program@[j - LOAD_ADDRESS]
                    } else {
                        m0.mem[j]
                    },
            ));
        }
        self.write(RESET_VECTOR, (LOAD_ADDRESS % 256) as u8);
        self.write(RESET_VECTOR + 1, (LOAD_ADDRESS / 256) as u8);
        assert(self@.mem =~= loaded_memory(m0.mem, program@));
        Ok(())
    }

    /// Loads `program`, resets, and runs until BRK.
    pub fn load_and_run(&mut self, program: Vec<u8>) -> (r: Result<(), CpuError>)
        ensures
            program@.len() > MAX_PROGRAM_LEN ==> r == Err::<(), CpuError>(
                CpuError::ProgramTooLarge { len: program@.len() as usize },
            ) && final(self)@ == old(self)@,
            program@.len() <= MAX_PROGRAM_LEN ==> (final(self)@, r) == run(
                reset(load(old(self)@, program@)),
                RUN_FUEL as nat,
            ),
    {
        match self.load(program) {
            Err(e) => Err(e),
            Ok(()) => {
                self.reset();
                self.run()
            },
        }
    }
}
} // verus!
