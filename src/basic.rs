//! A minimal interpreter that runs a program straight out of a byte vector.
//! It knows LDA immediate, TAX, INX and BRK.
use crate::flags::{with_flag, NEGATIV, ZERO};
use vstd::prelude::*;

verus! {

/// Why `interpret` stopped other than at a BRK.
#[derive(Clone, Copy, Debug, PartialEq, Eq, Structural)]
pub enum InterpretError {
    /// The byte `code` at offset `pc` is not an instruction this interpreter
    /// knows.
    UnknownOpcode { code: u8, pc: u16 },
    /// The program counter ran past the end of the program, or past 0xffff,
    /// before a BRK.
    EndOfProgram,
}

/// The registers of the minimal interpreter.
pub struct CPU {
    pub register_a: u8,
    pub status: u8,
    pub program_counter: u16,
    pub register_x: u8,
}

/// `p` with ZERO and NEGATIVE set from `result`.
pub open spec fn zn_status(p: u8, result: u8) -> u8 {
    with_flag(with_flag(p, ZERO, result == 0), NEGATIV, result & 0x80 != 0)
}

/// The status update as one formula: ZERO set exactly when `result` is
/// zero, NEGATIVE copied from bit 7 of `result`, every other bit kept.
pub proof fn lemma_zn_status(p: u8, result: u8)
    ensures
        zn_status(p, result) == (p & 0b0111_1101) | (if result == 0 {
            0b10u8
        } else {
            0u8
        }) | (result & 0x80),
{
    assert(!ZERO == 0b1111_1101u8 && !NEGATIV == 0b0111_1111u8) by (bit_vector);
    assert((if result & 0x80u8 != 0 {
        (if result == 0 {
            p | 2u8
        } else {
            p & 0xfdu8
        }) | 0x80u8
    } else {
        (if result == 0 {
            p | 2u8
        } else {
            p & 0xfdu8
        }) & 0x7fu8
    }) == (p & 0b0111_1101u8) | (if result == 0 {
        2u8
    } else {
        0u8
    }) | (result & 0x80u8)) by (bit_vector);
}

/// LDA with operand `v`.
pub open spec fn lda_spec(c: CPU, v: u8) -> CPU {
    CPU { register_a: v, status: zn_status(c.status, v), ..c }
}

/// TAX.
pub open spec fn tax_spec(c: CPU) -> CPU {
    CPU { register_x: c.register_a, status: zn_status(c.status, c.register_a), ..c }
}

/// INX, wrapping modulo 2^8.
pub open spec fn inx_spec(c: CPU) -> CPU {
    let x = ((c.register_x + 1) % 256) as u8;
    CPU { register_x: x, status: zn_status(c.status, x), ..c }
}

/// Whether PC can fetch a byte at `pc`: it lies in the program and PC can
/// still move past it.
pub open spec fn fetchable(prog: Seq<u8>, pc: int) -> bool {
    pc < prog.len() && pc < 0xffff
}

/// Runs `prog` from the state `c` until a BRK or an error.
pub open spec fn interpret_from(c: CPU, prog: Seq<u8>) -> (CPU, Result<(), InterpretError>)
    decreases prog.len() - c.program_counter,
{
    let pc = c.program_counter;
    if !fetchable(prog, pc as int) {
        (c, Err(InterpretError::EndOfProgram))
    } else {
        let code = prog[pc as int];
        let c1 = CPU { program_counter: (pc + 1) as u16, ..c };
        if code == 0xa9 {
            if !fetchable(prog, pc + 1) {
                (c1, Err(InterpretError::EndOfProgram))
            } else {
                interpret_from(
                    lda_spec(CPU { program_counter: (pc + 2) as u16, ..c }, prog[pc + 1]),
                    prog,
                )
            }
        } else if code == 0xaa {
            interpret_from(tax_spec(c1), prog)
        } else if code == 0xe8 {
            interpret_from(inx_spec(c1), prog)
        } else if code == 0x00 {
            (c1, Ok(()))
        } else {
            (c1, Err(InterpretError::UnknownOpcode { code, pc }))
        }
    }
}

impl CPU {
    /// Registers and status all zero.
    pub fn new() -> (r: Self)
        ensures
            r == (CPU { register_a: 0, status: 0, program_counter: 0, register_x: 0 }),
    {
        CPU { register_a: 0, status: 0, program_counter: 0, register_x: 0 }
    }

    fn lda(&mut self, value: u8)
        ensures
            *final(self) == lda_spec(*old(self), value),
    {
        self.register_a = value;
        self.update_zero_and_negative_flags(self.register_a);
    }

    fn tax(&mut self)
        ensures
            *final(self) == tax_spec(*old(self)),
    {
        self.register_x = self.register_a;
        self.update_zero_and_negative_flags(self.register_x);
    }

    fn inx(&mut self)
        ensures
            *final(self) == inx_spec(*old(self)),
    {
        self.register_x = self.register_x.wrapping_add(1);
        self.update_zero_and_negative_flags(self.register_x)
    }

    fn update_zero_and_negative_flags(&mut self, result: u8)
        ensures
            *final(self) == (CPU { status: zn_status(old(self).status, result), ..*old(self) }),
    {
        proof {
            assert(!ZERO == 0b1111_1101u8) by (bit_vector);
            assert(!NEGATIV == 0b0111_1111u8) by (bit_vector);
        }
        if result == 0 {
            self.status = self.status | 0b0000_0010;
        } else {
            self.status = self.status & 0b1111_1101;
        }
        if result & 0b1000_0000 != 0 {
            self.status = self.status | 0b1000_0000;
        } else {
            self.status = self.status & 0b0111_1111;
        }
    }

    /// Runs `program` from its first byte until a BRK, which ends with `Ok`
    /// and PC just past it; an unknown opcode or running off the end of the
    /// program ends with an error.
    pub fn interpret(&mut self, program: Vec<u8>) -> (r: Result<(), InterpretError>)
        ensures
            (*final(self), r) == interpret_from(
                CPU { program_counter: 0, ..*old(self) },
                program@,
            ),
    {
        self.program_counter = 0;
        loop
            invariant
                interpret_from(*self, program@) == interpret_from(
                    CPU { program_counter: 0, ..*old(self) },
                    program@,
                ),
            decreases program@.len() - self.program_counter,
        {
            let pc = self.program_counter;
            if pc as usize >= program.len() || pc == 0xffff {
                return Err(InterpretError::EndOfProgram);
            }
            let opscode = program[pc as usize];
            self.program_counter = pc + 1;
            match opscode {
                0xa9 => {
                    let next = self.program_counter;
                    if next as usize >= program.len() || next == 0xffff {
                        return Err(InterpretError::EndOfProgram);
                    }
                    let param = program[next as usize];
                    self.program_counter = next + 1;
                    self.lda(param)
                },
                0xaa => self.tax(),
                0xe8 => self.inx(),
                0x00 => return Ok(()),
                _ => return Err(InterpretError::UnknownOpcode { code: opscode, pc }),
            }
        }
    }
}

} // verus!
