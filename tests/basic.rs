use nes_cpu::basic::{InterpretError, CPU};

#[test]
fn main_test_5_ops_working_together() {
    let mut cpu = CPU::new();
    cpu.interpret(vec![0xa9, 0xc0, 0xaa, 0xe8, 0x00]).unwrap();

    assert_eq!(cpu.register_x, 0xc1)
}

#[test]
fn main_test_inx_overflow() {
    let mut cpu = CPU::new();
    cpu.register_x = 0xff;
    cpu.interpret(vec![0xe8, 0xe8, 0x00]).unwrap();

    assert_eq!(cpu.register_x, 1)
}

#[test]
fn interpret_lda_sets_flags() {
    let mut cpu = CPU::new();
    cpu.interpret(vec![0xa9, 0x00, 0x00]).unwrap();
    assert_eq!(cpu.status & 0b0000_0010, 0b0000_0010);
    cpu.interpret(vec![0xa9, 0x80, 0x00]).unwrap();
    assert_eq!(cpu.register_a, 0x80);
    assert_eq!(cpu.status, 0b1000_0000);
    assert_eq!(cpu.program_counter, 3);
}

#[test]
fn interpret_unknown_opcode() {
    let mut cpu = CPU::new();
    assert_eq!(
        cpu.interpret(vec![0xe8, 0x4c, 0x00]),
        Err(InterpretError::UnknownOpcode { code: 0x4c, pc: 1 })
    );
    assert_eq!(cpu.register_x, 1);
}

#[test]
fn interpret_runs_off_the_end() {
    let mut cpu = CPU::new();
    assert_eq!(cpu.interpret(vec![0xe8]), Err(InterpretError::EndOfProgram));
    assert_eq!(cpu.interpret(vec![0xa9]), Err(InterpretError::EndOfProgram));
    assert_eq!(cpu.interpret(vec![]), Err(InterpretError::EndOfProgram));
}
