use nes_cpu::cpu::{Mem, CPU};
use nes_cpu::flags::{CARRY, NEGATIV, OVERFLOW, ZERO};
use nes_cpu::machine::{CpuError, StepOutcome};

#[test]
fn test_0xa9_lda_immediate_load_data() {
    let mut cpu = CPU::new();
    cpu.load_and_run(vec![0xa9, 0x05, 0x00]).unwrap();
    assert_eq!(cpu.register_a, 5);
    assert!(cpu.status.bits() & 0b0000_0010 == 0b00);
    assert!(cpu.status.bits() & 0b1000_0000 == 0);
}

#[test]
fn test_0xaa_tax_move_a_to_x() {
    let mut cpu = CPU::new();
    cpu.register_a = 10;
    // A reset clears A, so the program loads 10 itself before TAX.
    cpu.load_and_run(vec![0xa9, 0x0a, 0xaa, 0x00]).unwrap();

    assert_eq!(cpu.register_x, 10)
}

#[test]
fn cpu_test_5_ops_working_together() {
    let mut cpu = CPU::new();
    cpu.load_and_run(vec![0xa9, 0xc0, 0xaa, 0xe8, 0x00]).unwrap();

    assert_eq!(cpu.register_x, 0xc1)
}

#[test]
fn cpu_test_inx_overflow() {
    let mut cpu = CPU::new();
    cpu.register_x = 0xff;
    cpu.load_and_run(vec![0xe8, 0x00]).unwrap();

    assert_eq!(cpu.register_x, 1)
}

#[test]
fn test_lda_from_memory() {
    let mut cpu = CPU::new();
    cpu.mem_write(0x10, 0x55);

    cpu.load_and_run(vec![0xa5, 0x10, 0x00]).unwrap();

    assert_eq!(cpu.register_a, 0x55);
}

#[test]
fn lda_of_zero_sets_zero() {
    let mut cpu = CPU::new();
    cpu.load_and_run(vec![0xa9, 0x00, 0x00]).unwrap();
    assert!(cpu.status.contains(ZERO));
    assert!(!cpu.status.contains(NEGATIV));
}

#[test]
fn inx_wraps_after_two_increments() {
    let mut cpu = CPU::new();
    cpu.load_and_run(vec![0xa9, 0xff, 0xaa, 0xe8, 0xe8, 0x00]).unwrap();
    assert_eq!(cpu.register_x, 0x01);
    assert!(!cpu.status.contains(ZERO));
}

#[test]
fn five_ops_set_negative() {
    let mut cpu = CPU::new();
    cpu.load_and_run(vec![0xa9, 0xc0, 0xaa, 0xe8, 0x00]).unwrap();
    assert_eq!(cpu.register_x, 0xc1);
    assert!(cpu.status.contains(NEGATIV));
}

#[test]
fn brk_halts_with_pc_past_it() {
    let mut cpu = CPU::new();
    cpu.load_and_run(vec![0xea, 0x00]).unwrap();
    assert_eq!(cpu.program_counter, 0x0602);
}

#[test]
fn reset_state() {
    let mut cpu = CPU::new();
    cpu.register_a = 1;
    cpu.register_x = 2;
    cpu.register_y = 3;
    cpu.stack_pointer = 4;
    cpu.mem_write_u16(0xfffc, 0x1234);
    cpu.reset();
    assert_eq!(cpu.register_a, 0);
    assert_eq!(cpu.register_x, 0);
    assert_eq!(cpu.register_y, 0);
    assert_eq!(cpu.stack_pointer, 0xfd);
    assert_eq!(cpu.status.bits(), 0b0010_0100);
    assert_eq!(cpu.program_counter, 0x1234);
}

#[test]
fn load_writes_program_and_reset_vector() {
    let mut cpu = CPU::new();
    cpu.load(vec![0xa9, 0x07, 0x00]).unwrap();
    assert_eq!(cpu.mem_read(0x0600), 0xa9);
    assert_eq!(cpu.mem_read(0x0601), 0x07);
    assert_eq!(cpu.mem_read(0x0602), 0x00);
    assert_eq!(cpu.mem_read(0xfffc), 0x00);
    assert_eq!(cpu.mem_read(0xfffd), 0x06);
    assert_eq!(cpu.mem_read_u16(0xfffc), 0x0600);
}

#[test]
fn load_refuses_too_large_program() {
    let mut cpu = CPU::new();
    let program = vec![0xea; 0x10000 - 0x0600 + 1];
    assert_eq!(
        cpu.load(program),
        Err(CpuError::ProgramTooLarge { len: 0xfa01 })
    );
    assert_eq!(cpu.mem_read(0x0600), 0);
    let mut cpu = CPU::new();
    assert_eq!(
        cpu.load_and_run(vec![0xea; 0xfa01]),
        Err(CpuError::ProgramTooLarge { len: 0xfa01 })
    );
}

#[test]
fn load_accepts_largest_program() {
    let mut cpu = CPU::new();
    let mut program = vec![0xea; 0xfa00];
    program[0xfa00 - 1] = 0x42;
    assert_eq!(cpu.load(program), Ok(()));
    assert_eq!(cpu.mem_read(0xffff), 0x42);
    assert_eq!(cpu.mem_read_u16(0xfffc), 0x0600);
}

#[test]
fn unknown_opcode_is_reported() {
    let mut cpu = CPU::new();
    let r = cpu.load_and_run(vec![0xea, 0x02, 0x00]);
    assert_eq!(r, Err(CpuError::UnknownOpcode { code: 0x02, pc: 0x0601 }));
    assert_eq!(cpu.program_counter, 0x0601);
}

#[test]
fn adc_signed_overflow() {
    let mut cpu = CPU::new();
    // LDA #$7F; CLC; ADC #$01
    cpu.load_and_run(vec![0xa9, 0x7f, 0x18, 0x69, 0x01, 0x00]).unwrap();
    assert_eq!(cpu.register_a, 0x80);
    assert!(cpu.status.contains(OVERFLOW));
    assert!(cpu.status.contains(NEGATIV));
    assert!(!cpu.status.contains(CARRY));
    assert!(!cpu.status.contains(ZERO));
}

#[test]
fn adc_with_carry_in_and_carry_out() {
    let mut cpu = CPU::new();
    // LDA #$FF; SEC; ADC #$00
    cpu.load_and_run(vec![0xa9, 0xff, 0x38, 0x69, 0x00, 0x00]).unwrap();
    assert_eq!(cpu.register_a, 0x00);
    assert!(cpu.status.contains(CARRY));
    assert!(cpu.status.contains(ZERO));
    assert!(!cpu.status.contains(OVERFLOW));
}

#[test]
fn sbc_borrows() {
    let mut cpu = CPU::new();
    // LDA #$05; SEC; SBC #$03
    cpu.load_and_run(vec![0xa9, 0x05, 0x38, 0xe9, 0x03, 0x00]).unwrap();
    assert_eq!(cpu.register_a, 0x02);
    assert!(cpu.status.contains(CARRY));
    // LDA #$03; SEC; SBC #$05
    let mut cpu = CPU::new();
    cpu.load_and_run(vec![0xa9, 0x03, 0x38, 0xe9, 0x05, 0x00]).unwrap();
    assert_eq!(cpu.register_a, 0xfe);
    assert!(!cpu.status.contains(CARRY));
    assert!(cpu.status.contains(NEGATIV));
}

#[test]
fn sbc_signed_overflow() {
    let mut cpu = CPU::new();
    // LDA #$80; SEC; SBC #$01
    cpu.load_and_run(vec![0xa9, 0x80, 0x38, 0xe9, 0x01, 0x00]).unwrap();
    assert_eq!(cpu.register_a, 0x7f);
    assert!(cpu.status.contains(OVERFLOW));
    assert!(cpu.status.contains(CARRY));
}

#[test]
fn cmp_equal_sets_carry_and_zero() {
    let mut cpu = CPU::new();
    cpu.load_and_run(vec![0xa9, 0x42, 0xc9, 0x42, 0x00]).unwrap();
    assert!(cpu.status.contains(CARRY));
    assert!(cpu.status.contains(ZERO));
    assert!(!cpu.status.contains(NEGATIV));
}

#[test]
fn cpx_greater_operand_clears_carry() {
    let mut cpu = CPU::new();
    // LDX #$01; CPX #$02
    cpu.load_and_run(vec![0xa2, 0x01, 0xe0, 0x02, 0x00]).unwrap();
    assert!(!cpu.status.contains(CARRY));
    assert!(!cpu.status.contains(ZERO));
    assert!(cpu.status.contains(NEGATIV));
}

#[test]
fn jmp_indirect_page_cross_bug() {
    let mut cpu = CPU::new();
    // JMP ($02FF): the low byte comes from $02FF and the high byte from
    // $0200, not from $0300.
    cpu.mem_write(0x02ff, 0x10);
    cpu.mem_write(0x0300, 0x07);
    cpu.mem_write(0x0200, 0x06);
    cpu.load_and_run(vec![0x6c, 0xff, 0x02, 0x00]).unwrap();
    // The BRK at $0610 halted the run, one byte past it.
    assert_eq!(cpu.program_counter, 0x0611);
}

#[test]
fn jmp_absolute() {
    let mut cpu = CPU::new();
    // JMP $0605; (skipped LDA #$01); BRK at 0x0605 after LDA #$02
    cpu.load_and_run(vec![0x4c, 0x05, 0x06, 0xa9, 0x01, 0xa9, 0x02, 0x00]).unwrap();
    assert_eq!(cpu.register_a, 0x02);
    assert_eq!(cpu.program_counter, 0x0608);
}

#[test]
fn jsr_rts_round_trip() {
    let mut cpu = CPU::new();
    // 0600: JSR $0606; 0603: LDX #$07; 0605: BRK; 0606: LDA #$09; 0608: RTS
    cpu.load_and_run(vec![0x20, 0x06, 0x06, 0xa2, 0x07, 0x00, 0xa9, 0x09, 0x60])
        .unwrap();
    assert_eq!(cpu.register_a, 0x09);
    assert_eq!(cpu.register_x, 0x07);
    assert_eq!(cpu.stack_pointer, 0xfd);
    assert_eq!(cpu.program_counter, 0x0606);
    // JSR pushed the address of its last byte, high byte first.
    assert_eq!(cpu.mem_read(0x01fd), 0x06);
    assert_eq!(cpu.mem_read(0x01fc), 0x02);
}

#[test]
fn branch_backward_with_negative_offset() {
    let mut cpu = CPU::new();
    // 0600: LDX #$03; 0602: DEX; 0603: BNE -3 (to 0602); 0605: BRK
    cpu.load_and_run(vec![0xa2, 0x03, 0xca, 0xd0, 0xfd, 0x00]).unwrap();
    assert_eq!(cpu.register_x, 0);
    assert!(cpu.status.contains(ZERO));
    assert_eq!(cpu.program_counter, 0x0606);
}

#[test]
fn branch_offset_ff_moves_back_one() {
    let mut cpu = CPU::new();
    // 0600: SEC; 0601: BCS $FF. The target is 0x0603 - 1 = 0x0602, which is
    // where PC already stood, so the step then skips the offset byte and the
    // BRK at 0603 halts.
    cpu.load_and_run(vec![0x38, 0xb0, 0xff, 0x00]).unwrap();
    assert_eq!(cpu.program_counter, 0x0604);
    // 0600: SEC; 0601: BCS $FE loops back to 0601 forever unless the
    // carry is cleared; with CLC first the branch is not taken.
    let mut cpu = CPU::new();
    cpu.load_and_run(vec![0x18, 0xb0, 0xfe, 0x00]).unwrap();
    assert_eq!(cpu.program_counter, 0x0604);
}

#[test]
fn branch_not_taken_skips_offset() {
    let mut cpu = CPU::new();
    // CLC; BCS +2; LDA #$01; BRK
    cpu.load_and_run(vec![0x18, 0xb0, 0x02, 0xa9, 0x01, 0x00]).unwrap();
    assert_eq!(cpu.register_a, 0x01);
}

#[test]
fn stack_push_pop() {
    let mut cpu = CPU::new();
    // LDA #$AB; PHA; LDA #$00; PLA
    cpu.load_and_run(vec![0xa9, 0xab, 0x48, 0xa9, 0x00, 0x68, 0x00]).unwrap();
    assert_eq!(cpu.register_a, 0xab);
    assert_eq!(cpu.stack_pointer, 0xfd);
    assert_eq!(cpu.mem_read(0x01fd), 0xab);
    assert!(cpu.status.contains(NEGATIV));
}

#[test]
fn php_plp_break_bits() {
    let mut cpu = CPU::new();
    // SEC; PHP; CLC; PLP
    cpu.load_and_run(vec![0x38, 0x08, 0x18, 0x28, 0x00]).unwrap();
    // PHP pushed status with BREAK and BREAK2 set.
    assert_eq!(cpu.mem_read(0x01fd), 0b0011_0101);
    // PLP restored CARRY, cleared BREAK, set BREAK2.
    assert_eq!(cpu.status.bits(), 0b0010_0101);
}

#[test]
fn rti_restores_status_and_pc() {
    let mut cpu = CPU::new();
    // Stack holds, from SP+1 up: status 0xff, PC low 0x10, PC high 0x06.
    cpu.mem_write(0x01fe, 0xff);
    cpu.mem_write(0x01ff, 0x10);
    cpu.mem_write(0x0100, 0x06);
    cpu.mem_write(0x0610, 0x00);
    cpu.load_and_run(vec![0x40]).unwrap();
    assert_eq!(cpu.status.bits(), 0b1110_1111);
    assert_eq!(cpu.program_counter, 0x0611);
    assert_eq!(cpu.stack_pointer, 0x00);
}

#[test]
fn shifts_and_rotates_on_accumulator() {
    let mut cpu = CPU::new();
    // LDA #$81; ASL A
    cpu.load_and_run(vec![0xa9, 0x81, 0x0a, 0x00]).unwrap();
    assert_eq!(cpu.register_a, 0x02);
    assert!(cpu.status.contains(CARRY));
    let mut cpu = CPU::new();
    // LDA #$01; LSR A
    cpu.load_and_run(vec![0xa9, 0x01, 0x4a, 0x00]).unwrap();
    assert_eq!(cpu.register_a, 0x00);
    assert!(cpu.status.contains(CARRY));
    assert!(cpu.status.contains(ZERO));
    let mut cpu = CPU::new();
    // SEC; LDA #$80; ROL A
    cpu.load_and_run(vec![0x38, 0xa9, 0x80, 0x2a, 0x00]).unwrap();
    assert_eq!(cpu.register_a, 0x01);
    assert!(cpu.status.contains(CARRY));
    let mut cpu = CPU::new();
    // SEC; LDA #$02; ROR A
    cpu.load_and_run(vec![0x38, 0xa9, 0x02, 0x6a, 0x00]).unwrap();
    assert_eq!(cpu.register_a, 0x81);
    assert!(!cpu.status.contains(CARRY));
    assert!(cpu.status.contains(NEGATIV));
}

#[test]
fn shifts_and_increments_in_memory() {
    let mut cpu = CPU::new();
    cpu.mem_write(0x20, 0x40);
    cpu.mem_write(0x21, 0xff);
    cpu.mem_write(0x22, 0x00);
    // ASL $20; INC $21; DEC $22
    cpu.load_and_run(vec![0x06, 0x20, 0xe6, 0x21, 0xc6, 0x22, 0x00]).unwrap();
    assert_eq!(cpu.mem_read(0x20), 0x80);
    assert_eq!(cpu.mem_read(0x21), 0x00);
    assert_eq!(cpu.mem_read(0x22), 0xff);
    assert!(cpu.status.contains(NEGATIV));
}

#[test]
fn bit_sets_flags_from_operand() {
    let mut cpu = CPU::new();
    cpu.mem_write(0x30, 0xc0);
    // LDA #$01; BIT $30
    cpu.load_and_run(vec![0xa9, 0x01, 0x24, 0x30, 0x00]).unwrap();
    assert!(cpu.status.contains(ZERO));
    assert!(cpu.status.contains(NEGATIV));
    assert!(cpu.status.contains(OVERFLOW));
    assert_eq!(cpu.register_a, 0x01);
}

#[test]
fn logic_operations() {
    let mut cpu = CPU::new();
    // LDA #$F0; AND #$3C; EOR #$FF; ORA #$01
    cpu.load_and_run(vec![0xa9, 0xf0, 0x29, 0x3c, 0x49, 0xff, 0x09, 0x01, 0x00])
        .unwrap();
    assert_eq!(cpu.register_a, 0xcf);
}

#[test]
fn addressing_modes() {
    let mut cpu = CPU::new();
    cpu.mem_write(0x0f, 0x11); // zero page X wraps: $FF + X(0x10) = $0F
    cpu.mem_write(0x1234, 0x22);
    cpu.mem_write(0x1244, 0x33);
    cpu.mem_write_u16(0x0040, 0x1234); // pointer for (ind,X) with X = 0x10 from $30
    cpu.mem_write_u16(0x0050, 0x1234); // pointer for (ind),Y
    // LDX #$10; LDA $FF,X; STA $00; LDA $1234; STA $01; LDA $1234,X; STA $02;
    // LDA ($30,X); STA $03; LDY #$10; LDA ($50),Y; STA $04; BRK
    cpu.load_and_run(vec![
        0xa2, 0x10, 0xb5, 0xff, 0x85, 0x00, 0xad, 0x34, 0x12, 0x85, 0x01, 0xbd, 0x34, 0x12,
        0x85, 0x02, 0xa1, 0x30, 0x85, 0x03, 0xa0, 0x10, 0xb1, 0x50, 0x85, 0x04, 0x00,
    ])
    .unwrap();
    assert_eq!(cpu.mem_read(0x00), 0x11);
    assert_eq!(cpu.mem_read(0x01), 0x22);
    assert_eq!(cpu.mem_read(0x02), 0x33);
    assert_eq!(cpu.mem_read(0x03), 0x22);
    assert_eq!(cpu.mem_read(0x04), 0x33);
}

#[test]
fn transfers_and_stack_pointer() {
    let mut cpu = CPU::new();
    // LDA #$05; TAY; TSX; LDX #$80; TXS; TYA
    cpu.load_and_run(vec![0xa9, 0x05, 0xa8, 0xba, 0xa2, 0x80, 0x9a, 0x98, 0x00])
        .unwrap();
    assert_eq!(cpu.register_y, 0x05);
    assert_eq!(cpu.stack_pointer, 0x80);
    assert_eq!(cpu.register_a, 0x05);
}

#[test]
fn flag_instructions() {
    let mut cpu = CPU::new();
    // SEC; SED; SEI; CLI
    cpu.load_and_run(vec![0x38, 0xf8, 0x78, 0x58, 0x00]).unwrap();
    assert_eq!(cpu.status.bits(), 0b0010_1001);
}

#[test]
fn read_u16_wraps_at_end_of_memory() {
    let mut cpu = CPU::new();
    cpu.mem_write(0xffff, 0x34);
    cpu.mem_write(0x0000, 0x12);
    assert_eq!(cpu.mem_read_u16(0xffff), 0x1234);
    cpu.mem_write_u16(0xffff, 0xabcd);
    assert_eq!(cpu.mem_read(0xffff), 0xcd);
    assert_eq!(cpu.mem_read(0x0000), 0xab);
}

#[test]
fn step_reports_each_instruction() {
    let mut cpu = CPU::new();
    cpu.load(vec![0xa9, 0x01, 0xe8, 0x00]).unwrap();
    cpu.reset();
    assert_eq!(cpu.step(), Ok(StepOutcome::Executed));
    assert_eq!(cpu.program_counter, 0x0602);
    assert_eq!(cpu.step(), Ok(StepOutcome::Executed));
    assert_eq!(cpu.program_counter, 0x0603);
    assert_eq!(cpu.step(), Ok(StepOutcome::Halted));
    assert_eq!(cpu.program_counter, 0x0604);
}

#[test]
fn run_with_callback_sees_each_instruction() {
    let mut cpu = CPU::new();
    cpu.load(vec![0xa9, 0x01, 0xe8, 0xe8, 0x00]).unwrap();
    cpu.reset();
    let mut seen = Vec::new();
    let r = cpu.run_with_callback(|c| seen.push(c.program_counter));
    assert_eq!(r, Ok(()));
    assert_eq!(seen, vec![0x0602, 0x0603, 0x0604]);
    assert_eq!(cpu.register_x, 2);
}

#[test]
fn run_with_callback_can_change_state() {
    let mut cpu = CPU::new();
    cpu.load(vec![0xe8, 0xe8, 0x00]).unwrap();
    cpu.reset();
    let r = cpu.run_with_callback(|c| c.register_x = c.register_x.wrapping_add(10));
    assert_eq!(r, Ok(()));
    assert_eq!(cpu.register_x, 22);
}

#[test]
fn run_with_callback_reports_unknown_opcode() {
    let mut cpu = CPU::new();
    cpu.load(vec![0xe8, 0xff]).unwrap();
    cpu.reset();
    let mut calls = 0;
    let r = cpu.run_with_callback(|_| calls += 1);
    assert_eq!(r, Err(CpuError::UnknownOpcode { code: 0xff, pc: 0x0601 }));
    assert_eq!(calls, 1);
}

#[test]
fn run_after_reset_only() {
    let mut cpu = CPU::new();
    cpu.load(vec![0xa9, 0x33, 0x00]).unwrap();
    cpu.reset();
    assert_eq!(cpu.run(), Ok(()));
    assert_eq!(cpu.register_a, 0x33);
}

#[test]
fn accessors_read_and_set_registers() {
    let mut cpu = CPU::new();
    cpu.put_a(1);
    cpu.put_x(2);
    cpu.put_y(3);
    cpu.put_sp(4);
    cpu.put_pc(0x1234);
    cpu.put_p(0b1000_0001);
    cpu.mem_write(0x0200, 9);
    assert_eq!(
        (cpu.a(), cpu.x(), cpu.y(), cpu.sp(), cpu.pc(), cpu.p()),
        (1, 2, 3, 4, 0x1234, 0x81)
    );
    assert_eq!(cpu.register_a, 1);
    assert_eq!(cpu.stack_pointer, 4);
    assert_eq!(cpu.status.bits(), 0x81);
    assert_eq!(cpu.mem_read(0x0200), 9);
}

#[test]
fn brk_first_calls_no_callback() {
    let mut cpu = CPU::new();
    cpu.load(vec![0x00]).unwrap();
    cpu.reset();
    let mut calls = 0;
    assert_eq!(cpu.run_with_callback(|_| calls += 1), Ok(()));
    assert_eq!(calls, 0);
    assert_eq!(cpu.pc(), 0x0601);
}
