use chip16::audio::{WaveForm, WaveRequest};
use chip16::cpu::CPU;
use chip16::flags::FLAGS;
use chip16::system::error;

fn power_up(program: &[[u8; 4]], data: &[(usize, u8)]) -> CPU {
    let mut mem = [0u8; 65536];
    for (k, word) in program.iter().enumerate() {
        mem[4 * k..4 * k + 4].copy_from_slice(word);
    }
    for (addr, byte) in data {
        mem[*addr] = *byte;
    }
    let mut cpu = CPU::new(&mut mem);
    cpu.init();
    cpu
}

fn go(cpu: &mut CPU, count: usize) {
    for _ in 0..count {
        cpu.step().expect("the instruction runs");
    }
}

fn ldi(r: u8, value: i16) -> [u8; 4] {
    let [lo, hi] = value.to_le_bytes();
    [0x20, r, lo, hi]
}

/// Runs `op r0, r1` in its register form after loading `a` and `b`.
fn binary(opcode: u8, a: i16, b: i16) -> (i16, FLAGS) {
    let mut cpu = power_up(&[ldi(0, a), ldi(1, b), [opcode, 0x10, 0, 0]], &[]);
    go(&mut cpu, 3);
    assert_eq!(cpu.register(1), b);
    (cpu.register(0), cpu.flags())
}

fn flags(c: bool, z: bool, o: bool, n: bool) -> FLAGS {
    FLAGS { C: c, Z: z, O: o, N: n }
}

#[test]
fn power_on_state() {
    let mut mem = [0u8; 65536];
    mem[7] = 9;
    let mut cpu = CPU::new(&mut mem);
    assert_eq!(mem[7], 9);
    assert_eq!(cpu.pc(), 0);
    assert_eq!(cpu.sp(), 0xFDF0);
    assert_eq!(cpu.flags(), flags(false, false, false, false));
    assert_eq!(cpu.cycles(), 0);
    assert!(!cpu.vblnk());
    assert_eq!(cpu.mem_byte(7), 9);
    assert_eq!(cpu.controls(), [0, 0]);
    for r in 0..16 {
        assert_eq!(cpu.register(r), 0);
    }
    assert!(cpu.screen().iter().all(|px| *px == 0));
    assert_eq!(cpu.bgc(), 0);
    assert_eq!(
        cpu.palette(),
        [
            0x000000, 0x000000, 0x888888, 0xBF3232, 0xDE7AAE, 0x4C3D21, 0x905F25, 0xE49452,
            0xEAD979, 0x537A3B, 0xABD54A, 0x252E38, 0x00467F, 0x68ABCC, 0xBCDEE4, 0xFFFFFF,
        ]
    );
}

#[test]
fn set_pc_reads_the_low_byte_first() {
    let mut mem = [0u8; 65536];
    let mut cpu = CPU::new(&mut mem);
    cpu.set_pc([0x34, 0x12]);
    assert_eq!(cpu.pc(), 0x1234);
}

#[test]
fn nop_changes_nothing_but_the_count() {
    let mut cpu = power_up(&[[0, 0, 0, 0]], &[]);
    go(&mut cpu, 1);
    assert_eq!(cpu.pc(), 4);
    assert_eq!(cpu.cycles(), 1);
    assert_eq!(cpu.sp(), 0xFDF0);
}

#[test]
fn unassigned_opcodes_are_invalid_commands() {
    for opcode in [0x0Fu8, 0x19, 0x25, 0x32, 0x43, 0x55, 0xA9, 0xB6, 0xC6, 0xD2, 0xE6, 0xF0, 0xFF] {
        let mut cpu = power_up(&[[opcode, 0, 0, 0]], &[]);
        assert_eq!(cpu.step(), Err("Invalid command".to_string()), "opcode {:#04X}", opcode);
        assert_eq!(cpu.execute(&[opcode, 1, 2, 3]), Err("Invalid command".to_string()));
        assert_eq!(error(&mut cpu, &[opcode, 0, 0, 0]), Err("Invalid command".to_string()));
        assert_eq!(cpu.pc(), 4);
    }
}

#[test]
fn ldi_loads_a_register_and_the_stack_pointer() {
    let mut cpu = power_up(&[[0x20, 0x0F, 0xFE, 0xFF], [0x21, 0x00, 0x00, 0xF0]], &[]);
    go(&mut cpu, 2);
    assert_eq!(cpu.register(15), -2);
    assert_eq!(cpu.sp(), 0xF000);
}

#[test]
fn ldm_reads_a_little_endian_word() {
    let mut cpu = power_up(
        &[[0x22, 0x01, 0x00, 0x10], ldi(2, 0x1000), [0x23, 0x23, 0, 0]],
        &[(0x1000, 0xCD), (0x1001, 0xAB)],
    );
    go(&mut cpu, 3);
    assert_eq!(cpu.register(1), 0xABCDu16 as i16);
    assert_eq!(cpu.register(3), 0xABCDu16 as i16);
}

#[test]
fn ldm_at_the_last_address_wraps() {
    let mut cpu = power_up(&[[0x22, 0x01, 0xFF, 0xFF]], &[(0xFFFF, 0x11)]);
    go(&mut cpu, 1);
    // the high byte is the opcode byte at address 0
    assert_eq!(cpu.register(1), 0x2211);
}

#[test]
fn mov_copies_a_register() {
    let mut cpu = power_up(&[ldi(7, -123), [0x24, 0x72, 0, 0]], &[]);
    go(&mut cpu, 2);
    assert_eq!(cpu.register(2), -123);
    assert_eq!(cpu.register(7), -123);
}

#[test]
fn add_flags() {
    assert_eq!(binary(0x41, 1, 2), (3, flags(false, false, false, false)));
    assert_eq!(binary(0x41, -1, 1), (0, flags(true, true, false, false)));
    assert_eq!(binary(0x41, 0x7FFF, 1), (-32768, flags(false, false, true, true)));
    // two negative numbers carry as unsigned words and do not overflow as signed ones
    assert_eq!(binary(0x41, -1, -1), (-2, flags(true, false, false, true)));
    assert_eq!(binary(0x41, -32768, -1), (0x7FFF, flags(true, false, true, false)));
    assert_eq!(binary(0x41, -32768, -32768), (0, flags(true, true, true, false)));
    assert_eq!(binary(0x41, 0, 0), (0, flags(false, true, false, false)));
}

#[test]
fn add_forms() {
    // ADDI r0, 5
    let mut cpu = power_up(&[ldi(0, 10), [0x40, 0x00, 0x05, 0x00]], &[]);
    go(&mut cpu, 2);
    assert_eq!(cpu.register(0), 15);
    // ADD r0, r1, r2: R2 = R0 + R1
    let mut cpu = power_up(&[ldi(0, 10), ldi(1, 20), [0x42, 0x10, 0x02, 0x00]], &[]);
    go(&mut cpu, 3);
    assert_eq!(cpu.register(2), 30);
    assert_eq!(cpu.register(0), 10);
    assert_eq!(cpu.register(1), 20);
}

#[test]
fn sub_flags() {
    assert_eq!(binary(0x51, 5, 3), (2, flags(false, false, false, false)));
    assert_eq!(binary(0x51, 3, 3), (0, flags(false, true, false, false)));
    assert_eq!(binary(0x51, 0, 1), (-1, flags(true, false, false, true)));
    // where the difference overflows, N is still bit 15 of the wrapped result
    assert_eq!(binary(0x51, -32768, 1), (0x7FFF, flags(false, false, true, false)));
    assert_eq!(binary(0x51, 0x7FFF, -1), (-32768, flags(true, false, true, true)));
    assert_eq!(binary(0x51, -32768, 0x7FFF), (1, flags(false, false, true, false)));
    assert_eq!(binary(0x51, 0x7FFF, -32768), (-1, flags(true, false, true, true)));
    assert_eq!(binary(0x51, -32768, -32768), (0, flags(false, true, false, false)));
    assert_eq!(binary(0x51, -1, 1), (-2, flags(false, false, false, true)));
}

#[test]
fn sub_forms() {
    let mut cpu = power_up(&[ldi(0, 10), [0x50, 0x00, 0x03, 0x00]], &[]);
    go(&mut cpu, 2);
    assert_eq!(cpu.register(0), 7);
    let mut cpu = power_up(&[ldi(0, 10), ldi(1, 20), [0x52, 0x10, 0x0C, 0x00]], &[]);
    go(&mut cpu, 3);
    assert_eq!(cpu.register(12), -10);
    assert_eq!(cpu.register(0), 10);
}

#[test]
fn cmp_sets_flags_and_keeps_registers() {
    let mut cpu = power_up(&[ldi(0, 3), ldi(1, 5), [0x54, 0x10, 0, 0]], &[]);
    go(&mut cpu, 3);
    assert_eq!(cpu.register(0), 3);
    assert_eq!(cpu.register(1), 5);
    assert_eq!(cpu.flags(), flags(true, false, false, true));
    let mut cpu = power_up(&[ldi(0, 3), [0x53, 0x00, 0x03, 0x00]], &[]);
    go(&mut cpu, 2);
    assert_eq!(cpu.register(0), 3);
    assert_eq!(cpu.flags(), flags(false, true, false, false));
}

#[test]
fn conditions_after_cmp_order_the_registers() {
    let samples: [i16; 9] = [-32768, -32767, -2, -1, 0, 1, 2, 32766, 32767];
    for a in samples {
        for b in samples {
            let (ua, ub) = (a as u16, b as u16);
            let expected: [(u8, bool); 10] = [
                (0x0, a == b),
                (0x1, a != b),
                (0x7, ua > ub),
                (0x8, ua >= ub),
                (0x9, ua < ub),
                (0xA, ua <= ub),
                (0xB, a > b),
                (0xC, a >= b),
                (0xD, a < b),
                (0xE, a <= b),
            ];
            for (cond, holds) in expected {
                // CMP r0, r1 and then Jx 0x2000
                let mut cpu = power_up(
                    &[ldi(0, a), ldi(1, b), [0x54, 0x10, 0, 0], [0x12, cond, 0x00, 0x20]],
                    &[],
                );
                go(&mut cpu, 4);
                assert_eq!(cpu.pc() == 0x2000, holds, "{} against {}, condition {:#X}", a, b, cond);
                assert_eq!(cpu.register(0), a);
            }
        }
    }
}

#[test]
fn cmpi_of_the_smallest_number_with_one_is_less() {
    // -32768 - 1 overflows to 0x7FFF: O is set and N is not, so `O != N` holds
    let mut cpu = power_up(&[ldi(0, -32768), [0x53, 0x00, 0x01, 0x00]], &[]);
    go(&mut cpu, 2);
    assert_eq!(cpu.flags(), flags(false, false, true, false));
    assert_eq!(cpu.flags().test(0xD), Ok(true));
    assert_eq!(cpu.flags().test(0xC), Ok(false));
    assert_eq!(cpu.register(0), -32768);
}

#[test]
fn and_or_xor_set_zero_and_negative_only() {
    // carry and overflow come from 0x8000 + 0x8000 and must stay
    let prelude = [ldi(5, -32768), [0x41, 0x55, 0, 0]];
    let run = |opcode: u8, a: i16, b: i16| {
        let mut program = prelude.to_vec();
        program.extend_from_slice(&[ldi(0, a), ldi(1, b), [opcode, 0x10, 0, 0]]);
        let mut cpu = power_up(&program, &[]);
        go(&mut cpu, 5);
        (cpu.register(0), cpu.flags())
    };
    assert_eq!(run(0x61, 0x0FF0, 0x00FF), (0x00F0, flags(true, false, true, false)));
    assert_eq!(run(0x61, 0x0F00, 0x00FF), (0, flags(true, true, true, false)));
    assert_eq!(run(0x61, -1, -32768), (-32768, flags(true, false, true, true)));
    assert_eq!(run(0x71, 0x0F00, 0x00FF), (0x0FFF, flags(true, false, true, false)));
    assert_eq!(run(0x71, 0, 0), (0, flags(true, true, true, false)));
    assert_eq!(run(0x81, 0x0FF0, 0x00FF), (0x0F0F, flags(true, false, true, false)));
    assert_eq!(run(0x81, 0x1234, 0x1234), (0, flags(true, true, true, false)));
    assert_eq!(run(0x81, 0x7FFF, -1), (-32768, flags(true, false, true, true)));
}

#[test]
fn logic_forms() {
    // ANDI, ORI, XORI
    let mut cpu = power_up(
        &[
            ldi(0, 0x0FF0),
            [0x60, 0x00, 0xFF, 0x00],
            ldi(1, 0x0F00),
            [0x70, 0x01, 0xFF, 0x00],
            ldi(2, 0x0FF0),
            [0x80, 0x02, 0xFF, 0x00],
        ],
        &[],
    );
    go(&mut cpu, 6);
    assert_eq!(cpu.register(0), 0x00F0);
    assert_eq!(cpu.register(1), 0x0FFF);
    assert_eq!(cpu.register(2), 0x0F0F);
    // the three-register forms write R[z]
    let mut cpu = power_up(
        &[
            ldi(0, 0x0FF0),
            ldi(1, 0x00FF),
            [0x62, 0x10, 0x03, 0x00],
            [0x72, 0x10, 0x04, 0x00],
            [0x82, 0x10, 0x05, 0x00],
        ],
        &[],
    );
    go(&mut cpu, 5);
    assert_eq!(cpu.register(0), 0x0FF0);
    assert_eq!(cpu.register(3), 0x00F0);
    assert_eq!(cpu.register(4), 0x0FFF);
    assert_eq!(cpu.register(5), 0x0F0F);
}

#[test]
fn tst_sets_flags_and_keeps_registers() {
    let mut cpu = power_up(&[ldi(0, 0x0F00), ldi(1, 0x00FF), [0x64, 0x10, 0, 0]], &[]);
    go(&mut cpu, 3);
    assert_eq!(cpu.register(0), 0x0F00);
    assert!(cpu.flags().Z);
    let mut cpu = power_up(&[ldi(0, -1), [0x63, 0x00, 0x00, 0x80]], &[]);
    go(&mut cpu, 2);
    assert_eq!(cpu.register(0), -1);
    assert!(cpu.flags().N);
    assert!(!cpu.flags().Z);
}

#[test]
fn mul_flags() {
    assert_eq!(binary(0x91, 3, 4), (12, flags(false, false, false, false)));
    assert_eq!(binary(0x91, 0x0100, 0x0100), (0, flags(true, true, false, false)));
    assert_eq!(binary(0x91, 0x0100, 0x0080), (-32768, flags(false, false, false, true)));
    // -1 is the word 0xFFFF: 0xFFFF * 2 = 0x1FFFE
    assert_eq!(binary(0x91, -1, 2), (-2, flags(true, false, false, true)));
    assert_eq!(binary(0x91, -1, -1), (1, flags(true, false, false, false)));
    assert_eq!(binary(0x91, 0, 99), (0, flags(false, true, false, false)));
}

#[test]
fn mul_forms() {
    let mut cpu = power_up(&[ldi(0, 6), [0x90, 0x00, 0x07, 0x00]], &[]);
    go(&mut cpu, 2);
    assert_eq!(cpu.register(0), 42);
    let mut cpu = power_up(&[ldi(0, 6), ldi(1, 7), [0x92, 0x10, 0x02, 0x00]], &[]);
    go(&mut cpu, 3);
    assert_eq!(cpu.register(2), 42);
}

#[test]
fn div_rounds_toward_zero_and_reports_a_remainder_in_carry() {
    assert_eq!(binary(0xA1, 7, 2), (3, flags(true, false, false, false)));
    assert_eq!(binary(0xA1, -7, 2), (-3, flags(true, false, false, true)));
    assert_eq!(binary(0xA1, 7, -2), (-3, flags(true, false, false, true)));
    assert_eq!(binary(0xA1, -7, -2), (3, flags(true, false, false, false)));
    assert_eq!(binary(0xA1, 8, 2), (4, flags(false, false, false, false)));
    assert_eq!(binary(0xA1, 1, 2), (0, flags(true, true, false, false)));
    assert_eq!(binary(0xA1, 0, 5), (0, flags(false, true, false, false)));
    assert_eq!(binary(0xA1, -32768, -1), (-32768, flags(false, false, false, true)));
    assert_eq!(binary(0xA1, -32768, 1), (-32768, flags(false, false, false, true)));
}

#[test]
fn mod_has_the_sign_of_the_divisor() {
    assert_eq!(binary(0xA4, 7, 3).0, 1);
    assert_eq!(binary(0xA4, -7, 3).0, 2);
    assert_eq!(binary(0xA4, 7, -3).0, -2);
    assert_eq!(binary(0xA4, -7, -3).0, -1);
    assert_eq!(binary(0xA4, 6, 3), (0, flags(false, true, false, false)));
    assert_eq!(binary(0xA4, -6, -3).0, 0);
    assert_eq!(binary(0xA4, 7, -3).1, flags(false, false, false, true));
    assert_eq!(binary(0xA4, -32768, -1).0, 0);
    assert_eq!(binary(0xA4, -32768, 32767).0, 32766);
}

#[test]
fn rem_has_the_sign_of_the_dividend() {
    assert_eq!(binary(0xA7, 7, 3).0, 1);
    assert_eq!(binary(0xA7, -7, 3), (-1, flags(false, false, false, true)));
    assert_eq!(binary(0xA7, 7, -3).0, 1);
    assert_eq!(binary(0xA7, -7, -3).0, -1);
    assert_eq!(binary(0xA7, 6, 3), (0, flags(false, true, false, false)));
    assert_eq!(binary(0xA7, -32768, -1).0, 0);
}

#[test]
fn mod_and_rem_keep_carry() {
    // carry from 0xFFFF + 1, then MOD and REM
    for opcode in [0xA4u8, 0xA7] {
        let mut cpu = power_up(
            &[ldi(5, -1), [0x40, 0x05, 0x01, 0x00], ldi(0, 7), ldi(1, 3), [opcode, 0x10, 0, 0]],
            &[],
        );
        go(&mut cpu, 5);
        assert!(cpu.flags().C);
        assert_eq!(cpu.register(0), 1);
    }
}

#[test]
fn division_forms() {
    // DIVI, MODI, REMI
    let mut cpu = power_up(
        &[
            ldi(0, -9),
            [0xA0, 0x00, 0x02, 0x00],
            ldi(1, -9),
            [0xA3, 0x01, 0x02, 0x00],
            ldi(2, -9),
            [0xA6, 0x02, 0x02, 0x00],
        ],
        &[],
    );
    go(&mut cpu, 6);
    assert_eq!(cpu.register(0), -4);
    assert_eq!(cpu.register(1), 1);
    assert_eq!(cpu.register(2), -1);
    // three-register forms
    let mut cpu = power_up(
        &[
            ldi(0, -9),
            ldi(1, 2),
            [0xA2, 0x10, 0x03, 0x00],
            [0xA5, 0x10, 0x04, 0x00],
            [0xA8, 0x10, 0x05, 0x00],
        ],
        &[],
    );
    go(&mut cpu, 5);
    assert_eq!(cpu.register(0), -9);
    assert_eq!(cpu.register(3), -4);
    assert_eq!(cpu.register(4), 1);
    assert_eq!(cpu.register(5), -1);
}

#[test]
fn division_by_zero_is_a_fault_and_changes_nothing() {
    for opcode in [0xA1u8, 0xA2, 0xA4, 0xA5, 0xA7, 0xA8] {
        let mut cpu = power_up(&[ldi(0, 7), [opcode, 0x10, 0x02, 0x00]], &[]);
        go(&mut cpu, 1);
        assert_eq!(cpu.step(), Err("Division by zero".to_string()));
        assert_eq!(cpu.register(0), 7);
        assert_eq!(cpu.register(2), 0);
        assert_eq!(cpu.flags(), flags(false, false, false, false));
    }
    for opcode in [0xA0u8, 0xA3, 0xA6] {
        let mut cpu = power_up(&[ldi(0, 7), [opcode, 0x00, 0x00, 0x00]], &[]);
        go(&mut cpu, 1);
        assert_eq!(cpu.step(), Err("Division by zero".to_string()));
        assert_eq!(cpu.register(0), 7);
    }
}

#[test]
fn shifts_by_a_constant() {
    let shift = |opcode: u8, a: i16, n: u8| {
        let mut cpu = power_up(&[ldi(0, a), [opcode, 0x00, n, 0x00]], &[]);
        go(&mut cpu, 2);
        (cpu.register(0), cpu.flags())
    };
    assert_eq!(shift(0xB0, 1, 4), (16, flags(false, false, false, false)));
    assert_eq!(shift(0xB0, 0x4000, 1), (-32768, flags(false, false, false, true)));
    assert_eq!(shift(0xB0, -32768, 1), (0, flags(false, true, false, false)));
    assert_eq!(shift(0xB0, 0x1234, 0), (0x1234, flags(false, false, false, false)));
    assert_eq!(shift(0xB0, 1, 15), (-32768, flags(false, false, false, true)));
    assert_eq!(shift(0xB1, -32768, 15), (1, flags(false, false, false, false)));
    assert_eq!(shift(0xB1, -1, 1), (0x7FFF, flags(false, false, false, false)));
    assert_eq!(shift(0xB1, 1, 1), (0, flags(false, true, false, false)));
    assert_eq!(shift(0xB2, -32768, 15), (-1, flags(false, false, false, true)));
    assert_eq!(shift(0xB2, -4, 1), (-2, flags(false, false, false, true)));
    assert_eq!(shift(0xB2, 0x4000, 14), (1, flags(false, false, false, false)));
    // only the low nibble of byte 2 counts
    assert_eq!(shift(0xB0, 1, 0xF2).0, 4);
}

#[test]
fn shifts_by_a_register_use_its_low_four_bits() {
    assert_eq!(binary(0xB3, 1, 3).0, 8);
    assert_eq!(binary(0xB3, 1, 0x13).0, 8);
    assert_eq!(binary(0xB3, 1, -1).0, -32768);
    assert_eq!(binary(0xB4, -32768, 15).0, 1);
    assert_eq!(binary(0xB4, -32768, 0x1F).0, 1);
    assert_eq!(binary(0xB5, -32768, 15), (-1, flags(false, false, false, true)));
    assert_eq!(binary(0xB5, -32768, 16).0, -32768);
}

#[test]
fn not_and_neg() {
    let unary = |program: &[[u8; 4]], r: usize| {
        let mut cpu = power_up(program, &[]);
        go(&mut cpu, program.len());
        (cpu.register(r), cpu.flags())
    };
    // NOTI r0, 0x00FF
    assert_eq!(unary(&[[0xE0, 0x00, 0xFF, 0x00]], 0), (-256, flags(false, false, false, true)));
    assert_eq!(unary(&[[0xE0, 0x00, 0xFF, 0xFF]], 0), (0, flags(false, true, false, false)));
    // NOT r0
    assert_eq!(unary(&[ldi(0, 0), [0xE1, 0x00, 0, 0]], 0), (-1, flags(false, false, false, true)));
    // NOT r0, r1
    assert_eq!(unary(&[ldi(1, 0x7FFF), [0xE2, 0x10, 0, 0]], 0).0, -32768);
    // NEGI r0, 5
    assert_eq!(unary(&[[0xE3, 0x00, 0x05, 0x00]], 0), (-5, flags(false, false, false, true)));
    // NEG r0
    assert_eq!(unary(&[ldi(0, -5), [0xE4, 0x00, 0, 0]], 0), (5, flags(false, false, false, false)));
    assert_eq!(unary(&[ldi(0, 0), [0xE4, 0x00, 0, 0]], 0), (0, flags(false, true, false, false)));
    // the most negative number is its own negation
    assert_eq!(
        unary(&[ldi(0, -32768), [0xE4, 0x00, 0, 0]], 0),
        (-32768, flags(false, false, false, true))
    );
    // NEG r0, r1
    assert_eq!(unary(&[ldi(1, 7), [0xE5, 0x10, 0, 0]], 0).0, -7);
}

#[test]
fn jmp_forms() {
    // JMP r2
    let mut cpu = power_up(&[ldi(2, -2), [0x16, 0x02, 0, 0]], &[]);
    go(&mut cpu, 2);
    assert_eq!(cpu.pc(), 0xFFFE);
    // JMC is taken with carry only
    let mut cpu = power_up(&[[0x11, 0x00, 0x00, 0x20]], &[]);
    go(&mut cpu, 1);
    assert_eq!(cpu.pc(), 4);
    let mut cpu = power_up(&[ldi(0, -1), [0x40, 0x00, 0x01, 0x00], [0x11, 0x00, 0x00, 0x20]], &[]);
    go(&mut cpu, 3);
    assert_eq!(cpu.pc(), 0x2000);
    // JME
    let mut cpu = power_up(&[ldi(0, 4), ldi(1, 4), [0x13, 0x10, 0x00, 0x20]], &[]);
    go(&mut cpu, 3);
    assert_eq!(cpu.pc(), 0x2000);
    let mut cpu = power_up(&[ldi(0, 4), ldi(1, 5), [0x13, 0x10, 0x00, 0x20]], &[]);
    go(&mut cpu, 3);
    assert_eq!(cpu.pc(), 12);
}

#[test]
fn every_branch_condition() {
    // for each flag setting and condition, Jx jumps exactly when the table says so
    let table = |c: bool, z: bool, o: bool, n: bool| -> [bool; 15] {
        [
            z,
            !z,
            n,
            !n,
            !z && !n,
            o,
            !o,
            !c && !z,
            !c,
            c,
            c || z,
            o == n && !z,
            o == n,
            o != n,
            o != n || z,
        ]
    };
    for bits in 0..16u8 {
        let f = flags(bits & 1 != 0, bits & 2 != 0, bits & 4 != 0, bits & 8 != 0);
        let expected = table(f.C, f.Z, f.O, f.N);
        for cond in 0..15u8 {
            // the flags come in through POPF
            let mut cpu = power_up(
                &[[0x21, 0, 0x02, 0x30], [0xC5, 0, 0, 0], [0x12, cond, 0x00, 0x20]],
                &[(0x3000, f.to_byte())],
            );
            go(&mut cpu, 3);
            assert_eq!(cpu.flags(), f);
            let taken = cpu.pc() == 0x2000;
            assert!(taken || cpu.pc() == 12);
            assert_eq!(taken, expected[cond as usize], "flags {:?} condition {:#X}", f, cond);
            assert_eq!(f.test(cond), Ok(expected[cond as usize]));
        }
    }
}

#[test]
fn condition_fifteen_is_invalid() {
    for opcode in [0x12u8, 0x17] {
        let mut cpu = power_up(&[[opcode, 0x0F, 0x00, 0x20]], &[]);
        assert_eq!(cpu.step(), Err("Invalid condition".to_string()));
        assert_eq!(cpu.pc(), 4);
        assert_eq!(cpu.sp(), 0xFDF0);
    }
    assert_eq!(FLAGS::new().test(0x0F), Err("Invalid condition".to_string()));
    assert_eq!(FLAGS::new().test(0xFF), Err("Invalid condition".to_string()));
}

#[test]
fn the_high_nibble_of_byte_one_does_not_reach_the_condition() {
    // condition 1 (not zero) with a high nibble set
    let mut cpu = power_up(&[[0x12, 0xF1, 0x00, 0x20]], &[]);
    go(&mut cpu, 1);
    assert_eq!(cpu.pc(), 0x2000);
}

#[test]
fn flags_byte_layout() {
    assert_eq!(flags(true, false, false, false).to_byte(), 0b0000_0010);
    assert_eq!(flags(false, true, false, false).to_byte(), 0b0000_0100);
    assert_eq!(flags(false, false, true, false).to_byte(), 0b0100_0000);
    assert_eq!(flags(false, false, false, true).to_byte(), 0b1000_0000);
    assert_eq!(flags(true, true, true, true).to_byte(), 0b1100_0110);
    assert_eq!(FLAGS::new().to_byte(), 0);
    assert_eq!(FLAGS::from_byte(0b1100_0110), flags(true, true, true, true));
    // the other bits do not count
    assert_eq!(FLAGS::from_byte(0b0011_1001), flags(false, false, false, false));
    assert_eq!(FLAGS::from_byte(0b0100_0010), flags(true, false, true, false));
}

#[test]
fn pushf_leaves_the_byte_above_alone() {
    let mut cpu = power_up(&[[0x21, 0, 0x00, 0x30], [0xC4, 0, 0, 0]], &[(0x3001, 0x77)]);
    go(&mut cpu, 2);
    assert_eq!(cpu.mem_byte(0x3000), 0);
    assert_eq!(cpu.mem_byte(0x3001), 0x77);
    assert_eq!(cpu.sp(), 0x3002);
}

#[test]
fn bgc_and_spr_and_flip() {
    let mut cpu = power_up(
        &[[0x03, 0x00, 0xFA, 0x00], [0x04, 0x00, 0x08, 0x10], [0x08, 0x00, 0x00, 0x01]],
        &[],
    );
    go(&mut cpu, 2);
    assert_eq!(cpu.bgc(), 0x0A);
    let g = cpu.graphics();
    assert_eq!((g.spritew, g.spriteh), (8, 16));
    assert!(!g.hflip && !g.vflip);
    go(&mut cpu, 1);
    let g = cpu.graphics();
    assert!(g.vflip && !g.hflip);
    let mut cpu = power_up(&[[0x08, 0x00, 0x00, 0x02]], &[]);
    go(&mut cpu, 1);
    assert!(cpu.graphics().hflip && !cpu.graphics().vflip);
    let mut cpu = power_up(&[[0x08, 0x00, 0xFF, 0x03], [0x08, 0x00, 0x00, 0xFC]], &[]);
    go(&mut cpu, 1);
    assert!(cpu.graphics().hflip && cpu.graphics().vflip);
    go(&mut cpu, 1);
    assert!(!cpu.graphics().hflip && !cpu.graphics().vflip);
}

#[test]
fn cls_clears_the_screen_and_the_background() {
    let mut cpu = power_up(
        &[
            [0x03, 0x00, 0x07, 0x00],
            [0x04, 0x00, 0x01, 0x01],
            [0x05, 0x10, 0x00, 0x01],
            [0x01, 0x00, 0x00, 0x00],
        ],
        &[(0x0100, 0x5A)],
    );
    go(&mut cpu, 3);
    assert_eq!(cpu.bgc(), 7);
    assert_eq!(&cpu.screen()[0..3], &[5, 10, 0]);
    go(&mut cpu, 1);
    assert_eq!(cpu.bgc(), 0);
    assert!(cpu.screen().iter().all(|px| *px == 0));
}

#[test]
fn pal_loads_sixteen_colours() {
    let mut data: Vec<(usize, u8)> = Vec::new();
    for k in 0..48usize {
        data.push((0x4000 + k, (k as u8) * 5));
    }
    let mut cpu = power_up(&[[0xD0, 0x00, 0x00, 0x40]], &data);
    go(&mut cpu, 1);
    let palette = cpu.palette();
    for idx in 0..16u32 {
        let (r, g, b) = (15 * idx, 15 * idx + 5, 15 * idx + 10);
        assert_eq!(palette[idx as usize], (r << 16) | (g << 8) | b);
    }
    // PAL rx
    let mut cpu = power_up(&[ldi(3, 0x4000), [0xD1, 0x03, 0, 0]], &data);
    go(&mut cpu, 2);
    assert_eq!(cpu.palette()[1], 0x0F_14_19);
    assert_eq!(cpu.palette()[15], (225 << 16) | (230 << 8) | 235);
}

#[test]
fn pal_wraps_at_the_end_of_memory() {
    let mut cpu = power_up(
        &[[0xD0, 0x00, 0xFE, 0xFF]],
        &[(0xFFFE, 0x11), (0xFFFF, 0x22)],
    );
    go(&mut cpu, 1);
    // the third byte of the first colour is the opcode byte at address 0
    assert_eq!(cpu.palette()[0], 0x1122D0);
    assert_eq!(cpu.palette()[1], 0x00FEFF);
}

#[test]
fn rnd_stays_within_its_bound() {
    let mut cpu = power_up(&[ldi(4, 77), [0x07, 0x04, 0x00, 0x00]], &[]);
    go(&mut cpu, 2);
    assert_eq!(cpu.register(4), 0);
    let mut seen = [false; 6];
    for _ in 0..400 {
        let mut cpu = power_up(&[[0x07, 0x04, 0x05, 0x00]], &[]);
        go(&mut cpu, 1);
        let v = cpu.register(4);
        assert!((0..=5).contains(&v));
        seen[v as usize] = true;
    }
    // with 400 draws from six numbers, each has come up
    assert!(seen.iter().all(|s| *s));
}

#[test]
fn rnd_with_the_largest_bound_fills_all_sixteen_bits() {
    let mut negative = false;
    for _ in 0..64 {
        let mut cpu = power_up(&[[0x07, 0x04, 0xFF, 0xFF]], &[]);
        go(&mut cpu, 1);
        negative = negative || cpu.register(4) < 0;
    }
    assert!(negative);
}

#[test]
fn step_with_stores_the_number_it_is_given() {
    let mut cpu = power_up(&[[0x07, 0x04, 0xFF, 0xFF], [0x07, 0x05, 0xFF, 0xFF]], &[]);
    assert_eq!(cpu.step_with(0x1234), Ok(false));
    assert_eq!(cpu.register(4), 0x1234);
    assert_eq!(cpu.step_with(0xFFFE), Ok(false));
    assert_eq!(cpu.register(5), -2);
    // other instructions do not read the number
    let mut cpu = power_up(&[ldi(1, 9)], &[]);
    assert_eq!(cpu.step_with(0x7777), Ok(false));
    assert_eq!(cpu.register(1), 9);
}

#[test]
fn snd_instructions_start_a_square_tone() {
    for (opcode, hz) in [(0x0Au8, 500), (0x0B, 1000), (0x0C, 1500)] {
        let mut cpu = power_up(&[[opcode, 0x00, 0xE8, 0x03]], &[]);
        go(&mut cpu, 1);
        let audio = cpu.audio_state();
        assert_eq!(audio.frequency, hz);
        assert_eq!(audio.duration_ms, 1000);
        assert_eq!(audio.total_duration_ms, 1000);
        assert!(audio.playing);
        assert!(audio.running);
        assert!(!audio.use_custom_params);
        assert_eq!(audio.wave_form, WaveForm::Square);
        assert_eq!(audio.volume_divisor, 1);
        assert_eq!(audio.request, WaveRequest::Load);
        assert_eq!(audio.wave.frequency, hz);
        assert_eq!(audio.wave.wave_form, WaveForm::Square);
        assert_eq!(audio.wave.sample_inc, 1);
        assert!(!audio.wave.use_custom_params);
    }
}

#[test]
fn snd0_stops_the_tone() {
    let mut cpu = power_up(&[[0x0A, 0x00, 0xE8, 0x03], [0x09, 0, 0, 0]], &[]);
    go(&mut cpu, 2);
    let audio = cpu.audio_state();
    assert!(!audio.playing);
    assert!(!audio.running);
    assert_eq!(audio.frequency, 0);
    assert_eq!(audio.request, WaveRequest::Reset);
    assert_eq!(audio.wave.sample_inc, 0);
    cpu.acknowledge_audio();
    assert_eq!(cpu.audio_state().request, WaveRequest::Idle);
}

#[test]
fn sng_sets_the_envelope_and_snp_plays_with_it() {
    // attack 1 (8 ms), decay 2 (48 ms), sustain 12, release 3 (72 ms), volume 15, sawtooth
    let mut cpu = power_up(
        &[[0x0E, 0x12, 0xC3, 0xF1], ldi(6, 0x5000), [0x0D, 0x06, 0xC8, 0x00]],
        &[(0x5000, 0xB8), (0x5001, 0x01)],
    );
    go(&mut cpu, 1);
    let audio = cpu.audio_state();
    assert_eq!((audio.attack, audio.decay, audio.release), (1, 2, 3));
    assert_eq!(audio.sustain_divisor, 8);
    assert_eq!(audio.volume_divisor, 2);
    assert_eq!(audio.wave_form, WaveForm::Sawtooth);
    assert!(!audio.playing);
    go(&mut cpu, 2);
    let audio = cpu.audio_state();
    assert_eq!(audio.frequency, 440);
    assert_eq!(audio.duration_ms, 200);
    // 8 + 48 + (200 - 56) + 72
    assert_eq!(audio.total_duration_ms, 272);
    assert!(audio.playing && audio.running && audio.use_custom_params);
    assert_eq!(audio.request, WaveRequest::Load);
    assert_eq!(audio.wave.attack_samples, 8 * 48);
    assert_eq!(audio.wave.decay_samples, 48 * 48);
    assert_eq!(audio.wave.sustain_samples, 144 * 48);
    assert_eq!(audio.wave.release_samples, 72 * 48);
    assert_eq!(audio.wave.volume_divisor, 2);
    assert_eq!(audio.wave.sustain_divisor, 8);
    assert_eq!(audio.wave.wave_form, WaveForm::Sawtooth);
    assert_eq!(audio.wave.frequency, 440);
}

#[test]
fn sng_with_an_unknown_waveform_is_a_fault_after_the_indices_were_stored() {
    let mut cpu = power_up(&[[0x0E, 0x12, 0xC3, 0xF4]], &[]);
    assert_eq!(cpu.step(), Err("Invalid wave type index".to_string()));
    let audio = cpu.audio_state();
    assert_eq!((audio.attack, audio.decay, audio.release), (1, 2, 3));
    assert_eq!(audio.sustain_divisor, 8);
    assert_eq!(audio.volume_divisor, 2);
    assert_eq!(audio.wave_form, WaveForm::Square);
}
