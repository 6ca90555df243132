use chip16::cpu::{load_mem, CPU};

fn start(program: &[[u8; 4]], data: &[(usize, u8)]) -> CPU {
    let mut mem = [0u8; 65536];
    for (k, word) in program.iter().enumerate() {
        mem[4 * k..4 * k + 4].copy_from_slice(word);
    }
    for (addr, byte) in data {
        mem[*addr] = *byte;
    }
    let mut cpu = CPU::new(&mut mem);
    cpu.init();
    cpu
}

fn advance(cpu: &mut CPU, count: usize) {
    for _ in 0..count {
        cpu.step().expect("the instruction runs");
    }
}

#[test]
fn ordinary_instructions_move_the_program_counter_by_four() {
    let words: [[u8; 4]; 14] = [
        [0x00, 0x00, 0x00, 0x00],
        [0x01, 0x00, 0x00, 0x00],
        [0x03, 0x00, 0x05, 0x00],
        [0x07, 0x02, 0x10, 0x00],
        [0x0A, 0x00, 0x10, 0x00],
        [0x20, 0x03, 0x34, 0x12],
        [0x24, 0x21, 0x00, 0x00],
        [0x30, 0x03, 0x00, 0x20],
        [0x40, 0x01, 0x01, 0x00],
        [0x53, 0x01, 0x01, 0x00],
        [0x90, 0x01, 0x03, 0x00],
        [0xB0, 0x01, 0x03, 0x00],
        [0xC0, 0x01, 0x00, 0x00],
        [0xE3, 0x01, 0x07, 0x00],
    ];
    for word in words {
        let mut cpu = start(&[word], &[]);
        cpu.step().expect("the instruction runs");
        assert_eq!(cpu.pc(), 4, "opcode {:#04X}", word[0]);
    }
}

#[test]
fn a_faulting_instruction_has_still_moved_the_program_counter() {
    let mut cpu = start(&[[0x00, 0, 0, 0], [0x0F, 0, 0, 0]], &[]);
    advance(&mut cpu, 1);
    assert!(cpu.step().is_err());
    assert_eq!(cpu.pc(), 8);
    assert_eq!(cpu.cycles(), 1);
}

#[test]
fn the_program_counter_wraps_at_the_end_of_memory() {
    let mut mem = [0u8; 65536];
    // LDI r1, 0x0102 lies across the end of memory
    mem[0xFFFE] = 0x20;
    mem[0xFFFF] = 0x01;
    mem[0x0000] = 0x02;
    mem[0x0001] = 0x01;
    let mut cpu = CPU::new(&mut mem);
    cpu.init();
    cpu.set_pc([0xFE, 0xFF]);
    cpu.step().expect("LDI runs");
    assert_eq!(cpu.pc(), 2);
    assert_eq!(cpu.register(1), 0x0102);
}

#[test]
fn jumps_do_set_the_program_counter() {
    let mut cpu = start(&[[0x10, 0x00, 0x00, 0x20]], &[]);
    advance(&mut cpu, 1);
    assert_eq!(cpu.pc(), 0x2000);
}

#[test]
fn call_by_register_and_ret_come_back() {
    // LDI r3, 0x0400; CALL r3; at 0x0400: RET
    let mut cpu = start(
        &[[0x20, 0x03, 0x00, 0x04], [0x18, 0x03, 0x00, 0x00]],
        &[(0x0400, 0x15)],
    );
    advance(&mut cpu, 1);
    let sp = cpu.sp();
    advance(&mut cpu, 1);
    assert_eq!(cpu.pc(), 0x0400);
    assert_eq!(cpu.sp(), sp + 2);
    advance(&mut cpu, 1);
    assert_eq!(cpu.pc(), 8);
    assert_eq!(cpu.sp(), sp);
}

#[test]
fn conditional_call_taken_and_ret_come_back() {
    // CMPI r0, 0 sets Z; CZ 0x0400; at 0x0400: RET
    let mut cpu = start(
        &[[0x53, 0x00, 0x00, 0x00], [0x17, 0x00, 0x00, 0x04]],
        &[(0x0400, 0x15)],
    );
    advance(&mut cpu, 1);
    let sp = cpu.sp();
    advance(&mut cpu, 1);
    assert_eq!(cpu.pc(), 0x0400);
    advance(&mut cpu, 1);
    assert_eq!(cpu.pc(), 8);
    assert_eq!(cpu.sp(), sp);
}

#[test]
fn conditional_call_not_taken_goes_on() {
    // CMPI r0, 0 sets Z; CNZ 0x0400 is not taken
    let mut cpu = start(&[[0x53, 0x00, 0x00, 0x00], [0x17, 0x01, 0x00, 0x04]], &[]);
    let sp = cpu.sp();
    advance(&mut cpu, 2);
    assert_eq!(cpu.pc(), 8);
    assert_eq!(cpu.sp(), sp);
}

#[test]
fn call_and_ret_with_the_stack_across_the_end_of_memory() {
    // LDI SP, 0xFFFF; CALL 0x0400; RET
    let mut cpu = start(
        &[[0x21, 0x00, 0xFF, 0xFF], [0x14, 0x00, 0x00, 0x04]],
        &[(0x0400, 0x15)],
    );
    advance(&mut cpu, 2);
    assert_eq!(cpu.sp(), 1);
    assert_eq!(cpu.mem_byte(0xFFFF), 0x08);
    assert_eq!(cpu.mem_byte(0x0000), 0x00);
    advance(&mut cpu, 1);
    assert_eq!(cpu.sp(), 0xFFFF);
    assert_eq!(cpu.pc(), 8);
}

#[test]
fn pushf_then_popf_restores_the_flags() {
    // ADD makes C and Z and not N: 0xFFFF + 1
    let program = [
        [0x20, 0x00, 0xFF, 0xFF],
        [0x40, 0x00, 0x01, 0x00],
        [0xC4, 0x00, 0x00, 0x00],
        [0xC5, 0x00, 0x00, 0x00],
    ];
    let mut cpu = start(&program, &[]);
    advance(&mut cpu, 2);
    let before = cpu.flags();
    assert!(before.C && before.Z && !before.N && !before.O);
    let sp = cpu.sp();
    advance(&mut cpu, 1);
    assert_eq!(cpu.mem_byte(sp), 0b0000_0110);
    assert_eq!(cpu.sp(), sp + 2);
    advance(&mut cpu, 1);
    assert_eq!(cpu.flags(), before);
    assert_eq!(cpu.sp(), sp);
}

#[test]
fn popf_brings_back_flags_that_were_changed_since_pushf() {
    // O and N from 0x7FFF + 1; PUSHF; CMPI r1, 0 clears them; POPF
    let program = [
        [0x20, 0x00, 0xFF, 0x7F],
        [0x40, 0x00, 0x01, 0x00],
        [0xC4, 0x00, 0x00, 0x00],
        [0x53, 0x01, 0x00, 0x00],
        [0xC5, 0x00, 0x00, 0x00],
    ];
    let mut cpu = start(&program, &[]);
    advance(&mut cpu, 2);
    let before = cpu.flags();
    assert!(before.O && before.N && !before.C && !before.Z);
    let sp = cpu.sp();
    advance(&mut cpu, 1);
    assert_eq!(cpu.mem_byte(sp), 0b1100_0000);
    advance(&mut cpu, 1);
    assert!(cpu.flags().Z && !cpu.flags().N);
    advance(&mut cpu, 1);
    assert_eq!(cpu.flags(), before);
}

#[test]
fn pushall_then_popall_restores_every_register() {
    let mut program: Vec<[u8; 4]> = Vec::new();
    for r in 0..16u8 {
        program.push([0x20, r, 0x11 * r, 0xF0 ^ r]);
    }
    program.push([0xC2, 0, 0, 0]);
    for r in 0..16u8 {
        program.push([0x20, r, 0x55, 0x55]);
    }
    program.push([0xC3, 0, 0, 0]);
    let mut cpu = start(&program, &[]);
    advance(&mut cpu, 16);
    let sp = cpu.sp();
    let saved: Vec<i16> = (0..16).map(|r| cpu.register(r)).collect();
    assert_eq!(saved[3], i16::from_le_bytes([0x33, 0xF3]));
    advance(&mut cpu, 1);
    assert_eq!(cpu.sp(), sp + 32);
    for r in 0..16u16 {
        assert_eq!(load_mem(&cpu, sp + 2 * r) as i16, saved[r as usize]);
    }
    advance(&mut cpu, 16);
    for r in 0..16 {
        assert_eq!(cpu.register(r), 0x5555);
    }
    advance(&mut cpu, 1);
    assert_eq!(cpu.sp(), sp);
    for r in 0..16 {
        assert_eq!(cpu.register(r), saved[r]);
    }
}

#[test]
fn push_then_pop_moves_a_register() {
    // LDI r2, 0xBEEF; PUSH r2; POP r9
    let mut cpu = start(
        &[[0x20, 0x02, 0xEF, 0xBE], [0xC0, 0x02, 0, 0], [0xC1, 0x09, 0, 0]],
        &[],
    );
    let sp = cpu.sp();
    advance(&mut cpu, 2);
    assert_eq!(cpu.sp(), sp + 2);
    assert_eq!(load_mem(&cpu, sp), 0xBEEF);
    advance(&mut cpu, 1);
    assert_eq!(cpu.sp(), sp);
    assert_eq!(cpu.register(9), 0xBEEFu16 as i16);
}

#[test]
fn stm_then_ldm_at_an_immediate_address() {
    for value in [0x0000u16, 0x0001, 0x7FFF, 0x8000, 0xABCD, 0xFFFF] {
        let [lo, hi] = value.to_le_bytes();
        let mut cpu = start(
            &[[0x20, 0x04, lo, hi], [0x30, 0x04, 0x00, 0x30], [0x22, 0x0B, 0x00, 0x30]],
            &[],
        );
        advance(&mut cpu, 3);
        assert_eq!(cpu.register(11), value as i16);
        assert_eq!(cpu.register(11), cpu.register(4));
    }
}

#[test]
fn stm_then_ldm_at_an_address_in_a_register() {
    // LDI r1, 0x8001 (the address), LDI r4, 0x1234, STM r4, r1, LDM r7, r1
    let mut cpu = start(
        &[
            [0x20, 0x01, 0x01, 0x80],
            [0x20, 0x04, 0x34, 0x12],
            [0x31, 0x14, 0x00, 0x00],
            [0x23, 0x17, 0x00, 0x00],
        ],
        &[],
    );
    advance(&mut cpu, 4);
    assert_eq!(cpu.register(7), 0x1234);
    assert_eq!(cpu.mem_byte(0x8001), 0x34);
    assert_eq!(cpu.mem_byte(0x8002), 0x12);
}

#[test]
fn stm_stores_the_low_byte_first() {
    for (addr, value) in [(0x3000u16, 0xABCDu16), (0x0000, 0x00FF), (0xFFFE, 0xFF00), (0x1235, 1)] {
        let [lo, hi] = value.to_le_bytes();
        let [alo, ahi] = addr.to_le_bytes();
        let mut cpu = start(&[[0x20, 0x04, lo, hi], [0x30, 0x04, alo, ahi]], &[]);
        advance(&mut cpu, 2);
        assert_eq!(cpu.mem_byte(addr), (value & 0xFF) as u8);
        assert_eq!(cpu.mem_byte(addr.wrapping_add(1)), (value >> 8) as u8);
        assert_eq!(load_mem(&cpu, addr), value);
    }
}

#[test]
fn stm_at_the_last_address_wraps_to_the_first() {
    // LDI r4, 0xABCD; STM r4, 0xFFFF
    let mut cpu = start(&[[0x20, 0x04, 0xCD, 0xAB], [0x30, 0x04, 0xFF, 0xFF]], &[]);
    advance(&mut cpu, 2);
    assert_eq!(cpu.mem_byte(0xFFFF), 0xCD);
    assert_eq!(cpu.mem_byte(0x0000), 0xAB);
    assert_eq!(load_mem(&cpu, 0xFFFF), 0xABCD);
    // everything else stayed
    assert_eq!(cpu.mem_byte(0x0001), 0x04);
    assert_eq!(cpu.mem_byte(0xFFFE), 0x00);
}
