use chip16::alu::{count_of, op_add, op_div, op_mod, op_mul, op_neg, op_not, op_rem, op_sub};
use chip16::cpu::{load_mem, pop_reg, push_reg, store_mem, test_cond, CPU};
use chip16::flags::FLAGS;
use chip16::instruction::{hhll, high_nibble, imm, low_nibble, n, rx, rx_ry, rx_ry_rz};
use chip16::opcode::{build_table, decode, Opcode};
use chip16::word::{low_word, low_word_signed, to_signed, to_unsigned};

#[test]
fn operand_fields() {
    let word = [0x42, 0xA7, 0x3C, 0x91];
    assert_eq!(rx(&word), 7);
    assert_eq!(rx_ry(&word), (7, 10));
    assert_eq!(rx_ry_rz(&word), (7, 10, 12));
    assert_eq!(n(&word), 12);
    assert_eq!(hhll(&word), 0x913C);
    assert_eq!(imm(&word), 0x913Cu16 as i16);
    assert_eq!(high_nibble(0xA7), 0x0A);
    assert_eq!(low_nibble(0xA7), 0x07);
}

#[test]
fn the_immediate_is_little_endian() {
    assert_eq!(hhll(&[0, 0, 0x34, 0x12]), 0x1234);
    assert_eq!(hhll(&[0xFF, 0xFF, 0x00, 0x00]), 0);
    assert_eq!(hhll(&[0, 0, 0xFF, 0x00]), 0x00FF);
    assert_eq!(hhll(&[0, 0, 0x00, 0xFF]), 0xFF00);
    assert_eq!(hhll(&[0, 0, 0xFF, 0xFF]), 0xFFFF);
    assert_eq!(imm(&[0, 0, 0xFF, 0xFF]), -1);
    assert_eq!(imm(&[0, 0, 0x00, 0x80]), -32768);
}

#[test]
fn words_and_registers() {
    assert_eq!(to_unsigned(-1), 0xFFFF);
    assert_eq!(to_unsigned(-32768), 0x8000);
    assert_eq!(to_unsigned(0x1234), 0x1234);
    assert_eq!(to_signed(0xFFFF), -1);
    assert_eq!(to_signed(0x8000), -32768);
    assert_eq!(to_signed(0x7FFF), 32767);
    assert_eq!(low_word(0x0001_8000), -32768);
    assert_eq!(low_word(0xFFFE_0001), 1);
    assert_eq!(low_word_signed(-1), -1);
    assert_eq!(low_word_signed(32768), -32768);
    assert_eq!(low_word_signed(-32769), 32767);
    for x in [i16::MIN, -1, 0, 1, i16::MAX] {
        assert_eq!(to_signed(to_unsigned(x)), x);
    }
}

#[test]
fn memory_words_are_little_endian() {
    let mut mem = [0u8; 65536];
    mem[0x10] = 0xCD;
    mem[0x11] = 0xAB;
    let mut cpu = CPU::new(&mut mem);
    assert_eq!(load_mem(&cpu, 0x10), 0xABCD);
    store_mem(&mut cpu, 0x1234, 0x20);
    assert_eq!(cpu.mem_byte(0x20), 0x34);
    assert_eq!(cpu.mem_byte(0x21), 0x12);
    store_mem(&mut cpu, 0xFF00, 0x22);
    assert_eq!((cpu.mem_byte(0x22), cpu.mem_byte(0x23)), (0x00, 0xFF));
    assert_eq!(load_mem(&cpu, 0x22), 0xFF00);
    store_mem(&mut cpu, 0xBEEF, 0xFFFF);
    assert_eq!((cpu.mem_byte(0xFFFF), cpu.mem_byte(0x0000)), (0xEF, 0xBE));
    assert_eq!(load_mem(&cpu, 0xFFFF), 0xBEEF);
}

#[test]
fn the_stack_grows_upward() {
    let mut mem = [0u8; 65536];
    mem[0..4].copy_from_slice(&[0x20, 0x03, 0x34, 0x12]);
    let mut cpu = CPU::new(&mut mem);
    cpu.init();
    cpu.step().expect("LDI runs");
    push_reg(&mut cpu, 3);
    assert_eq!(cpu.sp(), 0xFDF2);
    assert_eq!(load_mem(&cpu, 0xFDF0), 0x1234);
    pop_reg(&mut cpu, 8);
    assert_eq!(cpu.sp(), 0xFDF0);
    assert_eq!(cpu.register(8), 0x1234);
}

#[test]
fn the_stack_pointer_wraps() {
    // LDI SP, 0x0000; POP r1 reads at 0xFFFE
    let mut mem = [0u8; 65536];
    mem[0..4].copy_from_slice(&[0x21, 0x00, 0x00, 0x00]);
    mem[0xFFFE] = 0x11;
    mem[0xFFFF] = 0x22;
    let mut cpu = CPU::new(&mut mem);
    cpu.init();
    cpu.step().expect("LDI runs");
    pop_reg(&mut cpu, 1);
    assert_eq!(cpu.sp(), 0xFFFE);
    assert_eq!(cpu.register(1), 0x2211);
    push_reg(&mut cpu, 1);
    assert_eq!(cpu.sp(), 0);
}

#[test]
fn test_cond_reads_the_low_nibble() {
    let mut mem = [0u8; 65536];
    let cpu = CPU::new(&mut mem);
    // no flag is set at power-on
    assert_eq!(test_cond(&cpu, &[0x12, 0x00, 0, 0]), Ok(false));
    assert_eq!(test_cond(&cpu, &[0x12, 0x01, 0, 0]), Ok(true));
    assert_eq!(test_cond(&cpu, &[0x12, 0xF0, 0, 0]), Ok(false));
    assert_eq!(test_cond(&cpu, &[0x12, 0x0C, 0, 0]), Ok(true));
    assert_eq!(test_cond(&cpu, &[0x12, 0x0F, 0, 0]), Err("Invalid condition".to_string()));
}

#[test]
fn alu_functions() {
    let mut f = FLAGS::new();
    assert_eq!(op_add(&mut f, 0x7FFF, 1), -32768);
    assert_eq!(f, FLAGS { C: false, Z: false, O: true, N: true });
    assert_eq!(op_sub(&mut f, 0, 1), -1);
    assert_eq!(f, FLAGS { C: true, Z: false, O: false, N: true });
    assert_eq!(op_mul(&mut f, 300, 300), 90000u32 as u16 as i16);
    assert_eq!(f, FLAGS { C: true, Z: false, O: false, N: false });
    assert_eq!(op_div(&mut f, -7, 3), -2);
    assert!(f.C && f.N && !f.Z);
    assert_eq!(op_mod(&mut f, -7, 3), 2);
    assert!(f.C && !f.N && !f.Z);
    assert_eq!(op_rem(&mut f, -7, 3), -1);
    assert!(f.N);
    assert_eq!(op_not(&mut f, 0x00FF), -256);
    assert_eq!(op_neg(&mut f, -32768), -32768);
    assert_eq!(op_neg(&mut f, 1), -1);
    assert_eq!(count_of(0x7FF3), 3);
    assert_eq!(count_of(-1), 15);
}

#[test]
fn the_dispatch_table_has_an_entry_for_every_byte() {
    let table = build_table();
    assert_eq!(table.len(), 256);
    for b in 0..=255u8 {
        assert_eq!(table[b as usize], decode(b));
    }
    assert_eq!(table[0x00], Opcode::Nop);
    assert_eq!(table[0x0E], Opcode::SngAdVtsr);
    assert_eq!(table[0x0F], Opcode::Invalid);
    assert_eq!(table[0x54], Opcode::CmpRxRy);
    assert_eq!(table[0xE5], Opcode::NegRxRy);
    assert_eq!(table[0xFF], Opcode::Invalid);
    assert_eq!(table.iter().filter(|op| **op != Opcode::Invalid).count(), 82);
}
