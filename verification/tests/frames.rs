use chip16::cpu::CPU;
use chip16::machine::{button_mask, frame_sleep_nanos, Button, FRAME_NANOS};
use chip16::state::{CONTROLLER_0, CONTROLLER_1, FRAME_CYCLES, STACK_START};

fn idle() -> CPU {
    // JMP 0x0000 for ever
    let mut mem = [0u8; 65536];
    mem[0..4].copy_from_slice(&[0x10, 0x00, 0x00, 0x00]);
    let mut cpu = CPU::new(&mut mem);
    cpu.init();
    cpu
}

#[test]
fn machine_constants() {
    assert_eq!(FRAME_CYCLES, 16666);
    assert_eq!(FRAME_CYCLES, 1_000_000 / 60);
    assert_eq!(CONTROLLER_0, 0xFFF0);
    assert_eq!(CONTROLLER_1, 0xFFF2);
    assert_eq!(STACK_START, 0xFDF0);
    assert_eq!(FRAME_NANOS, 1_000_000_000 / 60);
}

#[test]
fn a_frame_has_16666_instructions() {
    let mut cpu = idle();
    for frame in 0..3 {
        for k in 1..=16666u32 {
            let boundary = cpu.step().expect("JMP runs");
            assert_eq!(boundary, k == 16666, "frame {} instruction {}", frame, k);
            assert_eq!(cpu.vblnk(), boundary);
            assert_eq!(cpu.cycles(), k % 16666);
        }
    }
}

#[test]
fn the_vblank_latch_lasts_one_instruction() {
    let mut cpu = idle();
    for _ in 0..16666 {
        cpu.step().expect("JMP runs");
    }
    assert!(cpu.vblnk());
    cpu.step().expect("JMP runs");
    assert!(!cpu.vblnk());
}

#[test]
fn sleep_is_what_is_left_of_the_frame() {
    assert_eq!(frame_sleep_nanos(0), 16_666_666);
    assert_eq!(frame_sleep_nanos(6_666_666), 10_000_000);
    assert_eq!(frame_sleep_nanos(16_666_665), 1);
    assert_eq!(frame_sleep_nanos(16_666_666), 0);
    assert_eq!(frame_sleep_nanos(16_666_667), 0);
    assert_eq!(frame_sleep_nanos(u128::MAX), 0);
}

#[test]
fn each_button_has_its_bit() {
    let buttons = [
        Button::Up,
        Button::Down,
        Button::Left,
        Button::Right,
        Button::Select,
        Button::Start,
        Button::A,
        Button::B,
    ];
    for (bit, button) in buttons.iter().enumerate() {
        assert_eq!(button_mask(*button), 1u8 << bit);
    }
}

#[test]
fn keys_set_and_clear_bits_of_the_first_controller() {
    let mut cpu = idle();
    cpu.key_down(Button::Up);
    cpu.key_down(Button::B);
    assert_eq!(cpu.controls(), [0b1000_0001, 0]);
    cpu.key_down(Button::Up);
    assert_eq!(cpu.controls(), [0b1000_0001, 0]);
    cpu.key_up(Button::Up);
    assert_eq!(cpu.controls(), [0b1000_0000, 0]);
    cpu.key_up(Button::Start);
    assert_eq!(cpu.controls(), [0b1000_0000, 0]);
    // memory sees the controller only when it is latched
    assert_eq!(cpu.mem_byte(0xFFF0), 0);
    cpu.update_control_mem();
    assert_eq!(cpu.mem_byte(0xFFF0), 0b1000_0000);
    assert_eq!(cpu.mem_byte(0xFFF1), 0);
    assert_eq!(cpu.mem_byte(0xFFF2), 0);
}

#[test]
fn a_key_pressed_and_let_go_within_a_frame_is_seen_once() {
    let mut cpu = idle();
    cpu.end_frame(0, &[Button::A, Button::Left], &[Button::A]);
    assert_eq!(cpu.mem_byte(0xFFF0), 0b0100_0100);
    assert_eq!(cpu.controls(), [0b0000_0100, 0]);
    cpu.end_frame(0, &[], &[]);
    assert_eq!(cpu.mem_byte(0xFFF0), 0b0000_0100);
    cpu.end_frame(0, &[Button::Down], &[Button::Left, Button::Down, Button::Up]);
    assert_eq!(cpu.mem_byte(0xFFF0), 0b0000_0110);
    assert_eq!(cpu.controls(), [0, 0]);
    cpu.end_frame(0, &[], &[]);
    assert_eq!(cpu.mem_byte(0xFFF0), 0);
}

#[test]
fn a_program_reads_the_controller_from_memory() {
    // LDM r0, 0xFFF0
    let mut mem = [0u8; 65536];
    mem[0..4].copy_from_slice(&[0x22, 0x00, 0xF0, 0xFF]);
    let mut cpu = CPU::new(&mut mem);
    cpu.init();
    cpu.end_frame(0, &[Button::Right, Button::Start], &[]);
    cpu.step().expect("LDM runs");
    assert_eq!(cpu.register(0), 0b0010_1000);
}

#[test]
fn a_finished_tone_is_stopped_at_the_frame_boundary() {
    // SND1 100 ms
    let mut mem = [0u8; 65536];
    mem[0..4].copy_from_slice(&[0x0A, 0x00, 0x64, 0x00]);
    let mut cpu = CPU::new(&mut mem);
    cpu.init();
    cpu.step().expect("SND1 runs");
    cpu.end_frame(100_000_000, &[], &[]);
    assert!(cpu.audio_state().playing);
    cpu.poll_audio(99_999_999);
    assert!(cpu.audio_state().playing);
    cpu.end_frame(100_000_001, &[], &[]);
    assert!(!cpu.audio_state().playing);
    assert!(!cpu.audio_state().running);
}

#[test]
fn a_machine_is_valid_once_its_table_is_filled() {
    let mut mem = [0u8; 65536];
    let mut cpu = CPU::new(&mut mem);
    assert!(!cpu.is_valid());
    cpu.init();
    assert!(cpu.is_valid());
    for _ in 0..100 {
        cpu.step().expect("NOP runs");
    }
    cpu.end_frame(5, &[Button::A], &[Button::B]);
    assert!(cpu.is_valid());
}

#[test]
fn execute_runs_one_instruction_without_fetching() {
    let mut mem = [0u8; 65536];
    let mut cpu = CPU::new(&mut mem);
    cpu.init();
    assert_eq!(cpu.execute(&[0x20, 0x03, 0x34, 0x12]), Ok(()));
    assert_eq!(cpu.register(3), 0x1234);
    assert_eq!(cpu.pc(), 0);
    assert_eq!(cpu.cycles(), 0);
    assert_eq!(cpu.execute(&[0x10, 0x00, 0x00, 0x20]), Ok(()));
    assert_eq!(cpu.pc(), 0x2000);
    assert_eq!(cpu.execute_with(&[0x07, 0x05, 0x09, 0x00], 7), Ok(()));
    assert_eq!(cpu.register(5), 7);
    assert_eq!(cpu.execute(&[0x07, 0x05, 0x00, 0x00]), Ok(()));
    assert_eq!(cpu.register(5), 0);
    assert_eq!(cpu.execute(&[0xA1, 0x10, 0, 0]), Err("Division by zero".to_string()));
    assert_eq!(cpu.execute_with(&[0x12, 0x0F, 0, 0], 0), Err("Invalid condition".to_string()));
    assert_eq!(cpu.execute_with(&[0x44, 0, 0, 0], 0), Err("Invalid command".to_string()));
}
