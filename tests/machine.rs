use chip8::cpu::{decode, Cpu, Fault, Instr};
use chip8::memory::{IO, PIXEL_ON, WIDTH};

fn boot(rom: &[u8]) -> (Cpu, IO) {
    (Cpu::new(), IO::new(rom))
}

fn run(cpu: &mut Cpu, io: &mut IO, steps: usize) {
    for _ in 0..steps {
        assert_eq!(cpu.step(io), Ok(()));
    }
}

#[test]
fn clear_load_add_scenario() {
    let (mut cpu, mut io) = boot(&[0x00, 0xE0, 0x60, 0x0A, 0x70, 0x05]);
    run(&mut cpu, &mut io, 3);
    assert_eq!(cpu.reg(0), 15);
    assert!(io.get_framebuffer().iter().all(|&p| p == 0));
    assert_eq!(cpu.pc(), 0x200 + 6);
}

#[test]
fn unknown_opcode_fails_with_address() {
    let (mut cpu, mut io) = boot(&[0xFF, 0xFF]);
    assert_eq!(cpu.step(&mut io), Err(Fault::Unsupported { op: 0xFFFF, addr: 0x200 }));
}

#[test]
fn unknown_opcode_after_jump_reports_its_address() {
    let (mut cpu, mut io) = boot(&[0x12, 0x04, 0x00, 0x00, 0x5A, 0xB1]);
    run(&mut cpu, &mut io, 1);
    assert_eq!(cpu.step(&mut io), Err(Fault::Unsupported { op: 0x5AB1, addr: 0x204 }));
}

#[test]
fn machine_code_call_fails() {
    let (mut cpu, mut io) = boot(&[0x01, 0x23]);
    assert_eq!(cpu.step(&mut io), Err(Fault::MachineCode { op: 0x0123, addr: 0x200 }));
}

#[test]
fn load_immediate_into_every_register() {
    let mut rom = Vec::new();
    for x in 0..16u8 {
        rom.push(0x60 | x);
        rom.push(0x10 + x * 3);
    }
    let (mut cpu, mut io) = boot(&rom);
    run(&mut cpu, &mut io, 16);
    for x in 0..16u8 {
        assert_eq!(cpu.reg(x), 0x10 + x * 3);
    }
}

#[test]
fn add_registers_carry() {
    let (mut cpu, mut io) = boot(&[0x60, 0xFF, 0x61, 0x02, 0x80, 0x14, 0x62, 0x10, 0x80, 0x24]);
    run(&mut cpu, &mut io, 3);
    assert_eq!(cpu.reg(0), 0x01);
    assert_eq!(cpu.reg(0xF), 1);
    run(&mut cpu, &mut io, 2);
    assert_eq!(cpu.reg(0), 0x11);
    assert_eq!(cpu.reg(0xF), 0);
}

#[test]
fn add_immediate_wraps_without_flag() {
    let (mut cpu, mut io) = boot(&[0x6F, 0x07, 0x60, 0xFE, 0x70, 0x05]);
    run(&mut cpu, &mut io, 3);
    assert_eq!(cpu.reg(0), 0x03);
    assert_eq!(cpu.reg(0xF), 0x07);
}

#[test]
fn sub_xy_borrow_flag() {
    let (mut cpu, mut io) = boot(&[0x60, 0x05, 0x61, 0x07, 0x80, 0x15, 0x62, 0x07, 0x63, 0x07, 0x82, 0x35]);
    run(&mut cpu, &mut io, 3);
    assert_eq!(cpu.reg(0), 254);
    assert_eq!(cpu.reg(0xF), 0);
    run(&mut cpu, &mut io, 3);
    assert_eq!(cpu.reg(2), 0);
    assert_eq!(cpu.reg(0xF), 1);
}

#[test]
fn sub_yx_borrow_flag() {
    let (mut cpu, mut io) = boot(&[0x60, 0x07, 0x61, 0x05, 0x80, 0x17, 0x62, 0x03, 0x63, 0x09, 0x82, 0x37]);
    run(&mut cpu, &mut io, 3);
    assert_eq!(cpu.reg(0), 254);
    assert_eq!(cpu.reg(0xF), 0);
    run(&mut cpu, &mut io, 3);
    assert_eq!(cpu.reg(2), 6);
    assert_eq!(cpu.reg(0xF), 1);
}

#[test]
fn shifts_flag_pre_shift_bits() {
    let (mut cpu, mut io) = boot(&[0x60, 0x03, 0x80, 0x06, 0x61, 0x81, 0x81, 0x0E, 0x62, 0x40, 0x82, 0x0E]);
    run(&mut cpu, &mut io, 2);
    assert_eq!(cpu.reg(0), 0x01);
    assert_eq!(cpu.reg(0xF), 1);
    run(&mut cpu, &mut io, 2);
    assert_eq!(cpu.reg(1), 0x02);
    assert_eq!(cpu.reg(0xF), 1);
    run(&mut cpu, &mut io, 2);
    assert_eq!(cpu.reg(2), 0x80);
    assert_eq!(cpu.reg(0xF), 0);
}

#[test]
fn bitwise_register_ops() {
    let (mut cpu, mut io) = boot(&[
        0x60, 0x0C, 0x61, 0x0A, 0x62, 0x0C, 0x63, 0x0C, 0x64, 0x00, //
        0x80, 0x11, 0x82, 0x12, 0x83, 0x13, 0x84, 0x10,
    ]);
    run(&mut cpu, &mut io, 9);
    assert_eq!(cpu.reg(0), 0x0E);
    assert_eq!(cpu.reg(2), 0x08);
    assert_eq!(cpu.reg(3), 0x06);
    assert_eq!(cpu.reg(4), 0x0A);
}

#[test]
fn store_bcd_of_255() {
    let (mut cpu, mut io) = boot(&[0x60, 0xFF, 0xA3, 0x00, 0xF0, 0x33]);
    run(&mut cpu, &mut io, 3);
    assert_eq!([io.read(0x300), io.read(0x301), io.read(0x302)], [2, 5, 5]);
}

#[test]
fn store_bcd_of_7() {
    let (mut cpu, mut io) = boot(&[0x65, 0x07, 0xA3, 0x00, 0xF5, 0x33]);
    run(&mut cpu, &mut io, 3);
    assert_eq!([io.read(0x300), io.read(0x301), io.read(0x302)], [0, 0, 7]);
}

#[test]
fn call_then_return() {
    // 0x200: call 0x206; 0x202: V1 := 1; 0x206: return
    let (mut cpu, mut io) = boot(&[0x22, 0x06, 0x61, 0x01, 0x00, 0x00, 0x00, 0xEE]);
    run(&mut cpu, &mut io, 1);
    assert_eq!(cpu.pc(), 0x206);
    assert_eq!(cpu.sp(), 0xEFD);
    assert_eq!(io.read(0xEFF), 0x02);
    assert_eq!(io.read(0xEFE), 0x02);
    run(&mut cpu, &mut io, 1);
    assert_eq!(cpu.pc(), 0x202);
    assert_eq!(cpu.sp(), 0xEFF);
    run(&mut cpu, &mut io, 1);
    assert_eq!(cpu.reg(1), 1);
}

#[test]
fn draw_twice_erases_and_collides() {
    // I := glyph "0"; draw it at (0, 0) twice
    let (mut cpu, mut io) = boot(&[0xA0, 0x00, 0xD0, 0x15, 0xD0, 0x15]);
    run(&mut cpu, &mut io, 2);
    assert_eq!(cpu.reg(0xF), 0);
    let fb = io.get_framebuffer();
    assert_eq!(&fb[0..4], &[PIXEL_ON; 4]);
    assert_eq!(fb[4], 0);
    assert_eq!(fb[WIDTH], PIXEL_ON);
    assert_eq!(fb[WIDTH + 1], 0);
    assert_eq!(fb[WIDTH + 3], PIXEL_ON);
    assert!(io.did_draw());
    run(&mut cpu, &mut io, 1);
    assert_eq!(cpu.reg(0xF), 1);
    assert!(io.get_framebuffer().iter().all(|&p| p == 0));
}

#[test]
fn overlapping_draw_without_erasure_reports_no_collision() {
    // glyph "1" row 0 is 0x20, glyph "0" row 0 is 0xF0: drawing "0" over "1"
    // turns pixel 2 off, so it collides; drawing "1" on a blank screen does not
    let (mut cpu, mut io) = boot(&[0xA0, 0x05, 0xD0, 0x11, 0xA0, 0x00, 0xD0, 0x11]);
    run(&mut cpu, &mut io, 2);
    assert_eq!(cpu.reg(0xF), 0);
    run(&mut cpu, &mut io, 2);
    assert_eq!(cpu.reg(0xF), 1);
    let fb = io.get_framebuffer();
    assert_eq!(&fb[0..4], &[PIXEL_ON, PIXEL_ON, 0, PIXEL_ON]);
}

#[test]
fn draw_clips_at_right_and_bottom_edges() {
    // V0 := 62, V1 := 30, I := glyph "0", draw 5 rows
    let (mut cpu, mut io) = boot(&[0x60, 0x3E, 0x61, 0x1E, 0xA0, 0x00, 0xD0, 0x15]);
    run(&mut cpu, &mut io, 4);
    assert_eq!(cpu.reg(0xF), 0);
    let fb = io.get_framebuffer();
    let lit: Vec<usize> = (0..fb.len()).filter(|&i| fb[i] != 0).collect();
    assert_eq!(lit, vec![30 * WIDTH + 62, 30 * WIDTH + 63, 31 * WIDTH + 62]);
}

#[test]
fn clipped_bits_never_collide() {
    // draw at (62, 0) twice: only in-grid pixels toggle, and they collide
    let (mut cpu, mut io) = boot(&[0x60, 0x3E, 0x61, 0x00, 0xA0, 0x00, 0xD0, 0x11, 0x6F, 0x00, 0xD0, 0x11]);
    run(&mut cpu, &mut io, 4);
    let fb = io.get_framebuffer();
    assert_eq!(fb[62], PIXEL_ON);
    assert_eq!(fb[63], PIXEL_ON);
    assert_eq!(fb[WIDTH], 0);
    assert_eq!(fb[WIDTH + 1], 0);
    run(&mut cpu, &mut io, 2);
    assert_eq!(cpu.reg(0xF), 1);
    assert!(io.get_framebuffer().iter().all(|&p| p == 0));
}

#[test]
fn clear_display_after_draw() {
    let (mut cpu, mut io) = boot(&[0xA0, 0x00, 0xD0, 0x15, 0x00, 0xE0]);
    run(&mut cpu, &mut io, 3);
    assert!(io.get_framebuffer().iter().all(|&p| p == 0));
}

#[test]
fn timers_count_down_every_sixty_steps() {
    // V0 := 10; delay := V0; sound := V0; loop forever
    let (mut cpu, mut io) = boot(&[0x60, 0x0A, 0xF0, 0x15, 0xF0, 0x18, 0x12, 0x06]);
    run(&mut cpu, &mut io, 59);
    assert_eq!(cpu.delay(), 10);
    assert_eq!(cpu.sound(), 10);
    run(&mut cpu, &mut io, 1);
    assert_eq!(cpu.delay(), 9);
    assert_eq!(cpu.sound(), 9);
    run(&mut cpu, &mut io, 60);
    assert_eq!(cpu.delay(), 8);
}

#[test]
fn timers_stop_at_zero() {
    let (mut cpu, mut io) = boot(&[0x60, 0x01, 0xF0, 0x15, 0x12, 0x04]);
    run(&mut cpu, &mut io, 200);
    assert_eq!(cpu.delay(), 0);
    assert_eq!(cpu.sound(), 0);
}

#[test]
fn read_delay_into_register() {
    let (mut cpu, mut io) = boot(&[0x60, 0x2A, 0xF0, 0x15, 0xF3, 0x07]);
    run(&mut cpu, &mut io, 3);
    assert_eq!(cpu.reg(3), 0x2A);
}

#[test]
fn skip_instructions() {
    // V0 := 5; skip if V0 == 5; V1 := 1 (skipped); skip if V0 != 5; V2 := 2
    let (mut cpu, mut io) = boot(&[0x60, 0x05, 0x30, 0x05, 0x61, 0x01, 0x40, 0x05, 0x62, 0x02]);
    run(&mut cpu, &mut io, 4);
    assert_eq!(cpu.reg(1), 0);
    assert_eq!(cpu.reg(2), 2);
    assert_eq!(cpu.pc(), 0x20A);
}

#[test]
fn skip_on_register_compare() {
    // V0 := 3; V1 := 3; skip if V0 == V1; V2 := 1; skip if V0 != V1; V3 := 1
    let (mut cpu, mut io) = boot(&[0x60, 0x03, 0x61, 0x03, 0x50, 0x10, 0x62, 0x01, 0x90, 0x10, 0x63, 0x01]);
    run(&mut cpu, &mut io, 5);
    assert_eq!(cpu.reg(2), 0);
    assert_eq!(cpu.reg(3), 1);
}

#[test]
fn skip_on_pressed_key() {
    let (mut cpu, mut io) = boot(&[0x65, 0x05, 0xE5, 0x9E, 0x00, 0x00, 0xE5, 0xA1, 0x61, 0x01]);
    let mut down = [false; 16];
    down[5] = true;
    io.set_pressed_keys(&down);
    run(&mut cpu, &mut io, 3);
    assert_eq!(cpu.pc(), 0x208);
    run(&mut cpu, &mut io, 1);
    assert_eq!(cpu.reg(1), 1);
}

#[test]
fn skip_if_key_not_pressed_with_no_key() {
    let (mut cpu, mut io) = boot(&[0xE0, 0xA1, 0x00, 0x00, 0xE0, 0x9E]);
    run(&mut cpu, &mut io, 1);
    assert_eq!(cpu.pc(), 0x204);
    run(&mut cpu, &mut io, 1);
    assert_eq!(cpu.pc(), 0x206);
}

#[test]
fn pressed_key_is_highest_held() {
    let mut io = IO::new(&[]);
    assert_eq!(io.get_key(), None);
    let mut down = [false; 16];
    down[3] = true;
    down[11] = true;
    io.set_pressed_keys(&down);
    assert_eq!(io.get_key(), Some(11));
    io.set_pressed_keys(&[false; 16]);
    assert_eq!(io.get_key(), None);
}

#[test]
fn jumps_and_index() {
    // V0 := 4; PC := V0 + 0x200 -> 0x204; I := 0x123; I += V0
    let (mut cpu, mut io) = boot(&[0x60, 0x04, 0xB2, 0x00, 0xA1, 0x23, 0xF0, 0x1E]);
    run(&mut cpu, &mut io, 2);
    assert_eq!(cpu.pc(), 0x204);
    run(&mut cpu, &mut io, 2);
    assert_eq!(cpu.index(), 0x127);
}

#[test]
fn add_to_index_wraps_at_sixteen_bits() {
    let (mut cpu, mut io) = boot(&[0x60, 0xFF, 0xAF, 0xFF, 0xF0, 0x1E]);
    run(&mut cpu, &mut io, 3);
    assert_eq!(cpu.index(), 0x10FE);
}

#[test]
fn sprite_address_of_digit() {
    let (mut cpu, mut io) = boot(&[0x6A, 0x0A, 0xFA, 0x29, 0x6B, 0x40, 0xFB, 0x29]);
    run(&mut cpu, &mut io, 2);
    assert_eq!(cpu.index(), 50);
    assert_eq!(io.read(cpu.index()), 0xF0);
    run(&mut cpu, &mut io, 2);
    assert_eq!(cpu.index(), 320);
}

#[test]
fn register_dump_and_load() {
    let (mut cpu, mut io) = boot(&[
        0x60, 0x11, 0x61, 0x22, 0x62, 0x33, 0xA3, 0x00, 0xF1, 0x55, //
        0x60, 0x00, 0x61, 0x00, 0x62, 0x00, 0xF2, 0x65,
    ]);
    run(&mut cpu, &mut io, 5);
    assert_eq!([io.read(0x300), io.read(0x301), io.read(0x302)], [0x11, 0x22, 0]);
    run(&mut cpu, &mut io, 4);
    assert_eq!([cpu.reg(0), cpu.reg(1), cpu.reg(2)], [0x11, 0x22, 0]);
}

#[test]
fn random_and_masks_the_drawn_byte() {
    let (mut cpu, mut io) = boot(&[0xC0, 0x0F, 0xC1, 0x00]);
    assert_eq!(cpu.step_with(&mut io, 0xAB), Ok(()));
    assert_eq!(cpu.reg(0), 0x0B);
    assert_eq!(cpu.step(&mut io), Ok(()));
    assert_eq!(cpu.reg(1), 0);
}

#[test]
fn memory_layout_after_load() {
    let io = IO::new(&[0xAB, 0xCD]);
    assert_eq!(io.read(0), 0xF0);
    assert_eq!(io.read(79), 0x80);
    assert_eq!(io.read(80), 0);
    assert_eq!(io.read(0x200), 0xAB);
    assert_eq!(io.read(0x201), 0xCD);
    assert_eq!(io.read(0x202), 0);
    assert!(!io.did_draw());
    assert_eq!(io.get_framebuffer().len(), 2048);
}

#[test]
fn addresses_wrap_around_memory() {
    let mut io = IO::new(&[]);
    io.write(0x1005, 7);
    assert_eq!(io.read(0x005), 7);
    assert_eq!(io.read(0xF005), 7);
}

#[test]
fn decode_examples() {
    assert_eq!(decode(0x8AB4), Some(Instr::AddReg { x: 10, y: 11 }));
    assert_eq!(decode(0x00E0), Some(Instr::ClearDisplay));
    assert_eq!(decode(0x00EE), Some(Instr::Return));
    assert_eq!(decode(0x0ABC), Some(Instr::MachineCode { addr: 0xABC }));
    assert_eq!(decode(0xD12F), Some(Instr::Draw { x: 1, y: 2, n: 15 }));
    assert_eq!(decode(0x5121), None);
    assert_eq!(decode(0xE09F), None);
    assert_eq!(decode(0xF00A), None);
}
