use chip8::cpu::CPU;
use chip8::memory::Memory;
use chip8::vram::{Vram, VRAM_HEIGHT, VRAM_WIDTH};

/// One cycle: fetch at the program counter, then execute.
fn cycle(cpu: &mut CPU) {
    assert!(cpu.can_fetch());
    let opcode = cpu.fetch_opcode();
    assert_eq!(cpu.fault(opcode), None);
    cpu.execute_opcode(opcode);
}

/// One host tick: keys, timers, one cycle.
fn tick(cpu: &mut CPU, keys: [bool; 16]) {
    cpu.set_keymap(keys);
    cpu.decrement_timers();
    cycle(cpu);
}

fn lit_pixels(vram: &Vram) -> Vec<(usize, usize)> {
    let mut lit = Vec::new();
    for row in 0..VRAM_HEIGHT {
        for col in 0..VRAM_WIDTH {
            if vram.vram[row][col] != 0 {
                lit.push((row, col));
            }
        }
    }
    lit
}

#[test]
fn three_instruction_program_adds_two_registers() {
    let mut mem = Memory::init();
    let mut vram = Vram::init();
    mem.load_cartridge(&[0x60, 0x0A, 0x61, 0x05, 0x80, 0x14]);
    let mut cpu = CPU::init(&mut mem, &mut vram);
    cycle(&mut cpu);
    cycle(&mut cpu);
    assert_eq!(cpu.register(0), 0x0A);
    assert_eq!(cpu.register(1), 0x05);
    cycle(&mut cpu);
    assert_eq!(cpu.register(0), 0x0F);
    assert_eq!(cpu.register(1), 0x05);
    assert_eq!(cpu.register(0xF), 0);
    assert_eq!(cpu.pc(), 0x206);
}

#[test]
fn wait_key_repeats_until_a_key_is_down() {
    let mut mem = Memory::init();
    let mut vram = Vram::init();
    mem.load_cartridge(&[0x65, 0xEE, 0x63, 0x1E, 0xF3, 0x15, 0xF5, 0x0A]);
    let mut cpu = CPU::init(&mut mem, &mut vram);
    cycle(&mut cpu);
    cycle(&mut cpu);
    cycle(&mut cpu);
    assert_eq!(cpu.pc(), 0x206);
    assert_eq!(cpu.delay_timer(), 30);
    for waited in 1..=5u8 {
        tick(&mut cpu, [false; 16]);
        assert_eq!(cpu.pc(), 0x206);
        assert_eq!(cpu.register(5), 0xEE);
        assert_eq!(cpu.delay_timer(), 30 - waited);
    }
    let mut keys = [false; 16];
    keys[3] = true;
    tick(&mut cpu, keys);
    assert_eq!(cpu.pc(), 0x208);
    assert_eq!(cpu.register(5), 3);
    assert_eq!(cpu.delay_timer(), 24);
}

#[test]
fn wait_key_takes_the_lowest_key_down() {
    let mut mem = Memory::init();
    let mut vram = Vram::init();
    let mut cpu = CPU::init(&mut mem, &mut vram);
    let mut keys = [false; 16];
    keys[0xF] = true;
    keys[0x9] = true;
    keys[0xC] = true;
    cpu.set_keymap(keys);
    cpu.execute_opcode(0xF20A);
    assert_eq!(cpu.register(2), 0x9);
    assert_eq!(cpu.pc(), 0x202);
    keys[0x0] = true;
    cpu.set_keymap(keys);
    cpu.execute_opcode(0xF20A);
    assert_eq!(cpu.register(2), 0x0);
    cpu.set_keymap([true; 16]);
    cpu.execute_opcode(0xF70A);
    assert_eq!(cpu.register(7), 0x0);
    let mut last = [false; 16];
    last[0xF] = true;
    cpu.set_keymap(last);
    cpu.execute_opcode(0xF70A);
    assert_eq!(cpu.register(7), 0xF);
}

#[test]
fn sprite_wraps_from_last_row_to_first() {
    let mut mem = Memory::init();
    let mut vram = Vram::init();
    mem.set(0x300, 0b1000_0001);
    mem.set(0x301, 0b0100_0010);
    {
        let mut cpu = CPU::init(&mut mem, &mut vram);
        for opcode in [0x6004, 0x611F, 0xA300, 0xD012] {
            assert_eq!(cpu.fault(opcode), None);
            cpu.execute_opcode(opcode);
        }
        assert_eq!(cpu.register(0xF), 0);
        assert_eq!(cpu.pc(), 0x208);
    }
    assert_eq!(lit_pixels(&vram), vec![(0, 5), (0, 10), (31, 4), (31, 11)]);
}

#[test]
fn sprite_wraps_from_last_column_to_first() {
    let mut mem = Memory::init();
    let mut vram = Vram::init();
    mem.set(0x300, 0xFF);
    {
        let mut cpu = CPU::init(&mut mem, &mut vram);
        for opcode in [0x603D, 0x6102, 0xA300, 0xD011] {
            cpu.execute_opcode(opcode);
        }
        assert_eq!(cpu.register(0xF), 0);
    }
    assert_eq!(
        lit_pixels(&vram),
        vec![(2, 0), (2, 1), (2, 2), (2, 3), (2, 4), (2, 61), (2, 62), (2, 63)]
    );
}

#[test]
fn coordinates_beyond_the_grid_wrap_too() {
    let mut mem = Memory::init();
    let mut vram = Vram::init();
    mem.set(0x300, 0x80);
    {
        let mut cpu = CPU::init(&mut mem, &mut vram);
        // 0xC8 = 200 = 3 * 64 + 8; 0x45 = 69 = 2 * 32 + 5
        for opcode in [0x60C8, 0x6145, 0xA300, 0xD011] {
            cpu.execute_opcode(opcode);
        }
    }
    assert_eq!(lit_pixels(&vram), vec![(5, 8)]);
}

#[test]
fn drawing_twice_erases_and_reports_collision() {
    let mut mem = Memory::init();
    let mut vram = Vram::init();
    let sprite = [0xF0, 0x90, 0x90, 0x90, 0xF0];
    for (k, byte) in sprite.iter().enumerate() {
        mem.set(0x300 + k, *byte);
    }
    vram.set(7, 9, 1);
    vram.set(20, 20, 1);
    let before = vram;
    {
        let mut cpu = CPU::init(&mut mem, &mut vram);
        for opcode in [0x6208, 0x6306, 0xA300, 0xD235] {
            cpu.execute_opcode(opcode);
        }
        // the sprite's hollow centre covers the lit pixel at (7, 9): no collision
        assert_eq!(cpu.register(0xF), 0);
        let once = cpu.fetch_vram();
        assert_eq!(once.vram[6][8], 1);
        assert_eq!(once.vram[6][11], 1);
        assert_eq!(once.vram[10][8], 1);
        assert_eq!(once.vram[7][9], 1);
        assert_eq!(once.vram[7][10], 0);
        assert_eq!(once.vram[6][12], 0);
        assert_eq!(once.vram[20][20], 1);
        cpu.execute_opcode(0xD235);
        assert_eq!(cpu.register(0xF), 1);
        assert_eq!(cpu.register(2), 8);
        assert_eq!(cpu.register(3), 6);
    }
    assert_eq!(vram.vram, before.vram);
}

#[test]
fn drawing_over_lit_pixels_collides_at_once() {
    let mut mem = Memory::init();
    let mut vram = Vram::init();
    mem.set(0x300, 0b1010_0000);
    vram.set(0, 2, 1);
    {
        let mut cpu = CPU::init(&mut mem, &mut vram);
        for opcode in [0xA300, 0xD011] {
            cpu.execute_opcode(opcode);
        }
        assert_eq!(cpu.register(0xF), 1);
        // the second draw lights (0, 2) again and erases (0, 0): a collision again
        cpu.execute_opcode(0xD011);
        assert_eq!(cpu.register(0xF), 1);
    }
    assert_eq!(lit_pixels(&vram), vec![(0, 2)]);
}

#[test]
fn drawing_nothing_twice_reports_no_collision() {
    let mut mem = Memory::init();
    let mut vram = Vram::init();
    vram.set(4, 4, 1);
    {
        let mut cpu = CPU::init(&mut mem, &mut vram);
        for opcode in [0x6FFF, 0xA300, 0xD015, 0xD015] {
            cpu.execute_opcode(opcode);
        }
        assert_eq!(cpu.register(0xF), 0);
        cpu.execute_opcode(0x6F07);
        cpu.execute_opcode(0xD010);
        assert_eq!(cpu.register(0xF), 0);
    }
    assert_eq!(lit_pixels(&vram), vec![(4, 4)]);
}

#[test]
fn clear_screen_blanks_every_pixel() {
    let mut mem = Memory::init();
    let mut vram = Vram::init();
    mem.set(0x300, 0xFF);
    {
        let mut cpu = CPU::init(&mut mem, &mut vram);
        for opcode in [0xA300, 0xD011, 0x00E0] {
            cpu.execute_opcode(opcode);
        }
        assert_eq!(cpu.pc(), 0x206);
        assert!(lit_pixels(&cpu.fetch_vram()).is_empty());
    }
    assert!(lit_pixels(&vram).is_empty());
}

#[test]
fn font_glyph_is_drawn_from_its_address() {
    let font: [u8; 10] = [0xF0, 0x90, 0x90, 0x90, 0xF0, 0x20, 0x60, 0x20, 0x20, 0x70];
    let mut mem = Memory::init();
    let mut vram = Vram::init();
    mem.load_font_set(&font);
    {
        let mut cpu = CPU::init(&mut mem, &mut vram);
        for opcode in [0x6001, 0xF029, 0x6100, 0x6200, 0xD125] {
            cpu.execute_opcode(opcode);
        }
        assert_eq!(cpu.index(), 5);
    }
    assert_eq!(
        lit_pixels(&vram),
        vec![(0, 2), (1, 1), (1, 2), (2, 2), (3, 2), (4, 1), (4, 2), (4, 3)]
    );
}

#[test]
fn flag_register_as_column_is_read_pixel_by_pixel() {
    let mut mem = Memory::init();
    let mut vram = Vram::init();
    mem.set(0x300, 0xFF);
    vram.set(3, 0, 1);
    {
        let mut cpu = CPU::init(&mut mem, &mut vram);
        for opcode in [0x6103, 0x6F09, 0xA300, 0xDF11] {
            cpu.execute_opcode(opcode);
        }
        // the flag is cleared first, so the sprite starts at column 0; the
        // collision there sets the flag, which moves the rest one column on
        assert_eq!(cpu.register(0xF), 1);
        assert_eq!(
            lit_pixels(&cpu.fetch_vram()),
            vec![(3, 2), (3, 3), (3, 4), (3, 5), (3, 6), (3, 7), (3, 8)]
        );
        cpu.execute_opcode(0xDF11);
        assert_eq!(cpu.register(0xF), 1);
    }
    assert_eq!(lit_pixels(&vram), vec![(3, 0), (3, 1), (3, 3)]);
}

#[test]
fn flag_register_as_row_is_read_row_by_row() {
    let mut mem = Memory::init();
    let mut vram = Vram::init();
    mem.set(0x300, 0x80);
    mem.set(0x301, 0x80);
    mem.set(0x302, 0x80);
    vram.set(0, 5, 1);
    {
        let mut cpu = CPU::init(&mut mem, &mut vram);
        for opcode in [0x6105, 0x6F14, 0xA300, 0xD1F3] {
            cpu.execute_opcode(opcode);
        }
        // row 0 collides; the second sprite row then lands on row 1 + 1 and
        // the third on row 1 + 2
        assert_eq!(cpu.register(0xF), 1);
    }
    assert_eq!(lit_pixels(&vram), vec![(2, 5), (3, 5)]);
}
