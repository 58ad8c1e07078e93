use chip8::cpu::CPU;
use chip8::instruction::Instruction;
use chip8::machine::{Fault, PCAction};
use chip8::memory::Memory;
use chip8::vram::Vram;

/// Executes `opcode` after making sure that the machine can carry it out.
fn run(cpu: &mut CPU, opcode: u16) {
    assert_eq!(cpu.fault(opcode), None);
    cpu.execute_opcode(opcode);
}

fn run_all(cpu: &mut CPU, opcodes: &[u16]) {
    for &opcode in opcodes {
        run(cpu, opcode);
    }
}

#[test]
fn start_state() {
    let mut mem = Memory::init();
    let mut vram = Vram::init();
    let cpu = CPU::init(&mut mem, &mut vram);
    assert_eq!(cpu.pc(), 0x200);
    assert_eq!(cpu.index(), 0);
    assert_eq!(cpu.stack_pointer(), 0);
    assert_eq!(cpu.delay_timer(), 0);
    assert_eq!(cpu.sound_timer(), 0);
    for x in 0..16 {
        assert_eq!(cpu.register(x), 0);
    }
    assert!(cpu.can_fetch());
}

#[test]
fn load_imm_and_add_imm_wrap_without_flag() {
    let mut mem = Memory::init();
    let mut vram = Vram::init();
    let mut cpu = CPU::init(&mut mem, &mut vram);
    run_all(&mut cpu, &[0x6FAA, 0x63F0, 0x7320]);
    assert_eq!(cpu.register(3), 0x10);
    assert_eq!(cpu.register(0xF), 0xAA);
    assert_eq!(cpu.pc(), 0x206);
}

#[test]
fn load_reg_or_and_xor() {
    let mut mem = Memory::init();
    let mut vram = Vram::init();
    let mut cpu = CPU::init(&mut mem, &mut vram);
    run_all(&mut cpu, &[0x61CC, 0x62AA, 0x8310, 0x8321, 0x8410, 0x8422, 0x8510, 0x8523]);
    assert_eq!(cpu.register(3), 0xEE);
    assert_eq!(cpu.register(4), 0x88);
    assert_eq!(cpu.register(5), 0x66);
    assert_eq!(cpu.register(1), 0xCC);
    assert_eq!(cpu.register(2), 0xAA);
}

#[test]
fn add_reg_sets_carry_exactly_on_overflow() {
    let cases: [(u8, u8, u8, u8); 5] =
        [(0x0A, 0x05, 0x0F, 0), (0xFF, 0x01, 0x00, 1), (0xFF, 0xFF, 0xFE, 1), (0x80, 0x7F, 0xFF, 0), (0, 0, 0, 0)];
    for (a, b, sum, carry) in cases {
        let mut mem = Memory::init();
        let mut vram = Vram::init();
        let mut cpu = CPU::init(&mut mem, &mut vram);
        run_all(&mut cpu, &[0x6000 | a as u16, 0x6100 | b as u16, 0x8014]);
        assert_eq!(cpu.register(0), sum);
        assert_eq!(cpu.register(1), b);
        assert_eq!(cpu.register(0xF), carry);
    }
}

#[test]
fn add_reg_for_all_pairs() {
    let mut mem = Memory::init();
    let mut vram = Vram::init();
    let mut cpu = CPU::init(&mut mem, &mut vram);
    for a in 0..=255u16 {
        for b in 0..=255u16 {
            cpu.inst_6xnn(2, a as u8);
            cpu.inst_6xnn(7, b as u8);
            assert_eq!(cpu.inst_8xy4(2, 7), PCAction::Advance(1));
            assert_eq!(cpu.register(2) as u16, (a + b) % 256);
            assert_eq!(cpu.register(0xF) == 1, a + b > 255);
            assert!(cpu.register(0xF) <= 1);
        }
    }
}

#[test]
fn add_reg_into_flag_register_keeps_the_flag() {
    let mut mem = Memory::init();
    let mut vram = Vram::init();
    let mut cpu = CPU::init(&mut mem, &mut vram);
    run_all(&mut cpu, &[0x6FF0, 0x6120, 0x8F14]);
    assert_eq!(cpu.register(0xF), 1);
    run_all(&mut cpu, &[0x6F10, 0x6120, 0x8F14]);
    assert_eq!(cpu.register(0xF), 0);
}

#[test]
fn sub_clears_flag_exactly_on_borrow() {
    let cases: [(u8, u8, u8, u8); 4] =
        [(0x0A, 0x05, 0x05, 1), (0x05, 0x0A, 0xFB, 0), (0x07, 0x07, 0x00, 1), (0x00, 0xFF, 0x01, 0)];
    for (a, b, difference, flag) in cases {
        let mut mem = Memory::init();
        let mut vram = Vram::init();
        let mut cpu = CPU::init(&mut mem, &mut vram);
        run_all(&mut cpu, &[0x6000 | a as u16, 0x6100 | b as u16, 0x8015]);
        assert_eq!(cpu.register(0), difference);
        assert_eq!(cpu.register(0xF), flag);
    }
}

#[test]
fn sub_for_all_pairs() {
    let mut mem = Memory::init();
    let mut vram = Vram::init();
    let mut cpu = CPU::init(&mut mem, &mut vram);
    for a in 0..=255i32 {
        for b in 0..=255i32 {
            cpu.inst_6xnn(2, a as u8);
            cpu.inst_6xnn(7, b as u8);
            cpu.inst_8xy5(2, 7);
            assert_eq!(cpu.register(2) as i32, (a - b).rem_euclid(256));
            assert_eq!(cpu.register(0xF) == 0, a < b);
            assert!(cpu.register(0xF) <= 1);
        }
    }
}

#[test]
fn shr_moves_low_bit_into_flag() {
    for operand in 0..=255u8 {
        let mut mem = Memory::init();
        let mut vram = Vram::init();
        let mut cpu = CPU::init(&mut mem, &mut vram);
        run_all(&mut cpu, &[0x6400 | operand as u16, 0x8456]);
        assert_eq!(cpu.register(0xF), operand & 1);
        assert_eq!(cpu.register(4), operand >> 1);
    }
}

#[test]
fn shr_of_flag_register_shifts_the_flag_away() {
    let mut mem = Memory::init();
    let mut vram = Vram::init();
    let mut cpu = CPU::init(&mut mem, &mut vram);
    run_all(&mut cpu, &[0x6F03, 0x8F06]);
    assert_eq!(cpu.register(0xF), 0);
}

#[test]
fn subn_subtracts_the_other_way() {
    let cases: [(u8, u8, u8, u8); 4] =
        [(0x05, 0x0A, 0x05, 1), (0x0A, 0x05, 0xFB, 0), (0x07, 0x07, 0x00, 0), (0xFF, 0x00, 0x01, 0)];
    for (a, b, difference, flag) in cases {
        let mut mem = Memory::init();
        let mut vram = Vram::init();
        let mut cpu = CPU::init(&mut mem, &mut vram);
        run_all(&mut cpu, &[0x6000 | a as u16, 0x6100 | b as u16, 0x8017]);
        assert_eq!(cpu.register(0), difference);
        assert_eq!(cpu.register(1), b);
        assert_eq!(cpu.register(0xF), flag);
    }
}

#[test]
fn shl_moves_high_bit_into_flag() {
    for operand in 0..=255u8 {
        let mut mem = Memory::init();
        let mut vram = Vram::init();
        let mut cpu = CPU::init(&mut mem, &mut vram);
        run_all(&mut cpu, &[0x6400 | operand as u16, 0x6533, 0x845E]);
        assert_eq!(cpu.register(0xF), operand >> 7);
        assert_eq!(cpu.register(4), operand << 1);
        assert_eq!(cpu.register(5), 0x33);
    }
}

#[test]
fn skips_advance_by_four_or_two_bytes() {
    let mut mem = Memory::init();
    let mut vram = Vram::init();
    let mut cpu = CPU::init(&mut mem, &mut vram);
    run_all(&mut cpu, &[0x6142, 0x6242, 0x6343]);
    let mut keys = [false; 16];
    keys[0x3] = true;
    cpu.set_keymap(keys);
    run_all(&mut cpu, &[0x6403, 0x6505]);
    // opcode, whether its condition holds
    let cases: [(u16, bool); 12] = [
        (0x3142, true),
        (0x3143, false),
        (0x4143, true),
        (0x4142, false),
        (0x5120, true),
        (0x5130, false),
        (0x9130, true),
        (0x9120, false),
        (0xE49E, true),
        (0xE59E, false),
        (0xE5A1, true),
        (0xE4A1, false),
    ];
    for (opcode, holds) in cases {
        let before = cpu.pc();
        run(&mut cpu, opcode);
        assert_eq!(cpu.pc() - before, if holds { 4 } else { 2 });
        assert_eq!(cpu.register(1), 0x42);
        assert_eq!(cpu.register(3), 0x43);
    }
}

#[test]
fn jump_and_jump_plus_v0() {
    let mut mem = Memory::init();
    let mut vram = Vram::init();
    let mut cpu = CPU::init(&mut mem, &mut vram);
    run(&mut cpu, 0x1ABC);
    assert_eq!(cpu.pc(), 0xABC);
    run_all(&mut cpu, &[0x60FF, 0xBFFF]);
    assert_eq!(cpu.pc(), 0x10FE);
    assert!(!cpu.can_fetch());
    run_all(&mut cpu, &[0x6000, 0xB300]);
    assert_eq!(cpu.pc(), 0x300);
}

#[test]
fn call_then_return_resumes_after_the_call() {
    let mut mem = Memory::init();
    let mut vram = Vram::init();
    let mut cpu = CPU::init(&mut mem, &mut vram);
    run(&mut cpu, 0x1234);
    let sp = cpu.stack_pointer();
    run(&mut cpu, 0x2400);
    assert_eq!(cpu.pc(), 0x400);
    assert_eq!(cpu.stack_pointer(), sp + 1);
    run(&mut cpu, 0x00EE);
    assert_eq!(cpu.pc(), 0x236);
    assert_eq!(cpu.stack_pointer(), sp);
}

#[test]
fn nested_calls_return_in_reverse_order() {
    let mut mem = Memory::init();
    let mut vram = Vram::init();
    let mut cpu = CPU::init(&mut mem, &mut vram);
    run_all(&mut cpu, &[0x2300, 0x2400, 0x2500]);
    assert_eq!(cpu.stack_pointer(), 3);
    run(&mut cpu, 0x00EE);
    assert_eq!(cpu.pc(), 0x402);
    run(&mut cpu, 0x00EE);
    assert_eq!(cpu.pc(), 0x302);
    run(&mut cpu, 0x00EE);
    assert_eq!(cpu.pc(), 0x202);
    assert_eq!(cpu.stack_pointer(), 0);
}

#[test]
fn unknown_opcode_only_steps_over_itself() {
    let mut mem = Memory::init();
    let mut vram = Vram::init();
    let mut cpu = CPU::init(&mut mem, &mut vram);
    run_all(&mut cpu, &[0x6111, 0xA123]);
    let pc = cpu.pc();
    run_all(&mut cpu, &[0x0123, 0xFFFF, 0x5121, 0x8AB8]);
    assert_eq!(cpu.pc(), pc + 8);
    assert_eq!(cpu.register(1), 0x11);
    assert_eq!(cpu.index(), 0x123);
    assert_eq!(cpu.stack_pointer(), 0);
}

#[test]
fn index_instructions() {
    let mut mem = Memory::init();
    let mut vram = Vram::init();
    let mut cpu = CPU::init(&mut mem, &mut vram);
    run_all(&mut cpu, &[0xAFFF, 0x6302, 0xF31E]);
    assert_eq!(cpu.index(), 0x1001);
    run_all(&mut cpu, &[0x640A, 0xF429]);
    assert_eq!(cpu.index(), 50);
    run_all(&mut cpu, &[0x64FF, 0xF429]);
    assert_eq!(cpu.index(), 1275);
}

#[test]
fn add_index_wraps_at_sixteen_bits() {
    let mut mem = Memory::init();
    let mut vram = Vram::init();
    let mut cpu = CPU::init(&mut mem, &mut vram);
    run_all(&mut cpu, &[0xAFFF, 0x63FF]);
    // 0xFFF + 240 * 0xFF = 0xFF0F
    for _ in 0..240 {
        run(&mut cpu, 0xF31E);
    }
    assert_eq!(cpu.index(), 0xFF0F);
    run(&mut cpu, 0xF31E);
    assert_eq!(cpu.index(), 0x000E);
}

#[test]
fn timers_count_down_to_zero_and_stay() {
    let mut mem = Memory::init();
    let mut vram = Vram::init();
    let mut cpu = CPU::init(&mut mem, &mut vram);
    run_all(&mut cpu, &[0x6103, 0x6201, 0xF115, 0xF218]);
    assert_eq!(cpu.delay_timer(), 3);
    assert_eq!(cpu.sound_timer(), 1);
    cpu.decrement_timers();
    assert_eq!(cpu.delay_timer(), 2);
    assert_eq!(cpu.sound_timer(), 0);
    cpu.decrement_timers();
    assert_eq!(cpu.delay_timer(), 1);
    assert_eq!(cpu.sound_timer(), 0);
    run(&mut cpu, 0xF507);
    assert_eq!(cpu.register(5), 1);
    cpu.decrement_timers();
    cpu.decrement_timers();
    assert_eq!(cpu.delay_timer(), 0);
    assert_eq!(cpu.sound_timer(), 0);
}

#[test]
fn bcd_writes_three_digits() {
    let mut mem = Memory::init();
    let mut vram = Vram::init();
    {
        let mut cpu = CPU::init(&mut mem, &mut vram);
        run_all(&mut cpu, &[0x61FE, 0xA300, 0xF133, 0x6207, 0xA310, 0xF233]);
        assert_eq!(cpu.index(), 0x310);
    }
    assert_eq!(mem.fetch(0x300), 2);
    assert_eq!(mem.fetch(0x301), 5);
    assert_eq!(mem.fetch(0x302), 4);
    assert_eq!(mem.fetch(0x303), 0);
    assert_eq!(mem.fetch(0x310), 0);
    assert_eq!(mem.fetch(0x311), 0);
    assert_eq!(mem.fetch(0x312), 7);
}

#[test]
fn store_range_then_load_range() {
    let mut mem = Memory::init();
    let mut vram = Vram::init();
    mem.set(0x304, 0x99);
    {
        let mut cpu = CPU::init(&mut mem, &mut vram);
        run_all(&mut cpu, &[0x6011, 0x6122, 0x6233, 0x6344, 0x6455, 0xA300, 0xF355]);
        assert_eq!(cpu.index(), 0x300);
        run_all(&mut cpu, &[0x6000, 0x6100, 0x6200, 0x6300, 0x6400, 0xA301, 0xF265]);
        assert_eq!(cpu.register(0), 0x22);
        assert_eq!(cpu.register(1), 0x33);
        assert_eq!(cpu.register(2), 0x44);
        assert_eq!(cpu.register(3), 0);
        assert_eq!(cpu.index(), 0x301);
    }
    assert_eq!(mem.fetch(0x300), 0x11);
    assert_eq!(mem.fetch(0x301), 0x22);
    assert_eq!(mem.fetch(0x302), 0x33);
    assert_eq!(mem.fetch(0x303), 0x44);
    assert_eq!(mem.fetch(0x304), 0x99);
}

#[test]
fn store_range_of_all_registers_up_to_the_last_address() {
    let mut mem = Memory::init();
    let mut vram = Vram::init();
    {
        let mut cpu = CPU::init(&mut mem, &mut vram);
        for x in 0..16u16 {
            run(&mut cpu, 0x6000 | (x << 8) | (0xA0 + x));
        }
        run_all(&mut cpu, &[0xAFF0, 0xFF55]);
    }
    for x in 0..16usize {
        assert_eq!(mem.fetch(0xFF0 + x), 0xA0 + x as u8);
    }
    assert_eq!(mem.fetch(0xFEF), 0);
}

#[test]
fn random_is_masked() {
    let mut mem = Memory::init();
    let mut vram = Vram::init();
    let mut cpu = CPU::init(&mut mem, &mut vram);
    for _ in 0..200 {
        run_all(&mut cpu, &[0x61FF, 0xC100]);
        assert_eq!(cpu.register(1), 0);
        run(&mut cpu, 0xC20F);
        assert!(cpu.register(2) <= 0x0F);
        run(&mut cpu, 0xC3A0);
        assert_eq!(cpu.register(3) & !0xA0, 0);
    }
}

#[test]
fn random_takes_every_bit_both_ways() {
    let mut mem = Memory::init();
    let mut vram = Vram::init();
    let mut cpu = CPU::init(&mut mem, &mut vram);
    let mut seen_set: u8 = 0;
    let mut seen_clear: u8 = 0;
    for _ in 0..2000 {
        let pc = cpu.pc();
        run(&mut cpu, 0xC1FF);
        assert_eq!(cpu.pc(), pc + 2);
        seen_set |= cpu.register(1);
        seen_clear |= !cpu.register(1);
        run(&mut cpu, 0x1200);
    }
    assert_eq!(seen_set, 0xFF);
    assert_eq!(seen_clear, 0xFF);
}

#[test]
fn given_random_byte_is_masked_exactly() {
    let mut mem = Memory::init();
    let mut vram = Vram::init();
    let mut cpu = CPU::init(&mut mem, &mut vram);
    assert_eq!(cpu.inst_cxnn_with(4, 0x3C, 0xA5), PCAction::Advance(1));
    assert_eq!(cpu.register(4), 0x24);
    cpu.inst_cxnn_with(4, 0xFF, 0xA5);
    assert_eq!(cpu.register(4), 0xA5);
    cpu.inst_cxnn_with(4, 0x00, 0xA5);
    assert_eq!(cpu.register(4), 0x00);
    assert_eq!(cpu.pc(), 0x200);
}

#[test]
fn instruction_functions_report_their_action() {
    let mut mem = Memory::init();
    let mut vram = Vram::init();
    let mut cpu = CPU::init(&mut mem, &mut vram);
    assert_eq!(cpu.inst_00e0(), PCAction::Advance(1));
    assert_eq!(cpu.inst_1nnn(0x345), PCAction::Jump(0x345));
    assert_eq!(cpu.inst_2nnn(0x456), PCAction::Jump(0x456));
    assert_eq!(cpu.stack_pointer(), 1);
    assert_eq!(cpu.inst_00ee(), PCAction::Jump(0x202));
    assert_eq!(cpu.stack_pointer(), 0);
    assert_eq!(cpu.inst_6xnn(0, 0x10), PCAction::Advance(1));
    assert_eq!(cpu.inst_3xnn(0, 0x10), PCAction::Advance(2));
    assert_eq!(cpu.inst_3xnn(0, 0x11), PCAction::Advance(1));
    assert_eq!(cpu.inst_4xnn(0, 0x10), PCAction::Advance(1));
    assert_eq!(cpu.inst_4xnn(0, 0x11), PCAction::Advance(2));
    assert_eq!(cpu.inst_5xy0(0, 1), PCAction::Advance(1));
    assert_eq!(cpu.inst_9xy0(0, 1), PCAction::Advance(2));
    assert_eq!(cpu.inst_bnnn(0x200), PCAction::Jump(0x210));
    assert_eq!(cpu.inst_fx0a(3), PCAction::Advance(0));
    assert_eq!(cpu.inst_annn(0x123), PCAction::Advance(1));
    // none of these moves the program counter itself
    assert_eq!(cpu.pc(), 0x200);
}

#[test]
fn execute_takes_a_decoded_instruction() {
    let mut mem = Memory::init();
    let mut vram = Vram::init();
    let mut cpu = CPU::init(&mut mem, &mut vram);
    assert_eq!(cpu.instruction_fault(Instruction::LoadImm { x: 2, nn: 9 }), None);
    cpu.execute(Instruction::LoadImm { x: 2, nn: 9 });
    cpu.execute(Instruction::AddImm { x: 2, nn: 1 });
    cpu.execute(Instruction::Unknown);
    assert_eq!(cpu.register(2), 10);
    assert_eq!(cpu.pc(), 0x206);
    cpu.execute(Instruction::Jump { addr: 0x300 });
    assert_eq!(cpu.pc(), 0x300);
}

#[test]
fn return_on_empty_stack_is_an_underflow() {
    let mut mem = Memory::init();
    let mut vram = Vram::init();
    let mut cpu = CPU::init(&mut mem, &mut vram);
    assert_eq!(cpu.fault(0x00EE), Some(Fault::StackUnderflow));
    run(&mut cpu, 0x2300);
    assert_eq!(cpu.fault(0x00EE), None);
}

#[test]
fn call_beyond_the_stack_is_an_overflow() {
    let mut mem = Memory::init();
    let mut vram = Vram::init();
    let mut cpu = CPU::init(&mut mem, &mut vram);
    for depth in 0..15 {
        assert_eq!(cpu.stack_pointer(), depth);
        run(&mut cpu, 0x2300);
    }
    assert_eq!(cpu.stack_pointer(), 15);
    assert_eq!(cpu.fault(0x2300), Some(Fault::StackOverflow));
    for _ in 0..15 {
        run(&mut cpu, 0x00EE);
    }
    assert_eq!(cpu.stack_pointer(), 0);
    assert_eq!(cpu.fault(0x00EE), Some(Fault::StackUnderflow));
}

#[test]
fn memory_access_beyond_the_end_is_a_fault() {
    let mut mem = Memory::init();
    let mut vram = Vram::init();
    let mut cpu = CPU::init(&mut mem, &mut vram);
    run(&mut cpu, 0xAFFE);
    assert_eq!(cpu.fault(0xF033), Some(Fault::AddressOutOfRange));
    assert_eq!(cpu.fault(0xF155), None);
    assert_eq!(cpu.fault(0xF255), Some(Fault::AddressOutOfRange));
    assert_eq!(cpu.fault(0xF165), None);
    assert_eq!(cpu.fault(0xF265), Some(Fault::AddressOutOfRange));
    assert_eq!(cpu.fault(0xD002), None);
    assert_eq!(cpu.fault(0xD003), Some(Fault::AddressOutOfRange));
    run(&mut cpu, 0xAFFD);
    assert_eq!(cpu.fault(0xF033), None);
    run_all(&mut cpu, &[0x61FF, 0xF11E]);
    assert_eq!(cpu.index(), 0x10FC);
    assert_eq!(cpu.fault(0xD000), None);
    assert_eq!(cpu.fault(0xD001), Some(Fault::AddressOutOfRange));
    assert_eq!(cpu.fault(0xF055), Some(Fault::AddressOutOfRange));
}

#[test]
fn key_beyond_the_keypad_is_a_fault() {
    let mut mem = Memory::init();
    let mut vram = Vram::init();
    let mut cpu = CPU::init(&mut mem, &mut vram);
    run(&mut cpu, 0x6110);
    assert_eq!(cpu.fault(0xE19E), Some(Fault::KeyOutOfRange));
    assert_eq!(cpu.fault(0xE1A1), Some(Fault::KeyOutOfRange));
    run(&mut cpu, 0x610F);
    assert_eq!(cpu.fault(0xE19E), None);
    assert_eq!(cpu.fault(0xE1A1), None);
}

#[test]
fn program_counter_beyond_sixteen_bits_is_a_fault() {
    let mut mem = Memory::init();
    let mut vram = Vram::init();
    let mut cpu = CPU::init(&mut mem, &mut vram);
    while cpu.pc() < 0xFFFC {
        run(&mut cpu, 0x6000);
    }
    assert_eq!(cpu.pc(), 0xFFFC);
    assert_eq!(cpu.fault(0x3000), Some(Fault::ProgramCounterOverflow));
    assert_eq!(cpu.fault(0x3001), None);
    assert_eq!(cpu.fault(0x2300), None);
    run(&mut cpu, 0x6000);
    assert_eq!(cpu.pc(), 0xFFFE);
    assert_eq!(cpu.fault(0x6000), Some(Fault::ProgramCounterOverflow));
    assert_eq!(cpu.fault(0x0000), Some(Fault::ProgramCounterOverflow));
    assert_eq!(cpu.fault(0x2300), Some(Fault::ProgramCounterOverflow));
    assert_eq!(cpu.fault(0xF00A), None);
    assert_eq!(cpu.fault(0x1300), None);
    run(&mut cpu, 0x1300);
    assert_eq!(cpu.pc(), 0x300);
}

#[test]
fn fetch_needs_two_bytes_within_memory() {
    let mut mem = Memory::init();
    let mut vram = Vram::init();
    mem.set(0xFFE, 0x12);
    mem.set(0xFFF, 0x34);
    let mut cpu = CPU::init(&mut mem, &mut vram);
    run(&mut cpu, 0x1FFE);
    assert!(cpu.can_fetch());
    assert_eq!(cpu.fetch_opcode(), 0x1234);
    run(&mut cpu, 0x1FFF);
    assert!(!cpu.can_fetch());
}
