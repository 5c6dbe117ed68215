use crust::cpu::CPU;
use crust::font::FONT;
use crust::keyboard::{KeyPad, State};
use crust::rom::RomBuffer;
use crust::{HEIGHT, ROM_SIZE, WIDTH};

/// A machine with the instruction words `words` at the program start.
fn boot(words: &[u16]) -> CPU {
    let mut rom: RomBuffer = [0; ROM_SIZE];
    for (i, word) in words.iter().enumerate() {
        rom[2 * i] = (word >> 8) as u8;
        rom[2 * i + 1] = (word & 0xFF) as u8;
    }
    CPU::init(&rom)
}

/// Executes `steps` instructions with no key held down.
fn run(cpu: &mut CPU, steps: usize) {
    let keys = State::new();
    for _ in 0..steps {
        assert_eq!(cpu.tick(&keys), None);
    }
}

/// The machine after the instruction words `words` have been executed, one
/// after the other.
fn after(words: &[u16]) -> CPU {
    let mut cpu = boot(words);
    run(&mut cpu, words.len());
    cpu
}

/// The lit pixels of the screen, as pairs of column and row.
fn lit(cpu: &CPU) -> Vec<(usize, usize)> {
    let mut pixels = Vec::new();
    for y in 0..HEIGHT {
        for x in 0..WIDTH {
            if cpu.get_vram()[y][x] {
                pixels.push((x, y));
            }
        }
    }
    pixels
}

#[test]
fn add_sets_the_carry() {
    let cpu = after(&[0x60FF, 0x6101, 0x8014]);
    assert_eq!(cpu.v()[0], 0x00);
    assert_eq!(cpu.v()[0xF], 1);

    let cpu = after(&[0x6F01, 0x60FE, 0x6101, 0x8014]);
    assert_eq!(cpu.v()[0], 0xFF);
    assert_eq!(cpu.v()[0xF], 0);

    let cpu = after(&[0x60C8, 0x6164, 0x8014]);
    assert_eq!(cpu.v()[0], 44);
    assert_eq!(cpu.v()[1], 100);
    assert_eq!(cpu.v()[0xF], 1);
}

#[test]
fn sub_sets_the_borrow() {
    let cpu = after(&[0x6001, 0x6102, 0x8015]);
    assert_eq!(cpu.v()[0], 0xFF);
    assert_eq!(cpu.v()[0xF], 1);

    let cpu = after(&[0x6F01, 0x6005, 0x6103, 0x8015]);
    assert_eq!(cpu.v()[0], 2);
    assert_eq!(cpu.v()[0xF], 0);

    let cpu = after(&[0x6F01, 0x6007, 0x6107, 0x8015]);
    assert_eq!(cpu.v()[0], 0);
    assert_eq!(cpu.v()[0xF], 0);
}

#[test]
fn subn_subtracts_the_other_way() {
    let cpu = after(&[0x6001, 0x6102, 0x8017]);
    assert_eq!(cpu.v()[0], 1);
    assert_eq!(cpu.v()[1], 2);
    assert_eq!(cpu.v()[0xF], 0);

    let cpu = after(&[0x6002, 0x6101, 0x8017]);
    assert_eq!(cpu.v()[0], 0xFF);
    assert_eq!(cpu.v()[0xF], 1);
}

#[test]
fn shr_captures_the_low_bit() {
    let cpu = after(&[0x6003, 0x8006]);
    assert_eq!(cpu.v()[0], 0x01);
    assert_eq!(cpu.v()[0xF], 1);

    let cpu = after(&[0x6F01, 0x60FE, 0x8006]);
    assert_eq!(cpu.v()[0], 0x7F);
    assert_eq!(cpu.v()[0xF], 0);
}

#[test]
fn shl_captures_the_high_bit() {
    let cpu = after(&[0x6081, 0x800E]);
    assert_eq!(cpu.v()[0], 0x02);
    assert_eq!(cpu.v()[0xF], 1);

    let cpu = after(&[0x6F01, 0x6041, 0x800E]);
    assert_eq!(cpu.v()[0], 0x82);
    assert_eq!(cpu.v()[0xF], 0);
}

#[test]
fn the_flag_register_as_destination_keeps_the_result() {
    let cpu = after(&[0x6FFF, 0x6101, 0x8F14]);
    assert_eq!(cpu.v()[0xF], 0x00);

    let cpu = after(&[0x6F01, 0x6102, 0x8F15]);
    assert_eq!(cpu.v()[0xF], 0xFF);

    let cpu = after(&[0x6F03, 0x8F06]);
    assert_eq!(cpu.v()[0xF], 0);

    let cpu = after(&[0x6F81, 0x8F0E]);
    assert_eq!(cpu.v()[0xF], 2);
}

#[test]
fn add_byte_wraps_and_leaves_the_flag() {
    let cpu = after(&[0x60FF, 0x7002]);
    assert_eq!(cpu.v()[0], 0x01);
    assert_eq!(cpu.v()[0xF], 0);

    let cpu = after(&[0x6F07, 0x6A10, 0x7A22]);
    assert_eq!(cpu.v()[0xA], 0x32);
    assert_eq!(cpu.v()[0xF], 7);
}

#[test]
fn loads_and_bitwise_operations() {
    let cpu = after(&[0x6A5C, 0x6B3A, 0x8CB0, 0x8DA0, 0x8DB1, 0x8EA0, 0x8EB2, 0x87A0, 0x87B3]);
    assert_eq!(cpu.v()[0xA], 0x5C);
    assert_eq!(cpu.v()[0xB], 0x3A);
    assert_eq!(cpu.v()[0xC], 0x3A);
    assert_eq!(cpu.v()[0xD], 0x7E);
    assert_eq!(cpu.v()[0xE], 0x18);
    assert_eq!(cpu.v()[0x7], 0x66);
    assert_eq!(cpu.v()[0xF], 0);
    assert_eq!(cpu.pc(), 0x212);
}

#[test]
fn a_sprite_wraps_around_the_right_edge() {
    // LD I, 0x20A; LD V0, 60; LD V1, 0; DRW V0, V1, 1; JP 0x208; the sprite
    let mut cpu = boot(&[0xA20A, 0x603C, 0x6100, 0xD011, 0x1208, 0xFF00]);
    run(&mut cpu, 4);
    assert_eq!(
        lit(&cpu),
        vec![(0, 0), (1, 0), (2, 0), (3, 0), (60, 0), (61, 0), (62, 0), (63, 0)]
    );
    assert_eq!(cpu.v()[0xF], 0);
    assert_eq!(cpu.pc(), 0x208);
}

#[test]
fn a_sprite_wraps_around_the_bottom_edge() {
    // the sprite, two rows, at 0x20A
    let mut cpu = boot(&[0xA20A, 0x6005, 0x611F, 0xD012, 0x1208, 0x80C0]);
    run(&mut cpu, 4);
    assert_eq!(lit(&cpu), vec![(5, 0), (6, 0), (5, 31)]);
    assert_eq!(cpu.v()[0xF], 0);
}

#[test]
fn the_corner_of_a_sprite_is_taken_modulo_the_screen() {
    let mut cpu = boot(&[0xA20A, 0x6043, 0x6122, 0xD011, 0x1208, 0xA000]);
    run(&mut cpu, 4);
    assert_eq!(lit(&cpu), vec![(3, 2), (5, 2)]);

    let mut cpu = boot(&[0xA20A, 0x60FF, 0x61FF, 0xD012, 0x1208, 0xC080]);
    run(&mut cpu, 4);
    assert_eq!(lit(&cpu), vec![(63, 0), (0, 31), (63, 31)]);
}

#[test]
fn drawing_twice_clears_and_reports_the_collision() {
    let mut cpu = boot(&[0xA20C, 0x603C, 0x6100, 0xD011, 0xD011, 0x120A, 0xFF00]);
    run(&mut cpu, 5);
    assert_eq!(lit(&cpu), vec![]);
    assert_eq!(cpu.v()[0xF], 1);
}

#[test]
fn a_sprite_is_combined_by_exclusive_or() {
    // 0xF0 at (0, 0), then 0x3C at (0, 0): the two middle pixels of the first go off
    let mut cpu = boot(&[0xA20E, 0x6000, 0x6100, 0xD011, 0xA20F, 0xD011, 0x120C, 0xF03C]);
    run(&mut cpu, 4);
    assert_eq!(lit(&cpu), vec![(0, 0), (1, 0), (2, 0), (3, 0)]);
    assert_eq!(cpu.v()[0xF], 0);
    run(&mut cpu, 2);
    assert_eq!(lit(&cpu), vec![(0, 0), (1, 0), (4, 0), (5, 0)]);
    assert_eq!(cpu.v()[0xF], 1);
}

#[test]
fn a_sprite_beside_lit_pixels_does_not_collide() {
    let mut cpu = boot(&[0xA20E, 0x6000, 0x6100, 0xD011, 0x6008, 0xD011, 0x120C, 0xFF00]);
    run(&mut cpu, 6);
    assert_eq!(lit(&cpu).len(), 16);
    assert_eq!(cpu.v()[0xF], 0);
}

#[test]
fn a_glyph_of_the_font_is_drawn_row_by_row() {
    // LD V0, 0xA; LD F, V0; LD V1, 10; LD V2, 20; DRW V1, V2, 5
    let cpu = after(&[0x600A, 0xF029, 0x610A, 0x6214, 0xD125]);
    assert_eq!(cpu.i(), 50);
    let mut expected = Vec::new();
    for row in 0..5 {
        for column in 0..8 {
            if FONT[50 + row] & (0x80 >> column) != 0 {
                expected.push((10 + column, 20 + row));
            }
        }
    }
    assert_eq!(lit(&cpu), expected);
    assert_eq!(
        lit(&cpu),
        vec![
            (10, 20), (11, 20), (12, 20), (13, 20),
            (10, 21), (13, 21),
            (10, 22), (11, 22), (12, 22), (13, 22),
            (10, 23), (13, 23),
            (10, 24), (13, 24),
        ]
    );
}

#[test]
fn a_sprite_of_no_rows_draws_nothing_and_clears_the_flag() {
    let cpu = after(&[0x6F01, 0xA000, 0xD010]);
    assert_eq!(lit(&cpu), vec![]);
    assert_eq!(cpu.v()[0xF], 0);
}

#[test]
fn a_sprite_beyond_memory_is_not_drawn() {
    // I = 0xFFF, two rows: the second row lies outside memory
    let mut cpu = boot(&[0x6F07, 0xAFFF, 0xD012, 0xD011]);
    run(&mut cpu, 3);
    assert_eq!(lit(&cpu), vec![]);
    assert_eq!(cpu.v()[0xF], 7);
    assert_eq!(cpu.pc(), 0x206);
    run(&mut cpu, 1);
    assert_eq!(cpu.v()[0xF], 0);
}

#[test]
fn cls_clears_the_screen() {
    let mut cpu = boot(&[0xA000, 0xD005, 0x00E0]);
    run(&mut cpu, 2);
    assert_eq!(lit(&cpu).len(), 14);
    run(&mut cpu, 1);
    assert_eq!(lit(&cpu), vec![]);
    assert_eq!(cpu.pc(), 0x206);
}

#[test]
fn ld_b_writes_the_decimal_digits() {
    let cpu = after(&[0x60EA, 0xA300, 0xF033]);
    assert_eq!(cpu.ram()[0x300..0x303], [2, 3, 4]);
    assert_eq!(cpu.i(), 0x300);

    let cpu = after(&[0x6007, 0xA300, 0xF033]);
    assert_eq!(cpu.ram()[0x300..0x303], [0, 0, 7]);

    let cpu = after(&[0x60FF, 0xAFFD, 0xF033]);
    assert_eq!(cpu.ram()[0xFFD..0x1000], [2, 5, 5]);
}

#[test]
fn ld_b_beyond_memory_writes_nothing() {
    let cpu = after(&[0x60EA, 0xAFFE, 0xF033]);
    assert_eq!(cpu.ram()[0xFFE..0x1000], [0, 0]);
    assert_eq!(cpu.pc(), 0x206);
}

#[test]
fn se_skips_on_equal() {
    let cpu = after(&[0x3000]);
    assert_eq!(cpu.pc(), 0x204);
    let cpu = after(&[0x3001]);
    assert_eq!(cpu.pc(), 0x202);
    let mut cpu = boot(&[0x6A42, 0x3A42]);
    run(&mut cpu, 2);
    assert_eq!(cpu.pc(), 0x206);
}

#[test]
fn sne_skips_on_unequal() {
    let cpu = after(&[0x4000]);
    assert_eq!(cpu.pc(), 0x202);
    let cpu = after(&[0x4001]);
    assert_eq!(cpu.pc(), 0x204);
}

#[test]
fn se_and_sne_compare_two_registers() {
    let mut cpu = boot(&[0x6107, 0x6207, 0x5120]);
    run(&mut cpu, 3);
    assert_eq!(cpu.pc(), 0x208);
    let mut cpu = boot(&[0x6107, 0x6208, 0x5120]);
    run(&mut cpu, 3);
    assert_eq!(cpu.pc(), 0x206);
    let mut cpu = boot(&[0x6107, 0x6207, 0x9120]);
    run(&mut cpu, 3);
    assert_eq!(cpu.pc(), 0x206);
    let mut cpu = boot(&[0x6107, 0x6208, 0x9120]);
    run(&mut cpu, 3);
    assert_eq!(cpu.pc(), 0x208);
}

#[test]
fn a_program_clears_loads_and_jumps_back() {
    let mut cpu = boot(&[0x00E0, 0x6142, 0x1200]);
    run(&mut cpu, 2);
    assert_eq!(lit(&cpu), vec![]);
    assert_eq!(cpu.v()[1], 0x42);
    assert_eq!(cpu.pc(), 0x204);
    run(&mut cpu, 1);
    assert_eq!(lit(&cpu), vec![]);
    assert_eq!(cpu.v()[1], 0x42);
    assert_eq!(cpu.pc(), 0x200);
}

#[test]
fn ld_k_waits_for_a_key_and_takes_the_lowest() {
    let mut cpu = boot(&[0xF50A]);
    let mut keys = State::new();
    for _ in 0..3 {
        assert_eq!(cpu.tick(&keys), None);
        assert_eq!(cpu.pc(), 0x200);
        assert_eq!(cpu.v()[5], 0);
    }
    keys.add_key(KeyPad::Key7);
    keys.add_key(KeyPad::Key3);
    keys.add_key(KeyPad::KeyF);
    assert_eq!(cpu.tick(&keys), None);
    assert_eq!(cpu.pc(), 0x202);
    assert_eq!(cpu.v()[5], 3);
}

#[test]
fn ld_k_takes_each_key_alone() {
    let pad = [
        KeyPad::Key0, KeyPad::Key1, KeyPad::Key2, KeyPad::Key3, KeyPad::Key4, KeyPad::Key5,
        KeyPad::Key6, KeyPad::Key7, KeyPad::Key8, KeyPad::Key9, KeyPad::KeyA, KeyPad::KeyB,
        KeyPad::KeyC, KeyPad::KeyD, KeyPad::KeyE, KeyPad::KeyF,
    ];
    for (digit, key) in pad.iter().enumerate() {
        let mut cpu = boot(&[0x65FF, 0xF50A]);
        let mut keys = State::new();
        keys.add_key(*key);
        cpu.tick(&keys);
        cpu.tick(&keys);
        assert_eq!(cpu.v()[5] as usize, digit);
        assert_eq!(cpu.pc(), 0x204);
    }
}

#[test]
fn skp_and_sknp_look_at_the_key_in_the_register() {
    let mut keys = State::new();
    keys.add_key(KeyPad::Key4);

    let mut cpu = boot(&[0x6104, 0xE19E]);
    cpu.tick(&keys);
    cpu.tick(&keys);
    assert_eq!(cpu.pc(), 0x206);

    let mut cpu = boot(&[0x6105, 0xE19E]);
    cpu.tick(&keys);
    cpu.tick(&keys);
    assert_eq!(cpu.pc(), 0x204);

    let mut cpu = boot(&[0x6104, 0xE1A1]);
    cpu.tick(&keys);
    cpu.tick(&keys);
    assert_eq!(cpu.pc(), 0x204);

    let mut cpu = boot(&[0x6105, 0xE1A1]);
    cpu.tick(&keys);
    cpu.tick(&keys);
    assert_eq!(cpu.pc(), 0x206);
}

#[test]
fn no_key_is_held_for_a_register_above_the_keypad() {
    let mut keys = State::new();
    keys.add_key(KeyPad::Key4);
    keys.add_key(KeyPad::Key0);

    // 0x14 and 0x10 agree with the keys 4 and 0 in their low four bits
    for value in [0x14u16, 0x10, 0x24, 0xFF] {
        let mut cpu = boot(&[0x6100 | value, 0xE19E]);
        cpu.tick(&keys);
        cpu.tick(&keys);
        assert_eq!(cpu.pc(), 0x204);

        let mut cpu = boot(&[0x6100 | value, 0xE1A1]);
        cpu.tick(&keys);
        cpu.tick(&keys);
        assert_eq!(cpu.pc(), 0x206);
    }
}

#[test]
fn call_and_ret_use_the_stack() {
    // CALL 0x206; (return here) JP 0x202; -; RET
    let mut cpu = boot(&[0x2206, 0x1202, 0x0000, 0x00EE]);
    run(&mut cpu, 1);
    assert_eq!(cpu.pc(), 0x206);
    assert_eq!(cpu.sp(), 1);
    assert_eq!(cpu.stack()[0], 0x202);
    run(&mut cpu, 1);
    assert_eq!(cpu.pc(), 0x202);
    assert_eq!(cpu.sp(), 0);
}

#[test]
fn the_stack_saturates_when_it_is_full() {
    // the instruction calls itself
    let mut cpu = boot(&[0x2200, 0x6A01]);
    run(&mut cpu, 16);
    assert_eq!(cpu.sp(), 16);
    assert_eq!(cpu.pc(), 0x200);
    assert_eq!(*cpu.stack(), [0x202; 16]);

    run(&mut cpu, 1);
    assert_eq!(cpu.sp(), 16);
    assert_eq!(cpu.pc(), 0x202);
    assert_eq!(*cpu.stack(), [0x202; 16]);

    run(&mut cpu, 1);
    assert_eq!(cpu.v()[0xA], 1);
    assert_eq!(cpu.pc(), 0x204);
}

#[test]
fn ret_on_an_empty_stack_changes_nothing() {
    let mut cpu = boot(&[0x00EE, 0x6A01]);
    run(&mut cpu, 1);
    assert_eq!(cpu.sp(), 0);
    assert_eq!(cpu.pc(), 0x202);
    run(&mut cpu, 1);
    assert_eq!(cpu.v()[0xA], 1);
}

#[test]
fn nested_calls_return_in_reverse_order() {
    // 0x200 CALL 0x204; 0x202 JP 0x202; 0x204 CALL 0x208; 0x206 RET; 0x208 RET
    let mut cpu = boot(&[0x2204, 0x1202, 0x2208, 0x00EE, 0x00EE]);
    run(&mut cpu, 2);
    assert_eq!(cpu.sp(), 2);
    assert_eq!(cpu.stack()[0..2], [0x202, 0x206]);
    assert_eq!(cpu.pc(), 0x208);
    run(&mut cpu, 1);
    assert_eq!((cpu.pc(), cpu.sp()), (0x206, 1));
    run(&mut cpu, 1);
    assert_eq!((cpu.pc(), cpu.sp()), (0x202, 0));
}

#[test]
fn jumps_set_the_program_counter() {
    let cpu = after(&[0x1ABC]);
    assert_eq!(cpu.pc(), 0xABC);

    let cpu = after(&[0x6005, 0xB300]);
    assert_eq!(cpu.pc(), 0x305);

    let cpu = after(&[0x60FF, 0xBFFF]);
    assert_eq!(cpu.pc(), 0x10FE);
}

#[test]
fn the_index_register_is_loaded_and_added_to() {
    let cpu = after(&[0xA123]);
    assert_eq!(cpu.i(), 0x123);

    let cpu = after(&[0x6F09, 0xAFFF, 0x6010, 0xF01E]);
    assert_eq!(cpu.i(), 0x100F);
    assert_eq!(cpu.v()[0xF], 9);
}

#[test]
fn the_index_register_wraps_at_sixteen_bits() {
    // LD V0, 0xFF; LD I, 0xFFF; ADD I, V0; JP 0x204
    let mut cpu = boot(&[0x60FF, 0xAFFF, 0xF01E, 0x1204]);
    run(&mut cpu, 2);
    let mut expected: u32 = 0xFFF;
    for _ in 0..241 {
        run(&mut cpu, 2);
        expected += 0xFF;
    }
    assert_eq!(expected, 0x1_000E);
    assert_eq!(cpu.i(), 0x000E);
}

#[test]
fn ld_f_points_at_the_glyph() {
    let cpu = after(&[0x6000, 0xF029]);
    assert_eq!(cpu.i(), 0);
    let cpu = after(&[0x600F, 0xF029]);
    assert_eq!(cpu.i(), 75);
    assert_eq!(cpu.ram()[75..80], [0xF0, 0x80, 0xF0, 0x80, 0x80]);
    let cpu = after(&[0x60FF, 0xF029]);
    assert_eq!(cpu.i(), 1275);
}

#[test]
fn registers_are_stored_up_to_and_including_vx() {
    let cpu = after(&[0x6011, 0x6122, 0x6233, 0x6344, 0xA300, 0xF255]);
    assert_eq!(cpu.ram()[0x2FF..0x305], [0, 0x11, 0x22, 0x33, 0, 0]);
    assert_eq!(cpu.i(), 0x300);

    let cpu = after(&[0x6011, 0x6122, 0xA300, 0xF055]);
    assert_eq!(cpu.ram()[0x300..0x303], [0x11, 0, 0]);
}

#[test]
fn registers_are_loaded_up_to_and_including_vx() {
    // the data at 0x206
    let mut cpu = boot(&[0x63EE, 0xA206, 0xF265, 0x0A0B, 0x0C0D]);
    run(&mut cpu, 3);
    assert_eq!(cpu.v()[0..5], [0x0A, 0x0B, 0x0C, 0xEE, 0]);
    assert_eq!(cpu.i(), 0x206);
    assert_eq!(cpu.pc(), 0x206);
}

#[test]
fn all_registers_are_stored_and_loaded() {
    let mut words: Vec<u16> = (0..16).map(|r| 0x6000 | (r << 8) | (0xF0 + r)).collect();
    words.extend([0xA400, 0xFF55]);
    words.extend((0..16).map(|r| 0x6000 | (r << 8)));
    words.extend([0xFF65]);
    let cpu = after(&words);
    let expected: Vec<u8> = (0..16).map(|r| 0xF0 + r).collect();
    assert_eq!(cpu.v()[..], expected[..]);
    assert_eq!(cpu.ram()[0x400..0x410], expected[..]);
    assert_eq!(cpu.ram()[0x410], 0);
}

#[test]
fn registers_are_not_moved_beyond_memory() {
    // I + 1 is the last byte of memory: V0 and V1 fit, V0 to V2 do not
    let cpu = after(&[0x6011, 0x6122, 0x6233, 0xAFFE, 0xF255]);
    assert_eq!(cpu.ram()[0xFFE..0x1000], [0, 0]);
    let cpu = after(&[0x6011, 0x6122, 0x6233, 0xAFFE, 0xF155]);
    assert_eq!(cpu.ram()[0xFFE..0x1000], [0x11, 0x22]);

    let cpu = after(&[0x6011, 0x6122, 0x6233, 0xAFFE, 0xF265]);
    assert_eq!(cpu.v()[0..3], [0x11, 0x22, 0x33]);
    let cpu = after(&[0x6011, 0x6122, 0x6233, 0xAFFE, 0xF165]);
    assert_eq!(cpu.v()[0..3], [0, 0, 0x33]);
}

#[test]
fn the_timers_are_set_and_read() {
    let mut cpu = boot(&[0x6A2A, 0xFA15, 0xFA18, 0xFB07]);
    run(&mut cpu, 3);
    assert_eq!(cpu.dt(), 0x2A);
    assert_eq!(cpu.st(), 0x2A);
    assert!(cpu.beeping());
    cpu.decrement_delay();
    run(&mut cpu, 1);
    assert_eq!(cpu.v()[0xB], 0x29);
    assert_eq!(cpu.st(), 0x2A);
}

#[test]
fn a_step_leaves_the_timers_alone() {
    let mut cpu = boot(&[0x6A2A, 0xFA15, 0xFA18, 0x1206]);
    run(&mut cpu, 50);
    assert_eq!(cpu.dt(), 0x2A);
    assert_eq!(cpu.st(), 0x2A);
}

#[test]
fn rnd_masks_the_random_byte() {
    let keys = State::new();

    let mut cpu = boot(&[0xC13C]);
    assert_eq!(cpu.tick_with(&keys, 0xAB), None);
    assert_eq!(cpu.v()[1], 0x28);
    assert_eq!(cpu.pc(), 0x202);

    for _ in 0..64 {
        let mut cpu = boot(&[0x61FF, 0xC100, 0x62FF, 0xC20F]);
        run(&mut cpu, 4);
        assert_eq!(cpu.v()[1], 0);
        assert_eq!(cpu.v()[2] & 0xF0, 0);
    }
}

#[test]
fn rnd_draws_more_than_one_byte() {
    let mut seen = std::collections::BTreeSet::new();
    for _ in 0..200 {
        let cpu = after(&[0xC0FF]);
        seen.insert(cpu.v()[0]);
    }
    assert!(seen.len() > 1);
}

#[test]
fn the_random_byte_matters_to_rnd_alone() {
    let keys = State::new();
    let words = [0x60FF, 0x6101, 0x8014, 0xA300, 0xF033, 0xD015, 0x2210, 0x0000, 0x00EE];
    let mut one = boot(&words);
    let mut other = boot(&words);
    for _ in 0..9 {
        let unknown = one.tick_with(&keys, 0x00);
        assert_eq!(other.tick_with(&keys, 0xFF), unknown);
        assert_eq!(one.pc(), other.pc());
        assert_eq!(one.v(), other.v());
        assert_eq!(one.ram()[..], other.ram()[..]);
        assert_eq!(one.get_vram(), other.get_vram());
    }
}

#[test]
fn an_unknown_instruction_is_reported_and_skipped() {
    let mut cpu = boot(&[0x6A01, 0x5121, 0xFFFF, 0x0000, 0x6B02]);
    let keys = State::new();
    assert_eq!(cpu.tick(&keys), None);
    assert_eq!(cpu.tick(&keys), Some(0x5121));
    assert_eq!(cpu.pc(), 0x204);
    assert_eq!(cpu.tick_with(&keys, 9), Some(0xFFFF));
    assert_eq!(cpu.tick(&keys), Some(0x0000));
    assert_eq!(cpu.pc(), 0x208);
    assert_eq!(cpu.v()[0xA], 1);
    assert_eq!(cpu.sp(), 0);
    assert_eq!(cpu.i(), 0);
    assert_eq!(lit(&cpu), vec![]);
    assert_eq!(cpu.tick(&keys), None);
    assert_eq!(cpu.v()[0xB], 2);
}

#[test]
fn the_machine_stands_still_past_the_end_of_memory() {
    let keys = State::new();
    let mut rom: RomBuffer = [0; ROM_SIZE];
    rom[ROM_SIZE - 2] = 0x6A;
    rom[ROM_SIZE - 1] = 0x01;
    let mut cpu = CPU::init(&rom);
    cpu.set_pc(0xFFE);
    assert_eq!(cpu.tick(&keys), None);
    assert_eq!(cpu.v()[0xA], 1);
    assert_eq!(cpu.pc(), 0x1000);

    for _ in 0..3 {
        assert_eq!(cpu.tick(&keys), None);
        assert_eq!(cpu.tick_with(&keys, 1), None);
        assert_eq!(cpu.pc(), 0x1000);
        assert_eq!(cpu.v()[0xA], 1);
    }

    let mut cpu = CPU::init(&rom);
    cpu.set_pc(0xFFF);
    assert_eq!(cpu.tick(&keys), None);
    assert_eq!(cpu.pc(), 0xFFF);
    assert_eq!(cpu.v()[0xA], 0);
}

#[test]
fn an_instruction_at_an_odd_address_is_fetched() {
    let keys = State::new();
    let mut rom: RomBuffer = [0; ROM_SIZE];
    rom[1] = 0x6A;
    rom[2] = 0x77;
    let mut cpu = CPU::init(&rom);
    cpu.set_pc(0x201);
    assert_eq!(cpu.fetch_instruction(), 0x6A77);
    assert_eq!(cpu.tick(&keys), None);
    assert_eq!(cpu.v()[0xA], 0x77);
    assert_eq!(cpu.pc(), 0x203);
}
