use cpu::cpu::{
    branch_target, index_absolute, index_zero_page, make_word, program_bytes, split_word,
    to_signed,
};
use cpu::disasm::{jumps, mnemonic_str};
use cpu::trace::{bytes_to_text, push_hex2, push_hex4, push_padded, registers_to_text};
use cpu::{
    assign_flag, set_zero_negative, test_flag, Mnemonic, Registers, BREAK, CARRY, CPU, DECIMAL,
    INTERRUPT, NEGATIVE, OVERFLOW, UNUSED, ZERO,
};

#[test]
fn flag_masks() {
    assert_eq!(
        [CARRY, ZERO, INTERRUPT, DECIMAL, BREAK, UNUSED, OVERFLOW, NEGATIVE],
        [0x01, 0x02, 0x04, 0x08, 0x10, 0x20, 0x40, 0x80]
    );
}

#[test]
fn test_flag_reads_one_bit() {
    assert!(test_flag(0x24, INTERRUPT));
    assert!(test_flag(0x24, UNUSED));
    assert!(!test_flag(0x24, CARRY));
    assert!(!test_flag(0x00, NEGATIVE));
    assert!(test_flag(0xFF, NEGATIVE));
}

#[test]
fn assign_flag_changes_one_bit() {
    assert_eq!(assign_flag(0x24, CARRY, true), 0x25);
    assert_eq!(assign_flag(0x25, CARRY, true), 0x25);
    assert_eq!(assign_flag(0x25, CARRY, false), 0x24);
    assert_eq!(assign_flag(0x24, CARRY, false), 0x24);
    assert_eq!(assign_flag(0xFF, OVERFLOW, false), 0xBF);
    assert_eq!(assign_flag(0x00, NEGATIVE, true), 0x80);
}

#[test]
fn assigning_a_flag_keeps_the_others() {
    let masks = [CARRY, ZERO, INTERRUPT, DECIMAL, BREAK, UNUSED, OVERFLOW, NEGATIVE];
    for p in 0..=255u8 {
        for mask in masks {
            for on in [false, true] {
                let q = assign_flag(p, mask, on);
                assert_eq!(test_flag(q, mask), on);
                for other in masks {
                    if other != mask {
                        assert_eq!(test_flag(q, other), test_flag(p, other));
                    }
                }
            }
        }
    }
}

#[test]
fn set_zero_negative_follows_the_value() {
    assert_eq!(set_zero_negative(0x24, 0x00), 0x26);
    assert_eq!(set_zero_negative(0x24, 0x80), 0xA4);
    assert_eq!(set_zero_negative(0x24, 0x01), 0x24);
    assert_eq!(set_zero_negative(0xFF, 0x7F), 0x7D);
    for p in 0..=255u8 {
        for value in 0..=255u8 {
            let q = set_zero_negative(p, value);
            assert_eq!(test_flag(q, ZERO), value == 0);
            assert_eq!(test_flag(q, NEGATIVE), value >= 0x80);
            assert_eq!(q & 0x7D, p & 0x7D);
        }
    }
}

#[test]
fn to_signed_reads_twos_complement() {
    assert_eq!(to_signed(0x00), 0);
    assert_eq!(to_signed(0x7F), 127);
    assert_eq!(to_signed(0x80), -128);
    assert_eq!(to_signed(0xFF), -1);
    assert_eq!(to_signed(0xFC), -4);
}

#[test]
fn words_and_bytes() {
    assert_eq!(make_word(0xF5, 0xC5), 0xC5F5);
    assert_eq!(make_word(0xFF, 0xFF), 0xFFFF);
    assert_eq!(make_word(0x00, 0x00), 0x0000);
    assert_eq!(split_word(0xC5F5), (0xF5, 0xC5));
    assert_eq!(split_word(0x00FF), (0xFF, 0x00));
}

#[test]
fn indexing_wraps() {
    assert_eq!(index_zero_page(0x10, 0x05), 0x15);
    assert_eq!(index_zero_page(0xFF, 0x01), 0x00);
    assert_eq!(index_zero_page(0x80, 0xFF), 0x7F);
    assert_eq!(index_absolute(0x0400, 0x05), 0x0405);
    assert_eq!(index_absolute(0xFFFF, 0x01), 0x0000);
    assert_eq!(index_absolute(0xFF80, 0xFF), 0x007F);
}

#[test]
fn branch_targets() {
    assert_eq!(branch_target(0xC731, 4), 0xC735);
    assert_eq!(branch_target(0xC731, -4), 0xC72D);
    assert_eq!(branch_target(0x0000, -1), 0xFFFF);
    assert_eq!(branch_target(0xFFFF, 1), 0x0000);
    assert_eq!(branch_target(0x0000, -128), 0xFF80);
    assert_eq!(branch_target(0xFFFF, 127), 0x007E);
}

#[test]
fn program_bytes_of_a_rom_file() {
    let empty: [u8; 0] = [];
    assert_eq!(program_bytes(&[]), &empty);
    assert_eq!(program_bytes(&[7u8; 16]), &empty);
    let mut rom = vec![7u8; 16];
    rom.push(0xEA);
    assert_eq!(program_bytes(&rom), &[0xEA]);
    let mut rom = vec![7u8; 16];
    rom.extend(vec![1u8; 0x4000]);
    assert_eq!(program_bytes(&rom).len(), 0x4000);
    rom.push(2);
    rom.push(2);
    assert_eq!(program_bytes(&rom).len(), 0x4000);
    assert_eq!(program_bytes(&rom)[0x3FFF], 1);
}

#[test]
fn hex_digits() {
    let mut text = String::from(">");
    push_hex2(&mut text, 0x00);
    push_hex2(&mut text, 0x9A);
    push_hex2(&mut text, 0xFF);
    assert_eq!(text, ">009AFF");
    push_hex4(&mut text, 0x0BCD);
    push_hex4(&mut text, 0xE012);
    assert_eq!(text, ">009AFF0BCDE012");
    let mut all = String::new();
    for v in [0x01u8, 0x23, 0x45, 0x67, 0x89, 0xAB, 0xCD, 0xEF] {
        push_hex2(&mut all, v);
    }
    assert_eq!(all, "0123456789ABCDEF");
}

#[test]
fn padding() {
    let mut text = String::from("[");
    push_padded(&mut text, "ab", 5);
    text.push(']');
    assert_eq!(text, "[ab   ]");
    push_padded(&mut text, "abcdef", 3);
    assert_eq!(text, "[ab   ]abcdef");
    push_padded(&mut text, "", 2);
    assert_eq!(text, "[ab   ]abcdef  ");
    push_padded(&mut text, "xy", 2);
    push_padded(&mut text, "", 0);
    assert_eq!(text, "[ab   ]abcdef  xy");
}

#[test]
fn bytes_as_text() {
    assert_eq!(bytes_to_text(&vec![]), "");
    assert_eq!(bytes_to_text(&vec![0xEA]), "EA");
    assert_eq!(bytes_to_text(&vec![0xB0, 0x04]), "B0 04");
    assert_eq!(bytes_to_text(&vec![0x4C, 0xF5, 0xC5]), "4C F5 C5");
}

#[test]
fn registers_as_text() {
    let r = Registers { pc: 0xC000, s: 0xFD, p: 0x24, a: 0x00, x: 0x0A, y: 0xFF };
    assert_eq!(registers_to_text(r), "A:00 X:0A Y:FF P:24 SP:FD");
    let mut cpu = CPU::new();
    cpu.set_registers(r);
    assert_eq!(cpu.print_registers(), "A:00 X:0A Y:FF P:24 SP:FD");
}

#[test]
fn mnemonic_names() {
    assert_eq!(mnemonic_str(Mnemonic::Adc), "ADC");
    assert_eq!(mnemonic_str(Mnemonic::Cmp), "CMP");
    assert_eq!(mnemonic_str(Mnemonic::Jsr), "JSR");
    assert_eq!(mnemonic_str(Mnemonic::Tya), "TYA");
    assert!(jumps(Mnemonic::Jmp));
    assert!(jumps(Mnemonic::Jsr));
    assert!(!jumps(Mnemonic::Lda));
    assert!(!jumps(Mnemonic::Rts));
}

#[test]
fn advance_wraps_the_program_counter() {
    let mut cpu = CPU::new();
    cpu.set_registers(Registers { pc: 0xFFFE, s: 0xFD, p: 0, a: 0, x: 0, y: 0 });
    cpu.advance(3);
    assert_eq!(cpu.registers().pc, 0x0001);
    cpu.advance(0);
    assert_eq!(cpu.registers().pc, 0x0001);
}

#[test]
fn push_then_pull_at_every_stack_pointer() {
    for s in 0..=255u8 {
        let mut cpu = CPU::new();
        cpu.set_registers(Registers { pc: 0, s, p: 0, a: 0, x: 0, y: 0 });
        cpu.push_to_stack(s ^ 0x5A);
        assert_eq!(cpu.registers().s, s.wrapping_sub(1));
        assert_eq!(cpu.read(0x0100 + s as u16), s ^ 0x5A);
        assert_eq!(cpu.pop_from_stack(), s ^ 0x5A);
        assert_eq!(cpu.registers().s, s);
    }
}

#[test]
fn set_registers_keeps_memory_and_cycles() {
    let mut cpu = CPU::new();
    cpu.write(0x0010, 0x99);
    cpu.write(0x0000, 0xEA);
    cpu.step().unwrap();
    cpu.set_registers(Registers { pc: 0x1234, s: 0x01, p: 0x02, a: 0x03, x: 0x04, y: 0x05 });
    assert_eq!(
        cpu.registers(),
        Registers { pc: 0x1234, s: 0x01, p: 0x02, a: 0x03, x: 0x04, y: 0x05 }
    );
    assert_eq!(cpu.read(0x0010), 0x99);
    assert_eq!(cpu.cycles(), 2);
}
