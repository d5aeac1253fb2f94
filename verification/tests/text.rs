use rv32emu::register::{Register32, NUM_REGISTER};
use rv32emu::text::{to_decimal_digits, to_hex_digits, to_hex_text};
use rv32emu::word::{add_signed, add_wrapping, less_signed, sub_wrapping};
use rv32emu::{get_output, get_rom_file};

#[test]
fn hexadecimal() {
    assert_eq!(to_hex_digits(0), "0");
    assert_eq!(to_hex_digits(0xF), "f");
    assert_eq!(to_hex_digits(0x10), "10");
    assert_eq!(to_hex_digits(0xDEAD_BEEF), "deadbeef");
    assert_eq!(to_hex_text(0), "0x00000000");
    assert_eq!(to_hex_text(0x2A), "0x0000002a");
    assert_eq!(to_hex_text(0x1234_5678), "0x12345678");
    assert_eq!(to_hex_text(0xFFFF_FFFF), "0xffffffff");
    for value in [0usize, 1, 15, 16, 0xABCDEF, 0x9876_5432, usize::MAX] {
        assert_eq!(to_hex_text(value), format!("{:#010x}", value));
        assert_eq!(to_hex_digits(value), format!("{:x}", value));
    }
}

#[test]
fn decimal() {
    assert_eq!(to_decimal_digits(0), "0");
    assert_eq!(to_decimal_digits(9), "9");
    assert_eq!(to_decimal_digits(10), "10");
    assert_eq!(to_decimal_digits(4294967295), "4294967295");
    for value in [0usize, 7, 31, 100, 123456789, usize::MAX] {
        assert_eq!(to_decimal_digits(value), format!("{}", value));
    }
}

#[test]
fn words_from_little_endian_bytes() {
    assert_eq!(get_rom_file(&[]), Vec::<u32>::new());
    assert_eq!(get_rom_file(&[0x93, 0x00, 0x10, 0x00]), vec![0x00100093]);
    assert_eq!(
        get_rom_file(&[0x44, 0x33, 0x22, 0x11, 0xEF, 0xBE, 0xAD, 0xDE, 0xFF, 0xFF, 0xFF, 0xFF]),
        vec![0x1122_3344, 0xDEAD_BEEF, 0xFFFF_FFFF]
    );
}

fn expected_output(reg: &[Register32; NUM_REGISTER], mem: &Vec<u32>) -> String {
    let mut out = String::from("Register Dump:\n\n");
    for (i, reg) in reg.iter().enumerate() {
        out += &format!("x{}: {:#010x}\t", i, reg.0);
        if (i + 1) % 4 == 0 {
            out += "\n";
        }
    }
    out += "\nMemory Dump:\n";
    for (i, val) in mem.iter().enumerate() {
        if i % 4 == 0 {
            out += &format!("\n{:#010x}: ", 0x8000_0000usize + i * 4);
        }
        out += &format!("{:#010x} ", val);
    }
    out
}

#[test]
fn dump() {
    let mut reg = [Register32(0); NUM_REGISTER];
    let empty = get_output(&reg, &Vec::new());
    assert!(empty.starts_with(
        "Register Dump:\n\nx0: 0x00000000\tx1: 0x00000000\tx2: 0x00000000\tx3: 0x00000000\t\nx4: "
    ));
    assert!(empty.ends_with("x31: 0x00000000\t\n\nMemory Dump:\n"));
    reg[1] = Register32(1);
    reg[10] = Register32(0xDEAD_BEEF);
    reg[31] = Register32(0xFFFF_FFFF);
    let mem = vec![3, 0xDEAD_BEF2, 0xBEF2, 0xF2, 0x1234_5678];
    let output = get_output(&reg, &mem);
    assert_eq!(output, expected_output(&reg, &mem));
    assert!(output.ends_with(
        "\nMemory Dump:\n\n0x80000000: 0x00000003 0xdeadbef2 0x0000bef2 0x000000f2 \n0x80000010: 0x12345678 "
    ));
    assert!(output.contains("x8: 0x00000000\tx9: 0x00000000\tx10: 0xdeadbeef\tx11: 0x00000000\t\n"));
}

#[test]
fn word_arithmetic() {
    assert_eq!(add_signed(0, -1), 0xFFFF_FFFF);
    assert_eq!(add_signed(0xFFFF_FFFF, 1), 0);
    assert_eq!(add_signed(0x8000_0000, i32::MIN), 0);
    assert_eq!(add_signed(0xDEAD_C000, -273), 0xDEAD_BEEF);
    assert_eq!(add_wrapping(0xFFFF_FFFC, 4), 0);
    assert_eq!(add_wrapping(1, 2), 3);
    assert_eq!(sub_wrapping(0, 1), 0xFFFF_FFFF);
    assert_eq!(sub_wrapping(5, 3), 2);
    assert!(less_signed(0xFFFF_FFFF, 0));
    assert!(!less_signed(0, 0xFFFF_FFFF));
    assert!(less_signed(0x8000_0000, 0x7FFF_FFFF));
    assert!(!less_signed(3, 3));
}
