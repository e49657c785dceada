use chip8::emulator::{Emulator, SizeExceeded};
use chip8::font::font;

#[test]
fn load_places_image_and_font_and_resets_registers() {
    let rom: Vec<u8> = vec![0x60, 0x2A, 0xA1, 0x23, 0x12, 0x00, 0x7F];
    let emulator = Emulator::new(rom.clone()).unwrap();
    let memory = emulator.memory();
    assert_eq!(&memory[0x200..0x200 + rom.len()], &rom[..]);
    assert_eq!(&memory[0x050..0x0A0], &font()[..]);
    assert!(memory[..0x050].iter().all(|byte| *byte == 0));
    assert!(memory[0x0A0..0x200].iter().all(|byte| *byte == 0));
    assert!(memory[0x200 + rom.len()..].iter().all(|byte| *byte == 0));
    assert_eq!(emulator.pc(), 0x200);
    assert_eq!(emulator.index(), 0);
    assert_eq!(emulator.registers(), &[0u8; 16]);
    assert!(emulator.stack().is_empty());
    assert_eq!(emulator.screen().rows(), &[0u64; 32]);
}

#[test]
fn load_accepts_empty_image() {
    let emulator = Emulator::new(Vec::new()).unwrap();
    assert!(emulator.memory()[0x200..].iter().all(|byte| *byte == 0));
    assert_eq!(emulator.pc(), 0x200);
}

#[test]
fn load_accepts_image_that_fills_memory() {
    let rom: Vec<u8> = (0..3584usize).map(|k| (k % 251) as u8 + 1).collect();
    let emulator = Emulator::new(rom.clone()).unwrap();
    assert_eq!(&emulator.memory()[0x200..], &rom[..]);
    assert_eq!(emulator.memory()[4095], rom[3583]);
}

#[test]
fn load_refuses_image_one_byte_too_long() {
    let result = Emulator::new(vec![0u8; 3585]);
    assert_eq!(result.unwrap_err(), SizeExceeded { len: 3585 });
}

#[test]
fn load_refuses_large_image() {
    let result = Emulator::new(vec![0xFFu8; 10_000]);
    assert_eq!(result.unwrap_err(), SizeExceeded { len: 10_000 });
}

#[test]
fn font_table_has_sixteen_glyphs() {
    let table = font();
    assert_eq!(table.len(), 80);
    assert_eq!(&table[0..5], &[0xF0, 0x90, 0x90, 0x90, 0xF0]);
    assert_eq!(&table[5..10], &[0x20, 0x60, 0x20, 0x20, 0x70]);
    assert_eq!(&table[50..55], &[0xF0, 0x90, 0xF0, 0x90, 0x90]);
    assert_eq!(&table[75..80], &[0xF0, 0x80, 0xF0, 0x80, 0x80]);
}
