use hivemind::vcpu::cpu::VCPU16;
use hivemind::vcpu::hive::HiveCPU;
use hivemind::vcpu::memory::{ImageError, Memory};
use rand::{Rng, SeedableRng, XorShiftRng};

#[test]
pub fn cpu_test_save_load_memory() {
    // Create our Memory and external buffers
    let mut output: [u8; 131072] = [0; 131072];
    let mut input: [u8; 131072] = [0; 131072];
    let mut vcpu = VCPU16::new();

    // Fill our input Buffer
    XorShiftRng::from_seed([1; 4]).fill_bytes(&mut input[..]);

    // Load our input into Memory
    vcpu.load_memory(&input[..]).unwrap();

    // Save our memory to output
    output.copy_from_slice(&vcpu.save_memory());

    // Compare buffers
    assert_eq!(&input[..], &output[..]);
}

#[test]
pub fn memory_test_save_load_memory() {
    // Create our Memory and external buffers
    let mut output: [u8; 131072] = [0; 131072];
    let mut input: [u8; 131072] = [0; 131072];
    let mut memory = Memory::new();

    // Fill our input Buffer
    XorShiftRng::from_seed([1; 4]).fill_bytes(&mut input[..]);

    // Load our input into Memory
    memory.load_memory(&input[..]).unwrap();

    // Save our memory to output
    output.copy_from_slice(&memory.save_memory());

    // Compare buffers
    assert_eq!(&input[..], &output[..]);
}

#[test]
fn hive_save_load_memory() {
    let mut input: Vec<u8> = vec![0; 131072];
    XorShiftRng::from_seed([1; 4]).fill_bytes(&mut input[..]);
    let mut cpu = HiveCPU::new();
    cpu.load_memory(&input).unwrap();
    assert_eq!(cpu.save_memory(), input);
}

#[test]
fn image_is_little_endian_word_by_word() {
    let mut image: Vec<u8> = vec![0; 131072];
    image[0] = 0x34;
    image[1] = 0x12;
    image[2] = 0xCD;
    image[3] = 0xAB;
    image[131070] = 0x01;
    image[131071] = 0x80;
    let mut memory = Memory::new();
    assert_eq!(memory.load_memory(&image), Ok(()));
    assert_eq!(memory.get_memory(0), 0x1234);
    assert_eq!(memory.get_memory(1), 0xABCD);
    assert_eq!(memory.get_memory(2), 0);
    assert_eq!(memory.get_memory(0xFFFF), 0x8001);
}

#[test]
fn saved_image_has_low_byte_first() {
    let mut memory = Memory::new();
    memory.set_memory(0, 0xBEEF);
    memory.set_memory(0xFFFF, 0x0102);
    let image = memory.save_memory();
    assert_eq!(image.len(), 131072);
    assert_eq!(image[0], 0xEF);
    assert_eq!(image[1], 0xBE);
    assert_eq!(image[2], 0);
    assert_eq!(image[131070], 0x02);
    assert_eq!(image[131071], 0x01);
}

#[test]
fn short_image_is_rejected_and_changes_nothing() {
    let mut memory = Memory::new();
    memory.set_memory(7, 0x7777);
    let image: Vec<u8> = vec![0xFF; 131071];
    assert_eq!(memory.load_memory(&image), Err(ImageError::Truncated { found: 131071 }));
    assert_eq!(memory.get_memory(7), 0x7777);
    assert_eq!(memory.get_memory(0), 0);
    assert_eq!(memory.load_memory(&[]), Err(ImageError::Truncated { found: 0 }));

    let mut cpu = VCPU16::new();
    cpu.set_memory(3, 0x3333);
    assert_eq!(cpu.load_memory(&image), Err(ImageError::Truncated { found: 131071 }));
    assert_eq!(cpu.get_memory(3), 0x3333);
}

#[test]
fn bytes_beyond_a_full_image_are_ignored() {
    let mut image: Vec<u8> = vec![0x11; 131072];
    image.push(0xEE);
    image.push(0xEE);
    let mut memory = Memory::new();
    assert_eq!(memory.load_memory(&image), Ok(()));
    assert_eq!(memory.get_memory(0xFFFF), 0x1111);
    assert_eq!(memory.save_memory(), &image[..131072]);
}

#[test]
fn loading_an_image_keeps_registers() {
    let mut cpu = VCPU16::new();
    cpu.set_register(hivemind::vcpu::register::Register::A, 9);
    let image: Vec<u8> = vec![0x22; 131072];
    cpu.load_memory(&image).unwrap();
    assert_eq!(cpu.get_a(), 9);
    assert_eq!(cpu.get_memory(0x1234), 0x2222);
}

#[test]
fn memory_starts_zero_and_stores_words() {
    let mut memory = Memory::new();
    assert_eq!(memory.get_memory(0), 0);
    assert_eq!(memory.get_memory(0xFFFF), 0);
    memory.set_memory(0xFFFF, 0xABCD);
    memory.set_memory(0, 1);
    assert_eq!(memory.get_memory(0xFFFF), 0xABCD);
    assert_eq!(memory.get_memory(0), 1);
    assert_eq!(memory.get_memory(1), 0);
}
