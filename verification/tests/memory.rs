// The memory bus and the program loader.

use m6502::{Memory, ProgramTooLarge};

#[test]
fn a_new_memory_is_zero_everywhere() {
    let memory = Memory::new();
    assert!(memory.data.iter().all(|byte| *byte == 0));
    assert_eq!(memory.data.len(), 65536);
}

#[test]
fn get_reads_what_set_wrote() {
    let mut memory = Memory::new();
    memory.set(0x0000, 0x11);
    memory.set(0x1234, 0x22);
    memory.set(0xFFFF, 0x33);
    assert_eq!(memory.get(0x0000), 0x11);
    assert_eq!(memory.get(0x1234), 0x22);
    assert_eq!(memory.get(0xFFFF), 0x33);
    assert_eq!(memory.get(0x1233), 0x00);
    assert_eq!(memory.get(0x1235), 0x00);
    assert_eq!(memory.data.iter().filter(|byte| **byte != 0).count(), 3);
}

#[test]
fn indexing_reads_and_writes_single_bytes() {
    let mut memory = Memory::new();
    memory[0x0200] = 0xAB;
    assert_eq!(memory[0x0200], 0xAB);
    assert_eq!(memory.get(0x0200), 0xAB);
    memory.set(0x0201, 0xCD);
    assert_eq!(memory[0x0201], 0xCD);
    assert_eq!(memory.data.iter().filter(|byte| **byte != 0).count(), 2);
}

#[test]
fn set_values_fills_and_initialise_clears() {
    let mut memory = Memory::new();
    memory.set_values(0xEA);
    assert!(memory.data.iter().all(|byte| *byte == 0xEA));
    memory.initialise();
    assert!(memory.data.iter().all(|byte| *byte == 0));
}

#[test]
fn load_program_copies_the_image_and_nothing_else() {
    let mut memory = Memory::new();
    memory.set_values(0xFF);
    assert_eq!(memory.load_program(0x8000, &[1, 2, 3]), Ok(()));
    assert_eq!(memory.get(0x7FFF), 0xFF);
    assert_eq!(memory.get(0x8000), 1);
    assert_eq!(memory.get(0x8001), 2);
    assert_eq!(memory.get(0x8002), 3);
    assert_eq!(memory.get(0x8003), 0xFF);
}

#[test]
fn load_program_accepts_an_image_that_ends_at_the_top() {
    let mut memory = Memory::new();
    let image = vec![0x5A; 0x8000];
    assert_eq!(memory.load_program(0x8000, &image), Ok(()));
    assert_eq!(memory.get(0x7FFF), 0x00);
    assert_eq!(memory.get(0x8000), 0x5A);
    assert_eq!(memory.get(0xFFFF), 0x5A);
    assert_eq!(memory.load_program(0xFFFF, &[0x77]), Ok(()));
    assert_eq!(memory.get(0xFFFF), 0x77);
    assert_eq!(memory.load_program(0x0000, &vec![0x01; 0x10000]), Ok(()));
    assert!(memory.data.iter().all(|byte| *byte == 0x01));
    assert_eq!(memory.load_program(0x1234, &[]), Ok(()));
}

#[test]
fn load_program_refuses_an_image_that_runs_past_the_top() {
    let mut memory = Memory::new();
    memory.set(0x8000, 0x42);
    let image = vec![0x5A; 0x8001];
    assert_eq!(
        memory.load_program(0x8000, &image),
        Err(ProgramTooLarge { start: 0x8000, len: 0x8001 })
    );
    assert_eq!(memory.get(0x8000), 0x42);
    assert_eq!(memory.get(0xFFFF), 0x00);
    assert_eq!(
        memory.load_program(0xFFFF, &[1, 2]),
        Err(ProgramTooLarge { start: 0xFFFF, len: 2 })
    );
    assert_eq!(memory.get(0xFFFF), 0x00);
    assert_eq!(memory.data.iter().filter(|byte| **byte != 0).count(), 1);
}

#[test]
fn set_reset_vector_stores_the_address_low_byte_first() {
    let mut memory = Memory::new();
    memory.set_reset_vector(0x8000);
    assert_eq!((memory.get(0xFFFC), memory.get(0xFFFD)), (0x00, 0x80));
    memory.set_reset_vector(0x1234);
    assert_eq!((memory.get(0xFFFC), memory.get(0xFFFD)), (0x34, 0x12));
    assert_eq!(memory.data.iter().filter(|byte| **byte != 0).count(), 2);
}
