use stack_cpu::cpu::CPU;
use stack_cpu::machine::Action;
use stack_cpu::memory::{Memory, MIN_MEMORY_WORDS};
use stack_cpu::opcodes::{FETCH, LIT, WAIT};

#[test]
fn words_are_little_endian() {
    let image = [0x78, 0x56, 0x34, 0x12, 0xff, 0xff, 0xff, 0xff, 0x00, 0x00, 0x00, 0x80, 0x01, 0, 0, 0];
    let memory = Memory::new(&image);
    assert_eq!(memory.word_at(0), Some(0x1234_5678));
    assert_eq!(memory.word_at(1), Some(-1));
    assert_eq!(memory.word_at(2), Some(i32::MIN));
    assert_eq!(memory.word_at(3), Some(1));
    assert_eq!(memory.word_at(4), Some(0));
}

#[test]
fn a_small_image_is_padded_to_the_least_size() {
    let image = [1u8, 0, 0, 0, 2, 0, 0, 0];
    let memory = Memory::new(&image);
    assert_eq!(MIN_MEMORY_WORDS, 1_048_576);
    assert_eq!(memory.size(), 1_048_576);
    assert_eq!(memory.word_at(0), Some(1));
    assert_eq!(memory.word_at(1), Some(2));
    for addr in [2, 3, 1000, 1_048_575] {
        assert_eq!(memory.word_at(addr), Some(0));
    }
    assert_eq!(memory.word_at(1_048_576), None);
    assert_eq!(memory.word_at(-1), None);
    assert_eq!(CPU::new(&image).get_info().memory_size, 1_048_576);
}

#[test]
fn an_empty_image_loads_into_zeroed_memory() {
    let memory = Memory::new(&[]);
    assert_eq!(memory.size(), 1_048_576);
    assert_eq!(memory.word_at(0), Some(0));
    assert_eq!(memory.data_depth(), 0);
    assert_eq!(memory.address_depth(), 0);
}

#[test]
fn an_image_of_exactly_the_least_size_is_not_padded() {
    let mut image = vec![0u8; 4 * 1_048_576];
    image[4 * 1_048_575] = 9;
    let memory = Memory::new(&image);
    assert_eq!(memory.size(), 1_048_576);
    assert_eq!(memory.word_at(1_048_575), Some(9));
}

#[test]
fn a_large_image_sets_the_memory_size() {
    let words = 1_048_576 + 3;
    let mut image = vec![0u8; 4 * words];
    image[4 * (words - 1)] = 7;
    let memory = Memory::new(&image);
    assert_eq!(memory.size(), words);
    assert_eq!(memory.word_at(words as i32 - 1), Some(7));
    assert_eq!(memory.word_at(words as i32), None);
    assert_eq!(CPU::new(&image).get_info().memory_size, words as i32);
}

#[test]
fn a_trailing_partial_word_is_ignored() {
    let image = [5u8, 0, 0, 0, 6, 0, 0];
    let memory = Memory::new(&image);
    assert_eq!(memory.size(), 1_048_576);
    assert_eq!(memory.word_at(0), Some(5));
    assert_eq!(memory.word_at(1), Some(0));
    let large = vec![1u8; 4 * 1_048_577 + 3];
    assert_eq!(Memory::new(&large).size(), 1_048_577);
    assert_eq!(Memory::new(&large).word_at(1_048_576), Some(0x0101_0101));
}

#[test]
fn the_machine_executes_the_loaded_image() {
    let image = [1u8, 0, 0, 0, 0xfe, 0xff, 0xff, 0xff, 30, 0, 0, 0];
    let mut cpu = CPU::new(&image);
    assert_eq!(cpu.next(100), Ok(Action::Wait));
    assert_eq!(cpu.pop_data(), Ok(-2));
    assert_eq!([LIT, FETCH, WAIT], [1, 14, 30]);
}

#[test]
fn memory_stacks_and_store() {
    let mut memory = Memory::new(&[]);
    assert_eq!(memory.pop_data(), None);
    assert_eq!(memory.pop_address(), None);
    assert_eq!(memory.peek_data(0), None);
    assert_eq!(memory.peek_address(), None);
    memory.push_data(1);
    memory.push_data(2);
    memory.push_data(3);
    memory.push_address(10);
    assert_eq!(memory.data_depth(), 3);
    assert_eq!(memory.address_depth(), 1);
    assert_eq!(memory.peek_data(0), Some(3));
    assert_eq!(memory.peek_data(2), Some(1));
    assert_eq!(memory.peek_data(3), None);
    assert_eq!(memory.peek_address(), Some(10));
    memory.drop_data(2);
    assert_eq!(memory.data_depth(), 1);
    memory.drop_data(5);
    assert_eq!(memory.data_depth(), 0);
    memory.data_stack().push(8);
    assert_eq!(memory.pop_data(), Some(8));
    assert_eq!(memory.pop_address(), Some(10));
    assert!(memory.store(17, -4));
    assert_eq!(memory.word_at(17), Some(-4));
    assert!(!memory.store(1_048_576, 1));
    assert!(!memory.store(-1, 1));
}
