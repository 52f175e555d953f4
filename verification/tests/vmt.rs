//! Reading tables out of a memory that is a map from addresses to words.
use shroud::vmt::TableReader;
use std::collections::HashMap;

const WORD: usize = std::mem::size_of::<usize>();

/// Reads a table as the reader asks, and writes down the addresses it asked for.
fn read_table(
    memory: &HashMap<usize, usize>,
    object: usize,
    slot_count: usize,
) -> (Option<Vec<usize>>, Vec<usize>) {
    let mut reader = TableReader::new(object, slot_count);
    let mut asked = Vec::new();
    while let Some(address) = reader.pending() {
        asked.push(address);
        reader = reader.accept(memory[&address]);
    }
    (reader.table(), asked)
}

fn memory_with_table(object: usize, base: usize, words: &[usize]) -> HashMap<usize, usize> {
    let mut memory = HashMap::new();
    memory.insert(object, base);
    for (slot, word) in words.iter().enumerate() {
        memory.insert(base + slot * WORD, *word);
    }
    memory
}

#[test]
fn five_sentinels_come_back_in_order() {
    let sentinels = [0xAAAA_0001, 0xBBBB_0002, 0xCCCC_0003, 0xDDDD_0004, 0xEEEE_0005];
    let memory = memory_with_table(0x1000, 0x8000, &sentinels);
    let (table, asked) = read_table(&memory, 0x1000, 5);
    assert_eq!(table, Some(sentinels.to_vec()));
    assert_eq!(
        asked,
        vec![0x1000, 0x8000, 0x8000 + WORD, 0x8000 + 2 * WORD, 0x8000 + 3 * WORD, 0x8000 + 4 * WORD]
    );
}

#[test]
fn the_object_is_dereferenced_once() {
    let memory = memory_with_table(0x1000, 0x8000, &[1, 2, 3]);
    let (_, asked) = read_table(&memory, 0x1000, 3);
    assert_eq!(asked.iter().filter(|address| **address == 0x1000).count(), 1);
    assert_eq!(asked.len(), 4);
}

#[test]
fn only_as_many_slots_as_asked_for_are_read() {
    let memory = memory_with_table(0x1000, 0x8000, &[10, 20, 30, 40, 50]);
    let (table, asked) = read_table(&memory, 0x1000, 2);
    assert_eq!(table, Some(vec![10, 20]));
    assert_eq!(asked, vec![0x1000, 0x8000, 0x8000 + WORD]);
}

#[test]
fn a_table_without_slots_is_empty() {
    let memory = memory_with_table(0x1000, 0x8000, &[]);
    let (table, asked) = read_table(&memory, 0x1000, 0);
    assert_eq!(table, Some(Vec::new()));
    assert_eq!(asked, vec![0x1000]);
}

#[test]
fn a_read_is_not_done_before_its_last_slot() {
    let reader = TableReader::new(0x1000, 2);
    assert_eq!(reader.pending(), Some(0x1000));
    assert_eq!(TableReader::new(0x1000, 2).table(), None);
    let reader = reader.accept(0x8000);
    assert_eq!(reader.pending(), Some(0x8000));
    let reader = reader.accept(7);
    assert_eq!(reader.pending(), Some(0x8000 + WORD));
    assert_eq!(TableReader::new(0x1000, 2).accept(0x8000).accept(7).table(), None);
    let reader = reader.accept(8);
    assert_eq!(reader.pending(), None);
    assert_eq!(reader.table(), Some(vec![7, 8]));
}

#[test]
fn a_word_that_was_not_asked_for_is_dropped() {
    let reader = TableReader::new(0x1000, 1).accept(0x8000).accept(7);
    assert_eq!(reader.pending(), None);
    let reader = reader.accept(9).accept(10);
    assert_eq!(reader.table(), Some(vec![7]));
}

#[test]
fn a_table_that_runs_past_the_last_address_is_not_read() {
    let base = usize::MAX - WORD + 1;
    let reader = TableReader::new(0x1000, 2).accept(base);
    assert_eq!(reader.pending(), Some(base));
    let reader = reader.accept(1);
    assert_eq!(reader.pending(), None);
    assert_eq!(reader.table(), None);

    let reader = TableReader::new(0x1000, 2).accept(usize::MAX - 2 * WORD + 1).accept(1);
    assert_eq!(reader.pending(), Some(usize::MAX - WORD + 1));
    assert_eq!(reader.accept(2).table(), Some(vec![1, 2]));
}

#[test]
fn addresses_are_returned_unchanged() {
    let words = [0, usize::MAX, 1, usize::MAX - 1];
    let memory = memory_with_table(8, 16, &words);
    assert_eq!(read_table(&memory, 8, 4).0, Some(words.to_vec()));
}
