use incubator::list::DLLStore;
use incubator::shared_list::DoubleLinkedList;

fn store_of(values: &[u32]) -> DLLStore<u32> {
    let mut store = DLLStore::new();
    for v in values {
        store.push_back(*v);
    }
    store
}

#[test]
fn length_is_pushes_minus_successful_pops() {
    let mut store: DLLStore<u32> = DLLStore::new();
    assert_eq!(store.len(), 0);
    store.push_back(1);
    store.push_front(2);
    store.push_back(3);
    assert_eq!(store.len(), 3);
    assert_eq!(store.drop_start(), Some(2));
    assert_eq!(store.len(), 2);
    assert_eq!(store.drop_end(), Some(3));
    assert_eq!(store.drop_end(), Some(1));
    assert_eq!(store.len(), 0);
    assert_eq!(store.drop_end(), None);
    assert_eq!(store.drop_start(), None);
    assert_eq!(store.len(), 0);
    store.push_front(7);
    assert_eq!(store.len(), 1);
}

#[test]
fn push_back_then_drop_start_is_fifo() {
    let mut store = store_of(&[1, 2, 3]);
    assert_eq!(store.drop_start(), Some(1));
    assert_eq!(store.drop_start(), Some(2));
    assert_eq!(store.drop_start(), Some(3));
    assert_eq!(store.drop_start(), None);
}

#[test]
fn push_front_then_drop_start_is_lifo() {
    let mut store: DLLStore<u32> = DLLStore::new();
    store.push_front(1);
    store.push_front(2);
    store.push_front(3);
    assert_eq!(store.drop_start(), Some(3));
    assert_eq!(store.drop_start(), Some(2));
    assert_eq!(store.drop_start(), Some(1));
    assert_eq!(store.drop_start(), None);
}

#[test]
fn push_then_drop_at_same_end_restores_emptiness() {
    let mut store: DLLStore<u32> = DLLStore::new();
    store.push_back(5);
    assert_eq!(store.drop_end(), Some(5));
    assert_eq!(store.len(), 0);
    store.push_front(6);
    assert_eq!(store.drop_start(), Some(6));
    assert_eq!(store.len(), 0);
    assert_eq!(store.drop_start(), None);
}

#[test]
fn search_finds_first_position() {
    let store = store_of(&[10, 20, 30]);
    assert_eq!(store.search(&20), Some(1));
    assert_eq!(store.search(&99), None);
    let twice = store_of(&[4, 8, 8, 4]);
    assert_eq!(twice.search(&8), Some(1));
    assert_eq!(twice.search(&4), Some(0));
    let empty = store_of(&[]);
    assert_eq!(empty.search(&1), None);
}

#[test]
fn replace_at_swaps_value_in_range() {
    let mut store = store_of(&[10, 20, 30]);
    assert_eq!(store.replace_at(99, 1), Some(20));
    assert_eq!(store.search(&99), Some(1));
    assert_eq!(store.search(&20), None);
    assert_eq!(store.replace_at(7, 3), None);
    assert_eq!(store.len(), 3);
    assert_eq!(store.drop_start(), Some(10));
    assert_eq!(store.drop_start(), Some(99));
    assert_eq!(store.drop_start(), Some(30));
    assert_eq!(store.drop_start(), None);
}

#[test]
fn drops_on_empty_list_return_nothing() {
    let mut store: DLLStore<u32> = DLLStore::new();
    for _ in 0..5 {
        assert_eq!(store.drop_start(), None);
        assert_eq!(store.drop_end(), None);
        assert_eq!(store.len(), 0);
    }
    assert_eq!(store.replace_at(1, 0), None);
}

#[test]
fn peeks_read_both_ends() {
    let mut store = store_of(&[10]);
    assert_eq!(store.peek_front(), 10);
    assert_eq!(store.peek_back(), 10);
    store.push_back(20);
    store.push_front(5);
    assert_eq!(store.peek_front(), 5);
    assert_eq!(store.peek_back(), 20);
}

#[test]
fn slots_are_reused_across_both_ends() {
    let mut store: DLLStore<u32> = DLLStore::new();
    for round in 0..50u32 {
        store.push_back(round);
        store.push_front(round + 100);
        store.push_back(round + 200);
        assert_eq!(store.drop_end(), Some(round + 200));
        assert_eq!(store.drop_start(), Some(round + 100));
        assert_eq!(store.peek_front(), 0);
        assert_eq!(store.peek_back(), round);
    }
    assert_eq!(store.len(), 50);
    for expected in 0..50u32 {
        assert_eq!(store.search(&expected), Some(0));
        assert_eq!(store.drop_start(), Some(expected));
    }
    assert_eq!(store.len(), 0);
}

#[test]
fn shared_list_serves_one_handle() {
    let list: DoubleLinkedList<u32> = DoubleLinkedList::new();
    list.push_back(10);
    list.push_back(20);
    list.push_front(5);
    assert_eq!(list.search(&20), Some(2));
    assert_eq!(list.replace_at(21, 2), Some(20));
    assert_eq!(list.replace_at(0, 3), None);
    let other = list.clone();
    assert_eq!(other.drop_front(), Some(5));
    let mut walk = list.into_iter();
    assert_eq!(walk.next(), Some(10));
    assert_eq!(walk.next(), Some(21));
    assert_eq!(walk.next(), None);
    assert_eq!(other.drop_front(), None);
}

#[test]
fn two_handles_pushing_at_both_ends_lose_nothing() {
    let list: DoubleLinkedList<u8> = DoubleLinkedList::new();
    let back = list.clone();
    let front = list.clone();
    for i in 0..255u8 {
        back.push_back(i);
        front.push_front(i);
    }
    let mut seen = [0usize; 256];
    let mut count = 0usize;
    let mut walk = list.into_iter();
    while let Some(v) = walk.next() {
        seen[v as usize] += 1;
        count += 1;
    }
    assert_eq!(count, 510);
    for i in 0..255usize {
        assert_eq!(seen[i], 2);
    }
    assert_eq!(seen[255], 0);
    assert_eq!(back.drop_front(), None);
}
