use std::cell::RefCell;

use pi_spine_rs::spine_render::vertex_buffer::{SpineIndicesBufferAllocator, SpineVertexBufferAllocator};

fn bytes(n: u8) -> Vec<u8> {
    (1..=n).collect()
}

#[test]
fn collect_into_empty_list_creates_a_padded_buffer() {
    let made: RefCell<Vec<Vec<u8>>> = RefCell::new(Vec::new());
    let create = |v: Vec<u8>| {
        made.borrow_mut().push(v);
        Some(7u32)
    };
    let mut a = SpineVertexBufferAllocator::<u32>::new(16);
    let r = a.collect(&bytes(10), 4, &create);
    assert_eq!(r, Some((7, 0, 10)));
    assert_eq!(made.borrow().len(), 1);
    assert_eq!(made.borrow()[0], vec![1, 2, 3, 4, 5, 6, 7, 8, 9, 10, 0, 0, 0, 0, 0, 0]);
}

#[test]
fn collect_cuts_to_whole_instances_that_fit() {
    let made: RefCell<Vec<Vec<u8>>> = RefCell::new(Vec::new());
    let create = |v: Vec<u8>| {
        made.borrow_mut().push(v);
        Some(1u32)
    };
    let mut a = SpineVertexBufferAllocator::<u32>::new(16);
    // 16 / 3 = 5 instances of 3 bytes: 15 bytes kept out of 20
    let r = a.collect(&bytes(20), 3, &create);
    assert_eq!(r, Some((1, 0, 15)));
    let mut expected = bytes(15);
    expected.push(0);
    assert_eq!(made.borrow()[0], expected);
}

#[test]
fn collect_appends_to_the_buffer_in_use() {
    let create = |_v: Vec<u8>| Some(3u32);
    let mut a = SpineVertexBufferAllocator::<u32>::new(16);
    assert_eq!(a.collect(&bytes(8), 4, &create), Some((3, 0, 8)));
    assert_eq!(a.collect(&bytes(4), 4, &create), Some((3, 8, 12)));
    assert_eq!(a.collect(&bytes(4), 4, &create), Some((3, 12, 16)));
}

#[test]
fn collect_moves_on_when_the_buffer_is_full() {
    let next = RefCell::new(10u32);
    let create = |_v: Vec<u8>| {
        let mut n = next.borrow_mut();
        *n += 1;
        Some(*n)
    };
    let mut a = SpineVertexBufferAllocator::<u32>::new(16);
    assert_eq!(a.collect(&bytes(12), 4, &create), Some((11, 0, 12)));
    // 8 more bytes do not fit the 4 left: a second buffer is made
    assert_eq!(a.collect(&bytes(8), 4, &create), Some((12, 0, 8)));
    assert_eq!(a.collect(&bytes(8), 4, &create), Some((12, 8, 16)));
}

#[test]
fn collect_fails_when_no_buffer_can_be_made() {
    let create = |_v: Vec<u8>| None::<u32>;
    let mut a = SpineVertexBufferAllocator::<u32>::new(16);
    assert_eq!(a.collect(&bytes(8), 4, &create), None);
    // the next try with a working creator starts a buffer at 0
    let create = |_v: Vec<u8>| Some(5u32);
    assert_eq!(a.collect(&bytes(8), 4, &create), Some((5, 0, 8)));
}

#[test]
fn collect_keeps_nothing_when_one_instance_is_larger_than_the_capacity() {
    let made: RefCell<Vec<Vec<u8>>> = RefCell::new(Vec::new());
    let create = |v: Vec<u8>| {
        made.borrow_mut().push(v);
        Some(9u32)
    };
    let mut a = SpineVertexBufferAllocator::<u32>::new(8);
    assert_eq!(a.collect(&bytes(12), 12, &create), Some((9, 0, 0)));
    assert_eq!(made.borrow()[0], vec![0u8; 8]);
}

#[test]
fn upload_hands_over_the_staged_bytes_and_starts_over() {
    let next = RefCell::new(0u32);
    let create = |_v: Vec<u8>| {
        let mut n = next.borrow_mut();
        *n += 1;
        Some(*n)
    };
    let mut a = SpineVertexBufferAllocator::<u32>::new(8);
    a.collect(&[1, 2, 3, 4, 5, 6], 2, &create);
    a.collect(&[7, 8, 9, 10], 2, &create);
    let writes = a.upload();
    assert_eq!(writes, vec![(1, vec![1, 2, 3, 4, 5, 6]), (2, vec![7, 8, 9, 10])]);
    // everything is empty again and the first buffer is reused
    assert_eq!(a.collect(&[11, 12], 2, &create), Some((1, 0, 2)));
    assert_eq!(a.upload(), vec![(1, vec![11, 12])]);
    assert_eq!(a.upload(), vec![]);
}

#[test]
fn index_upload_pads_to_four_bytes() {
    let create = |_v: Vec<u8>| Some(4u32);
    let mut a = SpineIndicesBufferAllocator::<u32>::new(16);
    assert_eq!(a.collect(&[1, 0, 2, 0, 3, 0], 2, &create), Some((4, 0, 6)));
    assert_eq!(a.upload(), vec![(4, vec![1, 0, 2, 0, 3, 0, 0, 0])]);
}

#[test]
fn index_upload_keeps_multiples_of_four() {
    let create = |_v: Vec<u8>| Some(4u32);
    let mut a = SpineIndicesBufferAllocator::<u32>::new(16);
    a.collect(&[1, 0, 2, 0], 2, &create);
    assert_eq!(a.upload(), vec![(4, vec![1, 0, 2, 0])]);
}

#[test]
fn initial_buffer_is_the_first_at_zero() {
    let create = |_v: Vec<u8>| Some(42u32);
    let mut a = SpineVertexBufferAllocator::<u32>::new(16);
    a.collect(&[1, 2], 2, &create);
    assert_eq!(a.instance_initial_buffer(), (42, 0, 0));
}
