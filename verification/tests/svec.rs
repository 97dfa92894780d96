use x64_asm::svec::{SVec, SVecIterator};

#[test]
fn push_index_pop_resize() {
    let mut svec: SVec<16, i32> = SVec::new();
    svec.push(1);
    svec.push(2);
    svec.push(3);
    svec.push(4);

    assert_eq!(svec[0], 1);
    assert_eq!(svec[1], 2);
    assert_eq!(svec.pop(), 4);
    assert_eq!(svec.capacity(), 16);
    assert_eq!(svec.len(), 3);

    svec.resize(7);
    assert_eq!(svec.len(), 7);
}

#[test]
fn new_is_empty() {
    let svec: SVec<8, u8> = SVec::new();
    assert_eq!(svec.len(), 0);
    assert_eq!(svec.capacity(), 8);
    assert_eq!(svec.get(0), None);
}

#[test]
fn capacity_many_pushes_fill_the_sequence() {
    let mut svec: SVec<5, u64> = SVec::new();
    for i in 0..5u64 {
        assert!(svec.len() < svec.capacity());
        svec.push(i * 10);
    }
    assert_eq!(svec.len(), 5);
    assert_eq!(svec.len(), svec.capacity());
    assert_eq!(&svec[..], &[0, 10, 20, 30, 40]);
}

#[test]
fn zero_capacity_is_full_at_once() {
    let svec: SVec<0, u8> = SVec::new();
    assert_eq!(svec.len(), 0);
    assert_eq!(svec.capacity(), 0);
}

#[test]
fn push_returns_the_sequence_for_chaining() {
    let mut svec: SVec<4, u8> = SVec::new();
    svec.push(1).push(2).push(3);
    assert_eq!(&svec[..], &[1, 2, 3]);
}

#[test]
fn pop_after_push_on_empty_restores_length_zero() {
    let mut svec: SVec<3, i64> = SVec::new();
    svec.push(-77);
    assert_eq!(svec.len(), 1);
    assert_eq!(svec.pop(), -77);
    assert_eq!(svec.len(), 0);
}

#[test]
fn pop_returns_last_and_keeps_the_rest() {
    let mut svec: SVec<4, u8> = SVec::new();
    svec.push(7).push(8).push(9);
    assert_eq!(svec.pop(), 9);
    assert_eq!(&svec[..], &[7, 8]);
    assert_eq!(svec.pop(), 8);
    assert_eq!(svec.pop(), 7);
    assert_eq!(svec.len(), 0);
}

#[test]
fn resize_exposes_default_values() {
    let mut svec: SVec<8, i32> = SVec::new();
    svec.push(5).push(6);
    svec.resize(6);
    assert_eq!(svec.len(), 6);
    assert_eq!(&svec[..], &[5, 6, 0, 0, 0, 0]);
}

#[test]
fn resize_down_then_up_resets_the_slots() {
    let mut svec: SVec<4, u8> = SVec::new();
    svec.push(1).push(2).push(3).push(4);
    svec.resize(1);
    assert_eq!(&svec[..], &[1]);
    svec.resize(4);
    assert_eq!(&svec[..], &[1, 0, 0, 0]);
}

#[test]
fn resize_to_same_length_and_to_capacity() {
    let mut svec: SVec<3, u16> = SVec::new();
    svec.push(9);
    svec.resize(1);
    assert_eq!(&svec[..], &[9]);
    svec.resize(3);
    assert_eq!(&svec[..], &[9, 0, 0]);
    svec.resize(0);
    assert_eq!(svec.len(), 0);
}

#[test]
fn resize_returns_the_sequence_for_chaining() {
    let mut svec: SVec<4, u8> = SVec::new();
    svec.resize(2).push(3);
    assert_eq!(&svec[..], &[0, 0, 3]);
}

#[test]
fn get_is_checked() {
    let mut svec: SVec<4, u8> = SVec::new();
    svec.push(11).push(22);
    assert_eq!(svec.get(0), Some(11));
    assert_eq!(svec.get(1), Some(22));
    assert_eq!(svec.get(2), None);
    assert_eq!(svec.get(4), None);
    assert_eq!(svec.get(usize::MAX), None);
}

#[test]
fn slots_beyond_the_length_are_not_seen() {
    let svec: SVec<4, u8> = SVec::value([1, 2, 3, 4], 2);
    assert_eq!(svec.len(), 2);
    assert_eq!(&svec[..], &[1, 2]);
    assert_eq!(svec.get(2), None);
}

#[test]
fn value_with_full_and_zero_length() {
    let full: SVec<3, u8> = SVec::value([1, 2, 3], 3);
    assert_eq!(&full[..], &[1, 2, 3]);
    let empty: SVec<3, u8> = SVec::value([1, 2, 3], 0);
    assert_eq!(empty.len(), 0);
}

#[test]
fn resize_buff_keeps_elements_in_order() {
    let mut svec: SVec<4, u8> = SVec::new();
    svec.push(1).push(2).push(3);
    let bigger: SVec<10, u8> = svec.resize_buff();
    assert_eq!(bigger.capacity(), 10);
    assert_eq!(&bigger[..], &[1, 2, 3]);
    let exact: SVec<3, u8> = svec.resize_buff();
    assert_eq!(exact.capacity(), 3);
    assert_eq!(&exact[..], &[1, 2, 3]);
}

#[test]
fn from_slice_copies_the_slice() {
    let svec: SVec<4, i32> = SVec::from_slice(&[4, -5, 6]);
    assert_eq!(svec.len(), 3);
    assert_eq!(&svec[..], &[4, -5, 6]);
    let empty: SVec<4, i32> = SVec::from_slice(&[]);
    assert_eq!(empty.len(), 0);
}

#[test]
fn iteration_yields_each_element_once_in_order() {
    let mut svec: SVec<4, u8> = SVec::new();
    svec.push(3).push(1).push(2);
    let mut it = svec.into_iter();
    assert_eq!(it.next(), Some(3));
    assert_eq!(it.next(), Some(1));
    assert_eq!(it.next(), Some(2));
    assert_eq!(it.next(), None);
    assert_eq!(it.next(), None);
    // the sequence was copied into the iterator and is still whole
    assert_eq!(svec.len(), 3);
}

#[test]
fn iterator_over_empty_sequence() {
    let svec: SVec<4, u8> = SVec::new();
    let mut it = SVecIterator::new(svec);
    assert_eq!(it.next(), None);
}

#[test]
fn copies_are_independent() {
    let mut a: SVec<4, u8> = SVec::new();
    a.push(1);
    let mut b = a;
    b.push(2);
    let c = a.clone();
    assert_eq!(&a[..], &[1]);
    assert_eq!(&b[..], &[1, 2]);
    assert_eq!(&c[..], &[1]);
}

#[test]
fn to_string_lists_the_elements() {
    let mut svec: SVec<4, i32> = SVec::new();
    assert_eq!(svec.to_string(), "[]");
    svec.push(1);
    assert_eq!(svec.to_string(), "[1]");
    svec.push(-2).push(30);
    assert_eq!(svec.to_string(), "[1, -2, 30]");
}

#[test]
fn sequence_of_strings() {
    let mut svec: SVec<2, &str> = SVec::new();
    svec.push("rax");
    svec.resize(2);
    assert_eq!(svec[0], "rax");
    assert_eq!(svec[1], "");
}
