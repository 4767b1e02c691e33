//! The header-plus-array buffer: sizes, the bytes it holds, growth, and
//! what comes back out of it.

use scsir::data_wrapper::{FlexibleStruct, VecBufferWrapper, Wire};

#[test]
fn data_wrapper_layout_test() {
    let body: [u8; 10] = [0, 1, 2, 3, 4, 5, 6, 7, 8, 9];
    let element1: [u8; 5] = [9, 8, 7, 6, 5];
    let element2: [u8; 5] = [4, 3, 2, 1, 0];

    let mut temp = FlexibleStruct::new();
    temp.set_body(body);

    assert_eq!(temp.total_size(), body.len(), "Size of FlexibleStruct with 0 element");

    temp.push(element1);

    assert_eq!(
        temp.total_size(),
        body.len() + element1.len(),
        "Size of FlexibleStruct with 1 element"
    );

    temp.push(element2);

    assert_eq!(
        temp.total_size(),
        body.len() + element1.len() + element2.len(),
        "Size of FlexibleStruct with 2 element"
    );

    assert_eq!(&temp.as_bytes()[..body.len()], &body, "body comparation");

    assert_eq!(
        &temp.as_bytes()[body.len()..body.len() + element1.len()],
        &element1,
        "element1 comparation"
    );

    assert_eq!(
        &temp.as_bytes()[body.len() + element1.len()..body.len() + element1.len() + element2.len()],
        &element2,
        "element2 comparation"
    );

    assert_eq!(&temp.as_bytes(), &temp.clone().as_bytes(), "clone comparation");
}

#[test]
fn header_and_two_elements_on_the_wire() {
    let mut record = FlexibleStruct::<u16, u32>::with_body_capacity(0, 0);
    record.push(0xAABBCCDD);
    record.push(0x11223344);
    assert_eq!(record.total_size(), 2 + 8);
    assert_eq!(record.total_size(), 10);
    assert_eq!(&record.as_bytes()[2..6], &[0xAA, 0xBB, 0xCC, 0xDD]);
    assert_eq!(
        record.as_bytes(),
        &[0x00, 0x00, 0xAA, 0xBB, 0xCC, 0xDD, 0x11, 0x22, 0x33, 0x44]
    );
}

#[test]
fn growth_doubles_and_adds_one() {
    let mut record = FlexibleStruct::<u16, u8>::with_body_capacity(0x1234, 0);
    let mut capacities = vec![record.capacity()];
    for i in 0..16u8 {
        record.push(i);
        if *capacities.last().unwrap() != record.capacity() {
            capacities.push(record.capacity());
        }
        assert!(record.length() <= record.capacity());
    }
    assert_eq!(capacities, vec![0, 1, 3, 7, 15, 31]);
    assert_eq!(record.length(), 16);
}

#[test]
fn growth_keeps_header_and_elements() {
    let mut record = FlexibleStruct::<u32, u16>::with_body_capacity(0xDEADBEEF, 1);
    let mut expected = vec![0xDE, 0xAD, 0xBE, 0xEF];
    assert_eq!(record.as_bytes(), &expected[..]);
    for i in 0..40u16 {
        let value = 0x0101 * i + 7;
        record.push(value);
        expected.extend_from_slice(&value.to_be_bytes());
        assert_eq!(record.as_bytes(), &expected[..]);
        assert_eq!(record.get_body(), 0xDEADBEEF);
    }
    record.set_body(0x01020304);
    expected[..4].copy_from_slice(&[1, 2, 3, 4]);
    assert_eq!(record.as_bytes(), &expected[..]);
}

#[test]
fn pop_hands_back_what_was_pushed() {
    let mut record = FlexibleStruct::<(), u64>::with_body_capacity((), 2);
    record.push(1);
    let before = record.length();
    record.push(0x0123_4567_89AB_CDEF);
    assert_eq!(record.pop(), Some(0x0123_4567_89AB_CDEF));
    assert_eq!(record.length(), before);
    assert_eq!(record.pop(), Some(1));
    assert_eq!(record.pop(), None);
    assert_eq!(record.length(), 0);
}

#[test]
fn clear_drops_the_elements_and_keeps_the_rest() {
    let mut record = FlexibleStruct::<[u8; 3], u8>::with_body_capacity([7, 8, 9], 4);
    record.push(1);
    record.push(2);
    record.clear();
    assert_eq!(record.length(), 0);
    assert_eq!(record.capacity(), 4);
    assert_eq!(record.total_size(), 3);
    assert_eq!(record.as_bytes(), &[7, 8, 9]);
    assert_eq!(record.pop(), None);
}

#[test]
fn elements_by_index_and_by_walk() {
    let mut record = FlexibleStruct::<u8, u16>::with_body_capacity(0xFF, 0);
    for value in [10u16, 20, 30] {
        record.push(value);
    }
    assert_eq!(record.get_element(0), Some(10));
    assert_eq!(record.get_element(2), Some(30));
    assert_eq!(record.get_element(3), None);
    assert_eq!(record.elements_to_vec(), vec![10, 20, 30]);

    let mut walk = record.iter_clone();
    assert_eq!(walk.next(), Some(10));
    assert_eq!(walk.next(), Some(20));
    assert_eq!(walk.next(), Some(30));
    assert_eq!(walk.next(), None);
    assert_eq!(walk.next(), None);

    let mut walk = record.iter_maybe_uninit();
    let mut seen = vec![];
    while let Some(value) = walk.next() {
        seen.push(value);
    }
    assert_eq!(seen, vec![10, 20, 30]);
}

#[test]
fn a_record_over_received_bytes() {
    let bytes = vec![0x12, 0x34, 0, 0, 0, 1, 0, 0, 0, 2];
    let record = FlexibleStruct::<u16, u32>::from_bytes(bytes.clone(), 2).unwrap();
    assert_eq!(record.get_body(), 0x1234);
    assert_eq!(record.elements_to_vec(), vec![1, 2]);
    assert_eq!(record.as_bytes(), &bytes[..]);
    assert_eq!(record.capacity(), 2);

    assert!(FlexibleStruct::<u16, u32>::from_bytes(bytes.clone(), 1).is_none());
    assert!(FlexibleStruct::<u16, u32>::from_bytes(bytes.clone(), 3).is_none());
    assert!(FlexibleStruct::<u16, u32>::from_bytes(vec![0], 0).is_none());
    assert!(FlexibleStruct::<u16, ()>::from_bytes(vec![0, 1], 5).is_some());
    assert!(FlexibleStruct::<u16, ()>::from_bytes(vec![0, 1, 2], 5).is_none());
}

#[test]
fn zeroed_elements_and_lengths() {
    let mut record = FlexibleStruct::<u16, u32>::with_body_length(0xABCD, 3);
    assert_eq!(record.length(), 3);
    assert_eq!(record.elements_to_vec(), vec![0, 0, 0]);
    assert_eq!(record.total_size(), 14);
    record.set_length(1);
    assert_eq!(record.length(), 1);
    assert_eq!(record.capacity(), 3);
    record.set_length(5);
    assert_eq!(record.length(), 5);
    assert_eq!(record.capacity(), 5);
    assert_eq!(record.get_body(), 0xABCD);
}

#[test]
fn a_new_length_changes_no_byte() {
    let mut record = FlexibleStruct::<u8, u16>::with_body_capacity(1, 2);
    record.push(0x0A0B);
    record.push(0x0C0D);
    assert_eq!(record.pop(), Some(0x0C0D));
    record.clear();
    assert_eq!(record.length(), 0);
    // What was held is still in the room.
    record.set_length(2);
    assert_eq!(record.elements_to_vec(), vec![0x0A0B, 0x0C0D]);
    // Where the buffer grows, it grows by zeros.
    record.set_length(4);
    assert_eq!(record.elements_to_vec(), vec![0x0A0B, 0x0C0D, 0, 0]);
    assert_eq!(record.capacity(), 4);
    assert_eq!(record.as_bytes(), &[1, 0x0A, 0x0B, 0x0C, 0x0D, 0, 0, 0, 0]);
    let zeros = FlexibleStruct::<u16, u8>::with_length(3);
    assert_eq!(zeros.as_bytes(), &[0; 5]);
    assert_eq!((zeros.length(), zeros.capacity()), (3, 3));
}

#[test]
fn a_clone_has_room_for_what_it_holds() {
    let mut record = FlexibleStruct::<u8, u8>::with_capacity(8);
    record.push(3);
    record.push(4);
    let copy = record.clone();
    assert_eq!(copy.as_bytes(), record.as_bytes());
    assert_eq!(copy.length(), 2);
    assert_eq!(copy.capacity(), 2);
}

#[test]
fn default_is_empty() {
    let record: FlexibleStruct<u32, u16> = Default::default();
    assert_eq!(record.length(), 0);
    assert_eq!(record.capacity(), 0);
    assert_eq!(record.as_bytes(), &[0, 0, 0, 0]);
}

#[test]
fn numbers_travel_big_endian() {
    assert_eq!(0xABu8.to_wire(), vec![0xAB]);
    assert_eq!(0x0102u16.to_wire(), vec![1, 2]);
    assert_eq!(0x01020304u32.to_wire(), vec![1, 2, 3, 4]);
    assert_eq!(0x0102030405060708u64.to_wire(), vec![1, 2, 3, 4, 5, 6, 7, 8]);
    assert_eq!(<u16 as Wire>::from_wire(&[0xFF, 0x01]), 0xFF01);
    assert_eq!(<u32 as Wire>::from_wire(&[0x80, 0, 0, 1]), 0x8000_0001);
    assert_eq!(<u64 as Wire>::from_wire(&[0xFF; 8]), u64::MAX);
    assert_eq!(<[u8; 3] as Wire>::from_wire(&[1, 2, 3]), [1, 2, 3]);
    assert_eq!([9u8, 8].to_wire(), vec![9, 8]);
    assert_eq!(().to_wire(), Vec::<u8>::new());
    assert_eq!(<u8 as Wire>::size() + <u16 as Wire>::size() + <u32 as Wire>::size(), 7);
    assert_eq!(<u64 as Wire>::size() + <[u8; 5] as Wire>::size() + <() as Wire>::size(), 13);
}

#[test]
fn a_zeroed_payload_buffer() {
    assert_eq!(VecBufferWrapper::with_len(3).0, vec![0, 0, 0]);
    assert!(VecBufferWrapper::with_len(0).0.is_empty());
}

#[test]
fn a_push_appends_the_bytes_of_the_element() {
    let mut record: FlexibleStruct<u16, u32> = FlexibleStruct::with_body_capacity(0x0102, 0);
    let mut expected: Vec<u8> = vec![0x01, 0x02];
    for (i, value) in [0xAABB_CCDDu32, 0x1122_3344, 0x0506_0708, 0xFFFF_FFFE].iter().enumerate() {
        let before = record.as_bytes().to_vec();
        assert!(record.try_push(*value));
        expected.extend_from_slice(&value.to_be_bytes());
        assert_eq!(record.length(), i + 1);
        assert_eq!(&record.as_bytes()[..2], &[0x01, 0x02]);
        assert_eq!(&record.as_bytes()[..before.len()], &before[..]);
        assert_eq!(&record.as_bytes()[before.len()..], &value.to_be_bytes());
        assert_eq!(record.as_bytes(), &expected[..]);
        assert_eq!(record.get_body(), 0x0102);
    }
    assert_eq!(record.capacity(), 7);
}

#[test]
fn a_pop_after_a_push_restores_the_record() {
    let mut record: FlexibleStruct<u16, u32> = FlexibleStruct::with_body_capacity(7, 1);
    record.push(0x0A0B_0C0D);
    let length = record.length();
    let size = record.total_size();
    let bytes = record.as_bytes().to_vec();
    record.push(0x1234_5678);
    assert_eq!(record.capacity(), 3);
    assert_eq!(record.pop(), Some(0x1234_5678));
    assert_eq!(record.length(), length);
    assert_eq!(record.total_size(), size);
    assert_eq!(record.as_bytes(), &bytes[..]);
    assert_eq!(record.capacity(), 3);
}

#[test]
fn a_full_record_that_cannot_grow_stays_as_it_is() {
    let mut record: FlexibleStruct<u8, ()> = FlexibleStruct::with_body_length(9, usize::MAX);
    assert_eq!(record.length(), usize::MAX);
    assert_eq!(record.capacity(), usize::MAX);
    assert!(!record.try_push(()));
    assert_eq!(record.length(), usize::MAX);
    assert_eq!(record.capacity(), usize::MAX);
    assert_eq!(record.as_bytes(), &[9u8][..]);
    assert_eq!(record.pop(), Some(()));
    assert!(record.try_push(()));
    assert_eq!(record.length(), usize::MAX);
    assert_eq!(record.capacity(), usize::MAX);
}
