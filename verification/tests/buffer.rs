use bottomless_pit::buffer::Buffer;

#[test]
fn insert_keeps_newest_first() {
    let mut b = Buffer::new([1, 2, 3]);
    assert_eq!(b.len(), 3);
    b.insert_data(9);
    assert_eq!(b.iter().copied().collect::<Vec<_>>(), vec![9, 1, 2]);
    b.insert_data(8);
    b.insert_data(7);
    assert_eq!(b.iter().copied().collect::<Vec<_>>(), vec![7, 8, 9]);
    assert_eq!(b[0], 7);
    assert_eq!(*b.get(2), 9);
}

#[test]
fn get_mut_writes_one_place() {
    let mut b = Buffer::new([0u8; 4]);
    *b.get_mut(2) = 5;
    assert_eq!(b.iter().copied().collect::<Vec<_>>(), vec![0, 0, 5, 0]);
}

#[test]
fn single_item_buffer() {
    let mut b = Buffer::new([String::from("a")]);
    b.insert_data(String::from("b"));
    assert_eq!(b[0], "b");
    assert_eq!(b.len(), 1);
}
