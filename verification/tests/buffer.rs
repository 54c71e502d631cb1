use simplemad::buffer::{Buffer, BUFFER_SIZE};

fn pattern(len: usize, seed: usize) -> Vec<u8> {
    (0..len).map(|i| ((i * 7 + seed) % 251) as u8).collect()
}

#[test]
fn the_window_has_32768_bytes() {
    assert_eq!(BUFFER_SIZE, 32_768);
    let buffer = Buffer::new(&Vec::new());
    assert_eq!(buffer.bytes().len(), 32_768);
    assert_eq!(buffer.filled(), 0);
    assert_eq!(buffer.free(), 32_768);
}

#[test]
fn a_new_window_starts_with_its_data() {
    let data = pattern(1000, 3);
    let buffer = Buffer::new(&data);
    assert_eq!(buffer.filled(), 1000);
    assert_eq!(buffer.free(), BUFFER_SIZE - 1000);
    assert_eq!(&buffer.bytes()[..1000], &data[..]);
    assert!(buffer.bytes()[1000..].iter().all(|b| *b == 0));

    let full = pattern(BUFFER_SIZE, 9);
    let buffer = Buffer::new(&full);
    assert_eq!(buffer.filled(), BUFFER_SIZE);
    assert_eq!(buffer.free(), 0);
    assert_eq!(buffer.bytes(), &full);
}

#[test]
fn compact_moves_the_unconsumed_bytes_to_the_front() {
    let data = pattern(BUFFER_SIZE, 1);
    let mut buffer = Buffer::new(&data);
    let kept = buffer.compact(30_000);
    assert_eq!(kept, 2768);
    assert_eq!(buffer.filled(), 2768);
    assert_eq!(&buffer.bytes()[..2768], &data[30_000..]);
    // The bytes behind the fill mark are as they were.
    assert_eq!(&buffer.bytes()[2768..], &data[2768..]);
}

#[test]
fn compact_limits_the_offset_to_the_fill_mark() {
    let data = pattern(BUFFER_SIZE, 2);
    let mut buffer = Buffer::new(&data);
    assert_eq!(buffer.compact(BUFFER_SIZE), 0);
    assert_eq!(buffer.filled(), 0);
    assert_eq!(buffer.bytes(), &data);

    let mut buffer = Buffer::new(&data);
    assert_eq!(buffer.compact(usize::MAX), 0);
    assert_eq!(buffer.filled(), 0);
    assert_eq!(buffer.bytes(), &data);

    let short = pattern(100, 3);
    let mut buffer = Buffer::new(&short);
    assert_eq!(buffer.compact(101), 0);
    assert_eq!(buffer.filled(), 0);
    assert_eq!(buffer.free(), BUFFER_SIZE);
}

#[test]
fn compact_at_offset_zero_keeps_all_that_was_filled() {
    let data = pattern(BUFFER_SIZE, 4);
    let mut buffer = Buffer::new(&data);
    assert_eq!(buffer.compact(0), BUFFER_SIZE);
    assert_eq!(buffer.filled(), BUFFER_SIZE);
    assert_eq!(buffer.free(), 0);
    assert_eq!(buffer.bytes(), &data);

    let short = pattern(100, 4);
    let mut buffer = Buffer::new(&short);
    assert_eq!(buffer.compact(0), 100);
    assert_eq!(buffer.filled(), 100);
    assert_eq!(&buffer.bytes()[..100], &short[..]);
}

#[test]
fn compact_keeps_nothing_from_behind_the_fill_mark() {
    // The window was only partly filled: what lies behind the fill mark is
    // no part of the stream.
    let data = pattern(100, 5);
    let mut buffer = Buffer::new(&data);
    let kept = buffer.compact(60);
    assert_eq!(kept, 40);
    assert_eq!(buffer.filled(), 40);
    assert_eq!(buffer.free(), BUFFER_SIZE - 40);
    assert_eq!(&buffer.bytes()[..40], &data[60..]);
    // What is read next stands right behind the bytes kept.
    let more = pattern(10, 6);
    buffer.extend(&more);
    assert_eq!(&buffer.bytes()[..40], &data[60..]);
    assert_eq!(&buffer.bytes()[40..50], &more[..]);
}

#[test]
fn extend_writes_behind_the_fill_mark() {
    let data = pattern(BUFFER_SIZE, 6);
    let mut buffer = Buffer::new(&data);
    buffer.compact(BUFFER_SIZE - 10);
    let first = pattern(500, 50);
    buffer.extend(&first);
    assert_eq!(buffer.filled(), 510);
    let second = pattern(BUFFER_SIZE - 510, 60);
    buffer.extend(&second);
    assert_eq!(buffer.filled(), BUFFER_SIZE);
    assert_eq!(buffer.free(), 0);
    assert_eq!(&buffer.bytes()[..10], &data[BUFFER_SIZE - 10..]);
    assert_eq!(&buffer.bytes()[10..510], &first[..]);
    assert_eq!(&buffer.bytes()[510..], &second[..]);
}

#[test]
fn extend_with_nothing_changes_nothing() {
    let data = pattern(300, 7);
    let mut buffer = Buffer::new(&data);
    let before = buffer.bytes().clone();
    buffer.extend(&Vec::new());
    assert_eq!(buffer.filled(), 300);
    assert_eq!(buffer.bytes(), &before);
}

#[test]
fn the_window_stays_where_it_is() {
    let mut buffer = Buffer::new(&pattern(BUFFER_SIZE, 8));
    let place = buffer.bytes().as_ptr();
    buffer.compact(20_000);
    buffer.extend(&pattern(20_000, 9));
    buffer.compact(32_000);
    buffer.extend(&pattern(100, 10));
    assert_eq!(buffer.bytes().as_ptr(), place);
    assert_eq!(buffer.bytes().len(), BUFFER_SIZE);
}
