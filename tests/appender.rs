use flatfile::appender::{initial_size, Appender};
use flatfile::error::Error;
use memmap::MmapMut;

fn open_anon(capacity: usize) -> Appender {
    let map = MmapMut::map_anon(capacity).unwrap();
    let mut a = Appender::new(map, 0).unwrap();
    a.file_grown(capacity);
    a
}

#[test]
fn round_trip_returns_appended_bytes() {
    let mut a = open_anon(5);
    assert_eq!(a.append(b"hello"), Ok(()));
    assert_eq!(a.get_data(), b"hello");
    assert_eq!(a.size(), 5);
}

#[test]
fn round_trip_single_byte() {
    let mut a = open_anon(1);
    assert_eq!(a.append(&[0xff]), Ok(()));
    assert_eq!(a.get_data(), &[0xff]);
}

#[test]
fn test_read_write() {
    let data1 = vec![1u8, 2, 3];
    let data2 = vec![4u8];
    let mut a = open_anon(data1.len());
    a.append(&data1).unwrap();
    assert_eq!(data1, a.get_data());
    let result = a.append(&data2);
    assert!(matches!(result, Err(Error::MmapTooSmall)));
}

#[test]
fn write_two_times_success() {
    let mut data1 = vec![10u8, 20, 30];
    let data2 = vec![40u8, 50];
    let mut a = open_anon(data1.len() + data2.len());
    a.append(&data1).unwrap();
    assert_eq!(data1, a.get_data());
    a.append(&data2).unwrap();
    data1.extend_from_slice(&data2);
    assert_eq!(data1, a.get_data());
}

#[test]
fn capacity_rejection_leaves_store_unchanged() {
    let mut a = open_anon(3);
    a.append(b"ab").unwrap();
    assert_eq!(a.append(b"cd"), Err(Error::MmapTooSmall));
    assert_eq!(a.get_data(), b"ab");
    assert_eq!(a.size(), 2);
    assert_eq!(a.append(b"c"), Ok(()));
    assert_eq!(a.get_data(), b"abc");
}

#[test]
fn full_store_rejects_any_non_empty_append() {
    let mut a = open_anon(2);
    a.append(b"xy").unwrap();
    assert_eq!(a.append(b"z"), Err(Error::MmapTooSmall));
    assert_eq!(a.append(b""), Ok(()));
    assert_eq!(a.get_data(), b"xy");
}

#[test]
fn reads_see_whole_appends_only() {
    let mut a = open_anon(6);
    a.append(b"abc").unwrap();
    let before = a.get_data().to_vec();
    assert_eq!(before, b"abc");
    a.append(b"def").unwrap();
    assert_eq!(a.get_data(), b"abcdef");
    assert_eq!(a.append(b"g"), Err(Error::MmapTooSmall));
    assert_eq!(a.get_data(), b"abcdef");
}

#[test]
fn size_is_sum_of_increments_and_never_decreases() {
    let mut a = open_anon(16);
    let mut last = a.size();
    assert_eq!(last, 0);
    for chunk in [&b"a"[..], &b"bcd"[..], &b""[..], &b"efghij"[..]] {
        a.append(chunk).unwrap();
        assert!(a.size() >= last);
        last = a.size();
    }
    assert_eq!(a.size(), 1 + 3 + 0 + 6);
    assert_eq!(a.append(&[0u8; 7]), Err(Error::MmapTooSmall));
    assert_eq!(a.size(), 10);
}

#[test]
fn reopen_restores_content_and_size() {
    let mut a = open_anon(8);
    a.append(b"abcd").unwrap();
    let last = a.size();
    let map = a.close();
    let b = Appender::new(map, last as u64).unwrap();
    assert_eq!(b.size(), 4);
    assert_eq!(b.get_data(), b"abcd");
    assert_eq!(b.capacity(), 8);
}

#[test]
fn reopen_with_smaller_capacity_fails() {
    let map = MmapMut::map_anon(3).unwrap();
    assert!(matches!(Appender::new(map, 4), Err(Error::MmapTooSmall)));
}

#[test]
fn open_reads_existing_prefix() {
    let mut map = MmapMut::map_anon(4).unwrap();
    map.copy_from_slice(b"wxyz");
    let a = Appender::new(map, 2).unwrap();
    assert_eq!(a.get_data(), b"wx");
    assert_eq!(a.size(), 2);
    assert_eq!(a.capacity(), 4);
}

#[test]
fn initial_size_bounds() {
    assert_eq!(initial_size(3, 5), Ok(3));
    assert_eq!(initial_size(5, 5), Ok(5));
    assert_eq!(initial_size(6, 5), Err(Error::MmapTooSmall));
    assert_eq!(initial_size(0, 0), Ok(0));
}

#[test]
fn poisoned_store_refuses_appends() {
    let mut a = open_anon(4);
    a.append(b"ab").unwrap();
    assert!(!a.is_poisoned());
    assert_eq!(a.settle(Err(Error::Write), false), Err(Error::Write));
    assert!(a.is_poisoned());
    assert_eq!(a.append(b"c"), Err(Error::Write));
    assert_eq!(a.get_data(), b"ab");
    assert_eq!(a.append(b"cde"), Err(Error::MmapTooSmall));
}

#[test]
fn append_past_file_length_is_refused() {
    let map = MmapMut::map_anon(8).unwrap();
    let mut a = Appender::new(map, 0).unwrap();
    assert_eq!(a.append(b"ab"), Err(Error::Write));
    assert_eq!(a.size(), 0);
    a.file_grown(2);
    assert_eq!(a.append(b"abc"), Err(Error::Write));
    assert_eq!(a.append(b"ab"), Ok(()));
    assert_eq!(a.get_data(), b"ab");
}

#[test]
fn settle_after_rollback_shrinks_file_length() {
    let mut a = open_anon(8);
    a.append(b"ab").unwrap();
    assert_eq!(a.settle(Err(Error::Write), true), Err(Error::Write));
    assert!(!a.is_poisoned());
    assert_eq!(a.get_data(), b"ab");
    assert_eq!(a.append(b"c"), Err(Error::Write));
    a.file_grown(3);
    assert_eq!(a.append(b"c"), Ok(()));
    assert_eq!(a.get_data(), b"abc");
}

#[test]
fn settle_keeps_success() {
    let mut a = open_anon(4);
    a.append(b"a").unwrap();
    assert_eq!(a.settle(Ok(()), true), Ok(()));
    assert_eq!(a.append(b"b"), Ok(()));
    assert_eq!(a.get_data(), b"ab");
}

#[test]
fn reserve_reports_new_size_or_error() {
    let mut a = open_anon(4);
    assert_eq!(a.reserve(3), Ok(3));
    a.append(b"xyz").unwrap();
    assert_eq!(a.reserve(1), Ok(4));
    assert_eq!(a.reserve(2), Err(Error::MmapTooSmall));
    assert_eq!(a.size(), 3);
}
