use mb85rc::{Head, SeekFrom};

#[test]
fn create() {
    let head: Head<65_535> = Head::new();
    let inner: u64 = head.into();
    assert_eq!(inner, 0u64);
}

#[test]
fn seek_start() {
    let mut head: Head<65_535> = Head::new();
    let res = head.seek(SeekFrom::Start(1337));

    let inner: u64 = head.into();
    assert_eq!(inner, 1337u64);
    assert_eq!(res, Some(inner));
}

#[test]
fn seek_current_forward() {
    let mut head: Head<65_535> = Head::new();
    let _ = head.seek(SeekFrom::Start(1337));

    let res = head.seek(SeekFrom::Current(3));

    let inner: u64 = head.into();
    assert_eq!(inner, 1340u64);
    assert_eq!(res, Some(inner));
}

#[test]
fn seek_current_back() {
    let mut head: Head<65_535> = Head::new();
    let _ = head.seek(SeekFrom::Start(1337));

    let res = head.seek(SeekFrom::Current(-337));

    let inner: u64 = head.into();
    assert_eq!(inner, 1000u64);
    assert_eq!(res, Some(inner));
}

#[test]
fn seek_current_zero() {
    let mut head: Head<65_535> = Head::new();
    let _ = head.seek(SeekFrom::Start(1337));

    let res = head.seek(SeekFrom::Current(0));

    let inner: u64 = head.into();
    assert_eq!(inner, 1337u64);
    assert_eq!(res, Some(inner));
}

#[test]
fn seek_end() {
    let mut head: Head<65_535> = Head::new();
    let res = head.seek(SeekFrom::End(-10));

    let inner: u64 = head.into();
    assert_eq!(inner, 65_535 - 10);
    assert_eq!(res, Some(inner));
}

#[test]
fn seek_end_overflow() {
    let mut head: Head<65_535> = Head::new();
    let res = head.seek(SeekFrom::End(10));
    assert!(res.is_none());
}

#[test]
fn seek_invalid_overflow() {
    let mut head: Head<65_535> = Head::new();
    let _ = head.seek(SeekFrom::Start(65_535 - 5));

    let res = head.seek(SeekFrom::Current(10));
    assert!(res.is_none());
}

#[test]
fn seek_invalid_underflow() {
    let mut head: Head<65_535> = Head::new();

    let res = head.seek(SeekFrom::Current(-1));
    assert!(res.is_none());
}

#[test]
fn convert_zero() {
    let head: Head<65_535> = Head::new();
    let addr = head.memory_address();

    assert_eq!(addr, Some([0, 0]));
}

#[test]
fn convert_1_byte() {
    let mut head: Head<65_535> = Head::new();
    let _ = head.seek(SeekFrom::Start(50));

    let addr = head.memory_address();

    assert_eq!(addr, Some([0, 50]));
}

#[test]
fn convert_2_bytes() {
    let mut head: Head<65_535> = Head::new();
    let _ = head.seek(SeekFrom::Start(260));

    let addr = head.memory_address();

    assert_eq!(addr, Some([1, 4]));
}

#[test]
fn convert_invalid() {
    let mut head: Head<4_294_967_295> = Head::new();
    let _ = head.seek(SeekFrom::Start(65_536));

    let addr = head.memory_address();
    assert!(addr.is_none());
}
