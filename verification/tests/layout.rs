use pool_sniper::layout::{read_text, read_u32, read_u64, write_u64};

#[test]
fn eight_bytes_are_read_least_significant_first() {
    let data = [0xff, 0x08, 0x07, 0x06, 0x05, 0x04, 0x03, 0x02, 0x01, 0xee];
    assert_eq!(read_u64(&data, 1), Some(0x0102030405060708));
    assert_eq!(read_u64(&data, 0), Some(0x02030405060708ff));
    assert_eq!(read_u64(&data, 2), Some(0xee01020304050607));
    assert_eq!(read_u64(&data, 3), None);
    assert_eq!(read_u64(&data, usize::MAX), None);
    assert_eq!(read_u64(&[], 0), None);
    assert_eq!(read_u64(&[0xff; 8], 0), Some(u64::MAX));
    assert_eq!(read_u64(&1000u64.to_le_bytes(), 0), Some(1000));
}

#[test]
fn four_bytes_are_read_least_significant_first() {
    assert_eq!(read_u32(&[4, 3, 2, 1], 0), Some(0x01020304));
    assert_eq!(read_u32(&[9, 0xff, 0xff, 0xff, 0xff], 1), Some(u32::MAX));
    assert_eq!(read_u32(&[1, 2, 3], 0), None);
    assert_eq!(read_u32(&[1, 2, 3, 4], 1), None);
}

#[test]
fn numbers_are_written_as_the_machine_writes_them() {
    for x in [0u64, 1, 255, 256, 1000, 0x0102030405060708, u64::MAX] {
        let mut out = vec![7u8];
        write_u64(&mut out, x);
        assert_eq!(out[0], 7);
        assert_eq!(&out[1..], &x.to_le_bytes());
        assert_eq!(read_u64(&out, 1), Some(x));
    }
}

#[test]
fn a_text_is_its_length_and_its_bytes() {
    let mut data = vec![0xaa];
    data.extend_from_slice(&borsh::to_vec(&"héllo".to_string()).unwrap());
    data.push(0xbb);
    assert_eq!(read_text(&data, 1), Some(("héllo".to_string(), 1 + 4 + 6)));
    assert_eq!(read_text(&[0, 0, 0, 0], 0), Some((String::new(), 4)));
    // the length says more than there is
    assert_eq!(read_text(&[3, 0, 0, 0, b'a', b'b'], 0), None);
    assert_eq!(read_text(&[0xff, 0xff, 0xff, 0xff, b'a'], 0), None);
    // no length
    assert_eq!(read_text(&[1, 0, 0], 0), None);
    assert_eq!(read_text(&[1, 0, 0, 0, b'a'], 9), None);
    // no UTF-8
    assert_eq!(read_text(&[2, 0, 0, 0, 0xc3, 0x28], 0), None);
    assert_eq!(read_text(&[1, 0, 0, 0, 0x80], 0), None);
}
