use bytes::Buf;

#[test]
fn it_buf_size_after_get() {
    let base = [0, 1, 2, 3, 4, 5, 6, 7, 8, 9];
    let mut buf = &base[..];
    let a = buf.get_u8();
    assert_eq!(a, 0);
    assert_eq!(base, [0, 1, 2, 3, 4, 5, 6, 7, 8, 9]);
    let _ = buf.get_u16();
    assert_eq!(buf, [3, 4, 5, 6, 7, 8, 9]);
}
