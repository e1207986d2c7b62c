use xr_input_core::xdev::{decode_c_string, MissingTerminator, Xdev, XdevProperties, XDEV_STRING_CAPACITY};

fn buffer(text: &[u8]) -> [u8; XDEV_STRING_CAPACITY] {
    let mut b = [0u8; XDEV_STRING_CAPACITY];
    b[..text.len()].copy_from_slice(text);
    b
}

fn props(serial: &[u8], can_create_space: bool) -> XdevProperties {
    XdevProperties { name: buffer(b"tracker"), serial: buffer(serial), can_create_space }
}

#[test]
fn decode_stops_at_first_nul() {
    assert_eq!(decode_c_string(b"LHR-1234\0junk\0"), Ok(b"LHR-1234".to_vec()));
    assert_eq!(decode_c_string(b"\0abc"), Ok(Vec::new()));
}

#[test]
fn decode_without_nul_fails() {
    assert_eq!(decode_c_string(b"abc"), Err(MissingTerminator));
    assert_eq!(decode_c_string(b""), Err(MissingTerminator));
    assert_eq!(decode_c_string(&[7u8; XDEV_STRING_CAPACITY]), Err(MissingTerminator));
}

#[test]
fn records_compare_by_id_only() {
    let a: Xdev<u32> = Xdev::new(5, props(b"AAA", true), Some(1));
    let b: Xdev<u32> = Xdev::new(5, props(b"BBB", false), None);
    let c: Xdev<u32> = Xdev::new(6, props(b"AAA", true), Some(1));
    assert!(a == b);
    assert!(a != c);
}

#[test]
fn serial_is_read_from_snapshot() {
    let x: Xdev<u32> = Xdev::new(1, props(b"LHR-ABCD", false), None);
    assert_eq!(x.get_or_init_serial(), Ok(&b"LHR-ABCD"[..]));
}

#[test]
fn serial_is_stable_across_reads() {
    let x: Xdev<u32> = Xdev::new(1, props(b"LHR-0001", false), None);
    let first = x.get_or_init_serial().map(|s| s.to_vec());
    for _ in 0..16 {
        assert_eq!(x.get_or_init_serial().map(|s| s.to_vec()), first);
    }
}

#[test]
fn unterminated_serial_is_an_error() {
    let p = XdevProperties {
        name: buffer(b"t"),
        serial: [b'9'; XDEV_STRING_CAPACITY],
        can_create_space: false,
    };
    let x: Xdev<u32> = Xdev::new(1, p, None);
    assert_eq!(x.get_or_init_serial(), Err(MissingTerminator));
}
