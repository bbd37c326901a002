use iso8583::{Bitmap, Codec, ErrorKind};

#[test]
fn test_decode_single_bitmap() {
    let input = &[
        0x70, 0x00, 0x00, 0x00, 0x00, 0x00, 0x00, 0x00, // first
        0xFF, 0xFF, // extra data
    ];
    let expected_first = &[0x70, 0x00, 0x00, 0x00, 0x00, 0x00, 0x00, 0x00];

    let mut src = &input[..];
    let bitmap = Bitmap::decode(&mut src).expect("decoding failed");
    assert_eq!(bitmap.first(), expected_first);
    assert!(bitmap.second().is_none());
    assert_eq!(src, &[0xFF, 0xFF]);
}

#[test]
fn test_decode_double_bitmap() {
    let input = &[
        0x80, 0x00, 0x00, 0x00, 0x00, 0x00, 0x00, 0x00, // first
        0x12, 0x34, 0x56, 0x78, 0x9A, 0xBC, 0xDE, 0xF0, // second
        0xFF, 0xFF, // extra data
    ];
    let expected_first = &[0x80, 0x00, 0x00, 0x00, 0x00, 0x00, 0x00, 0x00];
    let expected_second = &[0x12, 0x34, 0x56, 0x78, 0x9A, 0xBC, 0xDE, 0xF0];

    let mut src = &input[..];
    let bitmap = Bitmap::decode(&mut src).expect("decoding failed");
    assert_eq!(bitmap.first(), expected_first);
    assert_eq!(bitmap.second(), Some(expected_second));
    assert_eq!(src, &[0xFF, 0xFF]);
}

#[test]
fn bitmap_flag_is_the_top_bit_of_the_first_byte() {
    for flags in 0..=255u8 {
        let mut input = [0xA5u8; 20];
        input[0] = flags;
        let mut src = &input[..];
        let bitmap = Bitmap::decode(&mut src).expect("decoding failed");
        assert_eq!(bitmap.first()[0], flags);
        assert_eq!(&bitmap.first()[1..], &[0xA5; 7]);
        if flags >= 0x80 {
            assert_eq!(bitmap.second(), Some(&[0xA5; 8]));
            assert_eq!(src.len(), 4);
        } else {
            assert_eq!(bitmap.second(), None);
            assert_eq!(src.len(), 12);
        }
    }
}

#[test]
fn bitmap_looks_at_no_other_byte_for_the_flag() {
    let input = [0x7Fu8, 0xFF, 0xFF, 0xFF, 0xFF, 0xFF, 0xFF, 0xFF, 0x80, 0x80];
    let mut src = &input[..];
    let bitmap = Bitmap::decode(&mut src).expect("decoding failed");
    assert_eq!(bitmap.first(), &[0x7F, 0xFF, 0xFF, 0xFF, 0xFF, 0xFF, 0xFF, 0xFF]);
    assert!(bitmap.second().is_none());
    assert_eq!(src, &[0x80, 0x80]);
}

#[test]
fn bitmap_of_exactly_eight_bytes() {
    let input = [0x00u8, 1, 2, 3, 4, 5, 6, 7];
    let mut src = &input[..];
    let bitmap = Bitmap::decode(&mut src).expect("decoding failed");
    assert_eq!(bitmap.first(), &[0, 1, 2, 3, 4, 5, 6, 7]);
    assert!(bitmap.second().is_none());
    assert!(src.is_empty());
}

#[test]
fn bitmap_of_exactly_sixteen_bytes() {
    let input = [0xFFu8, 1, 2, 3, 4, 5, 6, 7, 8, 9, 10, 11, 12, 13, 14, 15];
    let mut src = &input[..];
    let bitmap = Bitmap::decode(&mut src).expect("decoding failed");
    assert_eq!(bitmap.first(), &[0xFF, 1, 2, 3, 4, 5, 6, 7]);
    assert_eq!(bitmap.second(), Some(&[8, 9, 10, 11, 12, 13, 14, 15]));
    assert!(src.is_empty());
}

#[test]
fn bitmap_leaves_a_third_bitmap_in_the_buffer() {
    let input = [
        0x80u8, 0, 0, 0, 0, 0, 0, 0, // first
        0x80, 1, 1, 1, 1, 1, 1, 1, // second, flagged in its turn
        0x33, 0x33, 0x33, 0x33, 0x33, 0x33, 0x33, 0x33, // what follows
    ];
    let mut src = &input[..];
    let bitmap = Bitmap::decode(&mut src).expect("decoding failed");
    assert_eq!(bitmap.second(), Some(&[0x80, 1, 1, 1, 1, 1, 1, 1]));
    assert_eq!(src, &[0x33; 8]);
}

#[test]
fn bitmap_borrows_from_the_buffer() {
    let input = [0x80u8; 17];
    let mut src = &input[..];
    let bitmap = Bitmap::decode(&mut src).expect("decoding failed");
    assert!(std::ptr::eq(&bitmap.first()[0], &input[0]));
    assert!(std::ptr::eq(&bitmap.second().expect("no secondary")[0], &input[8]));
    assert!(std::ptr::eq(&src[0], &input[16]));
}

#[test]
fn bitmap_short_of_the_primary_fails() {
    let input = [0x80u8; 8];
    for len in 0..8 {
        let mut src = &input[..len];
        let err = Bitmap::decode(&mut src).err().expect("decoding succeeded");
        assert_eq!(err.kind, ErrorKind::InsufficientLength { need: 8, got: len });
        assert_eq!(err.reason, "");
        assert_eq!(err.location, "PrimaryBitmap");
        assert_eq!(src, &input[..len]);
    }
}

#[test]
fn bitmap_of_nine_bytes_with_flag_fails_on_the_secondary() {
    let input = [0x80u8, 0, 0, 0, 0, 0, 0, 0, 0x12];
    let mut src = &input[..];
    let err = Bitmap::decode(&mut src).err().expect("decoding succeeded");
    assert_eq!(err.kind, ErrorKind::InsufficientLength { need: 8, got: 1 });
    assert_eq!(err.reason, "");
    assert_eq!(err.location, "SecondaryBitmap");
}

#[test]
fn bitmap_short_of_the_secondary_fails_and_consumes_nothing() {
    let input = [0xC0u8; 16];
    for len in 8..16 {
        let mut src = &input[..len];
        let err = Bitmap::decode(&mut src).err().expect("decoding succeeded");
        assert_eq!(err.kind, ErrorKind::InsufficientLength { need: 8, got: len - 8 });
        assert_eq!(err.location, "SecondaryBitmap");
        assert_eq!(src, &input[..len]);
    }
}

#[test]
fn bitmap_without_flag_needs_no_more_than_eight_bytes() {
    let input = [0x40u8; 16];
    for len in 8..16 {
        let mut src = &input[..len];
        let bitmap = Bitmap::decode(&mut src).expect("decoding failed");
        assert!(bitmap.second().is_none());
        assert_eq!(src.len(), len - 8);
    }
}
