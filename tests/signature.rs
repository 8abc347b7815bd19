use image_store::signature::validate_image;

#[test]
fn png_signature_is_recognised() {
    assert!(validate_image(&[0x89, 0x50, 0x4E, 0x47, 0x0D, 0x0A]));
    assert!(validate_image(&[0x89, 0x50, 0x4E, 0x47]));
}

#[test]
fn tiff_signatures_are_recognised() {
    assert!(validate_image(&[0x49, 0x49, 0x2A, 0x00]));
    assert!(validate_image(&[0x4D, 0x4D, 0x2A]));
}

#[test]
fn jpeg_signatures_are_recognised() {
    assert!(validate_image(&[0xFF, 0xD8, 0xFF, 0xE0, 0x00, 0x10]));
    assert!(validate_image(&[0xFF, 0xD8, 0xFF, 0xE1]));
    assert!(!validate_image(&[0xFF, 0xD8, 0xFF, 0xDB]));
}

#[test]
fn bmp_and_gif_signatures_are_recognised() {
    assert!(validate_image(b"BM\x36\x00"));
    assert!(validate_image(b"GIF89a"));
    assert!(validate_image(b"GIF87a"));
}

#[test]
fn lower_case_bmp_and_gif_are_rejected() {
    assert!(!validate_image(b"bm\x36\x00"));
    assert!(!validate_image(b"gif89a"));
}

#[test]
fn short_and_empty_buffers_are_rejected() {
    assert!(!validate_image(&[]));
    assert!(!validate_image(&[0x89]));
    assert!(!validate_image(&[0x89, 0x50, 0x4E]));
    assert!(!validate_image(b"B"));
    assert!(!validate_image(b"GI"));
}

#[test]
fn unknown_bytes_are_rejected() {
    assert!(!validate_image(&[0x00, 0x01, 0x02, 0x03]));
    assert!(!validate_image(b"hello, world"));
}

#[test]
fn validation_is_repeatable() {
    let b: Vec<u8> = vec![0x4D, 0x4D, 0x2A, 0x00, 0x08];
    let first = validate_image(&b);
    for _ in 0..5 {
        assert_eq!(validate_image(&b), first);
    }
    let c: Vec<u8> = vec![0x01, 0x02];
    assert_eq!(validate_image(&c), validate_image(&c));
}
