use image_store::upload::{decode_base64_payload, image_from_base64, new_image, new_images, record_with_id, UploadError};

#[test]
fn recognised_upload_gets_a_record() {
    let data: Vec<u8> = vec![0xFF, 0xD8, 0xFF, 0xE0, 1, 2, 3];
    let img = new_image(data.clone()).expect("record");
    assert_eq!(img.Content, data);
    assert_eq!(img.Id.chars().count(), 36);
}

#[test]
fn unrecognised_upload_gets_none() {
    assert!(new_image(vec![0x00, 0x01, 0x02, 0x03]).is_none());
    assert!(new_image(Vec::new()).is_none());
}

#[test]
fn record_keeps_the_given_id() {
    let img = record_with_id(b"BMxyz".to_vec(), "abc".to_string()).expect("record");
    assert_eq!(img.Id, "abc");
    assert_eq!(img.Content, b"BMxyz".to_vec());
    assert!(record_with_id(b"xyz".to_vec(), "abc".to_string()).is_none());
}

#[test]
fn fresh_ids_differ() {
    let a = new_image(b"GIF89a".to_vec()).expect("record");
    let b = new_image(b"GIF89a".to_vec()).expect("record");
    assert_ne!(a.Id, b.Id);
}

#[test]
fn many_uploads_keep_their_order() {
    let items: Vec<Vec<u8>> = vec![b"GIF87a".to_vec(), b"nope".to_vec(), vec![0x49, 0x49, 0x2A, 0x00]];
    let out = new_images(&items);
    assert_eq!(out.len(), 3);
    assert_eq!(out[0].as_ref().expect("first").Content, items[0]);
    assert!(out[1].is_none());
    assert_eq!(out[2].as_ref().expect("third").Content, items[2]);
}

#[test]
fn base64_payload_after_header_is_decoded() {
    assert_eq!(decode_base64_payload("data:image/gif;base64,R0lGODlh"), Some(b"GIF89a".to_vec()));
    assert_eq!(decode_base64_payload("R0lGODlh"), Some(b"GIF89a".to_vec()));
    assert_eq!(decode_base64_payload("a,b,R0lGODlh"), Some(b"GIF89a".to_vec()));
    assert_eq!(decode_base64_payload(""), Some(Vec::new()));
}

#[test]
fn invalid_base64_is_rejected() {
    assert_eq!(decode_base64_payload("data:image/png;base64,@@@"), None);
    assert_eq!(image_from_base64("data:image/png;base64,@@@").err(), Some(UploadError::BadBase64));
}

#[test]
fn test_addbase64_notimage_is_client_error() {
    // "not an image" in base64
    let r = image_from_base64("bm90IGFuIGltYWdl");
    assert_eq!(r.err(), Some(UploadError::UnsupportedFormat));
}

#[test]
fn test_addbase64_png_and_preview_ok() {
    let mut buf = image::RgbImage::new(3, 2);
    for p in buf.pixels_mut() {
        *p = image::Rgb([10, 20, 30]);
    }
    let mut png: Vec<u8> = Vec::new();
    image::DynamicImage::ImageRgb8(buf)
        .write_to(&mut png, image::ImageOutputFormat::Png)
        .expect("png encoding");
    let text = format!("data:image/png;base64,{}", base64::encode(&png));
    let img = image_from_base64(&text).expect("stored");
    assert_eq!(img.Content, png);
    assert!(image_store::preview::make_preview(&img.Content).is_some());
}
