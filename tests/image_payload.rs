use markpix::image::{decode_base64_text, decode_image_data, image_data_uri, image_payload, mime_for_extension};

#[test]
fn data_uri_of_png_bytes() {
    let uri = image_data_uri("/tmp/shot.png", &vec![1u8, 2, 3]);
    assert_eq!(uri, "data:image/png;base64,AQID");
}

#[test]
fn data_uri_mime_follows_extension() {
    assert_eq!(image_data_uri("a.jpg", &vec![0u8]), "data:image/jpeg;base64,AA==");
    assert_eq!(image_data_uri("a.jpeg", &vec![0u8]), "data:image/jpeg;base64,AA==");
    assert_eq!(image_data_uri("a.gif", &vec![0u8]), "data:image/gif;base64,AA==");
    assert_eq!(image_data_uri("a.webp", &vec![0u8]), "data:image/webp;base64,AA==");
    assert_eq!(image_data_uri("a.bmp", &vec![0u8]), "data:image/bmp;base64,AA==");
    assert_eq!(image_data_uri("a.tiff", &vec![0u8]), "data:image/png;base64,AA==");
    assert_eq!(image_data_uri("noext", &vec![0u8]), "data:image/png;base64,AA==");
}

#[test]
fn mime_table() {
    assert_eq!(mime_for_extension(Some("jpg")), "image/jpeg");
    assert_eq!(mime_for_extension(Some("PNG")), "image/png");
    assert_eq!(mime_for_extension(None), "image/png");
}

#[test]
fn save_then_read_round_trips() {
    let bytes: Vec<u8> = vec![0x89, b'P', b'N', b'G', 0, 255, 10, 13];
    let uri = image_data_uri("/tmp/out.png", &bytes);
    assert_eq!(decode_image_data(&uri), Ok(bytes.clone()));
    let empty: Vec<u8> = Vec::new();
    let uri = image_data_uri("/tmp/out.png", &empty);
    assert_eq!(uri, "data:image/png;base64,");
    assert_eq!(decode_image_data(&uri), Ok(empty));
}

#[test]
fn bare_and_uri_payloads_decode_alike() {
    let bare = decode_image_data("aGVsbG8=");
    let uri = decode_image_data("data:image/png;base64,aGVsbG8=");
    assert_eq!(bare, Ok(b"hello".to_vec()));
    assert_eq!(bare, uri);
}

#[test]
fn payload_is_second_comma_field() {
    assert_eq!(image_payload("abc"), "abc");
    assert_eq!(image_payload("data:x;base64,QQ=="), "QQ==");
    assert_eq!(image_payload("a,b,c"), "b");
    assert_eq!(image_payload("a,"), "");
}

#[test]
fn invalid_base64_is_rejected() {
    assert!(decode_image_data("data:image/png;base64,@@@").is_err());
    assert!(decode_image_data("QQ").is_err());
    assert!(decode_base64_text("data:image/png;base64,QQ==").is_err());
    assert_eq!(decode_base64_text("QQ=="), Ok(vec![b'A']));
}
