use image_classify::decode::{decode_image, find_image_field, FormField};
use image_classify::error::{ClassifyError, Status};
use std::io::{Read, Write};

#[test]
fn decode_valid_base64() {
    assert_eq!(decode_image("aGVsbG8=").unwrap(), b"hello".to_vec());
    assert_eq!(decode_image("").unwrap(), Vec::<u8>::new());
}

#[test]
fn decode_invalid_base64_is_client_error() {
    let e = decode_image("not-base64!!").unwrap_err();
    assert_eq!(e, ClassifyError::Decode);
    assert_eq!(e.status(), Status::BadRequest);
    assert_eq!(e.status().code(), 400);
}

#[test]
fn decode_rejects_bad_padding() {
    assert_eq!(decode_image("aGVsbG8").unwrap_err(), ClassifyError::Decode);
}

#[test]
fn decoded_bytes_survive_scratch_file() {
    let fixture: Vec<u8> = vec![0x89, b'P', b'N', b'G', 0x0d, 0x0a, 0x1a, 0x0a, 0, 255, 7];
    let bytes = decode_image("iVBORw0KGgoA/wc=").unwrap();
    assert_eq!(bytes, fixture);
    let mut f = tempfile::NamedTempFile::new().unwrap();
    f.write_all(&bytes).unwrap();
    f.flush().unwrap();
    let mut back = Vec::new();
    f.reopen().unwrap().read_to_end(&mut back).unwrap();
    assert_eq!(back, fixture);
}

fn field(name: &str, path: Option<&str>) -> FormField {
    FormField { name: name.to_string(), file_path: path.map(|p| p.to_string()) }
}

#[test]
fn image_field_found() {
    let fields = vec![field("other", Some("/tmp/a")), field("image", Some("/tmp/b")), field("image", Some("/tmp/c"))];
    assert_eq!(find_image_field(&fields).unwrap(), "/tmp/b");
}

#[test]
fn image_field_missing() {
    assert_eq!(find_image_field(&vec![]).unwrap_err(), ClassifyError::MissingField);
    let fields = vec![field("picture", Some("/tmp/a")), field("image", None)];
    assert_eq!(find_image_field(&fields).unwrap_err(), ClassifyError::MissingField);
}

#[test]
fn error_statuses() {
    assert_eq!(ClassifyError::Decode.status().code(), 400);
    assert_eq!(ClassifyError::MissingField.status().code(), 400);
    assert_eq!(ClassifyError::Parse.status().code(), 400);
    assert_eq!(ClassifyError::FileWrite.status().code(), 500);
    assert_eq!(ClassifyError::FileMissing.status().code(), 500);
    assert_eq!(ClassifyError::Spawn.status().code(), 500);
    assert_eq!(ClassifyError::ClassifierFailure.status().code(), 500);
    assert_eq!(Status::Success.code(), 200);
}
