use rust_images::collector::{is_file_part, UploadCollector};
use rust_images::pipeline::{handle_upload, ReplyBody};
use rust_images::reject::{status_code, RejectKind};

const CAP: usize = 6 * 1024 * 1024;

#[test]
fn collector_accumulates_chunks_in_order() {
    let mut c = UploadCollector::new();
    assert_eq!(c.len(), 0);
    c.push_chunk(&[1, 2, 3]).unwrap();
    c.push_chunk(&[]).unwrap();
    c.push_chunk(&[4, 5]).unwrap();
    assert_eq!(c.len(), 5);
    assert_eq!(c.finish().unwrap(), vec![1, 2, 3, 4, 5]);
}

#[test]
fn collector_accepts_exactly_the_cap() {
    let mut c = UploadCollector::new();
    c.push_chunk(&vec![0u8; CAP - 1]).unwrap();
    c.push_chunk(&[0u8]).unwrap();
    assert_eq!(c.len(), CAP);
    assert_eq!(c.finish().unwrap().len(), CAP);
}

#[test]
fn collector_refuses_crossing_the_cap_and_keeps_buffer() {
    let mut c = UploadCollector::new();
    c.push_chunk(&vec![7u8; CAP]).unwrap();
    let err = c.push_chunk(&[7u8]).unwrap_err();
    assert_eq!(err, RejectKind::PayloadTooLarge);
    assert_eq!(c.len(), CAP);
}

#[test]
fn collector_refuses_one_oversized_chunk() {
    let mut c = UploadCollector::new();
    let err = c.push_chunk(&vec![1u8; CAP + 1]).unwrap_err();
    assert_eq!(err, RejectKind::PayloadTooLarge);
    assert_eq!(c.len(), 0);
}

#[test]
fn empty_collection_is_missing_file() {
    let c = UploadCollector::new();
    assert_eq!(c.finish().unwrap_err(), RejectKind::MissingFile);
}

#[test]
fn only_the_file_part_is_selected() {
    assert!(is_file_part(&"file".to_string()));
    assert!(!is_file_part(&"File".to_string()));
    assert!(!is_file_part(&"files".to_string()));
    assert!(!is_file_part(&"".to_string()));
}

#[test]
fn status_codes_follow_the_taxonomy() {
    assert_eq!(status_code(RejectKind::MissingFile), 400);
    assert_eq!(status_code(RejectKind::PayloadTooLarge), 400);
    assert_eq!(status_code(RejectKind::InvalidImage), 400);
    assert_eq!(status_code(RejectKind::ImageTooLarge), 400);
    assert_eq!(status_code(RejectKind::ProcessingFailed), 500);
}

#[test]
fn empty_buffer_upload_is_missing_file() {
    let reply = handle_upload(&Vec::new());
    assert_eq!(reply.status, 400);
    assert_eq!(reply.content_type, "application/json");
    match reply.body {
        ReplyBody::Json(s) => {
            assert_eq!(s, "{\"success\": false, \"message\": \"Arquivo ausente\"}")
        }
        ReplyBody::Image(_) => panic!("expected a JSON body"),
    }
}
