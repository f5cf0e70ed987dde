use rust_images::codec::decode_and_guard;
use rust_images::pipeline::{respond, select_encoding, HttpReply, OutputFormat, ReplyBody};
use rust_images::reject::RejectKind;
use rust_images::request::{process_upload, UploadPart};

fn file_part(chunks: Vec<Vec<u8>>) -> UploadPart {
    UploadPart { name: "file".to_string(), chunks }
}

fn png_rgb(width: u32, height: u32) -> Vec<u8> {
    let img = image::RgbImage::from_fn(width, height, |x, y| {
        image::Rgb([(x % 251) as u8, (y % 241) as u8, ((x + y) % 239) as u8])
    });
    let dynimg = image::DynamicImage::ImageRgb8(img);
    let mut out: Vec<u8> = Vec::new();
    dynimg
        .write_to(&mut std::io::Cursor::new(&mut out), image::ImageFormat::Png)
        .unwrap();
    out
}

fn json_body(reply: &HttpReply) -> &str {
    match &reply.body {
        ReplyBody::Json(s) => s.as_str(),
        ReplyBody::Image(_) => panic!("expected a JSON body"),
    }
}

fn image_body(reply: &HttpReply) -> &[u8] {
    match &reply.body {
        ReplyBody::Image(v) => v.as_slice(),
        ReplyBody::Json(_) => panic!("expected an image body"),
    }
}

#[test]
fn no_parts_is_missing_file() {
    let reply = process_upload(&vec![]);
    assert_eq!(reply.status, 400);
    assert_eq!(reply.content_type, "application/json");
    assert_eq!(
        json_body(&reply),
        "{\"success\": false, \"message\": \"Arquivo ausente\"}"
    );
}

#[test]
fn other_parts_only_is_missing_file() {
    let parts = vec![
        UploadPart {
            name: "avatar".to_string(),
            chunks: vec![png_rgb(8, 8)],
        },
        UploadPart {
            name: "description".to_string(),
            chunks: vec![b"hello".to_vec()],
        },
    ];
    let reply = process_upload(&parts);
    assert_eq!(reply.status, 400);
    assert_eq!(
        json_body(&reply),
        "{\"success\": false, \"message\": \"Arquivo ausente\"}"
    );
}

#[test]
fn empty_file_part_is_missing_file() {
    let reply = process_upload(&vec![file_part(vec![])]);
    assert_eq!(reply.status, 400);
    assert_eq!(
        json_body(&reply),
        "{\"success\": false, \"message\": \"Arquivo ausente\"}"
    );
}

#[test]
fn garbage_bytes_are_invalid_image() {
    let garbage: Vec<u8> = (0..1024u32).map(|i| (i * 37 % 256) as u8).collect();
    let reply = process_upload(&vec![file_part(vec![garbage])]);
    assert_eq!(reply.status, 400);
    assert_eq!(reply.content_type, "application/json");
    assert_eq!(
        json_body(&reply),
        "{\"success\": false, \"message\": \"Imagem inválida\"}"
    );
}

#[test]
fn truncated_png_header_is_invalid_image() {
    let truncated = vec![0x89, b'P', b'N', b'G', 0x0d, 0x0a, 0x1a, 0x0a, 0x00, 0x00];
    let reply = process_upload(&vec![file_part(vec![truncated])]);
    assert_eq!(reply.status, 400);
    assert_eq!(
        json_body(&reply),
        "{\"success\": false, \"message\": \"Imagem inválida\"}"
    );
}

#[test]
fn one_byte_over_cap_is_payload_too_large() {
    let reply = process_upload(&vec![file_part(vec![vec![0u8; 6 * 1024 * 1024 + 1]])]);
    assert_eq!(reply.status, 400);
    assert_eq!(
        json_body(&reply),
        "{\"success\": false, \"message\": \"Arquivo muito grande\"}"
    );
}

#[test]
fn overflowing_chunk_is_payload_too_large() {
    let reply = process_upload(&vec![file_part(vec![
        vec![0u8; 6 * 1024 * 1024],
        vec![0u8],
    ])]);
    assert_eq!(reply.status, 400);
    assert_eq!(
        json_body(&reply),
        "{\"success\": false, \"message\": \"Arquivo muito grande\"}"
    );
}

#[test]
fn payload_at_cap_reaches_decoding() {
    let reply = process_upload(&vec![file_part(vec![vec![0xAAu8; 6 * 1024 * 1024]])]);
    assert_eq!(reply.status, 400);
    assert_eq!(
        json_body(&reply),
        "{\"success\": false, \"message\": \"Imagem inválida\"}"
    );
}

#[test]
fn small_png_is_sanitized_and_fits_box() {
    let input = png_rgb(300, 150);
    let reply = process_upload(&vec![file_part(vec![input.clone()])]);
    assert_eq!(reply.status, 200);
    assert_eq!(reply.content_type, "image/webp");
    let out = image_body(&reply);
    assert_ne!(out, input.as_slice());
    assert_eq!(&out[..4], b"RIFF", "a webp body must carry the RIFF container magic");
    let decoded = image::load_from_memory(out).unwrap();
    assert!(decoded.width() <= 256 && decoded.height() <= 256);
    assert_eq!((decoded.width(), decoded.height()), (256, 128));
}

#[test]
fn small_image_is_upscaled_to_box() {
    let input = png_rgb(10, 5);
    let reply = process_upload(&vec![file_part(vec![input])]);
    assert_eq!(reply.status, 200);
    assert_eq!(reply.content_type, "image/webp");
    let decoded = image::load_from_memory(image_body(&reply)).unwrap();
    assert_eq!((decoded.width(), decoded.height()), (256, 128));
}

#[test]
fn pixel_bomb_is_image_too_large() {
    let img = image::GrayImage::from_pixel(6000, 6000, image::Luma([127u8]));
    let dynimg = image::DynamicImage::ImageLuma8(img);
    let mut input: Vec<u8> = Vec::new();
    dynimg
        .write_to(&mut std::io::Cursor::new(&mut input), image::ImageFormat::Png)
        .unwrap();
    assert!(input.len() <= 6 * 1024 * 1024, "encoded bomb must fit the byte cap");
    let reply = process_upload(&vec![file_part(vec![input])]);
    assert_eq!(reply.status, 400);
    assert_eq!(
        json_body(&reply),
        "{\"success\": false, \"message\": \"Imagem muito grande\"}"
    );
}

#[test]
fn pixel_count_just_under_cap_passes_the_guard() {
    // 5464 * 5464 = 29,855,296 <= 30,000,000
    let img = image::GrayImage::from_pixel(5464, 5464, image::Luma([64u8]));
    let dynimg = image::DynamicImage::ImageLuma8(img);
    let mut input: Vec<u8> = Vec::new();
    dynimg
        .write_to(&mut std::io::Cursor::new(&mut input), image::ImageFormat::Png)
        .unwrap();
    let decoded = decode_and_guard(&input).ok().expect("the guard must admit this image");
    assert_eq!((decoded.width(), decoded.height()), (5464, 5464));
}

#[test]
fn oversized_valid_image_is_stopped_by_the_byte_cap() {
    // Pseudo-noise compresses poorly, so this well-formed 2500x2400 PNG is
    // far larger than 6 MiB; the byte ceiling must reject it before any
    // decoding, even though its pixel count is within the pixel cap.
    let img = image::RgbImage::from_fn(2500, 2400, |x, y| {
        let v = x.wrapping_mul(31).wrapping_add(y.wrapping_mul(17));
        image::Rgb([
            (v.wrapping_mul(2654435761) >> 24) as u8,
            (v.wrapping_mul(40503) >> 8) as u8,
            (v ^ (v >> 13)) as u8,
        ])
    });
    let dynimg = image::DynamicImage::ImageRgb8(img);
    let mut input: Vec<u8> = Vec::new();
    dynimg
        .write_to(&mut std::io::Cursor::new(&mut input), image::ImageFormat::Png)
        .unwrap();
    assert!(input.len() > 6 * 1024 * 1024, "the encoded image must exceed the byte cap");
    let reply = process_upload(&vec![file_part(vec![input])]);
    assert_eq!(reply.status, 400);
    assert_eq!(
        json_body(&reply),
        "{\"success\": false, \"message\": \"Arquivo muito grande\"}"
    );
}

#[test]
fn same_input_gives_identical_output() {
    let input = png_rgb(123, 77);
    let first = process_upload(&vec![file_part(vec![input.clone()])]);
    let second = process_upload(&vec![file_part(vec![input])]);
    assert_eq!(first.status, 200);
    assert_eq!(second.status, 200);
    assert_eq!(first.content_type, second.content_type);
    assert_eq!(image_body(&first), image_body(&second));
}

#[test]
fn chunked_and_split_uploads_match_whole_upload() {
    let input = png_rgb(64, 48);
    let mid = input.len() / 2;
    let whole = process_upload(&vec![file_part(vec![input.clone()])]);
    let chunked = process_upload(&vec![file_part(vec![
        input[..mid].to_vec(),
        input[mid..].to_vec(),
    ])]);
    let split_parts = process_upload(&vec![
        file_part(vec![input[..mid].to_vec()]),
        UploadPart {
            name: "note".to_string(),
            chunks: vec![b"ignored".to_vec()],
        },
        file_part(vec![input[mid..].to_vec()]),
    ]);
    assert_eq!(whole.status, 200);
    assert_eq!(image_body(&whole), image_body(&chunked));
    assert_eq!(image_body(&whole), image_body(&split_parts));
}

#[test]
fn preferred_encoding_wins_when_present() {
    let out = select_encoding(Some(vec![9, 8, 7]), None).unwrap();
    assert_eq!(out.format, OutputFormat::Webp);
    assert_eq!(out.bytes, vec![9, 8, 7]);
    let reply = respond(Ok(out));
    assert_eq!(reply.status, 200);
    assert_eq!(reply.content_type, "image/webp");
}

#[test]
fn fallback_is_used_when_preferred_encoder_fails() {
    let png = png_rgb(4, 4);
    let out = select_encoding(None, Some(png.clone())).unwrap();
    assert_eq!(out.format, OutputFormat::Png);
    assert_eq!(out.bytes, png);
    let reply = respond(Ok(out));
    assert_eq!(reply.status, 200);
    assert_eq!(reply.content_type, "image/png");
    assert!(image::load_from_memory(image_body(&reply)).is_ok());
}

#[test]
fn both_encoders_failing_is_processing_failed() {
    let r = select_encoding(None, None);
    match r {
        Err(k) => assert_eq!(k, RejectKind::ProcessingFailed),
        Ok(_) => panic!("expected the internal fault"),
    }
    let reply = respond(Err(RejectKind::ProcessingFailed));
    assert_eq!(reply.status, 500);
    assert_eq!(reply.content_type, "application/json");
    assert_eq!(
        json_body(&reply),
        "{\"success\": false, \"message\": \"Falha no processamento\"}"
    );
}
