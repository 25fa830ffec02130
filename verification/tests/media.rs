use std::path::PathBuf;
use telemesh::download::{content_disposition, content_length, download_file_name, download_mime, DownloadedMedia};
use telemesh::protocol::{ApiError, HealthResponse, LoginStartResponse, MediaDto};
use telemesh::upload::{
    check_upload, default_mime, default_upload_name, field_role, max_media_bytes, safe_file_name, FieldRole,
    UploadError, UploadMeter, DEFAULT_MAX_MEDIA_BYTES, MIB,
};

#[test]
fn media_limit_setting() {
    assert_eq!(max_media_bytes(None), 500 * 1024 * 1024);
    assert_eq!(max_media_bytes(Some("20")), 20 * MIB);
    assert_eq!(max_media_bytes(Some("+3")), 3 * MIB);
    assert_eq!(max_media_bytes(Some("0")), DEFAULT_MAX_MEDIA_BYTES);
    assert_eq!(max_media_bytes(Some("-5")), DEFAULT_MAX_MEDIA_BYTES);
    assert_eq!(max_media_bytes(Some("lots")), DEFAULT_MAX_MEDIA_BYTES);
    assert_eq!(max_media_bytes(Some("18446744073709551615")), u64::MAX);
}

#[test]
fn safe_names() {
    assert_eq!(safe_file_name("a/b\\c\u{7}d.txt"), "a_b_c_d.txt");
    assert_eq!(safe_file_name("ok name.png"), "ok name.png");
    assert_eq!(safe_file_name(&"x".repeat(300)).chars().count(), 240);
    assert_eq!(safe_file_name("\u{85}é"), "_é");
}

#[test]
fn form_fields() {
    assert_eq!(field_role("peer"), FieldRole::Peer);
    assert_eq!(field_role("caption"), FieldRole::Caption);
    assert_eq!(field_role("file"), FieldRole::File);
    assert_eq!(field_role("File"), FieldRole::Other);
    assert_eq!(field_role(""), FieldRole::Other);
    assert!(FieldRole::File.ends_form());
    assert!(!FieldRole::Peer.ends_form());
    assert!(!FieldRole::Caption.ends_form());
    assert!(!FieldRole::Other.ends_form());
    assert_eq!(default_upload_name(), "upload.bin");
    assert_eq!(default_mime(), "application/octet-stream");
}

#[test]
fn upload_meter() {
    let mut m = UploadMeter::new(10);
    assert_eq!(m.add_chunk(4), Ok(()));
    assert_eq!(m.add_chunk(6), Ok(()));
    assert_eq!(m.add_chunk(1), Err(UploadError::TooLarge { limit: 10 }));
    assert_eq!(m.total, 11);
    let mut big = UploadMeter::new(u64::MAX);
    big.total = u64::MAX - 1;
    assert_eq!(big.add_chunk(5), Ok(()));
    assert_eq!(big.total, u64::MAX);
}

#[test]
fn upload_checks() {
    assert_eq!(check_upload(false, "peer", 5), Err(UploadError::PeerAndFileRequired));
    assert_eq!(check_upload(true, "  ", 5), Err(UploadError::PeerAndFileRequired));
    assert_eq!(check_upload(true, "peer", 0), Err(UploadError::EmptyFile));
    assert_eq!(check_upload(true, "peer", 1), Ok(()));
    assert_eq!(UploadError::PeerAndFileRequired.message(), "peer and file are required");
    assert_eq!(UploadError::EmptyFile.message(), "empty files are not allowed");
    assert_eq!(UploadError::TooLarge { limit: 500 * MIB }.message(), "file too large (500 MiB limit)");
    assert_eq!(UploadError::TooLarge { limit: 1 }.status(), 413);
    assert_eq!(UploadError::EmptyFile.status(), 400);
}

#[test]
fn download_headers() {
    assert_eq!(download_file_name(Some("a.pdf".into()), 3), "a.pdf");
    assert_eq!(download_file_name(None, 42), "telegram-42.bin");
    assert_eq!(download_file_name(None, -7), "telegram--7.bin");
    assert_eq!(download_file_name(None, i32::MIN), format!("telegram-{}.bin", i32::MIN));
    assert_eq!(download_mime(None), "application/octet-stream");
    assert_eq!(download_mime(Some("image/png".into())), "image/png");
    assert_eq!(content_length(Some(1234)), Some("1234".to_string()));
    assert_eq!(content_length(Some(0)), None);
    assert_eq!(content_length(None), None);
    assert_eq!(content_disposition("a b.txt"), "attachment; filename*=UTF-8''a%20b.txt");
    assert_eq!(content_disposition("é~_.-"), "attachment; filename*=UTF-8''%C3%A9~_.-");
}

#[test]
fn finished_download_records_size() {
    let meta = MediaDto { kind: "document".into(), filename: Some("f".into()), mime: None, size: None };
    let d = DownloadedMedia::finished(PathBuf::from("/tmp/x"), meta, 99);
    assert_eq!(d.path, PathBuf::from("/tmp/x"));
    assert_eq!(d.metadata.size, Some(99));
    assert_eq!(d.metadata.kind, "document");
}

#[test]
fn fixed_answers() {
    let r = LoginStartResponse::code_sent();
    assert_eq!(r.status, "code_sent");
    assert!(r.requires_code);
    assert_eq!(ApiError::unauthorized().error, "unauthorized");
    assert_eq!(ApiError::new("x".into()).error, "x");
    let h = HealthResponse::ok(true, "0.1.0".into());
    assert_eq!((h.status.as_str(), h.telegram_authorized, h.version.as_str()), ("ok", true, "0.1.0"));
}

#[test]
fn refused_upload_stays_refused() {
    let mut m = UploadMeter::new(3);
    assert!(m.add_chunk(4).is_err());
    assert!(m.add_chunk(0).is_err());
    assert!(m.add_chunk(10).is_err());
}
