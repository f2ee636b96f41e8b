use broadcast_relay::api_key::API_KEY;
use broadcast_relay::{
    ApiKey, ApiKeyMiddleware, BroadcastMessage, GenericResponse, Media, MessageType, ResponseValue,
    Upload, UploadError,
};
use broadcast_relay::upload::{check_file_is_uploaded, is_allowed_extension, validate_upload};

#[test]
fn websocket_path_needs_no_key() {
    assert!(ApiKeyMiddleware::<()>::admits("/ws/", None));
    assert!(ApiKeyMiddleware::<()>::admits("/ws/anything", Some("wrong")));
    assert!(!ApiKeyMiddleware::<()>::admits("/ws", None));
}

#[test]
fn other_paths_need_the_key() {
    assert_eq!(API_KEY, "your_secret_api_key");
    assert!(ApiKeyMiddleware::<()>::admits("/send-message", Some("your_secret_api_key")));
    assert!(!ApiKeyMiddleware::<()>::admits("/send-message", Some("your_secret_api_ke")));
    assert!(!ApiKeyMiddleware::<()>::admits("/send-message", Some("")));
    assert!(!ApiKeyMiddleware::<()>::admits("/send-message", None));
    assert!(!ApiKeyMiddleware::<()>::admits("", None));
}

#[test]
fn transform_keeps_the_service() {
    let m = ApiKey.new_transform(17u32);
    assert_eq!(*m.inner(), 17);
}

#[test]
fn empty_file_name_is_refused() {
    assert_eq!(check_file_is_uploaded(""), Err(UploadError::NoFile));
    assert_eq!(check_file_is_uploaded("a.png"), Ok(()));
    assert_eq!(validate_upload(Media::Image, "", Some("png")), Err(UploadError::NoFile));
}

#[test]
fn extensions_by_media() {
    for e in ["jpg", "png", "webp"] {
        assert!(is_allowed_extension(Media::Image, Some(e)));
        assert!(!is_allowed_extension(Media::Video, Some(e)));
    }
    assert!(is_allowed_extension(Media::Video, Some("mp4")));
    assert!(!is_allowed_extension(Media::Image, Some("mp4")));
    assert!(!is_allowed_extension(Media::Image, Some("PNG")));
    assert!(!is_allowed_extension(Media::Image, None));
    assert_eq!(
        validate_upload(Media::Video, "clip.avi", Some("avi")),
        Err(UploadError::UnsupportedMediaType)
    );
    assert_eq!(validate_upload(Media::Video, "clip.mp4", Some("mp4")), Ok(()));
}

#[test]
fn accepted_field_is_stored_under_the_id() {
    let mut up = Upload::with_id(Media::Image, "abc".to_string());
    assert_eq!(up.accept_field(Some("photo.png")), Ok("uploads/img/abc_photo.png".to_string()));
    assert_eq!(up.file_path, "uploads/img/abc_photo.png");
    let announced = up.finish();
    assert_eq!(announced.message, "/uploads/img/abc_photo.png");
    assert_eq!(announced.type_message, MessageType::Image);
    assert!(announced.created_at > 1_600_000_000);
}

#[test]
fn refused_field_changes_nothing() {
    let mut up = Upload::with_id(Media::Video, "id".to_string());
    assert_eq!(up.accept_field(Some("movie.mp4")), Ok("uploads/video/id_movie.mp4".to_string()));
    assert_eq!(up.accept_field(Some("movie.mkv")), Err(UploadError::UnsupportedMediaType));
    assert_eq!(up.accept_field(Some("")), Err(UploadError::NoFile));
    assert_eq!(up.accept_field(None), Err(UploadError::UnsupportedMediaType));
    assert_eq!(up.accept_field(Some("archive.tar.mp4")), Ok("uploads/video/id_archive.tar.mp4".to_string()));
    assert_eq!(up.finish().message, "/uploads/video/id_archive.tar.mp4");
    assert_eq!(up.finish().type_message, MessageType::Video);
}

#[test]
fn extension_comes_from_the_name() {
    let mut up = Upload::with_id(Media::Image, "i".to_string());
    assert_eq!(up.accept_field(Some(".png")), Err(UploadError::UnsupportedMediaType));
    assert_eq!(up.accept_field(Some("png")), Err(UploadError::UnsupportedMediaType));
    assert_eq!(up.accept_field(Some("dir/x.webp")), Ok("uploads/img/i_dir/x.webp".to_string()));
}

#[test]
fn upload_without_fields_announces_root() {
    let up = Upload::begin(Media::Image);
    assert_eq!(up.id.len(), 36);
    assert_eq!(up.id.chars().filter(|c| *c == '-').count(), 4);
    assert_eq!(up.finish().message, "/");
}

#[test]
fn fresh_ids_differ() {
    assert_ne!(Upload::begin(Media::Video).id, Upload::begin(Media::Video).id);
}

#[test]
fn refusal_replies() {
    let r = UploadError::NoFile.response(Media::Image);
    assert_eq!(r.status, "Bad request");
    assert_eq!(r.message, "No file found...");
    assert!(matches!(r.value, Some(ResponseValue::Placeholder)));
    assert_eq!(UploadError::NoFile.http_status(), 400);
    let r = UploadError::UnsupportedMediaType.response(Media::Image);
    assert_eq!(r.status, "Unsupported media type");
    assert_eq!(r.message, "Only .jpg, .png, or .webp files are allowed.");
    let r = UploadError::UnsupportedMediaType.response(Media::Video);
    assert_eq!(r.message, "Only .mp4 files are allowed.");
    assert_eq!(UploadError::UnsupportedMediaType.http_status(), 415);
}

#[test]
fn created_replies_name_the_kind() {
    for (kind, text) in [
        (MessageType::Text, "Message sent and broadcasted"),
        (MessageType::Image, "Image uploaded and broadcasted"),
        (MessageType::Video, "Video uploaded and broadcasted"),
    ] {
        let r = GenericResponse::created(BroadcastMessage::new("b".to_string(), kind, 9));
        assert_eq!(r.status, "created");
        assert_eq!(r.message, text);
        match r.value {
            Some(ResponseValue::Messages(v)) => {
                assert_eq!(v.len(), 1);
                assert_eq!(v[0].message, "b");
                assert_eq!(v[0].type_message, kind);
                assert_eq!(v[0].created_at, 9);
            }
            _ => panic!("no message carried"),
        }
    }
}

#[test]
fn stamped_message_has_current_time() {
    let m = BroadcastMessage::stamped("hi".to_string(), MessageType::Text);
    assert_eq!(m.message, "hi");
    assert!(m.created_at > 1_600_000_000);
    let d = m.duplicate();
    assert_eq!(d.message, "hi");
    assert_eq!(d.created_at, m.created_at);
}
