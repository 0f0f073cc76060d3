use photo_backend::reply::Status;
use photo_backend::upload::{
    stored_file_name, upload_reply, upload_start, upload_step, UploadAction, UploadEvent,
    UploadState,
};

const ID: &str = "67e55044-10b1-426f-9247-bb680e5fe0c8";

#[test]
fn stored_name_has_no_spaces() {
    assert_eq!(
        stored_file_name(ID, "my holiday photo.png"),
        "67e55044-10b1-426f-9247-bb680e5fe0c8:my_holiday_photo.png"
    );
    assert_eq!(stored_file_name("a b", "c"), "a_b:c");
    assert!(!stored_file_name(ID, " x  y ").contains(' '));
}

#[test]
fn first_chunk_of_a_named_field_is_stored() {
    let (s, a) = upload_start();
    assert!(matches!(s, UploadState::SeekingField));
    assert!(matches!(a, UploadAction::NextField));
    let (s, a) = upload_step(
        s,
        UploadEvent::Field { filename: Some("cat pic.jpg".to_string()), fresh_id: ID.to_string() },
    );
    assert!(matches!(a, UploadAction::NextChunk));
    let (s, a) = upload_step(s, UploadEvent::Chunk { data: vec![1, 2, 3] });
    assert!(matches!(s, UploadState::Finished));
    match a {
        UploadAction::Store { stored_name, data } => {
            assert_eq!(stored_name, format!("{}:cat_pic.jpg", ID));
            assert_eq!(data, vec![1, 2, 3]);
        }
        _ => panic!("expected a store"),
    }
}

#[test]
fn field_without_name_is_an_error() {
    let (s, _) = upload_start();
    let (s, a) = upload_step(s, UploadEvent::Field { filename: None, fresh_id: ID.to_string() });
    assert!(matches!(s, UploadState::Finished));
    match a {
        UploadAction::Respond(r) => {
            assert_eq!(r.status, Status::InternalServerError);
            assert_eq!(r.body.msg, "No filename provided");
        }
        _ => panic!("expected a reply"),
    }
}

#[test]
fn empty_field_moves_to_the_next_one() {
    let (s, _) = upload_start();
    let (s, _) = upload_step(
        s,
        UploadEvent::Field { filename: Some("a".to_string()), fresh_id: ID.to_string() },
    );
    let (s, a) = upload_step(s, UploadEvent::NoMoreChunks);
    assert!(matches!(s, UploadState::SeekingField));
    assert!(matches!(a, UploadAction::NextField));
    let (s, a) = upload_step(s, UploadEvent::NoMoreFields);
    assert!(matches!(s, UploadState::Finished));
    match a {
        UploadAction::Respond(r) => {
            assert_eq!(r.status.code(), 500);
            assert_eq!(r.body.msg, "Unknown error");
        }
        _ => panic!("expected a reply"),
    }
}

#[test]
fn empty_form_is_an_error() {
    let (s, _) = upload_start();
    let (_, a) = upload_step(s, UploadEvent::NoMoreFields);
    match a {
        UploadAction::Respond(r) => assert_eq!(r.body.msg, "Unknown error"),
        _ => panic!("expected a reply"),
    }
}

#[test]
fn stored_file_reply() {
    let r = upload_reply("https://bucket.example", "id:a.png", true);
    assert_eq!(r.status.code(), 201);
    assert_eq!(r.body.msg, "https://bucket.example/id:a.png");
}

#[test]
fn failed_store_reply() {
    let r = upload_reply("https://bucket.example", "id:a.png", false);
    assert_eq!(r.status.code(), 500);
    assert_eq!(r.body.msg, "Failed to upload file id:a.png to s3");
}
