use photo_backend::reply::{status_for, text_reply, Status};
use photo_backend::settings::{bucket_found, missing_setting_message, required_settings, S3_REGION};

#[test]
fn required_settings_in_order() {
    assert_eq!(
        required_settings(),
        vec![
            "DATABASE_URL",
            "DATABASE_USER",
            "DATABASE_PASSWORD",
            "DATABASE_NAMESPACE",
            "DATABASE_NAME",
            "AWS_S3_BUCKET_NAME",
            "AWS_S3_BUCKET_URL",
            "AWS_ACCESS_KEY",
            "AWS_SECRET_KEY",
            "JWT_SECRET_KEY",
            "JWT_EXPIRE_TIME",
        ]
    );
}

#[test]
fn missing_setting() {
    assert_eq!(missing_setting_message("JWT_SECRET_KEY"), "JWT_SECRET_KEY must be set");
}

#[test]
fn bucket_status() {
    assert!(!bucket_found(404));
    assert!(bucket_found(200));
    assert!(bucket_found(403));
}

#[test]
fn region() {
    assert_eq!(S3_REGION, "ap-northeast-2");
}

#[test]
fn status_codes() {
    assert_eq!(Status::Success.code(), 200);
    assert_eq!(Status::Created.code(), 201);
    assert_eq!(Status::Unauthorized.code(), 401);
    assert_eq!(Status::InternalServerError.code(), 500);
}

#[test]
fn route_status() {
    let ok: Result<u8, String> = Ok(1);
    let err: Result<u8, String> = Err("e".to_string());
    assert_eq!(status_for(&ok, Status::Created), Status::Created);
    assert_eq!(status_for(&ok, Status::Success), Status::Success);
    assert_eq!(status_for(&err, Status::Created), Status::InternalServerError);
}

#[test]
fn literal_reply() {
    let r = text_reply(Status::Unauthorized, "no");
    assert_eq!(r.status.code(), 401);
    assert_eq!(r.body.msg, "no");
}
