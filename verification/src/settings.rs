//! The settings that the service reads from its environment, and the
//! checks made while it starts.
use vstd::prelude::*;

verus! {

/// The names of the settings that must be present before the service
/// starts, in the order in which they are checked.
pub open spec fn required_setting_names() -> Seq<Seq<char>> {
    seq![
        "DATABASE_URL"@,
        "DATABASE_USER"@,
        "DATABASE_PASSWORD"@,
        "DATABASE_NAMESPACE"@,
        "DATABASE_NAME"@,
        "AWS_S3_BUCKET_NAME"@,
        "AWS_S3_BUCKET_URL"@,
        "AWS_ACCESS_KEY"@,
        "AWS_SECRET_KEY"@,
        "JWT_SECRET_KEY"@,
        "JWT_EXPIRE_TIME"@,
    ]
}

/// The settings that must be present before the service starts.
pub fn required_settings() -> (names: Vec<&'static str>)
    ensures
        names@.len() == required_setting_names().len(),
        forall|i: int| 0 <= i < names@.len() ==> #[trigger] names@[i]@ == required_setting_names()[i],
{
    let names = vec![
        "DATABASE_URL",
        "DATABASE_USER",
        "DATABASE_PASSWORD",
        "DATABASE_NAMESPACE",
        "DATABASE_NAME",
        "AWS_S3_BUCKET_NAME",
        "AWS_S3_BUCKET_URL",
        "AWS_ACCESS_KEY",
        "AWS_SECRET_KEY",
        "JWT_SECRET_KEY",
        "JWT_EXPIRE_TIME",
    ];
    assert(names@.len() == 11);
    names
}

/// The message with which the service stops when setting `key` is absent.
pub fn missing_setting_message(key: &str) -> (msg: String)
    ensures
        msg@ == key@ + " must be set"@,
{
    let mut msg = String::from_str(key);
    msg.append(" must be set");
    msg
}

/// The region of the storage bucket.
pub const S3_REGION: &'static str = "ap-northeast-2";

/// Whether the bucket exists, from the status of a request for its root:
/// only 404 says that it does not.
pub fn bucket_found(status: u16) -> (found: bool)
    ensures
        found == (status != 404),
{
    status != 404
}

} // verus!
