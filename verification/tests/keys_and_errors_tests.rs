use kaze_backend::s3::{get_key_for_s3, get_signature_key_for_s3};
use kaze_backend::server_error::{EUSignError, ServerError};

const T: u128 = 0x0123456789abcdef0123456789abcdef;
const L: u128 = 0xfedcba98765432100000000000000001;
const H: u128 = 0;

#[test]
fn storage_keys() {
    let key = get_key_for_s3(T, L, H);
    assert_eq!(
        key,
        "01234567-89ab-cdef-0123-456789abcdef_fedcba98-7654-3210-0000-000000000001_00000000-0000-0000-0000-000000000000"
    );
    assert_eq!(key, format!("{}_{}_{}", uuid::Uuid::from_u128(T), uuid::Uuid::from_u128(L), uuid::Uuid::from_u128(H)));
    assert_eq!(get_signature_key_for_s3(T, L, H), format!("{key}_signed"));
    assert_ne!(get_key_for_s3(L, T, H), key);
}

#[test]
fn error_replies() {
    let r = ServerError::BadRequest("bad".to_string()).into_response();
    assert_eq!((r.status, r.body.code.as_str(), r.body.message.as_str()), (400, "bad_request", "bad"));
    let r = ServerError::Unauthorized("who".to_string()).into_response();
    assert_eq!((r.status, r.body.code.as_str()), (401, "unauthorized"));
    let r = ServerError::NotFound("nf".to_string()).into_response();
    assert_eq!((r.status, r.body.code.as_str()), (404, "not_found"));
    let r = ServerError::Conflict("c".to_string()).into_response();
    assert_eq!((r.status, r.body.code.as_str()), (409, "conflict"));
    let r = ServerError::Eusign(EUSignError(51)).into_response();
    assert_eq!((r.status, r.body.code.as_str(), r.body.message.as_str()), (400, "eusign_error", "EUSign operation failed (code 51)"));
    let r = ServerError::Internal("secret detail".to_string()).into_response();
    assert_eq!(
        (r.status, r.body.code.as_str(), r.body.message.as_str()),
        (500, "internal_error", "Internal server error. Please try again later.")
    );
    let e: ServerError = EUSignError(3).into();
    assert!(matches!(e, ServerError::Eusign(EUSignError(3))));
}
