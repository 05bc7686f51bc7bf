use kaze_backend::eusign::{DocumentUnit, InternalPassport, TaxpayerCard};
use kaze_backend::routes::{signed_file_disposition, token_subject, user_name};
use kaze_backend::server_error::ServerError;

fn e() -> String {
    String::new()
}

fn unit(first: &str) -> DocumentUnit {
    DocumentUnit {
        taxpayer_card: TaxpayerCard { creation_date: e(), doc_number: e(), last_name_ua: e(), first_name_ua: e(), middle_name_ua: e(), birthday: e(), file_name: e() },
        internal_passport: InternalPassport {
            taxpayer_number: e(), residence_ua: e(), doc_number: e(), gender_ua: e(), nationality_ua: e(),
            last_name_ua: e(), first_name_ua: first.to_string(), middle_name_ua: e(), birthday: e(),
            birth_place_ua: e(), issue_date: e(), expiration_date: e(), record_number: e(), department: e(),
            gender_en: e(), id: e(), last_name_en: e(), first_name_en: e(), file_name: e(),
        },
    }
}

#[test]
fn names_of_users() {
    let u = unit("Олена");
    assert_eq!(user_name(Some(&u)).unwrap(), "Олена");
    match user_name(None) {
        Err(ServerError::Internal(m)) => assert_eq!(m, "user is not authorized with Diia"),
        _ => panic!(),
    }
}

#[test]
fn token_subjects() {
    assert_eq!(token_subject(Some("uid-1".to_string())).unwrap(), "uid-1");
    match token_subject(None) {
        Err(ServerError::Internal(m)) => assert_eq!(m, "Your token is incorrect!"),
        _ => panic!(),
    }
}

#[test]
fn signed_file_name() {
    assert_eq!(signed_file_disposition("k_signed"), "attachment; filename=\"k_signed.p7s\"");
}
