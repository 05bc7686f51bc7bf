use kaze_backend::config::DiiaConfig;
use kaze_backend::diia::{
    decode_signature_package,
    acquirer_auth_url, authorize_party, authorize_removal, basic_authorization, bearer_authorization,
    document_unit_from_data, file_contents_base64, file_hash_base64, is_encoded_data_field, is_party,
    is_success_status, last_signature, offer_request_endpoint, persist_signature_query,
    sharing_request, sign_hash_request, signature_update, signatures_to_append, SignatureEntry,
    SignedHash, SignedItems,
};
use kaze_backend::eusign::{ocsp_access_points, CASettings, DocumentData, InternalPassport, TaxpayerCard};
use kaze_backend::server_error::ServerError;

fn s(x: &str) -> String {
    x.to_string()
}

fn config() -> DiiaConfig {
    DiiaConfig {
        acquirer_token: s("acq"),
        auth_acquirer_token: s("auth"),
        host: s("https://api.diia"),
        branch_id: s("b1"),
        offer_sharing_id: s("share"),
        offer_signing_id: s("sign"),
    }
}

#[test]
fn urls_and_headers() {
    let c = config();
    assert_eq!(acquirer_auth_url(&c), "https://api.diia/api/v1/auth/acquirer/acq");
    assert_eq!(basic_authorization(&c), "Basic auth");
    assert_eq!(bearer_authorization("tok"), "Bearer tok");
    assert_eq!(offer_request_endpoint(&c), "https://api.diia/api/v2/acquirers/branch/b1/offer-request/dynamic");
    assert!(is_success_status(200) && is_success_status(299));
    assert!(!is_success_status(199) && !is_success_status(300) && !is_success_status(404));
}

#[test]
fn parties() {
    assert!(is_party("t", "t", "l"));
    assert!(is_party("l", "t", "l"));
    assert!(!is_party("x", "t", "l"));
    assert!(authorize_party("l", "t", "l").is_ok());
    match authorize_party("x", "t", "l") {
        Err(ServerError::Internal(m)) => assert_eq!(m, "you are not authorized to perform this action: you're not a landlord or a tenant"),
        _ => panic!("not refused"),
    }
    match authorize_removal("x", "t", "l") {
        Err(ServerError::Internal(m)) => assert_eq!(m, "you are not authorized to remove this agreement: you're not a landlord or a tenant"),
        _ => panic!("not refused"),
    }
    assert!(authorize_removal("t", "t", "l").is_ok());
}

#[test]
fn requests() {
    let c = config();
    let r = sharing_request(&c, s("{\"uid\":\"u\"}"));
    assert_eq!((r.offer_id.as_str(), r.return_link.as_str(), r.request_id.as_str()), ("share", "https://mykaze.org", "{\"uid\":\"u\"}"));
    let q = sign_hash_request(&c, s("rid"), s("hash"));
    assert_eq!(q.offer_id, "sign");
    assert_eq!(q.return_link, "https://mykaze.org");
    assert_eq!(q.sign_algo, Some(s("ECDSA")));
    assert_eq!(q.data.hashed_files_signing.hashed_files.len(), 1);
    assert_eq!(q.data.hashed_files_signing.hashed_files[0].file_name, "agreement.pdf");
    assert_eq!(q.data.hashed_files_signing.hashed_files[0].file_hash, "hash");
}

#[test]
fn hashing_and_base64() {
    assert_eq!(file_hash_base64(b"abc"), "ungWv48Bz+pBQUDeXa4iI7ADYaOWF3qctBD/YfIAFa0=");
    assert_eq!(file_contents_base64(b"Man"), "TWFu");
    assert_eq!(file_contents_base64(b"Ma"), "TWE=");
    assert_eq!(file_contents_base64(b"M"), "TQ==");
    assert_eq!(file_contents_base64(b""), "");
    assert_eq!(file_contents_base64(&[0xfb, 0xff]), "+/8=");
}

fn card(n: &str) -> TaxpayerCard {
    TaxpayerCard { creation_date: s(""), doc_number: s(n), last_name_ua: s(""), first_name_ua: s(""), middle_name_ua: s(""), birthday: s(""), file_name: s("") }
}

fn passport(n: &str) -> InternalPassport {
    InternalPassport {
        taxpayer_number: s(""), residence_ua: s(""), doc_number: s(n), gender_ua: s(""), nationality_ua: s(""),
        last_name_ua: s(""), first_name_ua: s(""), middle_name_ua: s(""), birthday: s(""), birth_place_ua: s(""),
        issue_date: s(""), expiration_date: s(""), record_number: s(""), department: s(""), gender_en: s(""),
        id: s(""), last_name_en: s(""), first_name_en: s(""), file_name: s(""),
    }
}

#[test]
fn documents_of_a_package() {
    let u = document_unit_from_data(DocumentData { taxpayer_card: vec![card("c1"), card("c2")], internal_passport: vec![passport("p1")] }).unwrap();
    assert_eq!(u.taxpayer_card.doc_number, "c1");
    assert_eq!(u.internal_passport.doc_number, "p1");
    match document_unit_from_data(DocumentData { taxpayer_card: vec![], internal_passport: vec![passport("p1")] }) {
        Err(ServerError::Internal(m)) => assert_eq!(m, "No taxpayer card found"),
        _ => panic!(),
    }
    match document_unit_from_data(DocumentData { taxpayer_card: vec![card("c")], internal_passport: vec![] }) {
        Err(ServerError::Internal(m)) => assert_eq!(m, "No internal passport found"),
        _ => panic!(),
    }
    assert!(is_encoded_data_field("encodeData"));
    assert!(!is_encoded_data_field("encodedata"));
}

#[test]
fn signatures_of_a_package() {
    let h = SignedHash { signed_items: vec![SignedItems { name: s("a"), signature: s("s1") }, SignedItems { name: s("b"), signature: s("s2") }] };
    assert_eq!(last_signature(h).unwrap(), "s2");
    match last_signature(SignedHash { signed_items: vec![] }) {
        Err(ServerError::Internal(m)) => assert_eq!(m, "cannot extract signature"),
        _ => panic!(),
    }
}

#[test]
fn signature_columns() {
    assert_eq!(signature_update(7, 7), ("tenant_signature", "half_signed"));
    assert_eq!(signature_update(8, 7), ("landlord_signature", "signed"));
    let col = "tenant_signature";
    let expected = format!(
        "UPDATE agreements
         SET {col} = $4,
             state = $5,
             action_by = COALESCE(action_by, $3)
         WHERE tenant_id = $1 AND landlord_id = $2 AND housing_id = $3
           AND state <> 'expired'"
    );
    assert_eq!(persist_signature_query(col), expected);
}

#[test]
fn ocsp_settings_of_authorities() {
    let ca = |cns: Vec<&str>, addr: &str, port: &str| CASettings {
        issuer_cns: cns.into_iter().map(s).collect(),
        address: s(""),
        ocsp_access_point_address: s(addr),
        ocsp_access_point_port: s(port),
        cmp_address: s(""),
        tsp_address: s(""),
        tsp_address_port: s(""),
        certs_in_key: None,
        direct_access: Some(true),
        qscd_sn_in_cert: None,
        cmp_compatibility: Some(3),
        code_edrpou: s(""),
    };
    let list = ocsp_access_points(&vec![ca(vec!["A", "B"], "ocsp1", "80"), ca(vec![], "x", "1"), ca(vec!["C"], "ocsp2", "8080")]);
    assert_eq!(
        list,
        vec![
            (s("A"), s("ocsp1"), s("80")),
            (s("B"), s("ocsp1"), s("80")),
            (s("C"), s("ocsp2"), s("8080")),
        ]
    );
}

fn entry(tenant: &str, landlord: &str) -> SignatureEntry {
    SignatureEntry {
        tenant_id: 1,
        landlord_id: 2,
        housing_id: 3,
        tenant_signature: s(tenant),
        landlord_signature: s(landlord),
    }
}

#[test]
fn signatures_are_decoded_tenant_first() {
    let both = signatures_to_append(&entry("AQID", "/w==")).unwrap();
    assert_eq!(both, vec![vec![1u8, 2, 3], vec![255u8]]);
    let tenant_only = signatures_to_append(&entry("AQID", "")).unwrap();
    assert_eq!(tenant_only, vec![vec![1u8, 2, 3]]);
}

#[test]
fn undecodable_signatures_are_refused() {
    match signatures_to_append(&entry("AQ=", "AQID")) {
        Err(ServerError::Internal(m)) => assert_eq!(m, "unable to decode tenant signature"),
        _ => panic!("tenant signature should be refused"),
    }
    match signatures_to_append(&entry("AQID", "/x==")) {
        Err(ServerError::Internal(m)) => assert_eq!(m, "unable to decode landlord signature"),
        _ => panic!("landlord signature should be refused"),
    }
}

#[test]
fn signature_packages_are_decoded_from_base64() {
    assert_eq!(decode_signature_package(b"eyJhIjoxfQ==").unwrap(), b"{\"a\":1}".to_vec());
    assert_eq!(decode_signature_package(b"").unwrap(), Vec::<u8>::new());
    match decode_signature_package(b"AQ=") {
        Err(ServerError::Internal(m)) => assert_eq!(m, "Invalid padding"),
        _ => panic!("bad padding should be refused"),
    }
}

#[test]
fn non_ascii_signatures_are_refused() {
    match signatures_to_append(&entry("AQID\u{0100}", "")) {
        Err(ServerError::Internal(m)) => assert_eq!(m, "unable to decode tenant signature"),
        _ => panic!("non-ascii signature should be refused"),
    }
}
