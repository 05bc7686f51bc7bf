//! Requests to the Diia services (document sharing and signing) and the
//! handling of what they send back.
use vstd::prelude::*;
use vstd::string::{StringExecFns, StringSliceAdditionalSpecFns};
use crate::text::str_eq;
use crate::config::DiiaConfig;
use crate::eusign::{DocumentData, DocumentUnit};
use crate::server_error::ServerError;

verus! {

/// The session token answer of the Diia authentication service.
pub struct SessionTokenResponse {
    pub token: String,
}

/// `<host>/api/v1/auth/acquirer/<acquirer token>`: where a session token is requested.
pub fn acquirer_auth_url(config: &DiiaConfig) -> (r: String)
    ensures
        r@ == config.host@ + "/api/v1/auth/acquirer/"@ + config.acquirer_token@,
{
    let mut s = config.host.clone();
    s.append("/api/v1/auth/acquirer/");
    s.append(config.acquirer_token.as_str());
    s
}

/// `Basic <auth acquirer token>`: the authorization of a session-token request.
pub fn basic_authorization(config: &DiiaConfig) -> (r: String)
    ensures
        r@ == "Basic "@ + config.auth_acquirer_token@,
{
    let mut s = "Basic ".to_string();
    s.append(config.auth_acquirer_token.as_str());
    s
}

/// `Bearer <session token>`: the authorization of an offer request.
pub fn bearer_authorization(token: &str) -> (r: String)
    ensures
        r@ == "Bearer "@ + token@,
{
    let mut s = "Bearer ".to_string();
    s.append(token);
    s
}

/// `<host>/api/v2/acquirers/branch/<branch id>/offer-request/dynamic`: where
/// sharing and signing offers are requested.
pub fn offer_request_endpoint(config: &DiiaConfig) -> (r: String)
    ensures
        r@ == config.host@ + "/api/v2/acquirers/branch"@ + "/"@ + config.branch_id@
            + "/offer-request/dynamic"@,
{
    let mut s = config.host.clone();
    s.append("/api/v2/acquirers/branch");
    s.append("/");
    s.append(config.branch_id.as_str());
    s.append("/offer-request/dynamic");
    s
}

/// A 2xx HTTP status.
pub fn is_success_status(status: u16) -> (r: bool)
    ensures
        r == (200 <= status <= 299),
{
    200 <= status && status <= 299
}

/// Where the Diia application sends the user back.
pub open spec fn return_link_text() -> Seq<char> {
    "https://mykaze.org"@
}

/// The user is the tenant or the landlord of the agreement.
pub fn is_party(uid: &str, tenant_id: &str, landlord_id: &str) -> (r: bool)
    ensures
        r == (uid@ == landlord_id@ || uid@ == tenant_id@),
{
    str_eq(uid, landlord_id) || str_eq(uid, tenant_id)
}

/// The refusal sent to a user who is neither the tenant nor the landlord.
pub open spec fn not_a_party_text() -> Seq<char> {
    "you are not authorized to perform this action: you're not a landlord or a tenant"@
}

/// Lets the tenant and the landlord through, and refuses anybody else.
pub fn authorize_party(uid: &str, tenant_id: &str, landlord_id: &str) -> (r: Result<(), ServerError>)
    ensures
        r is Ok <==> (uid@ == landlord_id@ || uid@ == tenant_id@),
        r matches Err(ServerError::Internal(m)) ==> m@ == not_a_party_text(),
        r is Err ==> r matches Err(ServerError::Internal(_)),
{
    if !is_party(uid, tenant_id, landlord_id) {
        return Err(
            ServerError::Internal(
                "you are not authorized to perform this action: you're not a landlord or a tenant".to_string(),
            ),
        );
    }
    Ok(())
}

/// The refusal sent to a user who asks to remove an agreement that is not theirs.
pub open spec fn not_a_party_removal_text() -> Seq<char> {
    "you are not authorized to remove this agreement: you're not a landlord or a tenant"@
}

/// Lets the tenant and the landlord remove their agreement, and refuses anybody else.
pub fn authorize_removal(uid: &str, tenant_id: &str, landlord_id: &str) -> (r: Result<(), ServerError>)
    ensures
        r is Ok <==> (uid@ == tenant_id@ || uid@ == landlord_id@),
        r matches Err(ServerError::Internal(m)) ==> m@ == not_a_party_removal_text(),
        r is Err ==> r matches Err(ServerError::Internal(_)),
{
    if !str_eq(uid, tenant_id) && !str_eq(uid, landlord_id) {
        return Err(
            ServerError::Internal(
                "you are not authorized to remove this agreement: you're not a landlord or a tenant".to_string(),
            ),
        );
    }
    Ok(())
}

/// Who asks for a sharing offer, and a random seed; sent to Diia as the
/// request id and received back with the shared documents.
pub struct DiiaSharingRequestId {
    pub uid: String,
    pub seed: u128,
}

/// A request for a document-sharing offer.
pub struct DiiaSharingRequest {
    pub offer_id: String,
    pub return_link: String,
    pub request_id: String,
}

/// The answer to a sharing-offer request.
pub struct DiiaSharingResponse {
    pub deeplink: String,
}

/// The sharing-offer request for a serialized request id.
pub fn sharing_request(config: &DiiaConfig, request_id: String) -> (r: DiiaSharingRequest)
    ensures
        r.offer_id@ == config.offer_sharing_id@,
        r.return_link@ == return_link_text(),
        r.request_id == request_id,
{
    DiiaSharingRequest {
        offer_id: config.offer_sharing_id.clone(),
        return_link: "https://mykaze.org".to_string(),
        request_id,
    }
}

/// A file to be signed, by its SHA-256 hash.
pub struct HashedFile {
    pub file_name: String,
    pub file_hash: String,
}

/// The files to be signed.
pub struct HashedFilesSigning {
    pub hashed_files: Vec<HashedFile>,
}

/// The payload of a signing offer.
pub struct RequestData {
    pub hashed_files_signing: HashedFilesSigning,
}

/// A request for a signing offer.
pub struct SignHashRequest {
    pub offer_id: String,
    pub return_link: String,
    pub request_id: String,
    pub sign_algo: Option<String>,
    pub data: RequestData,
}

/// Who signs which agreement, and a random seed; sent to Diia as the request
/// id and received back with the signature.
pub struct SignHashRequestId {
    pub tenant_id: u128,
    pub landlord_id: u128,
    pub signed_by: u128,
    pub housing_id: u128,
    pub seed: u128,
}

/// The signing-offer request for the agreement PDF of the given hash: one
/// file, `agreement.pdf`, signed with ECDSA.
pub fn sign_hash_request(config: &DiiaConfig, request_id: String, file_hash: String) -> (r: SignHashRequest)
    ensures
        r.offer_id@ == config.offer_signing_id@,
        r.return_link@ == return_link_text(),
        r.request_id == request_id,
        r.sign_algo matches Some(a) && a@ == "ECDSA"@,
        r.data.hashed_files_signing.hashed_files@.len() == 1,
        r.data.hashed_files_signing.hashed_files@[0].file_name@ == "agreement.pdf"@,
        r.data.hashed_files_signing.hashed_files@[0].file_hash == file_hash,
{
    let mut files: Vec<HashedFile> = Vec::new();
    files.push(HashedFile { file_name: "agreement.pdf".to_string(), file_hash });
    SignHashRequest {
        offer_id: config.offer_signing_id.clone(),
        return_link: "https://mykaze.org".to_string(),
        request_id,
        sign_algo: Some("ECDSA".to_string()),
        data: RequestData { hashed_files_signing: HashedFilesSigning { hashed_files: files } },
    }
}

/// Names the SHA-256 digest of a byte string.
pub uninterp spec fn sha256_digest(data: Seq<u8>) -> Seq<u8>;

/// Hashes with `sha2::Sha256` (`update`, then `finalize`). Trusted: the digest
/// is named as a function of the data, and is 32 bytes long.
#[verifier::external_body]
fn sha256(data: &[u8]) -> (r: Vec<u8>)
    ensures
        r@ == sha256_digest(data@),
        r@.len() == 32,
{
    let mut hasher = <sha2::Sha256 as sha2::Digest>::new();
    sha2::Digest::update(&mut hasher, data);
    sha2::Digest::finalize(hasher).to_vec()
}

/// A character of the standard base64 alphabet.
pub open spec fn b64_char(i: int) -> char {
    if i < 26 {
        (65 + i) as char
    } else if i < 52 {
        (71 + i) as char
    } else if i < 62 {
        (i - 4) as char
    } else if i == 62 {
        '+'
    } else {
        '/'
    }
}

/// Standard base64 with '=' padding: each group of three bytes gives four
/// characters of six bits each.
pub open spec fn base64_text(b: Seq<u8>) -> Seq<char>
    decreases b.len(),
{
    if b.len() == 0 {
        Seq::empty()
    } else if b.len() == 1 {
        seq![b64_char((b[0] / 4) as int), b64_char((b[0] % 4) * 16), '=', '=']
    } else if b.len() == 2 {
        seq![b64_char((b[0] / 4) as int), b64_char((b[0] % 4) * 16 + b[1] / 16), b64_char((b[1] % 16) * 4), '=']
    } else {
        seq![
            b64_char((b[0] / 4) as int),
            b64_char((b[0] % 4) * 16 + b[1] / 16),
            b64_char((b[1] % 16) * 4 + b[2] / 64),
            b64_char((b[2] % 64) as int),
        ] + base64_text(b.skip(3))
    }
}

/// Encodes with `base64::engine::general_purpose::STANDARD`. Trusted: the
/// crate documents this engine as the standard alphabet with padding, which
/// `base64_text` states.
#[verifier::external_body]
fn base64_standard(data: &[u8]) -> (r: String)
    ensures
        r@ == base64_text(data@),
{
    base64::Engine::encode(&base64::engine::general_purpose::STANDARD, data)
}

/// The text is the standard base64 text of some bytes.
pub open spec fn is_base64_text(text: Seq<char>) -> bool {
    exists|b: Seq<u8>| base64_text(b) == text
}

/// The characters of a byte string read byte by byte, as a base64 decoder
/// reads its input.
pub open spec fn ascii_chars(s: Seq<u8>) -> Seq<char> {
    Seq::new(s.len(), |i: int| s[i] as char)
}

/// Names the text of the error that the standard base64 decoder reports for
/// an input it refuses.
pub uninterp spec fn base64_decode_error_text(encoded: Seq<u8>) -> Seq<char>;

/// Decodes with `base64::engine::general_purpose::STANDARD`, and gives the
/// decoder's error as its `Display` text. Trusted: this engine requires
/// canonical padding and refuses set trailing bits, so it accepts exactly the
/// texts that its encoder writes, and gives back the bytes that such a text
/// encodes; the error text is named as a function of the input.
#[verifier::external_body]
fn base64_standard_decode(encoded: &[u8]) -> (r: Result<Vec<u8>, String>)
    ensures
        r matches Ok(b) ==> base64_text(b@) == ascii_chars(encoded@),
        is_base64_text(ascii_chars(encoded@)) ==> r is Ok,
        r matches Err(t) ==> t@ == base64_decode_error_text(encoded@),
{
    match base64::Engine::decode(&base64::engine::general_purpose::STANDARD, encoded) {
        Ok(b) => Ok(b),
        Err(e) => Err(e.to_string()),
    }
}

proof fn lemma_base64_text_ascii(b: Seq<u8>)
    ensures
        forall|i: int| 0 <= i < base64_text(b).len() ==> '\0' <= #[trigger] base64_text(b)[i] <= '\u{7f}',
    decreases b.len(),
{
    if b.len() >= 3 {
        lemma_base64_text_ascii(b.skip(3));
        let head = seq![
            b64_char((b[0] / 4) as int),
            b64_char((b[0] % 4) * 16 + b[1] / 16),
            b64_char((b[1] % 16) * 4 + b[2] / 64),
            b64_char((b[2] % 64) as int),
        ];
        assert(base64_text(b) == head + base64_text(b.skip(3)));
        assert forall|i: int| 0 <= i < base64_text(b).len() implies '\0' <= #[trigger] base64_text(b)[i]
            <= '\u{7f}' by {
            if i >= 4 {
                assert(base64_text(b)[i] == base64_text(b.skip(3))[i - 4]);
            }
        }
    }
}

/// The bytes whose standard base64 text a text is, if it is one.
fn decode_base64_text(text: &str) -> (r: Option<Vec<u8>>)
    ensures
        r matches Some(b) ==> base64_text(b@) == text@,
        is_base64_text(text@) ==> r is Some,
{
    if !text.is_ascii() {
        proof {
            if is_base64_text(text@) {
                let b = choose|b: Seq<u8>| base64_text(b) == text@;
                lemma_base64_text_ascii(b);
            }
        }
        return None;
    }
    proof {
        vstd::string::is_ascii_spec_bytes(text);
        assert(ascii_chars(text.spec_bytes()) =~= text@);
    }
    match base64_standard_decode(text.as_bytes()) {
        Ok(b) => Some(b),
        Err(_) => None,
    }
}

/// The JSON bytes of a signature package: its `encodeData` field, standard
/// base64, decoded. A refused field gives the decoder's own error text.
pub fn decode_signature_package(encoded: &[u8]) -> (r: Result<Vec<u8>, ServerError>)
    ensures
        r matches Ok(b) ==> base64_text(b@) == ascii_chars(encoded@),
        is_base64_text(ascii_chars(encoded@)) <==> r is Ok,
        r matches Err(e) ==> (e matches ServerError::Internal(m) && m@ == base64_decode_error_text(
            encoded@,
        )),
{
    match base64_standard_decode(encoded) {
        Ok(b) => Ok(b),
        Err(t) => Err(ServerError::Internal(t)),
    }
}

proof fn lemma_base64_text_empty(b: Seq<u8>)
    ensures
        base64_text(b).len() == 0 <==> b.len() == 0,
{
}

/// The signatures of an agreement, as base64 text, waiting to be put
/// together into one signed file.
pub struct SignatureEntry {
    pub tenant_id: u128,
    pub landlord_id: u128,
    pub housing_id: u128,
    pub tenant_signature: String,
    pub landlord_signature: String,
}

/// The signatures to append, in order, to the CAdES container of a signed
/// agreement: the tenant's, then the landlord's when it is not empty. The
/// first that cannot be decoded from base64 is refused.
pub fn signatures_to_append(entry: &SignatureEntry) -> (r: Result<Vec<Vec<u8>>, ServerError>)
    ensures
        ({
            let t = entry.tenant_signature@;
            let l = entry.landlord_signature@;
            &&& !is_base64_text(t) ==> (r matches Err(ServerError::Internal(m)) && m@
                == "unable to decode tenant signature"@)
            &&& is_base64_text(t) && !is_base64_text(l) ==> (r matches Err(ServerError::Internal(m))
                && m@ == "unable to decode landlord signature"@)
            &&& is_base64_text(t) && is_base64_text(l) ==> (r matches Ok(v) && v@.len() == (if l.len()
                == 0 {
                1int
            } else {
                2int
            }) && base64_text(v@[0]@) == t && (l.len() > 0 ==> base64_text(v@[1]@) == l))
        }),
{
    let tenant_signature = entry.tenant_signature.as_str();
    let landlord_signature = entry.landlord_signature.as_str();
    let tenant = match decode_base64_text(tenant_signature) {
        Some(b) => b,
        None => {
            return Err(ServerError::Internal("unable to decode tenant signature".to_string()));
        },
    };
    let landlord = match decode_base64_text(landlord_signature) {
        Some(b) => b,
        None => {
            return Err(ServerError::Internal("unable to decode landlord signature".to_string()));
        },
    };
    proof {
        lemma_base64_text_empty(landlord@);
    }
    let mut out: Vec<Vec<u8>> = Vec::new();
    out.push(tenant);
    if landlord.len() > 0 {
        out.push(landlord);
    }
    Ok(out)
}

/// The base64 text of the SHA-256 hash of the agreement PDF.
pub fn file_hash_base64(pdf: &[u8]) -> (r: String)
    ensures
        r@ == base64_text(sha256_digest(pdf@)),
{
    let digest = sha256(pdf);
    base64_standard(digest.as_slice())
}

/// The base64 text of a file's contents (a certificate).
pub fn file_contents_base64(buffer: &[u8]) -> (r: String)
    ensures
        r@ == base64_text(buffer@),
{
    base64_standard(buffer)
}

/// The only form field of a Diia package that carries data.
pub fn is_encoded_data_field(name: &str) -> (r: bool)
    ensures
        r == (name@ == "encodeData"@),
{
    str_eq(name, "encodeData")
}

/// The documents of a user in a decrypted sharing package: the first taxpayer
/// card and the first internal passport.
pub fn document_unit_from_data(data: DocumentData) -> (r: Result<DocumentUnit, ServerError>)
    ensures
        data.taxpayer_card@.len() == 0 ==> (r matches Err(ServerError::Internal(m)) && m@
            == "No taxpayer card found"@),
        data.taxpayer_card@.len() > 0 && data.internal_passport@.len() == 0 ==> (r matches Err(
            ServerError::Internal(m),
        ) && m@ == "No internal passport found"@),
        data.taxpayer_card@.len() > 0 && data.internal_passport@.len() > 0 ==> (r matches Ok(u)
            && u.taxpayer_card == data.taxpayer_card@[0] && u.internal_passport
            == data.internal_passport@[0]),
{
    let mut cards = data.taxpayer_card;
    let mut passports = data.internal_passport;
    if cards.len() == 0 {
        return Err(ServerError::Internal("No taxpayer card found".to_string()));
    }
    let taxpayer_card = cards.remove(0);
    if passports.len() == 0 {
        return Err(ServerError::Internal("No internal passport found".to_string()));
    }
    let internal_passport = passports.remove(0);
    Ok(DocumentUnit { taxpayer_card, internal_passport })
}

/// One signed item of a signature package.
pub struct SignedItems {
    pub name: String,
    pub signature: String,
}

/// A signature package.
pub struct SignedHash {
    pub signed_items: Vec<SignedItems>,
}

/// The signature of a package: that of its last signed item.
pub fn last_signature(hash: SignedHash) -> (r: Result<String, ServerError>)
    ensures
        hash.signed_items@.len() == 0 ==> (r matches Err(ServerError::Internal(m)) && m@
            == "cannot extract signature"@),
        hash.signed_items@.len() > 0 ==> r == Ok::<String, ServerError>(
            hash.signed_items@.last().signature,
        ),
{
    let mut items = hash.signed_items;
    match items.pop() {
        Some(item) => Ok(item.signature),
        None => Err(ServerError::Internal("cannot extract signature".to_string())),
    }
}

/// The column that a signature goes to, and the state that the agreement
/// takes: the tenant signs first (half signed), the other signer completes it.
pub fn signature_update(signed_by: u128, tenant_id: u128) -> (r: (&'static str, &'static str))
    ensures
        signed_by == tenant_id ==> r.0@ == "tenant_signature"@ && r.1@ == "half_signed"@,
        signed_by != tenant_id ==> r.0@ == "landlord_signature"@ && r.1@ == "signed"@,
{
    if signed_by == tenant_id {
        ("tenant_signature", "half_signed")
    } else {
        ("landlord_signature", "signed")
    }
}

/// The statement that stores a signature in `column` and moves the agreement
/// to the new state (parameters: tenant, landlord, housing, signature, state),
/// leaving expired agreements alone. `action_by`, when still empty, takes
/// parameter `$3`, the housing id.
pub open spec fn persist_signature_sql(column: Seq<char>) -> Seq<char> {
    "UPDATE agreements\n         SET "@ + column
        + " = $4,\n             state = $5,\n             action_by = COALESCE(action_by, $3)\n         WHERE tenant_id = $1 AND landlord_id = $2 AND housing_id = $3\n           AND state <> 'expired'"@
}

/// The update statement of `persist_signature` for a column.
pub fn persist_signature_query(column: &str) -> (r: String)
    ensures
        r@ == persist_signature_sql(column@),
{
    let mut s = "UPDATE agreements\n         SET ".to_string();
    s.append(column);
    s.append(
        " = $4,\n             state = $5,\n             action_by = COALESCE(action_by, $3)\n         WHERE tenant_id = $1 AND landlord_id = $2 AND housing_id = $3\n           AND state <> 'expired'",
    );
    s
}

} // verus!
