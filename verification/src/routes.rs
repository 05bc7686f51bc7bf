//! Request and answer bodies of the HTTP routes that carry no outside types.
use vstd::prelude::*;
use vstd::string::StringExecFns;
use crate::eusign::DocumentUnit;
use crate::server_error::ServerError;

verus! {

/// Asks to remove an agreement.
pub struct RemoveAgreementPayload {
    pub tenant_id: String,
    pub landlord_id: String,
    pub housing_id: String,
    /// Identifies the caller in tests, in place of a token.
    pub _uid: Option<String>,
}

/// The answer to a removal.
pub struct RemoveAgreementResponse {
    pub success: bool,
}

/// The body of a Diia package (sent as multipart form fields).
pub struct DiiaPayload {}

/// The answer to a Diia package.
pub struct DiiaResponse {
    pub success: bool,
}

/// Asks for a user's information.
pub struct GetUserInfoPayload {
    pub user_id: String,
}

/// A user's name.
pub struct RequestIdResponse {
    pub name: String,
}

/// The first name of a user whose documents were shared, or the refusal sent
/// when there are none.
pub fn user_name(unit: Option<&DocumentUnit>) -> (r: Result<String, ServerError>)
    ensures
        unit matches Some(u) ==> r == Ok::<String, ServerError>(u.internal_passport.first_name_ua),
        unit is None ==> (r matches Err(ServerError::Internal(m)) && m@
            == "user is not authorized with Diia"@),
{
    match unit {
        Some(u) => Ok(u.internal_passport.first_name_ua.clone()),
        None => Err(ServerError::Internal("user is not authorized with Diia".to_string())),
    }
}

/// The user named by a verified token, or the refusal sent when the token
/// could not be verified.
pub fn token_subject(subject: Option<String>) -> (r: Result<String, ServerError>)
    ensures
        subject matches Some(s) ==> r == Ok::<String, ServerError>(s),
        subject is None ==> (r matches Err(ServerError::Internal(m)) && m@ == "Your token is incorrect!"@),
{
    match subject {
        Some(s) => Ok(s),
        None => Err(ServerError::Internal("Your token is incorrect!".to_string())),
    }
}

/// The content disposition of a downloaded signed agreement.
pub fn signed_file_disposition(key: &str) -> (r: String)
    ensures
        r@ == "attachment; filename=\""@ + key@ + ".p7s\""@,
{
    let mut s = "attachment; filename=\"".to_string();
    s.append(key);
    s.append(".p7s\"");
    s
}

} // verus!
