//! The configuration of the service.
use vstd::prelude::*;
use vstd::string::StringExecFns;

verus! {

/// Settings of the signing library.
#[derive(Debug)]
pub struct EUSignConfig {
    pub private_key_path: String,
    pub private_key_password: String,
    pub cas_json_path: String,
    pub ca_certificates_path: String,
    pub sz_path: String,
    pub proxy_use: i32,
    pub proxy_address: String,
    pub proxy_port: String,
    pub proxy_user: String,
    pub proxy_password: String,
    pub default_ocsp_server: String,
    pub default_tsp_server: String,
    pub encryption_cert_file_name: String,
    pub signature_cert_file_name: String,
}

impl EUSignConfig {
    /// The paths of the encryption and of the signature certificate: each
    /// file name appended to the key-storage directory `sz_path`.
    pub fn certificate_paths(&self) -> (r: (String, String))
        ensures
            r.0@ == self.sz_path@ + self.encryption_cert_file_name@,
            r.1@ == self.sz_path@ + self.signature_cert_file_name@,
    {
        let mut encryption = self.sz_path.clone();
        encryption.append(self.encryption_cert_file_name.as_str());
        let mut signature = self.sz_path.clone();
        signature.append(self.signature_cert_file_name.as_str());
        (encryption, signature)
    }
}

/// Access to the Diia services.
#[derive(Debug)]
pub struct DiiaConfig {
    pub acquirer_token: String,
    pub auth_acquirer_token: String,
    pub host: String,
    pub branch_id: String,
    pub offer_sharing_id: String,
    pub offer_signing_id: String,
}

/// The whole configuration file.
#[derive(Debug)]
pub struct Config {
    pub eusign: EUSignConfig,
    pub diia: DiiaConfig,
}

} // verus!
