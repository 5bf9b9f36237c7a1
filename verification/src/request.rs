//! What describes a request that the agent is to run, and what it answers.

use vstd::prelude::*;

verus! {

/// The key that a client shows to be allowed to register.
#[derive(Debug)]
pub struct RegistrationKey {
    pub reg_key: String,
}

#[derive(Debug)]
pub struct KeyValuePair {
    pub key: String,
    pub value: String,
}

/// The value of one entry of a multipart form.
#[derive(Debug)]
pub enum FormDataValue {
    Text(String),
    File { filename: String, data: Vec<u8>, mime: String },
}

#[derive(Debug)]
pub struct FormDataEntry {
    pub key: String,
    pub value: FormDataValue,
}

/// The body of a request.
#[derive(Debug)]
pub enum BodyDef {
    Text(String),
    URLEncoded(Vec<KeyValuePair>),
    FormData(Vec<FormDataEntry>),
}

/// The certificate with which the agent identifies itself to a server.
#[derive(Debug)]
pub enum ClientCertDef {
    PEMCert { certificate_pem: Vec<u8>, key_pem: Vec<u8> },
    PFXCert { certificate_pfx: Vec<u8>, password: String },
}

/// A request as a client describes it. Parameters and headers keep their
/// order, and a key may occur more than once.
#[derive(Debug)]
pub struct RequestDef {
    pub req_id: usize,
    pub method: String,
    pub endpoint: String,
    pub parameters: Vec<KeyValuePair>,
    pub headers: Vec<KeyValuePair>,
    pub body: Option<BodyDef>,
    pub validate_certs: bool,
    pub root_cert_bundle_files: Vec<Vec<u8>>,
    pub client_cert: Option<ClientCertDef>,
}

/// The answer to a request that ran, with the instants at which it started
/// and ended in milliseconds.
#[derive(Debug)]
pub struct RunRequestResponse {
    pub status: u16,
    pub status_text: String,
    pub headers: Vec<KeyValuePair>,
    pub data: Vec<u8>,
    pub time_start_ms: u128,
    pub time_end_ms: u128,
}

/// Why a request did not run to its end.
#[derive(Debug)]
pub enum RunRequestError {
    InternalError,
    Unauthorized,
    RequestCancelled,
    ClientCertError,
    RootCertError,
    InvalidMethod,
    InvalidUrl,
    InvalidHeaders,
    RequestRunError(String),
}

} // verus!
