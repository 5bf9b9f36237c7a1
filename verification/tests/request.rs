use hoppscotch_agent::clock::Timestamp;
use hoppscotch_agent::model::{
    AuthKeyResponse, ConfirmedRegistrationRequest, HandshakeResponse, Registration, Registrations,
};
use hoppscotch_agent::request::{
    BodyDef, ClientCertDef, FormDataEntry, FormDataValue, KeyValuePair, RegistrationKey,
    RequestDef, RunRequestError, RunRequestResponse,
};

fn pair(key: &str, value: &str) -> KeyValuePair {
    KeyValuePair { key: key.to_string(), value: value.to_string() }
}

#[test]
fn url_encoded_body_keeps_its_pairs_in_order() {
    let body = BodyDef::URLEncoded(vec![pair("a", "1"), pair("b", "2 x"), pair("a", "3")]);
    match body {
        BodyDef::URLEncoded(pairs) => {
            let read: Vec<(&str, &str)> =
                pairs.iter().map(|p| (p.key.as_str(), p.value.as_str())).collect();
            assert_eq!(read, vec![("a", "1"), ("b", "2 x"), ("a", "3")]);
        }
        other => panic!("another body: {:?}", other),
    }
}

#[test]
fn form_data_file_part_keeps_name_type_and_bytes() {
    let body = BodyDef::FormData(vec![
        FormDataEntry { key: "note".to_string(), value: FormDataValue::Text("hello".to_string()) },
        FormDataEntry {
            key: "upload".to_string(),
            value: FormDataValue::File {
                filename: "a.bin".to_string(),
                data: vec![0, 255, 10, 13, 0],
                mime: "application/octet-stream".to_string(),
            },
        },
    ]);
    match body {
        BodyDef::FormData(entries) => {
            assert_eq!(entries.len(), 2);
            assert_eq!(entries[0].key, "note");
            assert!(matches!(&entries[0].value, FormDataValue::Text(text) if text == "hello"));
            assert_eq!(entries[1].key, "upload");
            match &entries[1].value {
                FormDataValue::File { filename, data, mime } => {
                    assert_eq!(filename, "a.bin");
                    assert_eq!(data, &vec![0u8, 255, 10, 13, 0]);
                    assert_eq!(mime, "application/octet-stream");
                }
                other => panic!("another value: {:?}", other),
            }
        }
        other => panic!("another body: {:?}", other),
    }
}

#[test]
fn request_definition_holds_what_it_was_given() {
    let request = RequestDef {
        req_id: 17,
        method: "GET".to_string(),
        endpoint: "https://example.com/items".to_string(),
        parameters: vec![pair("q", "1"), pair("q", "2")],
        headers: vec![pair("Accept", "*/*")],
        body: Some(BodyDef::Text("plain".to_string())),
        validate_certs: false,
        root_cert_bundle_files: vec![vec![1, 2, 3]],
        client_cert: Some(ClientCertDef::PFXCert {
            certificate_pfx: vec![9, 9],
            password: "pw".to_string(),
        }),
    };
    assert_eq!(request.req_id, 17);
    assert_eq!(request.method, "GET");
    assert_eq!(request.endpoint, "https://example.com/items");
    assert_eq!(request.parameters.len(), 2);
    assert_eq!(request.parameters[0].value, "1");
    assert_eq!(request.parameters[1].value, "2");
    assert_eq!(request.headers[0].key, "Accept");
    assert!(matches!(&request.body, Some(BodyDef::Text(text)) if text == "plain"));
    assert!(!request.validate_certs);
    assert_eq!(request.root_cert_bundle_files, vec![vec![1u8, 2, 3]]);
    assert!(matches!(
        &request.client_cert,
        Some(ClientCertDef::PFXCert { certificate_pfx, password })
            if certificate_pfx == &vec![9u8, 9] && password == "pw"
    ));
    let pem = ClientCertDef::PEMCert { certificate_pem: vec![1], key_pem: vec![2] };
    assert!(matches!(pem, ClientCertDef::PEMCert { .. }));
}

#[test]
fn response_and_errors_hold_what_they_were_given() {
    let response = RunRequestResponse {
        status: 200,
        status_text: "OK".to_string(),
        headers: vec![pair("content-type", "text/plain")],
        data: vec![104, 105],
        time_start_ms: 1_700_000_000_000,
        time_end_ms: 1_700_000_000_250,
    };
    assert_eq!(response.status, 200);
    assert_eq!(response.status_text, "OK");
    assert_eq!(response.data, vec![104u8, 105]);
    assert_eq!(response.time_end_ms - response.time_start_ms, 250);
    let error = RunRequestError::RequestRunError("connection refused".to_string());
    assert!(matches!(&error, RunRequestError::RequestRunError(detail) if detail == "connection refused"));
    assert_eq!(format!("{:?}", RunRequestError::Unauthorized), "Unauthorized");
    assert_eq!(format!("{:?}", RunRequestError::RequestCancelled), "RequestCancelled");
    let key = RegistrationKey { reg_key: "k".to_string() };
    assert_eq!(key.reg_key, "k");
}

#[test]
fn registration_records_hold_what_they_were_given() {
    let registration = Registration {
        registered_at: Timestamp::new(1_700_000_000, 5),
        shared_secret_b16: "00ff".to_string(),
    };
    let copy = registration.clone();
    assert_eq!(copy.registered_at, Timestamp::new(1_700_000_000, 5));
    assert_eq!(copy.shared_secret_b16, "00ff");
    let all = Registrations { registrations: dashmap::DashMap::new() };
    all.registrations.insert("client".to_string(), registration);
    assert_eq!(all.registrations.len(), 1);
    assert_eq!(all.registrations.get("client").unwrap().shared_secret_b16, "00ff");
    let request = ConfirmedRegistrationRequest {
        registration: "482193".to_string(),
        client_public_key_b16: "ab".repeat(32),
    };
    assert_eq!(request.registration, "482193");
    assert_eq!(request.client_public_key_b16.len(), 64);
    let answer = AuthKeyResponse {
        auth_key: "auth".to_string(),
        created_at: Timestamp::new(1, 2),
        agent_public_key_b16: "cd".repeat(32),
    };
    assert_eq!(answer.auth_key, "auth");
    assert_eq!(answer.created_at, Timestamp::new(1, 2));
    assert_eq!(answer.agent_public_key_b16.len(), 64);
    let presence = HandshakeResponse {
        __hoppscotch__agent__: true,
        status: "success".to_string(),
        agent_version: "0.1.0".to_string(),
    };
    assert!(presence.__hoppscotch__agent__);
    assert_eq!(presence.status, "success");
    assert_eq!(presence.agent_version, "0.1.0");
}
