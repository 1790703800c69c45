use mpesa::credential::{derive_security_credential, encode_ciphertext};
use mpesa::response::{parse_operation_reply, parse_token_reply};
use openssl::asn1::Asn1Time;
use openssl::hash::MessageDigest;
use openssl::pkey::{PKey, Private};
use openssl::rsa::{Padding, Rsa};
use openssl::x509::{X509Builder, X509NameBuilder};
use mpesa::{
    AccountBalancePayload, ApiError, B2bPayload, B2cPayload, C2bRegisterPayload,
    C2bSimulatePayload, CommandId, Environment, IdentifierTypes, Mpesa, ResponseType,
};
use mpesa::{AccountBalanceResponse, B2bResponse};

fn client(environment: Environment) -> Mpesa {
    Mpesa::new(
        "key".to_string(),
        "secret".to_string(),
        environment,
        "password".to_string(),
    )
}

fn sample_b2c() -> B2cPayload {
    B2cPayload {
        initiator_name: "testapi496".to_string(),
        security_credential: "cred".to_string(),
        command_id: CommandId::BusinessPayment,
        amount: 1000,
        party_a: "600496".to_string(),
        party_b: "254708374149".to_string(),
        remarks: "gg".to_string(),
        queue_timeout_url: "https://muriuki.dev".to_string(),
        result_url: "https://muriuki.dev/blog".to_string(),
        occasion: "Test".to_string(),
    }
}

#[test]
fn b2c_test() {
    let client = client(Environment::Sandbox);
    let request = client.b2c_request(&sample_b2c());
    assert_eq!(
        request.url,
        "https://sandbox.safaricom.co.ke/mpesa/b2c/v1/paymentrequest"
    );
    let reply = r#"{"ConversationID":"AG_1","OriginatorConversationID":"1-2","ResponseCode":"0","ResponseDescription":"Accept the service request successfully."}"#;
    let b2c_response = parse_operation_reply(200, reply).unwrap();
    assert_eq!(b2c_response.response_code, Some("0".to_string()));
    assert!(b2c_response.is_accepted());
}

#[test]
fn base_urls_and_certificates_per_environment() {
    assert_eq!(Environment::Sandbox.base_url(), "https://sandbox.safaricom.co.ke");
    assert_eq!(Environment::Production.base_url(), "https://api.safaricom.co.ke");
    assert_eq!(Environment::Sandbox.certificate_file(), "certificates/sandbox.cer");
    assert_eq!(Environment::Production.certificate_file(), "certificates/production.cer");
}

#[test]
fn command_and_response_type_names() {
    assert_eq!(CommandId::BusinessPayment.to_string(), "BusinessPayment");
    assert_eq!(CommandId::CustomerPayBillOnline.to_string(), "CustomerPayBillOnline");
    assert_eq!(
        CommandId::BusinessTransferFromMMFToUtility.to_string(),
        "BusinessTransferFromMMFToUtility"
    );
    assert_eq!(ResponseType::Complete.to_string(), "Completed");
    assert_eq!(ResponseType::Cancelled.to_string(), "Cancelled");
    assert_eq!(IdentifierTypes::Msisdn.code(), 1);
    assert_eq!(IdentifierTypes::TillNumber.code(), 2);
    assert_eq!(IdentifierTypes::Shortcode.code(), 4);
}

#[test]
fn b2c_body_uses_the_field_table() {
    assert_eq!(
        sample_b2c().to_json(),
        r#"{"InitiatorName":"testapi496","SecurityCredential":"cred","CommandID":"BusinessPayment","Amount":1000,"PartyA":"600496","PartyB":"254708374149","Remarks":"gg","QueueTimeOutURL":"https://muriuki.dev","ResultURL":"https://muriuki.dev/blog","Occasion":"Test"}"#
    );
}

#[test]
fn b2b_body_uses_the_field_table() {
    let p = B2bPayload {
        initiator_name: "testapi496".to_string(),
        security_credential: "cred".to_string(),
        command_id: CommandId::BusinessToBusinessTransfer,
        amount: 1000,
        party_a: "600496".to_string(),
        sender_id: 4,
        party_b: "600000".to_string(),
        receiver_id: 4,
        remarks: "gg".to_string(),
        queue_timeout_url: "https://muriuki.dev/api/a".to_string(),
        result_url: "https://muriuki.dev/api/b".to_string(),
        account_ref: "254708374149".to_string(),
    };
    assert_eq!(
        p.to_json(),
        r#"{"Initiator":"testapi496","SecurityCredential":"cred","CommandID":"BusinessToBusinessTransfer","SenderIdentifierType":4,"RecieverIdentifierType":4,"Amount":1000,"PartyA":"600496","PartyB":"600000","AccountReference":"254708374149","Remarks":"gg","QueueTimeOutURL":"https://muriuki.dev/api/a","ResultURL":"https://muriuki.dev/api/b"}"#
    );
    let r = client(Environment::Production).b2b_request(&p);
    assert_eq!(r.url, "https://api.safaricom.co.ke/mpesa/b2b/v1/paymentrequest");
}

#[test]
fn c2b_register_body_uses_the_field_table() {
    let p = C2bRegisterPayload {
        validation_url: "https://muriuki.dev/api".to_string(),
        confirmation_url: "https://muriuki.dev/verify".to_string(),
        response_type: ResponseType::Complete,
        short_code: "600496".to_string(),
    };
    assert_eq!(
        p.to_json(),
        r#"{"ValidationURL":"https://muriuki.dev/api","ConfirmationURL":"https://muriuki.dev/verify","ResponseType":"Completed","ShortCode":"600496"}"#
    );
    let r = client(Environment::Sandbox).c2b_register_request(&p);
    assert_eq!(r.url, "https://sandbox.safaricom.co.ke/mpesa/c2b/v1/registerurl");
}

#[test]
fn c2b_simulate_body_uses_the_field_table() {
    let p = C2bSimulatePayload {
        command_id: CommandId::CustomerPayBillOnline,
        amount: 1,
        msisdn: "254705583540".to_string(),
        bill_ref_number: "123abc".to_string(),
        short_code: "600496".to_string(),
    };
    assert_eq!(
        p.to_json(),
        r#"{"CommandID":"CustomerPayBillOnline","Amount":1,"Msisdn":"254705583540","BillRefNumber":"123abc","ShortCode":"600496"}"#
    );
    let r = client(Environment::Sandbox).c2b_simulate_request(&p);
    assert_eq!(r.url, "https://sandbox.safaricom.co.ke/mpesa/c2b/v1/simulate");
}

#[test]
fn account_balance_body_uses_the_field_table() {
    let p = AccountBalancePayload::new(
        "600496".to_string(),
        "none".to_string(),
        "collins".to_string(),
        "cred".to_string(),
        "https://hell.world/api".to_string(),
        "https://hello.world/api".to_string(),
    );
    assert_eq!(p.command_id, CommandId::AccountBalance);
    assert_eq!(p.identifier_type, IdentifierTypes::Shortcode);
    assert_eq!(
        p.to_json(),
        r#"{"CommandID":"AccountBalance","PartyA":"600496","IdentifierType":"4","Remarks":"none","Initiator":"collins","SecurityCredential":"cred","QueueTimeOutURL":"https://hell.world/api","ResultURL":"https://hello.world/api"}"#
    );
    let r = client(Environment::Production).account_balance_request(&p);
    assert_eq!(r.url, "https://api.safaricom.co.ke/mpesa/accountbalance/v1/query");
}

#[test]
fn field_values_are_escaped() {
    let mut p = sample_b2c();
    p.remarks = "say \"hi\"\n".to_string();
    p.amount = u32::MAX;
    let body = p.to_json();
    assert!(body.contains(r#""Remarks":"say \"hi\"\n""#));
    assert!(body.contains(r#""Amount":4294967295,"#));
}

#[test]
fn control_characters_use_short_or_unicode_escapes() {
    let mut p = sample_b2c();
    p.occasion = "a\\b\t\u{1}\u{1f}\u{8}\u{c}\r/é".to_string();
    assert!(p.to_json().ends_with(r#""Occasion":"a\\b\t\u0001\u001f\b\f\r/é"}"#));
}

#[test]
fn zero_amount_is_written_as_zero() {
    let mut p = sample_b2c();
    p.amount = 0;
    assert!(p.to_json().contains(r#""Amount":0,"#));
}

#[test]
fn environment_changes_only_the_base_url() {
    let p = sample_b2c();
    let sandbox = client(Environment::Sandbox).b2c_request(&p);
    let production = client(Environment::Production).b2c_request(&p);
    assert_eq!(sandbox.body, production.body);
    assert_eq!(
        sandbox.url.strip_prefix("https://sandbox.safaricom.co.ke"),
        production.url.strip_prefix("https://api.safaricom.co.ke")
    );
    assert_ne!(sandbox.url, production.url);
}

#[test]
fn bodies_keep_their_keys_across_payloads() {
    let mut other = sample_b2c();
    other.initiator_name = "someone".to_string();
    other.command_id = CommandId::SalaryPayment;
    let keys = |body: &str| -> Vec<String> {
        let v: serde_json::Value = serde_json::from_str(body).unwrap();
        v.as_object().unwrap().keys().cloned().collect()
    };
    assert_eq!(keys(&sample_b2c().to_json()), keys(&other.to_json()));
    assert_eq!(keys(&other.to_json()).len(), 10);
}

#[test]
fn token_is_read_from_reply() {
    assert_eq!(
        parse_token_reply(200, r#"{"access_token":"abc"}"#),
        Ok("abc".to_string())
    );
    assert_eq!(
        parse_token_reply(200, r#"{"access_token":"abc","expires_in":"3599"}"#),
        Ok("abc".to_string())
    );
}

#[test]
fn token_is_read_beside_members_of_other_kinds() {
    assert_eq!(
        parse_token_reply(200, r#"{"access_token":"abc","expires_in":3599}"#),
        Ok("abc".to_string())
    );
}

#[test]
fn token_failures_are_auth_errors() {
    assert_eq!(parse_token_reply(200, r#"{"access_token":42}"#), Err(ApiError::Auth));
    assert_eq!(parse_token_reply(401, r#"{"access_token":"abc"}"#), Err(ApiError::Auth));
    assert_eq!(parse_token_reply(200, "not json"), Err(ApiError::Auth));
    assert_eq!(parse_token_reply(200, r#"{"expires_in":"3599"}"#), Err(ApiError::Auth));
}

#[test]
fn rejected_code_is_a_parsed_response() {
    let r = parse_operation_reply(200, r#"{"ResponseCode":"1"}"#).unwrap();
    assert_eq!(r.response_code, Some("1".to_string()));
    assert_eq!(r.conversation_id, None);
    assert!(!r.is_accepted());
}

#[test]
fn unread_members_may_hold_any_value() {
    let r = parse_operation_reply(200, r#"{"ResponseCode":"0","extra":[1,{"a":null}],"n":3}"#)
        .unwrap();
    assert_eq!(r.response_code, Some("0".to_string()));
}

#[test]
fn read_member_that_is_not_a_string_is_a_deserialization_error() {
    assert!(matches!(
        parse_operation_reply(200, r#"{"ResponseCode":0}"#),
        Err(ApiError::Deserialization)
    ));
}

#[test]
fn full_reply_fills_every_field() {
    let reply = r#"{"ConversationID":"AG_1","OriginatorConversationID":"1-2","ResponseCode":"0","ResponseDescription":"ok"}"#;
    let r = parse_operation_reply(200, reply).unwrap();
    assert_eq!(r.conversation_id, Some("AG_1".to_string()));
    assert_eq!(r.originator_conversation_id, Some("1-2".to_string()));
    assert_eq!(r.response_description, Some("ok".to_string()));
}

#[test]
fn malformed_reply_is_a_deserialization_error() {
    assert!(matches!(
        parse_operation_reply(200, "{\"ResponseCode\":"),
        Err(ApiError::Deserialization)
    ));
    assert!(matches!(
        parse_operation_reply(200, "[1, 2]"),
        Err(ApiError::Deserialization)
    ));
    assert!(matches!(parse_operation_reply(200, ""), Err(ApiError::Deserialization)));
}

#[test]
fn failing_status_is_an_http_error() {
    assert!(matches!(
        parse_operation_reply(500, r#"{"ResponseCode":"0"}"#),
        Err(ApiError::HttpStatus(500))
    ));
    assert!(matches!(
        parse_operation_reply(404, "nothing"),
        Err(ApiError::HttpStatus(404))
    ));
}

#[test]
fn security_credential_is_base64_of_ciphertext() {
    assert_eq!(encode_ciphertext(b"hello"), "aGVsbG8=");
    assert_eq!(encode_ciphertext(&[0u8, 255, 16]), "AP8Q");
    assert_eq!(encode_ciphertext(&[]), "");
}

fn self_signed() -> (Rsa<Private>, Vec<u8>) {
    let rsa = Rsa::generate(2048).unwrap();
    let key = PKey::from_rsa(rsa.clone()).unwrap();
    let mut name = X509NameBuilder::new().unwrap();
    name.append_entry_by_text("CN", "sandbox").unwrap();
    let name = name.build();
    let mut builder = X509Builder::new().unwrap();
    builder.set_version(2).unwrap();
    builder.set_subject_name(&name).unwrap();
    builder.set_issuer_name(&name).unwrap();
    builder.set_pubkey(&key).unwrap();
    builder.set_not_before(&Asn1Time::days_from_now(0).unwrap()).unwrap();
    builder.set_not_after(&Asn1Time::days_from_now(1).unwrap()).unwrap();
    builder.sign(&key, MessageDigest::sha256()).unwrap();
    (rsa, builder.build().to_pem().unwrap())
}

#[test]
fn security_credential_decrypts_to_the_password() {
    let (rsa, pem) = self_signed();
    let credential = client(Environment::Sandbox).gen_security_credentials(&pem).unwrap();
    let ciphertext = base64::decode(&credential).unwrap();
    assert_eq!(ciphertext.len(), 256);
    let mut plain = vec![0u8; 256];
    let n = rsa.private_decrypt(&ciphertext, &mut plain, Padding::PKCS1).unwrap();
    assert_eq!(&plain[..n], b"password");
}

#[test]
fn credential_from_bad_certificate_is_a_crypto_error() {
    assert_eq!(
        derive_security_credential(b"not a certificate", "password"),
        Err(ApiError::Crypto)
    );
    assert_eq!(
        client(Environment::Production).gen_security_credentials(&[]),
        Err(ApiError::Crypto)
    );
}

#[test]
fn client_keeps_its_identity() {
    let c = client(Environment::Production);
    assert_eq!(c.client_key(), "key");
    assert_eq!(c.client_secret(), "secret");
    assert_eq!(c.initiator_password(), "password");
    assert_eq!(c.environment(), Environment::Production);
    assert_eq!(
        c.token_url(),
        "https://api.safaricom.co.ke/oauth/v1/generate?grant_type=client_credentials"
    );
}

#[test]
fn each_operation_reply_reads_the_same_fields() {
    let body = r#"{"ConversationID":"c","ResponseCode":"0"}"#;
    let b2b: B2bResponse = parse_operation_reply(200, body).unwrap();
    let balance: AccountBalanceResponse = parse_operation_reply(200, body).unwrap();
    assert_eq!(b2b.conversation_id, Some("c".to_string()));
    assert!(balance.is_accepted());
}
