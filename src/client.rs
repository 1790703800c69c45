use vstd::prelude::*;
use crate::environment::{base_url_of, Environment};
use crate::credential::{derive_security_credential, encrypts_under};
use crate::json::{base64_of, object_text};
use crate::response::ApiError;
use crate::payloads::{
    account_balance_fields, b2b_fields, b2c_fields, c2b_register_fields, c2b_simulate_fields,
};
use crate::payloads::{
    AccountBalancePayload, B2bPayload, B2cPayload, C2bRegisterPayload, C2bSimulatePayload,
};

verus! {

/// A request ready to be sent: where to, and its JSON body.
#[derive(Debug, Clone)]
pub struct HttpRequest {
    pub url: String,
    pub body: String,
}

/// The path of the token endpoint, query included.
pub open spec fn token_path() -> Seq<char> {
    "/oauth/v1/generate?grant_type=client_credentials"@
}

/// The path of the business-to-customer endpoint.
pub open spec fn b2c_path() -> Seq<char> {
    "/mpesa/b2c/v1/paymentrequest"@
}

/// The path of the business-to-business endpoint.
pub open spec fn b2b_path() -> Seq<char> {
    "/mpesa/b2b/v1/paymentrequest"@
}

/// The path of the URL registration endpoint.
pub open spec fn c2b_register_path() -> Seq<char> {
    "/mpesa/c2b/v1/registerurl"@
}

/// The path of the payment simulation endpoint.
pub open spec fn c2b_simulate_path() -> Seq<char> {
    "/mpesa/c2b/v1/simulate"@
}

/// The path of the balance query endpoint.
pub open spec fn account_balance_path() -> Seq<char> {
    "/mpesa/accountbalance/v1/query"@
}

/// Whether `r` is sent to `path` of environment `e` with the JSON object of
/// members `fields` as its body.
pub open spec fn request_is(
    r: HttpRequest,
    e: Environment,
    path: Seq<char>,
    fields: Seq<(Seq<char>, Seq<char>)>,
) -> bool {
    &&& r.url@ == base_url_of(e) + path
    &&& r.body@ == object_text(fields)
}

/// A client of the remote service: its credentials and the environment it
/// talks to, fixed for its lifetime.
#[derive(Debug)]
pub struct Mpesa {
    client_key: String,
    client_secret: String,
    environment: Environment,
    initiator_password: String,
}

impl Mpesa {
    /// The key half of the client's credentials.
    pub closed spec fn key(&self) -> Seq<char> {
        self.client_key@
    }

    /// The secret half of the client's credentials.
    pub closed spec fn secret(&self) -> Seq<char> {
        self.client_secret@
    }

    /// The environment the client talks to.
    pub closed spec fn env(&self) -> Environment {
        self.environment
    }

    /// The initiator's plain password.
    pub closed spec fn password(&self) -> Seq<char> {
        self.initiator_password@
    }

    /// Constructs a new `Mpesa` instance.
    pub fn new(
        client_key: String,
        client_secret: String,
        environment: Environment,
        initiator_password: String,
    ) -> (r: Self)
        ensures
            r.key() == client_key@,
            r.secret() == client_secret@,
            r.env() == environment,
            r.password() == initiator_password@,
    {
        Self { client_key, client_secret, environment, initiator_password }
    }

    /// The URL of `path` in the client's environment.
    fn endpoint(&self, path: &str) -> (r: String)
        ensures
            r@ == base_url_of(self.env()) + path@,
    {
        let mut url = self.environment.base_url();
        url.append(path);
        url
    }

    /// The URL from which a bearer token is requested, with basic
    /// authentication by the client's key and secret.
    pub fn token_url(&self) -> (r: String)
        ensures
            r@ == base_url_of(self.env()) + token_path(),
    {
        self.endpoint("/oauth/v1/generate?grant_type=client_credentials")
    }

    /// The request for a business-to-customer payment.
    pub fn b2c_request(&self, payload: &B2cPayload) -> (r: HttpRequest)
        ensures
            request_is(r, self.env(), b2c_path(), b2c_fields(*payload)),
    {
        HttpRequest { url: self.endpoint("/mpesa/b2c/v1/paymentrequest"), body: payload.to_json() }
    }

    /// The request for a business-to-business payment.
    pub fn b2b_request(&self, payload: &B2bPayload) -> (r: HttpRequest)
        ensures
            request_is(r, self.env(), b2b_path(), b2b_fields(*payload)),
    {
        HttpRequest { url: self.endpoint("/mpesa/b2b/v1/paymentrequest"), body: payload.to_json() }
    }

    /// The request that registers a short code's validation and
    /// confirmation URLs.
    pub fn c2b_register_request(&self, payload: &C2bRegisterPayload) -> (r: HttpRequest)
        ensures
            request_is(r, self.env(), c2b_register_path(), c2b_register_fields(*payload)),
    {
        HttpRequest { url: self.endpoint("/mpesa/c2b/v1/registerurl"), body: payload.to_json() }
    }

    /// The request for a simulated customer-to-business payment.
    pub fn c2b_simulate_request(&self, payload: &C2bSimulatePayload) -> (r: HttpRequest)
        ensures
            request_is(r, self.env(), c2b_simulate_path(), c2b_simulate_fields(*payload)),
    {
        HttpRequest { url: self.endpoint("/mpesa/c2b/v1/simulate"), body: payload.to_json() }
    }

    /// The request for the balance of a short code.
    pub fn account_balance_request(&self, payload: &AccountBalancePayload) -> (r: HttpRequest)
        ensures
            request_is(r, self.env(), account_balance_path(), account_balance_fields(*payload)),
    {
        HttpRequest {
            url: self.endpoint("/mpesa/accountbalance/v1/query"),
            body: payload.to_json(),
        }
    }

    /// The initiator's password as UTF-8 bytes.
    pub closed spec fn password_bytes(&self) -> Seq<u8> {
        vstd::utf8::encode_utf8(self.initiator_password@)
    }

    /// The security credential of privileged requests: the initiator
    /// password, as UTF-8 bytes, encrypted under the RSA public key of the
    /// PEM certificate `certificate_pem`, which belongs to the client's
    /// environment, and encoded in base64.
    pub fn gen_security_credentials(&self, certificate_pem: &[u8]) -> (r: Result<
        String,
        ApiError,
    >)
        ensures
            self.password_bytes().len() > i32::MAX ==> r == Err::<String, ApiError>(
                ApiError::Crypto,
            ),
            certificate_pem@.len() > i32::MAX ==> r == Err::<String, ApiError>(ApiError::Crypto),
            match r {
                Ok(s) => exists|c: Seq<u8>|
                    s@ == base64_of(c) && encrypts_under(certificate_pem@, self.password_bytes(), c),
                Err(e) => e == ApiError::Crypto,
            },
    {
        derive_security_credential(certificate_pem, self.initiator_password.as_str())
    }

    /// The environment the client talks to.
    pub fn environment(&self) -> (r: Environment)
        ensures
            r == self.env(),
    {
        self.environment
    }

    /// The key half of the client's credentials.
    pub fn client_key(&self) -> (r: &str)
        ensures
            r@ == self.key(),
    {
        self.client_key.as_str()
    }

    /// The secret half of the client's credentials.
    pub fn client_secret(&self) -> (r: &str)
        ensures
            r@ == self.secret(),
    {
        self.client_secret.as_str()
    }

    /// The initiator's plain password, which the security credential
    /// encrypts.
    pub fn initiator_password(&self) -> (r: &str)
        ensures
            r@ == self.password(),
    {
        self.initiator_password.as_str()
    }
}

} // verus!
