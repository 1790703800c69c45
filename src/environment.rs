use vstd::prelude::*;

verus! {

/// The deployment target of the remote service.
#[derive(Debug, Clone, Copy, PartialEq, Eq, Structural)]
pub enum Environment {
    Sandbox,
    Production,
}

/// The base URL pinned to each environment.
pub open spec fn base_url_of(e: Environment) -> Seq<char> {
    match e {
        Environment::Sandbox => "https://sandbox.safaricom.co.ke"@,
        Environment::Production => "https://api.safaricom.co.ke"@,
    }
}

/// The file holding the public certificate pinned to each environment.
pub open spec fn certificate_file_of(e: Environment) -> Seq<char> {
    match e {
        Environment::Sandbox => "certificates/sandbox.cer"@,
        Environment::Production => "certificates/production.cer"@,
    }
}

impl Environment {
    /// The base URL every endpoint of this environment starts with.
    pub fn base_url(&self) -> (r: String)
        ensures
            r@ == base_url_of(*self),
    {
        match self {
            Environment::Sandbox => String::from_str("https://sandbox.safaricom.co.ke"),
            Environment::Production => String::from_str("https://api.safaricom.co.ke"),
        }
    }

    /// The certificate whose public key encrypts the initiator password.
    pub fn certificate_file(&self) -> (r: String)
        ensures
            r@ == certificate_file_of(*self),
    {
        match self {
            Environment::Sandbox => String::from_str("certificates/sandbox.cer"),
            Environment::Production => String::from_str("certificates/production.cer"),
        }
    }
}

} // verus!
