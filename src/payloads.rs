use vstd::prelude::*;
use crate::codes::{command_name, identifier_code, response_type_name};
use crate::codes::{CommandId, IdentifierTypes, ResponseType};
use crate::json::{
    decimal, encode_object, json_number, json_string, json_text_of, object_text, pairs_view,
};

verus! {

/// The keys of a sequence of members, in order.
pub open spec fn keys_of(f: Seq<(Seq<char>, Seq<char>)>) -> Seq<Seq<char>> {
    f.map_values(|m: (Seq<char>, Seq<char>)| m.0)
}

/// Appends a member whose value is a JSON string.
fn push_text(fields: &mut Vec<(String, String)>, key: &str, value: &str)
    ensures
        pairs_view(final(fields)@) == pairs_view(old(fields)@).push((key@, json_text_of(value@))),
{
    let v = json_string(value);
    fields.push((String::from_str(key), v));
    proof {
        assert(pairs_view(final(fields)@) =~= pairs_view(old(fields)@).push((key@, json_text_of(value@))));
    }
}

/// Appends a member whose value is a JSON number.
fn push_number(fields: &mut Vec<(String, String)>, key: &str, value: u32)
    ensures
        pairs_view(final(fields)@) == pairs_view(old(fields)@).push((key@, decimal(value as nat))),
{
    let v = json_number(value);
    fields.push((String::from_str(key), v));
    proof {
        assert(pairs_view(final(fields)@) =~= pairs_view(old(fields)@).push((key@, decimal(value as nat))));
    }
}

/// A business-to-customer payment request.
#[derive(Debug, Clone)]
pub struct B2cPayload {
    pub initiator_name: String,
    pub security_credential: String,
    pub command_id: CommandId,
    pub amount: u32,
    pub party_a: String,
    pub party_b: String,
    pub remarks: String,
    pub queue_timeout_url: String,
    pub result_url: String,
    pub occasion: String,
}

/// The keys of a business-to-customer request, in the order they are written.
pub open spec fn b2c_keys() -> Seq<Seq<char>> {
    seq![
        "InitiatorName"@,
        "SecurityCredential"@,
        "CommandID"@,
        "Amount"@,
        "PartyA"@,
        "PartyB"@,
        "Remarks"@,
        "QueueTimeOutURL"@,
        "ResultURL"@,
        "Occasion"@,
    ]
}

/// The members of a business-to-customer request.
pub open spec fn b2c_fields(p: B2cPayload) -> Seq<(Seq<char>, Seq<char>)> {
    seq![
        ("InitiatorName"@, json_text_of(p.initiator_name@)),
        ("SecurityCredential"@, json_text_of(p.security_credential@)),
        ("CommandID"@, json_text_of(command_name(p.command_id))),
        ("Amount"@, decimal(p.amount as nat)),
        ("PartyA"@, json_text_of(p.party_a@)),
        ("PartyB"@, json_text_of(p.party_b@)),
        ("Remarks"@, json_text_of(p.remarks@)),
        ("QueueTimeOutURL"@, json_text_of(p.queue_timeout_url@)),
        ("ResultURL"@, json_text_of(p.result_url@)),
        ("Occasion"@, json_text_of(p.occasion@)),
    ]
}

impl B2cPayload {
    /// The JSON body of the request.
    pub fn to_json(&self) -> (r: String)
        ensures
            r@ == object_text(b2c_fields(*self)),
    {
        let mut f: Vec<(String, String)> = Vec::new();
        proof {
            assert(pairs_view(f@) =~= Seq::<(Seq<char>, Seq<char>)>::empty());
        }
        push_text(&mut f, "InitiatorName", self.initiator_name.as_str());
        push_text(&mut f, "SecurityCredential", self.security_credential.as_str());
        let c = self.command_id.to_string();
        push_text(&mut f, "CommandID", c.as_str());
        push_number(&mut f, "Amount", self.amount);
        push_text(&mut f, "PartyA", self.party_a.as_str());
        push_text(&mut f, "PartyB", self.party_b.as_str());
        push_text(&mut f, "Remarks", self.remarks.as_str());
        push_text(&mut f, "QueueTimeOutURL", self.queue_timeout_url.as_str());
        push_text(&mut f, "ResultURL", self.result_url.as_str());
        push_text(&mut f, "Occasion", self.occasion.as_str());
        proof {
            assert(pairs_view(f@) =~= b2c_fields(*self));
        }
        encode_object(&f)
    }
}

/// A business-to-business payment request.
#[derive(Debug, Clone)]
pub struct B2bPayload {
    pub initiator_name: String,
    pub security_credential: String,
    pub command_id: CommandId,
    pub amount: u32,
    pub party_a: String,
    pub sender_id: u32,
    pub party_b: String,
    pub receiver_id: u32,
    pub remarks: String,
    pub queue_timeout_url: String,
    pub result_url: String,
    pub account_ref: String,
}

/// The keys of a business-to-business request, in the order they are
/// written; the receiver's key is spelt as the remote service spells it.
pub open spec fn b2b_keys() -> Seq<Seq<char>> {
    seq![
        "Initiator"@,
        "SecurityCredential"@,
        "CommandID"@,
        "SenderIdentifierType"@,
        "RecieverIdentifierType"@,
        "Amount"@,
        "PartyA"@,
        "PartyB"@,
        "AccountReference"@,
        "Remarks"@,
        "QueueTimeOutURL"@,
        "ResultURL"@,
    ]
}

/// The members of a business-to-business request.
pub open spec fn b2b_fields(p: B2bPayload) -> Seq<(Seq<char>, Seq<char>)> {
    seq![
        ("Initiator"@, json_text_of(p.initiator_name@)),
        ("SecurityCredential"@, json_text_of(p.security_credential@)),
        ("CommandID"@, json_text_of(command_name(p.command_id))),
        ("SenderIdentifierType"@, decimal(p.sender_id as nat)),
        ("RecieverIdentifierType"@, decimal(p.receiver_id as nat)),
        ("Amount"@, decimal(p.amount as nat)),
        ("PartyA"@, json_text_of(p.party_a@)),
        ("PartyB"@, json_text_of(p.party_b@)),
        ("AccountReference"@, json_text_of(p.account_ref@)),
        ("Remarks"@, json_text_of(p.remarks@)),
        ("QueueTimeOutURL"@, json_text_of(p.queue_timeout_url@)),
        ("ResultURL"@, json_text_of(p.result_url@)),
    ]
}

impl B2bPayload {
    /// The JSON body of the request.
    pub fn to_json(&self) -> (r: String)
        ensures
            r@ == object_text(b2b_fields(*self)),
    {
        let mut f: Vec<(String, String)> = Vec::new();
        proof {
            assert(pairs_view(f@) =~= Seq::<(Seq<char>, Seq<char>)>::empty());
        }
        push_text(&mut f, "Initiator", self.initiator_name.as_str());
        push_text(&mut f, "SecurityCredential", self.security_credential.as_str());
        let c = self.command_id.to_string();
        push_text(&mut f, "CommandID", c.as_str());
        push_number(&mut f, "SenderIdentifierType", self.sender_id);
        push_number(&mut f, "RecieverIdentifierType", self.receiver_id);
        push_number(&mut f, "Amount", self.amount);
        push_text(&mut f, "PartyA", self.party_a.as_str());
        push_text(&mut f, "PartyB", self.party_b.as_str());
        push_text(&mut f, "AccountReference", self.account_ref.as_str());
        push_text(&mut f, "Remarks", self.remarks.as_str());
        push_text(&mut f, "QueueTimeOutURL", self.queue_timeout_url.as_str());
        push_text(&mut f, "ResultURL", self.result_url.as_str());
        proof {
            assert(pairs_view(f@) =~= b2b_fields(*self));
        }
        encode_object(&f)
    }
}

/// A request that registers the validation and confirmation URLs of a
/// short code.
#[derive(Debug, Clone)]
pub struct C2bRegisterPayload {
    pub validation_url: String,
    pub confirmation_url: String,
    pub response_type: ResponseType,
    pub short_code: String,
}

/// The keys of a registration request, in the order they are written.
pub open spec fn c2b_register_keys() -> Seq<Seq<char>> {
    seq!["ValidationURL"@, "ConfirmationURL"@, "ResponseType"@, "ShortCode"@]
}

/// The members of a registration request.
pub open spec fn c2b_register_fields(p: C2bRegisterPayload) -> Seq<(Seq<char>, Seq<char>)> {
    seq![
        ("ValidationURL"@, json_text_of(p.validation_url@)),
        ("ConfirmationURL"@, json_text_of(p.confirmation_url@)),
        ("ResponseType"@, json_text_of(response_type_name(p.response_type))),
        ("ShortCode"@, json_text_of(p.short_code@)),
    ]
}

impl C2bRegisterPayload {
    /// The JSON body of the request.
    pub fn to_json(&self) -> (r: String)
        ensures
            r@ == object_text(c2b_register_fields(*self)),
    {
        let mut f: Vec<(String, String)> = Vec::new();
        proof {
            assert(pairs_view(f@) =~= Seq::<(Seq<char>, Seq<char>)>::empty());
        }
        push_text(&mut f, "ValidationURL", self.validation_url.as_str());
        push_text(&mut f, "ConfirmationURL", self.confirmation_url.as_str());
        let t = self.response_type.to_string();
        push_text(&mut f, "ResponseType", t.as_str());
        push_text(&mut f, "ShortCode", self.short_code.as_str());
        proof {
            assert(pairs_view(f@) =~= c2b_register_fields(*self));
        }
        encode_object(&f)
    }
}

/// A simulated customer-to-business payment.
#[derive(Debug, Clone)]
pub struct C2bSimulatePayload {
    pub command_id: CommandId,
    pub amount: u32,
    pub msisdn: String,
    pub bill_ref_number: String,
    pub short_code: String,
}

/// The keys of a simulated payment, in the order they are written.
pub open spec fn c2b_simulate_keys() -> Seq<Seq<char>> {
    seq!["CommandID"@, "Amount"@, "Msisdn"@, "BillRefNumber"@, "ShortCode"@]
}

/// The members of a simulated payment.
pub open spec fn c2b_simulate_fields(p: C2bSimulatePayload) -> Seq<(Seq<char>, Seq<char>)> {
    seq![
        ("CommandID"@, json_text_of(command_name(p.command_id))),
        ("Amount"@, decimal(p.amount as nat)),
        ("Msisdn"@, json_text_of(p.msisdn@)),
        ("BillRefNumber"@, json_text_of(p.bill_ref_number@)),
        ("ShortCode"@, json_text_of(p.short_code@)),
    ]
}

impl C2bSimulatePayload {
    /// The JSON body of the request.
    pub fn to_json(&self) -> (r: String)
        ensures
            r@ == object_text(c2b_simulate_fields(*self)),
    {
        let mut f: Vec<(String, String)> = Vec::new();
        proof {
            assert(pairs_view(f@) =~= Seq::<(Seq<char>, Seq<char>)>::empty());
        }
        let c = self.command_id.to_string();
        push_text(&mut f, "CommandID", c.as_str());
        push_number(&mut f, "Amount", self.amount);
        push_text(&mut f, "Msisdn", self.msisdn.as_str());
        push_text(&mut f, "BillRefNumber", self.bill_ref_number.as_str());
        push_text(&mut f, "ShortCode", self.short_code.as_str());
        proof {
            assert(pairs_view(f@) =~= c2b_simulate_fields(*self));
        }
        encode_object(&f)
    }
}

/// A query for the balance of a short code.
#[derive(Debug, Clone)]
pub struct AccountBalancePayload {
    pub command_id: CommandId,
    pub party_a: String,
    pub identifier_type: IdentifierTypes,
    pub remarks: String,
    pub initiator_name: String,
    pub security_credential: String,
    pub queue_timeout_url: String,
    pub result_url: String,
}

/// The keys of a balance query, in the order they are written.
pub open spec fn account_balance_keys() -> Seq<Seq<char>> {
    seq![
        "CommandID"@,
        "PartyA"@,
        "IdentifierType"@,
        "Remarks"@,
        "Initiator"@,
        "SecurityCredential"@,
        "QueueTimeOutURL"@,
        "ResultURL"@,
    ]
}

/// The members of a balance query; the identifier type is written as a
/// string holding its numeric code.
pub open spec fn account_balance_fields(p: AccountBalancePayload) -> Seq<(Seq<char>, Seq<char>)> {
    seq![
        ("CommandID"@, json_text_of(command_name(p.command_id))),
        ("PartyA"@, json_text_of(p.party_a@)),
        ("IdentifierType"@, json_text_of(decimal(identifier_code(p.identifier_type) as nat))),
        ("Remarks"@, json_text_of(p.remarks@)),
        ("Initiator"@, json_text_of(p.initiator_name@)),
        ("SecurityCredential"@, json_text_of(p.security_credential@)),
        ("QueueTimeOutURL"@, json_text_of(p.queue_timeout_url@)),
        ("ResultURL"@, json_text_of(p.result_url@)),
    ]
}

impl AccountBalancePayload {
    /// A balance query for the short code `party_a`: the command is always
    /// `AccountBalance` and the party is always identified by short code.
    pub fn new(
        party_a: String,
        remarks: String,
        initiator_name: String,
        security_credential: String,
        queue_timeout_url: String,
        result_url: String,
    ) -> (r: AccountBalancePayload)
        ensures
            r.command_id == CommandId::AccountBalance,
            r.identifier_type == IdentifierTypes::Shortcode,
            r.party_a == party_a,
            r.remarks == remarks,
            r.initiator_name == initiator_name,
            r.security_credential == security_credential,
            r.queue_timeout_url == queue_timeout_url,
            r.result_url == result_url,
    {
        AccountBalancePayload {
            command_id: CommandId::AccountBalance,
            party_a,
            identifier_type: IdentifierTypes::Shortcode,
            remarks,
            initiator_name,
            security_credential,
            queue_timeout_url,
            result_url,
        }
    }

    /// The JSON body of the request.
    pub fn to_json(&self) -> (r: String)
        ensures
            r@ == object_text(account_balance_fields(*self)),
    {
        let mut f: Vec<(String, String)> = Vec::new();
        proof {
            assert(pairs_view(f@) =~= Seq::<(Seq<char>, Seq<char>)>::empty());
        }
        let c = self.command_id.to_string();
        push_text(&mut f, "CommandID", c.as_str());
        push_text(&mut f, "PartyA", self.party_a.as_str());
        let code = json_number(self.identifier_type.code());
        push_text(&mut f, "IdentifierType", code.as_str());
        push_text(&mut f, "Remarks", self.remarks.as_str());
        push_text(&mut f, "Initiator", self.initiator_name.as_str());
        push_text(&mut f, "SecurityCredential", self.security_credential.as_str());
        push_text(&mut f, "QueueTimeOutURL", self.queue_timeout_url.as_str());
        push_text(&mut f, "ResultURL", self.result_url.as_str());
        proof {
            assert(pairs_view(f@) =~= account_balance_fields(*self));
        }
        encode_object(&f)
    }
}

} // verus!
