use vstd::prelude::*;
use crate::json::{decode_object, members_view, object_members, opt_view};

verus! {

/// The ways a call to the remote service can fail.
#[derive(Debug, Clone, Copy, PartialEq, Eq, Structural)]
pub enum ApiError {
    /// The request could not be sent or its reply could not be read.
    Transport,
    /// The reply carried a status outside 200..=299.
    HttpStatus(u16),
    /// The reply's body did not have the expected shape.
    Deserialization,
    /// No bearer token could be obtained.
    Auth,
    /// The security credential could not be derived.
    Crypto,
}

/// Whether an HTTP status signals success.
pub open spec fn is_success_status(status: u16) -> bool {
    200 <= status && status <= 299
}

/// The value of the first member with key `k`: `Some(None)` where that
/// member holds no string.
pub open spec fn lookup(m: Seq<(Seq<char>, Option<Seq<char>>)>, k: Seq<char>) -> Option<
    Option<Seq<char>>,
>
    decreases m.len(),
{
    if m.len() == 0 {
        None
    } else {
        match lookup(m.drop_last(), k) {
            Some(v) => Some(v),
            None => if m.last().0 == k {
                Some(m.last().1)
            } else {
                None
            },
        }
    }
}

/// The string of the member with key `k`, where there is one and it holds
/// a string.
pub open spec fn string_field(m: Seq<(Seq<char>, Option<Seq<char>>)>, k: Seq<char>) -> Option<
    Seq<char>,
> {
    match lookup(m, k) {
        Some(Some(s)) => Some(s),
        _ => None,
    }
}

/// Whether the member with key `k` is absent or holds a string.
pub open spec fn field_readable(m: Seq<(Seq<char>, Option<Seq<char>>)>, k: Seq<char>) -> bool {
    lookup(m, k) != Some(None::<Seq<char>>)
}

/// The view of a found member.
pub open spec fn found_view(o: Option<Option<String>>) -> Option<Option<Seq<char>>> {
    match o {
        Some(v) => Some(opt_view(v)),
        None => None,
    }
}

/// Finds the value of the first member with key `key`.
pub fn find_member(members: &Vec<(String, Option<String>)>, key: &str) -> (r: Option<
    Option<String>,
>)
    ensures
        found_view(r) == lookup(members_view(members@), key@),
{
    let ghost m = members_view(members@);
    let k = String::from_str(key);
    let mut found: Option<Option<String>> = None;
    let mut i: usize = 0;
    proof {
        assert(m.subrange(0, 0).len() == 0);
    }
    while i < members.len()
        invariant
            0 <= i <= members.len(),
            m == members_view(members@),
            k@ == key@,
            found_view(found) == lookup(m.subrange(0, i as int), key@),
        decreases members.len() - i,
    {
        proof {
            assert(m.subrange(0, i + 1).drop_last() =~= m.subrange(0, i as int));
        }
        if found.is_none() && members[i].0 == k {
            found = match &members[i].1 {
                Some(v) => Some(Some(v.clone())),
                None => Some(None),
            };
        }
        i += 1;
    }
    proof {
        assert(m.subrange(0, members.len() as int) =~= m);
    }
    found
}

/// Reads the member with key `key` as an optional string: `None` where it
/// is present but holds no string.
fn string_member(members: &Vec<(String, Option<String>)>, key: &str) -> (r: Option<
    Option<String>,
>)
    ensures
        r is None <==> !field_readable(members_view(members@), key@),
        r matches Some(v) ==> opt_view(v) == string_field(members_view(members@), key@),
{
    match find_member(members, key) {
        None => Some(None),
        Some(Some(s)) => Some(Some(s)),
        Some(None) => None,
    }
}

/// The reply to a payment or query request. A response code of "0" means
/// that the remote service accepted the request; any other code, or none,
/// means that it did not.
#[derive(Debug, Clone)]
pub struct OperationResponse {
    pub conversation_id: Option<String>,
    pub originator_conversation_id: Option<String>,
    pub response_code: Option<String>,
    pub response_description: Option<String>,
}


/// The reply to a business-to-customer payment.
pub type B2cResponse = OperationResponse;

/// The reply to a business-to-business payment.
pub type B2bResponse = OperationResponse;

/// The reply to a URL registration.
pub type C2bRegisterResponse = OperationResponse;

/// The reply to a simulated customer-to-business payment.
pub type C2bSimulateResponse = OperationResponse;

/// The reply to a balance query.
pub type AccountBalanceResponse = OperationResponse;

/// Whether every member that a response reads is absent or a string.
pub open spec fn response_readable(m: Seq<(Seq<char>, Option<Seq<char>>)>) -> bool {
    &&& field_readable(m, "ConversationID"@)
    &&& field_readable(m, "OriginatorConversationID"@)
    &&& field_readable(m, "ResponseCode"@)
    &&& field_readable(m, "ResponseDescription"@)
}

/// The response that the members `m` describe.
pub open spec fn response_matches(
    r: OperationResponse,
    m: Seq<(Seq<char>, Option<Seq<char>>)>,
) -> bool {
    &&& opt_view(r.conversation_id) == string_field(m, "ConversationID"@)
    &&& opt_view(r.originator_conversation_id) == string_field(m, "OriginatorConversationID"@)
    &&& opt_view(r.response_code) == string_field(m, "ResponseCode"@)
    &&& opt_view(r.response_description) == string_field(m, "ResponseDescription"@)
}

impl OperationResponse {
    /// Reads a response from the members of a reply; `None` where a member
    /// it reads holds something other than a string.
    pub fn from_members(members: &Vec<(String, Option<String>)>) -> (r: Option<OperationResponse>)
        ensures
            r is Some <==> response_readable(members_view(members@)),
            r matches Some(resp) ==> response_matches(resp, members_view(members@)),
    {
        let conversation_id = match string_member(members, "ConversationID") {
            Some(v) => v,
            None => return None,
        };
        let originator_conversation_id = match string_member(members, "OriginatorConversationID") {
            Some(v) => v,
            None => return None,
        };
        let response_code = match string_member(members, "ResponseCode") {
            Some(v) => v,
            None => return None,
        };
        let response_description = match string_member(members, "ResponseDescription") {
            Some(v) => v,
            None => return None,
        };
        Some(
            OperationResponse {
                conversation_id,
                originator_conversation_id,
                response_code,
                response_description,
            },
        )
    }

    /// Whether the remote service accepted the request.
    pub fn is_accepted(&self) -> (r: bool)
        ensures
            r == (opt_view(self.response_code) == Some("0"@)),
    {
        match &self.response_code {
            Some(c) => {
                let zero = String::from_str("0");
                *c == zero
            },
            None => false,
        }
    }
}


/// Reads the reply to a payment or query request. A status outside the
/// success range is an error; so is a body that is not a JSON object, or one
/// whose response members hold something other than strings. A rejection by
/// the remote service is a response.
pub fn parse_operation_reply(status: u16, body: &str) -> (r: Result<OperationResponse, ApiError>)
    ensures
        !is_success_status(status) ==> r == Err::<OperationResponse, ApiError>(
            ApiError::HttpStatus(status),
        ),
        is_success_status(status) && object_members(body@) is None ==> r == Err::<
            OperationResponse,
            ApiError,
        >(ApiError::Deserialization),
        is_success_status(status) && object_members(body@) is Some && !response_readable(
            object_members(body@)->0,
        ) ==> r == Err::<OperationResponse, ApiError>(ApiError::Deserialization),
        is_success_status(status) && object_members(body@) is Some && response_readable(
            object_members(body@)->0,
        ) ==> (r matches Ok(resp) && response_matches(resp, object_members(body@)->0)),
{
    if status < 200 || status > 299 {
        return Err(ApiError::HttpStatus(status));
    }
    match decode_object(body) {
        None => Err(ApiError::Deserialization),
        Some(members) => match OperationResponse::from_members(&members) {
            Some(resp) => Ok(resp),
            None => Err(ApiError::Deserialization),
        },
    }
}

/// The token that a reply of the token endpoint carries, if any.
pub open spec fn token_of_reply(status: u16, body: Seq<char>) -> Option<Seq<char>> {
    if !is_success_status(status) {
        None
    } else {
        match object_members(body) {
            None => None,
            Some(m) => string_field(m, "access_token"@),
        }
    }
}

/// Reads the bearer token from a reply of the token endpoint. Any failure
/// (a status outside the success range, a body that is not a JSON object, a
/// token that is missing or not a string) is an authentication error.
pub fn parse_token_reply(status: u16, body: &str) -> (r: Result<String, ApiError>)
    ensures
        match token_of_reply(status, body@) {
            Some(t) => r matches Ok(s) && s@ == t,
            None => r == Err::<String, ApiError>(ApiError::Auth),
        },
{
    if status < 200 || status > 299 {
        return Err(ApiError::Auth);
    }
    match decode_object(body) {
        None => Err(ApiError::Auth),
        Some(members) => match find_member(&members, "access_token") {
            Some(Some(t)) => Ok(t),
            _ => Err(ApiError::Auth),
        },
    }
}

} // verus!
