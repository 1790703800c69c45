use vstd::prelude::*;

verus! {

/// The sub-type of an operation, as the remote service names it.
#[derive(Debug, Clone, Copy, PartialEq, Eq, Structural)]
pub enum CommandId {
    TransactionReversal,
    SalaryPayment,
    BusinessPayment,
    PromotionPayment,
    AccountBalance,
    CustomerPayBillOnline,
    TransactionStatusQuery,
    CheckIdentity,
    BusinessPayBill,
    BusinessBuyGoods,
    DisburseFundsToBusiness,
    BusinessToBusinessTransfer,
    BusinessTransferFromMMFToUtility,
}

/// The wire name of each command identifier.
pub open spec fn command_name(c: CommandId) -> Seq<char> {
    match c {
        CommandId::TransactionReversal => "TransactionReversal"@,
        CommandId::SalaryPayment => "SalaryPayment"@,
        CommandId::BusinessPayment => "BusinessPayment"@,
        CommandId::PromotionPayment => "PromotionPayment"@,
        CommandId::AccountBalance => "AccountBalance"@,
        CommandId::CustomerPayBillOnline => "CustomerPayBillOnline"@,
        CommandId::TransactionStatusQuery => "TransactionStatusQuery"@,
        CommandId::CheckIdentity => "CheckIdentity"@,
        CommandId::BusinessPayBill => "BusinessPayBill"@,
        CommandId::BusinessBuyGoods => "BusinessBuyGoods"@,
        CommandId::DisburseFundsToBusiness => "DisburseFundsToBusiness"@,
        CommandId::BusinessToBusinessTransfer => "BusinessToBusinessTransfer"@,
        CommandId::BusinessTransferFromMMFToUtility => "BusinessTransferFromMMFToUtility"@,
    }
}

impl CommandId {
    /// The name the remote service expects in a `CommandID` field.
    pub fn to_string(&self) -> (r: String)
        ensures
            r@ == command_name(*self),
    {
        match self {
            CommandId::TransactionReversal => String::from_str("TransactionReversal"),
            CommandId::SalaryPayment => String::from_str("SalaryPayment"),
            CommandId::BusinessPayment => String::from_str("BusinessPayment"),
            CommandId::PromotionPayment => String::from_str("PromotionPayment"),
            CommandId::AccountBalance => String::from_str("AccountBalance"),
            CommandId::CustomerPayBillOnline => String::from_str("CustomerPayBillOnline"),
            CommandId::TransactionStatusQuery => String::from_str("TransactionStatusQuery"),
            CommandId::CheckIdentity => String::from_str("CheckIdentity"),
            CommandId::BusinessPayBill => String::from_str("BusinessPayBill"),
            CommandId::BusinessBuyGoods => String::from_str("BusinessBuyGoods"),
            CommandId::DisburseFundsToBusiness => String::from_str("DisburseFundsToBusiness"),
            CommandId::BusinessToBusinessTransfer => String::from_str(
                "BusinessToBusinessTransfer",
            ),
            CommandId::BusinessTransferFromMMFToUtility => String::from_str(
                "BusinessTransferFromMMFToUtility",
            ),
        }
    }
}

/// How a party of a transaction is identified.
#[derive(Debug, Clone, Copy, PartialEq, Eq, Structural)]
pub enum IdentifierTypes {
    Msisdn,
    TillNumber,
    Shortcode,
}

/// The numeric code of each identifier type.
pub open spec fn identifier_code(t: IdentifierTypes) -> u32 {
    match t {
        IdentifierTypes::Msisdn => 1,
        IdentifierTypes::TillNumber => 2,
        IdentifierTypes::Shortcode => 4,
    }
}

impl IdentifierTypes {
    /// The numeric code the remote service uses for this identifier type.
    pub fn code(&self) -> (r: u32)
        ensures
            r == identifier_code(*self),
    {
        match self {
            IdentifierTypes::Msisdn => 1,
            IdentifierTypes::TillNumber => 2,
            IdentifierTypes::Shortcode => 4,
        }
    }
}

/// What the remote service does with a payment when the validation URL
/// cannot be reached.
#[derive(Debug, Clone, Copy, PartialEq, Eq, Structural)]
pub enum ResponseType {
    Complete,
    Cancelled,
}

/// The wire name of each response type.
pub open spec fn response_type_name(t: ResponseType) -> Seq<char> {
    match t {
        ResponseType::Complete => "Completed"@,
        ResponseType::Cancelled => "Cancelled"@,
    }
}

impl ResponseType {
    /// The name the remote service expects in a `ResponseType` field.
    pub fn to_string(&self) -> (r: String)
        ensures
            r@ == response_type_name(*self),
    {
        match self {
            ResponseType::Complete => String::from_str("Completed"),
            ResponseType::Cancelled => String::from_str("Cancelled"),
        }
    }
}

} // verus!
