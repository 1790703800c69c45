pub mod client;
pub mod codes;
pub mod credential;
pub mod environment;
pub mod json;
pub mod laws;
pub mod payloads;
pub mod response;

pub use client::{HttpRequest, Mpesa};
pub use codes::{CommandId, IdentifierTypes, ResponseType};
pub use environment::Environment;
pub use payloads::{
    AccountBalancePayload, B2bPayload, B2cPayload, C2bRegisterPayload, C2bSimulatePayload,
};
pub use response::{
    AccountBalanceResponse, ApiError, B2bResponse, B2cResponse, C2bRegisterResponse,
    C2bSimulateResponse, OperationResponse,
};
