//! Authenticated client core for an exchange's REST trading API: request
//! signing, header assembly, request preparation, query strings for the
//! transfer listings and classification of responses.

pub mod decimal;
pub mod query;
pub mod signing;
pub mod error;
pub mod response;
pub mod client;
pub mod models;

pub use client::{AccessHeaders, Method, PreparedRequest, PrivateClient};
pub use error::{ConfigError, Error, ErrorKind, ErrorMessage, StatusError};
pub use models::AccountHistoryDetails;
pub use query::{BeforeOrAfter, DepositType, WithdrawType};
pub use response::{DecodedBody, classify_response, is_success};
