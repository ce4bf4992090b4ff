//! Request signing, request assembly and response decoding for the CoinEx
//! trading API.
//!
//! Nothing here touches the network: a signed request is a plain value that
//! a transport sends, and a response is a status code with its bytes.

pub mod text;
pub mod signer;
pub mod error;
pub mod address;
pub mod params;
pub mod json;
pub mod request;
pub mod response;
pub mod records;
pub mod endpoints;

pub use error::Error;
pub use params::Param;
pub use records::{Account, AccountList, SpotBalance, SpotBalanceList, SpotOrder, SpotOrderList};
pub use request::{CoinexHttpClient, Method, SignedRequest};
pub use response::{decode_response, Envelope};
