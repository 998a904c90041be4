//! Client core for an exchange's authenticated REST API: nonce issuing,
//! canonical payload encoding, HMAC signing, request assembly, response
//! decoding and the run-loop state machine.

pub mod amount;
pub mod bot;
pub mod codec;
pub mod market;
pub mod nonce;
pub mod orders;
pub mod request;
pub mod response;
pub mod run_loop;
pub mod signer;
pub mod text;

pub use bot::GridTradeBot;
pub use nonce::get_timestamp;
