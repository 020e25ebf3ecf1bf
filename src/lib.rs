//! Typed access to an injected Ethereum wallet provider: chain
//! identification, error classification, response decoding and event
//! payload handling, each stated and proved with Verus.

pub mod chain;
pub mod error;
pub mod events;
pub mod json;
pub mod pipeline;
pub mod quantity;

pub use chain::{decimal_text, identify, to_chain, Chain, Token};
pub use error::{classify, Error, ProviderRPCError};
pub use events::{accounts_changed, chain_changed, connect_chain};
pub use json::{normalize, Json};
pub use pipeline::{
    accounts_outcome, accounts_request, balance_outcome, balance_request, chain_outcome,
    chain_request, decode_accounts, decode_balance, decode_chain, split_units, RequestArguments,
    WEI_PER_UNIT,
};
