//! Orchestration layer for a passport collection whose tokens travel over an
//! interchain transfer protocol.
//!
//! The library is a verified state machine. The host hands it plain values
//! (addresses, query answers, reply payloads) and gets back the registry
//! changes to keep and the requests to dispatch. A token's display state is
//! not stored here: it lives in the token's own metadata and is read back on
//! each callback.
pub mod bootstrap;
pub mod callback;
pub mod error;
pub mod laws;
pub mod metadata;
pub mod mint;
pub mod registry;
pub mod transfer;

pub use bootstrap::{
    instantiate, reply, Bootstrap, Notify, PendingOp, ReplyAction, SubMsgOutcome,
    INSTANTIATE_CW721_REPLY_ID, INSTANTIATE_ICS721_REPLY_ID, INSTANTIATE_POAP_REPLY_ID,
    MINT_NFT_REPLY_ID,
};
pub use callback::{
    authorize_callback, create_update_nft_info_msg, execute_ack_callback,
    execute_receive_callback, AckOutcome, AckStatus, NftInfo, ReceiveOutcome, UpdateRequest,
};
pub use error::{ContractError, RegistryField};
pub use metadata::{find_trait_value, state_traits, Trait};
pub use mint::{create_mint_msg, execute_mint, MintRequest};
pub use registry::{MigrateMsg, QueryMsg, Registry};
pub use transfer::{create_memo, execute_receive_nft, CallbackMsg, Callbacks, SendRequest};
