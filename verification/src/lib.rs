//! Escrow and matching rules of an inference marketplace.
//!
//! Providers publish the models they serve, requesters put funds in custody
//! against a request, one provider locks the request, and the custody is paid
//! out to that provider with the remainder going back to the requester.
//! Every rule is stated as a contract and proved.

pub mod account;
pub mod clock;
pub mod context;
pub mod error;
pub mod escrow;
pub mod identity;
pub mod laws;
pub mod market;
pub mod model;
pub mod registry;
pub mod space;

pub use account::{transfer, Account, InferenceRequestAccount, ModelListing, ServerAccount, Wallet};
pub use context::{
    AddServerCtx, CancelRequestCtx, ClaimPaymentCtx, CloseServerCtx, LockRequestCtx,
    RequestInferenceCtx,
};
pub use error::ChainferenceError;
pub use escrow::{cancel_request, claim_payment, lock_request, request_inference};
pub use identity::Pubkey;
pub use model::{RequestState, MAX_ENDPOINT_LEN, MAX_LISTINGS};
pub use registry::{add_server, add_server_at, close_server, AddServerError};
pub use space::{endpoint_fits, request_account_space, server_account_space};
