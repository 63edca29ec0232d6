//! The rules of the marketplace in mathematical form.
//!
//! Records are described by their views, balances by natural numbers. Each
//! operation has one function here that says, for every input, whether the
//! operation is accepted and what it leaves behind. The executable operations
//! are specified by these functions.

use vstd::prelude::*;
use vstd::utf8::encode_utf8;
use crate::error::ChainferenceError;
use crate::identity::Pubkey;

verus! {

/// The largest number of listings that one registry may hold.
pub const MAX_LISTINGS: usize = 256;

/// The largest length, in bytes, of the place to send results to.
pub const MAX_ENDPOINT_LEN: usize = 128;

/// The length of `text` in bytes.
pub open spec fn byte_len(text: Seq<char>) -> nat {
    encode_utf8(text).len()
}

/// A served model and its price per million output tokens.
pub struct ListingView {
    pub id: Seq<char>,
    pub price: u64,
}

/// What a provider's registry holds.
pub struct ServerView {
    pub owner: Pubkey,
    pub models: Seq<ListingView>,
    pub last_heartbeat: i64,
}

/// What the record of an inference request holds.
pub struct RequestView {
    pub requester: Pubkey,
    pub model: Seq<char>,
    pub max_cost: u64,
    pub locked_by: Option<Pubkey>,
    pub send_prompt_to: Seq<char>,
}

impl ServerView {
    /// A registry holds no more than `MAX_LISTINGS` listings.
    pub open spec fn wf(self) -> bool {
        self.models.len() <= MAX_LISTINGS
    }
}

impl RequestView {
    /// A request names a model, and the place to send results to is no
    /// longer than `MAX_ENDPOINT_LEN` bytes.
    pub open spec fn wf(self) -> bool {
        self.model.len() > 0 && byte_len(self.send_prompt_to) <= MAX_ENDPOINT_LEN
    }
}

/// Where a request stands in its life. A request that was settled or
/// cancelled has no record left: it is `Closed`.
#[derive(Clone, Copy, Debug, PartialEq, Eq, Structural)]
pub enum RequestState {
    Open,
    Locked,
    Closed,
}

/// The state of the request whose record is `request`.
pub open spec fn request_state(request: Option<RequestView>) -> RequestState {
    match request {
        None => RequestState::Closed,
        Some(r) => if r.locked_by is None {
            RequestState::Open
        } else {
            RequestState::Locked
        },
    }
}

/// What a payment of `amount` to the identity `to` adds to the wallet of
/// `key`: all of it where `to` holds the wallet, nothing otherwise.
pub open spec fn payment_share(key: Pubkey, to: Pubkey, amount: int) -> int {
    if key == to {
        amount
    } else {
        0
    }
}

/// What the release of `amount` out of a custody of `custody` adds to the
/// wallet of `key`: `amount` is paid to `caller`, the rest to `refund_to`.
pub open spec fn claim_payout(
    key: Pubkey,
    caller: Pubkey,
    refund_to: Pubkey,
    custody: int,
    amount: int,
) -> int {
    payment_share(key, caller, amount) + payment_share(key, refund_to, custody - amount)
}

/// Whether a custody of `custody` covers what the request may still cost. A
/// request that is gone needs no cover.
pub open spec fn custody_covers(request: Option<RequestView>, custody: nat) -> bool {
    request is Some ==> custody >= request->0.max_cost
}

/// Whether one of `models` is the model `model`.
pub open spec fn lists_model(models: Seq<ListingView>, model: Seq<char>) -> bool {
    exists|i: int| 0 <= i < models.len() && (#[trigger] models[i]).id == model
}

/// Whether a registration of `count` listings by `caller` is accepted: a
/// registry of another owner is left alone, and no registry may hold more
/// than `MAX_LISTINGS` listings.
pub open spec fn add_server_verdict(
    existing: Option<ServerView>,
    caller: Pubkey,
    count: nat,
) -> Result<(), ChainferenceError> {
    if existing is Some && existing->0.owner != caller {
        Err(ChainferenceError::NotOwner)
    } else if count > MAX_LISTINGS {
        Err(ChainferenceError::TooManyListings)
    } else {
        Ok(())
    }
}

/// Registration: where it is accepted, the caller's registry is created, or
/// replaced as a whole, with the time `now` as its last heartbeat.
pub open spec fn add_server_spec(
    existing: Option<ServerView>,
    caller: Pubkey,
    models: Seq<ListingView>,
    now: i64,
) -> Result<ServerView, ChainferenceError> {
    match add_server_verdict(existing, caller, models.len()) {
        Err(e) => Err(e),
        Ok(_) => Ok(ServerView { owner: caller, models: models, last_heartbeat: now }),
    }
}

/// Deregistration: only the owner of a registry may destroy it.
pub open spec fn close_server_spec(existing: Option<ServerView>, caller: Pubkey) -> Result<
    (),
    ChainferenceError,
> {
    if existing is Some && existing->0.owner == caller {
        Ok(())
    } else {
        Err(ChainferenceError::NotOwner)
    }
}

/// Opening a request: the cost ceiling is positive and the requester, who
/// holds `balance`, can cover it. The new record is open.
pub open spec fn request_inference_spec(
    balance: nat,
    caller: Pubkey,
    model: Seq<char>,
    max_cost: u64,
) -> Result<RequestView, ChainferenceError> {
    if max_cost == 0 {
        Err(ChainferenceError::InvalidAmount)
    } else if balance < max_cost {
        Err(ChainferenceError::InsufficientFunds)
    } else {
        Ok(
            RequestView {
                requester: caller,
                model: model,
                max_cost: max_cost,
                locked_by: None,
                send_prompt_to: Seq::empty(),
            },
        )
    }
}

/// Locking: the registry is the caller's own, the request is open, and the
/// registry lists the requested model, tested in this order. A request that
/// is locked or gone is closed to every caller, whatever the caller serves.
/// The lock names the caller and the place where results are to be sent.
pub open spec fn lock_request_spec(
    request: Option<RequestView>,
    server: Option<ServerView>,
    caller: Pubkey,
    send_prompt_to: Seq<char>,
) -> Result<RequestView, ChainferenceError> {
    if server is Some && server->0.owner != caller {
        Err(ChainferenceError::NotOwner)
    } else if request is None || request->0.locked_by is Some {
        Err(ChainferenceError::RequestAlreadyLocked)
    } else if server is None || !lists_model(server->0.models, request->0.model) {
        Err(ChainferenceError::ModelNotProvided)
    } else {
        Ok(
            RequestView {
                locked_by: Some(caller),
                send_prompt_to: send_prompt_to,
                ..request->0
            },
        )
    }
}

/// Release: the caller holds the lock, claims no more than the ceiling, and
/// the custody of `custody` covers the claim. The refund goes to
/// `refund_to`, which must be the requester. When accepted, `amount` goes to
/// the caller, the rest of the custody to the requester, and the record is
/// destroyed.
pub open spec fn claim_payment_spec(
    request: Option<RequestView>,
    custody: nat,
    caller: Pubkey,
    refund_to: Pubkey,
    amount: u64,
) -> Result<(), ChainferenceError> {
    if request is None {
        Err(ChainferenceError::ClaimingNonLockedRequest)
    } else if request->0.requester != refund_to {
        Err(ChainferenceError::NotOwner)
    } else if request->0.locked_by != Some(caller) {
        Err(ChainferenceError::ClaimingNonLockedRequest)
    } else if amount > request->0.max_cost {
        Err(ChainferenceError::ClaimTooLarge)
    } else if custody < amount {
        Err(ChainferenceError::InsufficientFunds)
    } else {
        Ok(())
    }
}

/// Cancellation: only the requester, and only while the request is open.
/// When accepted, the whole custody goes back to the requester and the record
/// is destroyed.
pub open spec fn cancel_request_spec(request: Option<RequestView>, caller: Pubkey) -> Result<
    (),
    ChainferenceError,
> {
    if request is None {
        Err(ChainferenceError::RequestAlreadyLocked)
    } else if request->0.requester != caller {
        Err(ChainferenceError::NotOwner)
    } else if request->0.locked_by is Some {
        Err(ChainferenceError::RequestAlreadyLocked)
    } else {
        Ok(())
    }
}

} // verus!
