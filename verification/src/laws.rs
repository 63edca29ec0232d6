//! What the rules of the single operations imply.

use vstd::prelude::*;
use crate::error::ChainferenceError;
use crate::identity::Pubkey;
use crate::market::{Market, Operation, Party};
use crate::model::{
    add_server_spec,
    cancel_request_spec,
    claim_payment_spec,
    lists_model,
    lock_request_spec,
    request_state,
    ListingView,
    RequestState,
    RequestView,
    ServerView,
    MAX_LISTINGS,
};

verus! {

/// A lock on a locked request is always rejected, whoever tries it. It is
/// rejected with `RequestAlreadyLocked` whether or not the caller has a
/// registry and whatever the registry lists; only a caller that presents the
/// registry of another provider is turned down for that, with `NotOwner`.
pub proof fn law_locked_request_rejects_lock(
    request: RequestView,
    server: Option<ServerView>,
    caller: Pubkey,
    send_prompt_to: Seq<char>,
)
    requires
        request.locked_by is Some,
    ensures
        lock_request_spec(Some(request), server, caller, send_prompt_to) == Err::<RequestView, _>(
            if server is Some && server->0.owner != caller {
                ChainferenceError::NotOwner
            } else {
                ChainferenceError::RequestAlreadyLocked
            },
        ),
{
}

/// After an accepted lock, a second lock is rejected with
/// `RequestAlreadyLocked`, whoever tries it: the provider that holds the
/// lock, another that lists the model, one that does not, or one without a
/// registry. Only a caller that presents the registry of another provider is
/// turned down for that, with `NotOwner`.
pub proof fn law_second_lock_rejected(
    request: Option<RequestView>,
    server: Option<ServerView>,
    caller: Pubkey,
    send_prompt_to: Seq<char>,
    second_server: Option<ServerView>,
    second_caller: Pubkey,
    second_send_prompt_to: Seq<char>,
)
    requires
        lock_request_spec(request, server, caller, send_prompt_to) is Ok,
    ensures
        ({
            let locked = lock_request_spec(request, server, caller, send_prompt_to)->Ok_0;
            let second = lock_request_spec(
                Some(locked),
                second_server,
                second_caller,
                second_send_prompt_to,
            );
            &&& request_state(request) == RequestState::Open
            &&& request_state(Some(locked)) == RequestState::Locked
            &&& locked.locked_by == Some(caller)
            &&& second is Err
            &&& second_server is None || second_server->0.owner == second_caller ==> second
                == Err::<RequestView, _>(ChainferenceError::RequestAlreadyLocked)
        }),
{
}

/// A request that is gone is closed to locks as a locked one is.
pub proof fn law_closed_request_rejects_lock(
    server: Option<ServerView>,
    caller: Pubkey,
    send_prompt_to: Seq<char>,
)
    ensures
        lock_request_spec(None, server, caller, send_prompt_to) == Err::<RequestView, _>(
            if server is Some && server->0.owner != caller {
                ChainferenceError::NotOwner
            } else {
                ChainferenceError::RequestAlreadyLocked
            },
        ),
{
}

/// An accepted lock changes the lock and the place to send results to, and
/// nothing else of the record.
pub proof fn law_lock_keeps_the_request(
    request: Option<RequestView>,
    server: Option<ServerView>,
    caller: Pubkey,
    send_prompt_to: Seq<char>,
)
    requires
        lock_request_spec(request, server, caller, send_prompt_to) is Ok,
    ensures
        ({
            let locked = lock_request_spec(request, server, caller, send_prompt_to)->Ok_0;
            &&& request is Some
            &&& locked.requester == request->0.requester
            &&& locked.model == request->0.model
            &&& locked.max_cost == request->0.max_cost
            &&& locked.send_prompt_to == send_prompt_to
            &&& server is Some
            &&& server->0.owner == caller
            &&& lists_model(server->0.models, locked.model)
        }),
{
}

/// Once a request is locked, cancelling it is rejected, whoever tries it.
pub proof fn law_locked_request_rejects_cancel(request: RequestView, caller: Pubkey)
    requires
        request.locked_by is Some,
    ensures
        cancel_request_spec(Some(request), caller) is Err,
        caller == request.requester ==> cancel_request_spec(Some(request), caller) == Err::<(), _>(
            ChainferenceError::RequestAlreadyLocked,
        ),
{
}

/// A request that was settled or cancelled is gone: a release on it is
/// rejected, whoever tries it and for whatever amount.
pub proof fn law_closed_request_rejects_release(
    custody: nat,
    caller: Pubkey,
    refund_to: Pubkey,
    amount: u64,
)
    ensures
        claim_payment_spec(None, custody, caller, refund_to, amount) == Err::<(), _>(
            ChainferenceError::ClaimingNonLockedRequest,
        ),
{
}

/// A release is accepted from the provider that holds the lock and from
/// nobody else, for an amount up to the cost ceiling and no more.
pub proof fn law_release_needs_the_lock(
    request: RequestView,
    custody: nat,
    caller: Pubkey,
    refund_to: Pubkey,
    amount: u64,
)
    requires
        claim_payment_spec(Some(request), custody, caller, refund_to, amount) is Ok,
    ensures
        request_state(Some(request)) == RequestState::Locked,
        request.locked_by == Some(caller),
        request.requester == refund_to,
        amount <= request.max_cost,
        amount <= custody,
{
}

/// A request whose cost ceiling is spent pays nothing more: a release on it
/// is rejected or is a release of zero.
pub proof fn law_spent_ceiling_pays_nothing(
    request: RequestView,
    custody: nat,
    caller: Pubkey,
    refund_to: Pubkey,
    amount: u64,
)
    requires
        request.max_cost == 0,
    ensures
        claim_payment_spec(Some(request), custody, caller, refund_to, amount) is Err || amount
            == 0,
{
}

/// A registration of a provider without a registry, or with one of its own,
/// is accepted with up to `MAX_LISTINGS` listings and rejected with
/// `TooManyListings` from one listing more.
pub proof fn law_listing_limit(
    existing: Option<ServerView>,
    caller: Pubkey,
    models: Seq<ListingView>,
    now: i64,
)
    requires
        existing is Some ==> existing->0.owner == caller,
    ensures
        models.len() <= MAX_LISTINGS ==> add_server_spec(existing, caller, models, now) == Ok::<
            _,
            ChainferenceError,
        >(ServerView { owner: caller, models: models, last_heartbeat: now }),
        models.len() > MAX_LISTINGS ==> add_server_spec(existing, caller, models, now) == Err::<
            ServerView,
            _,
        >(ChainferenceError::TooManyListings),
        MAX_LISTINGS == 256,
{
}

/// An accepted registration leaves a registry of the caller with the
/// listings as given, within the limit.
pub proof fn law_registry_within_limit(
    existing: Option<ServerView>,
    caller: Pubkey,
    models: Seq<ListingView>,
    now: i64,
)
    requires
        add_server_spec(existing, caller, models, now) is Ok,
    ensures
        ({
            let registry = add_server_spec(existing, caller, models, now)->Ok_0;
            &&& registry.owner == caller
            &&& registry.models == models
            &&& registry.models.len() <= MAX_LISTINGS
            &&& registry.last_heartbeat == now
            &&& existing is Some ==> existing->0.owner == registry.owner
        }),
{
}

/// Open, lock, release: where the requester opens a request, the provider
/// locks it and then claims `amount`, the provider ends with `amount` more,
/// the requester with `amount` less, and the request is gone with nothing
/// left in custody.
pub proof fn law_open_lock_release(
    market: Market,
    model: Seq<char>,
    max_cost: u64,
    send_prompt_to: Seq<char>,
    amount: u64,
)
    requires
        market.wf(),
        market.request is None,
        market.custody == 0,
        0 < max_cost <= market.requester_balance,
        market.server is Some,
        market.server->0.owner == market.provider_key,
        lists_model(market.server->0.models, model),
        amount <= max_cost,
    ensures
        ({
            let opened = market.step(Operation::RequestInference { model, max_cost });
            let locked = opened.step(
                Operation::LockRequest { by: Party::Provider, send_prompt_to },
            );
            let settled = locked.step(Operation::ClaimPayment { by: Party::Provider, amount });
            &&& request_state(opened.request) == RequestState::Open
            &&& opened.custody == max_cost
            &&& opened.requester_balance == market.requester_balance - max_cost
            &&& request_state(locked.request) == RequestState::Locked
            &&& locked.request->0.locked_by == Some(market.provider_key)
            &&& locked.custody == max_cost
            &&& request_state(settled.request) == RequestState::Closed
            &&& settled.custody == 0
            &&& settled.provider_balance == market.provider_balance + amount
            &&& settled.requester_balance == market.requester_balance - amount
        }),
{
}

/// Open, cancel: where the requester opens a request and cancels it before
/// anybody locked it, the requester's balance is what it was and the request
/// is gone.
pub proof fn law_open_cancel(market: Market, model: Seq<char>, max_cost: u64)
    requires
        market.wf(),
        market.request is None,
        market.custody == 0,
        0 < max_cost <= market.requester_balance,
    ensures
        ({
            let opened = market.step(Operation::RequestInference { model, max_cost });
            let cancelled = opened.step(Operation::CancelRequest { by: Party::Requester });
            &&& request_state(opened.request) == RequestState::Open
            &&& request_state(cancelled.request) == RequestState::Closed
            &&& cancelled.custody == 0
            &&& cancelled.requester_balance == market.requester_balance
            &&& cancelled.provider_balance == market.provider_balance
        }),
{
}

} // verus!
