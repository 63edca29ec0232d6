//! The life of an inference request: opened with funds in custody, locked by
//! one provider, then settled by that provider or, while still open,
//! cancelled by the requester.
//!
//! Each operation tests all it requires before it changes anything: a
//! rejected operation leaves its accounts as they were. The last clause of
//! each contract says that the operation is a step of every `Market` that
//! holds the accounts.

use vstd::prelude::*;
use crate::account::{transfer, Account, InferenceRequestAccount};
use crate::context::{CancelRequestCtx, ClaimPaymentCtx, LockRequestCtx, RequestInferenceCtx};
use crate::error::ChainferenceError;
use crate::market::{Market, Operation, Party};
use crate::model::{
    byte_len,
    cancel_request_spec,
    claim_payment_spec,
    claim_payout,
    lock_request_spec,
    request_inference_spec,
    request_state,
    RequestState,
    RequestView,
    MAX_ENDPOINT_LEN,
};

verus! {

impl Account<InferenceRequestAccount> {
    /// Where the request of this account stands in its life.
    pub fn state(&self) -> (state: RequestState)
        ensures
            state == request_state(self.record()),
    {
        match &self.data {
            None => RequestState::Closed,
            Some(request) => {
                if request.locked_by.is_some() {
                    RequestState::Locked
                } else {
                    RequestState::Open
                }
            },
        }
    }
}

/// Opens a request for `model` that may cost up to `max_cost`: the requester
/// pays `max_cost` into the custody of the new account, whose record names
/// the requester and is open to be locked. The account is a new one: it
/// holds no record yet. A request names a model: `model` is not empty.
///
/// Rejected with `InvalidAmount` where `max_cost` is zero, and with
/// `InsufficientFunds` where the requester's balance does not cover it.
pub fn request_inference(ctx: &mut RequestInferenceCtx, model: String, max_cost: u64) -> (r: Result<
    (),
    ChainferenceError,
>)
    requires
        old(ctx).wf(),
        model@.len() > 0,
    ensures
        ({
            let outcome = request_inference_spec(
                old(ctx).requester.lamports as nat,
                old(ctx).requester.key,
                model@,
                max_cost,
            );
            match r {
                Ok(_) => {
                    &&& outcome is Ok
                    &&& final(ctx).request.record() == Some(outcome->Ok_0)
                    &&& outcome->Ok_0.wf()
                    &&& final(ctx).request.lamports == old(ctx).request.lamports + max_cost
                    &&& final(ctx).requester.lamports == old(ctx).requester.lamports - max_cost
                    &&& final(ctx).requester.key == old(ctx).requester.key
                },
                Err(e) => outcome == Err::<RequestView, _>(e) && *final(ctx) == *old(ctx),
            }
        }),
        final(ctx).supply() == old(ctx).supply(),
        (forall|market: Market|
            market.shows_request(old(ctx).request) && market.shows_wallet(
                old(ctx).requester,
                Party::Requester,
            ) ==> {
                let after = #[trigger] market.step(
                    Operation::RequestInference { model: model@, max_cost },
                );
                after.shows_request(final(ctx).request) && after.shows_wallet(
                    final(ctx).requester,
                    Party::Requester,
                )
            }),
{
    if max_cost == 0 {
        return Err(ChainferenceError::InvalidAmount);
    }
    match transfer(&mut ctx.requester.lamports, &mut ctx.request.lamports, max_cost) {
        Err(e) => {
            return Err(e);
        },
        Ok(_) => {},
    }
    ctx.request.data = Some(
        InferenceRequestAccount {
            requester: ctx.requester.key(),
            model: model,
            max_cost: max_cost,
            locked_by: None,
            send_prompt_to: String::new(),
        },
    );
    Ok(())
}

/// Locks the request for the calling provider, who is to send the results to
/// `send_prompt_to`, a place of no more than `MAX_ENDPOINT_LEN` bytes. The
/// test and the lock are one step on a request that the caller holds alone,
/// so at most one provider ever locks a request.
///
/// Rejected with `NotOwner` where the registry is another provider's; else
/// with `RequestAlreadyLocked` where the request is locked or gone, whoever
/// calls and whatever the caller serves; else with `ModelNotProvided` where
/// the caller has no registry or it does not list the requested model.
pub fn lock_request(ctx: &mut LockRequestCtx, send_prompt_to: String) -> (r: Result<
    (),
    ChainferenceError,
>)
    requires
        byte_len(send_prompt_to@) <= MAX_ENDPOINT_LEN,
    ensures
        ({
            let outcome = lock_request_spec(
                old(ctx).request.record(),
                old(ctx).server.record(),
                old(ctx).owner.key,
                send_prompt_to@,
            );
            match r {
                Ok(_) => {
                    &&& outcome is Ok
                    &&& final(ctx).request.record() == Some(outcome->Ok_0)
                    &&& old(ctx).request.record()->0.wf() ==> outcome->Ok_0.wf()
                    &&& final(ctx).request.lamports == old(ctx).request.lamports
                    &&& final(ctx).server == old(ctx).server
                    &&& final(ctx).owner == old(ctx).owner
                },
                Err(e) => outcome == Err::<RequestView, _>(e) && *final(ctx) == *old(ctx),
            }
        }),
        (forall|market: Market, by: Party|
            market.shows_request(old(ctx).request) && market.shows_registry(old(ctx).server)
                && market.shows_wallet(old(ctx).owner, by) ==> {
                let after = #[trigger] market.step(
                    Operation::LockRequest { by, send_prompt_to: send_prompt_to@ },
                );
                after.shows_request(final(ctx).request) && after.shows_registry(
                    final(ctx).server,
                ) && after.shows_wallet(final(ctx).owner, by)
            }),
{
    let caller = ctx.owner.key();
    match &ctx.server.data {
        Some(server) => {
            if server.owner != caller {
                return Err(ChainferenceError::NotOwner);
            }
        },
        None => {},
    }
    match &mut ctx.request.data {
        None => Err(ChainferenceError::RequestAlreadyLocked),
        Some(request) => {
            if request.locked_by.is_some() {
                return Err(ChainferenceError::RequestAlreadyLocked);
            }
            let provided = match &ctx.server.data {
                Some(server) => server.provides(&request.model),
                None => false,
            };
            if !provided {
                return Err(ChainferenceError::ModelNotProvided);
            }
            request.locked_by = Some(caller);
            request.send_prompt_to = send_prompt_to;
            Ok(())
        },
    }
}

/// Pays `amount` out of the custody to the calling provider, who holds the
/// lock, hands the rest of the custody back to the requester, and destroys
/// the request. A claim of zero voids the request: everything goes back.
/// Where the provider and the requester are one party, both of its wallets
/// in the context show the whole custody added.
///
/// Rejected with `ClaimingNonLockedRequest` where the caller does not hold
/// the lock or the request is gone; with `NotOwner` where the wallet to
/// refund is not the requester's; with `ClaimTooLarge` where `amount` is
/// above the cost ceiling; with `InsufficientFunds` where the custody does
/// not cover `amount`.
pub fn claim_payment(ctx: &mut ClaimPaymentCtx, amount: u64) -> (r: Result<(), ChainferenceError>)
    requires
        old(ctx).wf(),
    ensures
        r == claim_payment_spec(
            old(ctx).request.record(),
            old(ctx).request.lamports as nat,
            old(ctx).server_owner.key,
            old(ctx).requester.key,
            amount,
        ),
        r is Err ==> *final(ctx) == *old(ctx),
        (r is Ok ==> {
            &&& final(ctx).request.data is None
            &&& final(ctx).request.lamports == 0
            &&& final(ctx).server_owner.key == old(ctx).server_owner.key
            &&& final(ctx).requester.key == old(ctx).requester.key
            &&& final(ctx).server_owner.lamports == old(ctx).server_owner.lamports + claim_payout(
                old(ctx).server_owner.key,
                old(ctx).server_owner.key,
                old(ctx).requester.key,
                old(ctx).request.lamports as int,
                amount as int,
            )
            &&& final(ctx).requester.lamports == old(ctx).requester.lamports + claim_payout(
                old(ctx).requester.key,
                old(ctx).server_owner.key,
                old(ctx).requester.key,
                old(ctx).request.lamports as int,
                amount as int,
            )
        }),
        final(ctx).wf(),
        final(ctx).supply() == old(ctx).supply(),
        (forall|market: Market, by: Party|
            market.shows_request(old(ctx).request) && market.shows_wallet(
                old(ctx).server_owner,
                by,
            ) && market.shows_wallet(old(ctx).requester, Party::Requester) ==> {
                let after = #[trigger] market.step(Operation::ClaimPayment { by, amount });
                after.shows_request(final(ctx).request) && after.shows_wallet(
                    final(ctx).server_owner,
                    by,
                ) && after.shows_wallet(final(ctx).requester, Party::Requester)
            }),
{
    let caller = ctx.server_owner.key();
    let refund_to = ctx.requester.key();
    match &ctx.request.data {
        None => {
            return Err(ChainferenceError::ClaimingNonLockedRequest);
        },
        Some(request) => {
            if request.requester != refund_to {
                return Err(ChainferenceError::NotOwner);
            }
            let holds_lock = match request.locked_by {
                Some(locker) => locker == caller,
                None => false,
            };
            if !holds_lock {
                return Err(ChainferenceError::ClaimingNonLockedRequest);
            }
            if amount > request.max_cost {
                return Err(ChainferenceError::ClaimTooLarge);
            }
        },
    }
    match ctx.request.withdraw(amount) {
        Err(e) => {
            return Err(e);
        },
        Ok(_) => {},
    }
    ctx.server_owner.receive(&caller, amount);
    ctx.requester.receive(&caller, amount);
    // The ceiling is spent before the request is destroyed: nothing can be
    // claimed from it a second time.
    match &mut ctx.request.data {
        Some(request) => {
            request.max_cost = 0;
        },
        None => {},
    }
    let rest = ctx.request.close();
    ctx.server_owner.receive(&refund_to, rest);
    ctx.requester.receive(&refund_to, rest);
    Ok(())
}

/// Cancels an open request for the requester: the whole custody goes back to
/// the requester and the request is destroyed. A locked request cannot be
/// cancelled; only a release by the locking provider closes it.
///
/// Rejected with `NotOwner` where the caller is not the requester, and with
/// `RequestAlreadyLocked` where the request is locked or gone.
pub fn cancel_request(ctx: &mut CancelRequestCtx) -> (r: Result<(), ChainferenceError>)
    requires
        old(ctx).wf(),
    ensures
        r == cancel_request_spec(old(ctx).request.record(), old(ctx).requester.key),
        r is Err ==> *final(ctx) == *old(ctx),
        (r is Ok ==> {
            &&& final(ctx).request.data is None
            &&& final(ctx).request.lamports == 0
            &&& final(ctx).requester.key == old(ctx).requester.key
            &&& final(ctx).requester.lamports == old(ctx).requester.lamports
                + old(ctx).request.lamports
        }),
        final(ctx).supply() == old(ctx).supply(),
        (forall|market: Market, by: Party|
            market.shows_request(old(ctx).request) && market.shows_wallet(old(ctx).requester, by)
                ==> {
                let after = #[trigger] market.step(Operation::CancelRequest { by });
                after.shows_request(final(ctx).request) && after.shows_wallet(
                    final(ctx).requester,
                    by,
                )
            }),
{
    let caller = ctx.requester.key();
    match &ctx.request.data {
        None => {
            return Err(ChainferenceError::RequestAlreadyLocked);
        },
        Some(request) => {
            if request.requester != caller {
                return Err(ChainferenceError::NotOwner);
            }
            if request.locked_by.is_some() {
                return Err(ChainferenceError::RequestAlreadyLocked);
            }
        },
    }
    let refund = ctx.request.close();
    ctx.requester.receive(&caller, refund);
    Ok(())
}

} // verus!
