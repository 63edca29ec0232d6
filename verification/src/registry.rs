//! The registries in which providers publish what they serve.
//!
//! A rejected operation leaves its accounts as they were. The last clause of
//! the contracts of `add_server_at` and `close_server` says that the
//! operation is a step of every `Market` that holds the accounts.

use vstd::prelude::*;
use anchor_lang::prelude::ProgramError;
use crate::account::{listing_views, ModelListing, ServerAccount};
use crate::clock::clock_unix_timestamp;
use crate::context::{AddServerCtx, CloseServerCtx};
use crate::error::ChainferenceError;
use crate::market::{Market, Operation, Party};
use crate::model::{
    add_server_spec,
    add_server_verdict,
    close_server_spec,
    lists_model,
    ServerView,
    MAX_LISTINGS,
};

verus! {

impl ServerAccount {
    /// Whether the registry lists the model `model`.
    pub fn provides(&self, model: &String) -> (found: bool)
        ensures
            found == lists_model(self@.models, model@),
    {
        let mut i: usize = 0;
        while i < self.models.len()
            invariant
                i <= self.models.len(),
                forall|j: int| 0 <= j < i ==> (#[trigger] self@.models[j]).id != model@,
            decreases self.models.len() - i,
        {
            if self.models[i].id == *model {
                assert(self@.models[i as int].id == model@);
                return true;
            }
            i += 1;
        }
        false
    }
}

/// Why a registration did not happen: the rules turned it down, or the
/// ledger's clock could not be read.
#[derive(Debug, PartialEq, Eq)]
pub enum AddServerError {
    Rejected(ChainferenceError),
    Clock(ProgramError),
}

/// Whether a registration of `count` listings is accepted on the accounts of
/// `ctx`.
fn registration_verdict(ctx: &AddServerCtx, count: usize) -> (r: Result<(), ChainferenceError>)
    ensures
        r == add_server_verdict(ctx.server_account.record(), ctx.owner.key, count as nat),
{
    let caller = ctx.owner.key();
    match &ctx.server_account.data {
        Some(existing) => {
            if existing.owner != caller {
                return Err(ChainferenceError::NotOwner);
            }
        },
        None => {},
    }
    if count > MAX_LISTINGS {
        return Err(ChainferenceError::TooManyListings);
    }
    Ok(())
}

/// Registers the calling provider with the listings `models` at the time
/// `now`. A registry that the provider already has is replaced as a whole;
/// the balance of the registry's account is not touched.
///
/// Rejected with `NotOwner` where the registry belongs to another provider,
/// and with `TooManyListings` where `models` holds more than `MAX_LISTINGS`
/// listings.
pub fn add_server_at(ctx: &mut AddServerCtx, models: Vec<ModelListing>, now: i64) -> (r: Result<
    (),
    ChainferenceError,
>)
    ensures
        ({
            let outcome = add_server_spec(
                old(ctx).server_account.record(),
                old(ctx).owner.key,
                listing_views(models@),
                now,
            );
            match r {
                Ok(_) => {
                    &&& outcome is Ok
                    &&& final(ctx).server_account.record() == Some(outcome->Ok_0)
                    &&& outcome->Ok_0.wf()
                    &&& final(ctx).server_account.lamports == old(ctx).server_account.lamports
                    &&& final(ctx).owner == old(ctx).owner
                },
                Err(e) => outcome == Err::<ServerView, _>(e) && *final(ctx) == *old(ctx),
            }
        }),
        (forall|market: Market|
            market.shows_registry(old(ctx).server_account) && market.shows_wallet(
                old(ctx).owner,
                Party::Provider,
            ) ==> {
                let after = #[trigger] market.step(
                    Operation::AddServer { models: listing_views(models@), now },
                );
                after.shows_registry(final(ctx).server_account) && after.shows_wallet(
                    final(ctx).owner,
                    Party::Provider,
                )
            }),
{
    match registration_verdict(ctx, models.len()) {
        Err(e) => {
            return Err(e);
        },
        Ok(_) => {},
    }
    ctx.server_account.data = Some(
        ServerAccount { owner: ctx.owner.key(), models: models, last_heartbeat: now },
    );
    Ok(())
}

/// Registers the calling provider with the listings `models` at the time
/// that the ledger's clock shows: `add_server_at` with that time. The rules
/// are tested first, so a registration that they turn down is rejected
/// whatever the clock does; one that they accept happens if the clock can be
/// read, and leaves everything as it was if not.
pub fn add_server(ctx: &mut AddServerCtx, models: Vec<ModelListing>) -> (r: Result<
    (),
    AddServerError,
>)
    ensures
        ({
            let verdict = add_server_verdict(
                old(ctx).server_account.record(),
                old(ctx).owner.key,
                models@.len(),
            );
            match r {
                Ok(_) => {
                    &&& verdict is Ok
                    &&& exists|now: i64|
                        #[trigger] add_server_spec(
                            old(ctx).server_account.record(),
                            old(ctx).owner.key,
                            listing_views(models@),
                            now,
                        ) == Ok::<_, ChainferenceError>(final(ctx).server_account.record()->0)
                    &&& final(ctx).server_account.record() is Some
                    &&& final(ctx).server_account.record()->0.wf()
                    &&& final(ctx).server_account.lamports == old(ctx).server_account.lamports
                    &&& final(ctx).owner == old(ctx).owner
                },
                Err(AddServerError::Rejected(e)) => verdict == Err::<(), _>(e) && *final(ctx)
                    == *old(ctx),
                Err(AddServerError::Clock(_)) => verdict is Ok && *final(ctx) == *old(ctx),
            }
        }),
{
    match registration_verdict(ctx, models.len()) {
        Err(e) => {
            return Err(AddServerError::Rejected(e));
        },
        Ok(_) => {},
    }
    match clock_unix_timestamp() {
        Err(e) => Err(AddServerError::Clock(e)),
        Ok(now) => {
            match add_server_at(ctx, models, now) {
                Ok(_) => Ok(()),
                Err(e) => Err(AddServerError::Rejected(e)),
            }
        },
    }
}

/// Removes the registry of the calling provider and pays the whole balance
/// of the registry's account, its deposit, to the provider.
///
/// Rejected with `NotOwner` where the caller does not own the registry or
/// there is none.
pub fn close_server(ctx: &mut CloseServerCtx) -> (r: Result<(), ChainferenceError>)
    requires
        old(ctx).wf(),
    ensures
        r == close_server_spec(old(ctx).server_account.record(), old(ctx).owner.key),
        r is Err ==> *final(ctx) == *old(ctx),
        (r is Ok ==> {
            &&& final(ctx).server_account.data is None
            &&& final(ctx).server_account.lamports == 0
            &&& final(ctx).owner.key == old(ctx).owner.key
            &&& final(ctx).owner.lamports == old(ctx).owner.lamports
                + old(ctx).server_account.lamports
        }),
        final(ctx).supply() == old(ctx).supply(),
        (forall|market: Market|
            market.shows_registry(old(ctx).server_account) && market.shows_wallet(
                old(ctx).owner,
                Party::Provider,
            ) ==> {
                let after = #[trigger] market.step(Operation::CloseServer);
                after.shows_registry(final(ctx).server_account) && after.shows_wallet(
                    final(ctx).owner,
                    Party::Provider,
                )
            }),
{
    let caller = ctx.owner.key();
    let owned = match &ctx.server_account.data {
        Some(existing) => existing.owner == caller,
        None => false,
    };
    if !owned {
        return Err(ChainferenceError::NotOwner);
    }
    let refund = ctx.server_account.close();
    ctx.owner.receive(&caller, refund);
    Ok(())
}

} // verus!
