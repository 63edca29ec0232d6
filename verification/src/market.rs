//! A marketplace of one requester and one provider, and what holds of it
//! after every sequence of operations.
//!
//! The market holds the two wallets, the provider's registry and one place
//! for a request. Each step applies one operation by the rule that specifies
//! the executable operation; a rejected operation leaves the market as it is.
//! Every executable operation promises to be such a step on the accounts it
//! is given, so what is proved here of all sequences of steps holds of all
//! sequences of calls.

use vstd::prelude::*;
use crate::account::{Account, InferenceRequestAccount, ServerAccount, Wallet};
use crate::identity::Pubkey;
use crate::model::{
    add_server_spec,
    custody_covers,
    cancel_request_spec,
    claim_payment_spec,
    claim_payout,
    close_server_spec,
    lock_request_spec,
    payment_share,
    request_inference_spec,
    ListingView,
    RequestView,
    ServerView,
};

verus! {

/// One of the two parties of the market.
pub enum Party {
    Requester,
    Provider,
}

/// The state of the market: the balances of the two parties, the registry
/// with its deposit, and the request with its custody.
pub struct Market {
    pub requester_key: Pubkey,
    pub requester_balance: nat,
    pub provider_key: Pubkey,
    pub provider_balance: nat,
    pub server: Option<ServerView>,
    pub deposit: nat,
    pub request: Option<RequestView>,
    pub custody: nat,
}

/// An operation submitted to the market. The registry is the provider's and
/// requests are opened by the requester; the other operations may be tried
/// by either party.
pub enum Operation {
    AddServer { models: Seq<ListingView>, now: i64 },
    CloseServer,
    RequestInference { model: Seq<char>, max_cost: u64 },
    LockRequest { by: Party, send_prompt_to: Seq<char> },
    ClaimPayment { by: Party, amount: u64 },
    CancelRequest { by: Party },
}

impl Market {
    /// The two parties are different identities.
    pub open spec fn wf(self) -> bool {
        self.requester_key != self.provider_key
    }

    /// The identity of `party`.
    pub open spec fn key_of(self, party: Party) -> Pubkey {
        match party {
            Party::Requester => self.requester_key,
            Party::Provider => self.provider_key,
        }
    }

    /// The balance of `party`.
    pub open spec fn balance_of(self, party: Party) -> nat {
        match party {
            Party::Requester => self.requester_balance,
            Party::Provider => self.provider_balance,
        }
    }

    /// Whether `wallet` is the wallet of `party` as it stands in the market.
    pub open spec fn shows_wallet(self, wallet: Wallet, party: Party) -> bool {
        wallet.key == self.key_of(party) && wallet.lamports == self.balance_of(party)
    }

    /// Whether `account` is the registry's account as it stands in the
    /// market.
    pub open spec fn shows_registry(self, account: Account<ServerAccount>) -> bool {
        account.record() == self.server && account.lamports == self.deposit
    }

    /// Whether `account` is the request's account as it stands in the market.
    pub open spec fn shows_request(self, account: Account<InferenceRequestAccount>) -> bool {
        account.record() == self.request && account.lamports == self.custody
    }

    /// What holds of a market at all times: the parties are two, the
    /// registry is the provider's, the request is the requester's, and the
    /// custody covers what the request may still cost.
    pub open spec fn inv(self) -> bool {
        &&& self.wf()
        &&& self.server is Some ==> self.server->0.owner == self.provider_key
        &&& self.request is Some ==> self.request->0.requester == self.requester_key
        &&& custody_covers(self.request, self.custody)
    }

    /// All the value in the market: both wallets, the deposit and the custody.
    pub open spec fn supply(self) -> nat {
        self.requester_balance + self.provider_balance + self.deposit + self.custody
    }

    /// The market after `op`.
    pub open spec fn step(self, op: Operation) -> Market {
        match op {
            Operation::AddServer { models, now } => {
                match add_server_spec(self.server, self.provider_key, models, now) {
                    Ok(server) => Market { server: Some(server), ..self },
                    Err(_) => self,
                }
            },
            Operation::CloseServer => {
                match close_server_spec(self.server, self.provider_key) {
                    Ok(_) => Market {
                        server: None,
                        deposit: 0,
                        provider_balance: self.provider_balance + self.deposit,
                        ..self
                    },
                    Err(_) => self,
                }
            },
            Operation::RequestInference { model, max_cost } => {
                if self.request is Some {
                    self
                } else {
                    match request_inference_spec(
                        self.requester_balance,
                        self.requester_key,
                        model,
                        max_cost,
                    ) {
                        Ok(request) => Market {
                            request: Some(request),
                            custody: (self.custody + max_cost) as nat,
                            requester_balance: (self.requester_balance - max_cost) as nat,
                            ..self
                        },
                        Err(_) => self,
                    }
                }
            },
            Operation::LockRequest { by, send_prompt_to } => {
                match lock_request_spec(
                    self.request,
                    self.server,
                    self.key_of(by),
                    send_prompt_to,
                ) {
                    Ok(request) => Market { request: Some(request), ..self },
                    Err(_) => self,
                }
            },
            Operation::ClaimPayment { by, amount } => {
                match claim_payment_spec(
                    self.request,
                    self.custody,
                    self.key_of(by),
                    self.requester_key,
                    amount,
                ) {
                    Ok(_) => Market {
                        request: None,
                        custody: 0,
                        requester_balance: (self.requester_balance + claim_payout(
                            self.requester_key,
                            self.key_of(by),
                            self.requester_key,
                            self.custody as int,
                            amount as int,
                        )) as nat,
                        provider_balance: (self.provider_balance + claim_payout(
                            self.provider_key,
                            self.key_of(by),
                            self.requester_key,
                            self.custody as int,
                            amount as int,
                        )) as nat,
                        ..self
                    },
                    Err(_) => self,
                }
            },
            Operation::CancelRequest { by } => {
                match cancel_request_spec(self.request, self.key_of(by)) {
                    Ok(_) => Market {
                        request: None,
                        custody: 0,
                        requester_balance: (self.requester_balance + payment_share(
                            self.requester_key,
                            self.key_of(by),
                            self.custody as int,
                        )) as nat,
                        provider_balance: (self.provider_balance + payment_share(
                            self.provider_key,
                            self.key_of(by),
                            self.custody as int,
                        )) as nat,
                        ..self
                    },
                    Err(_) => self,
                }
            },
        }
    }

    /// The market after the operations `ops`, in their order.
    pub open spec fn run(self, ops: Seq<Operation>) -> Market
        decreases ops.len(),
    {
        if ops.len() == 0 {
            self
        } else {
            self.run(ops.drop_last()).step(ops.last())
        }
    }
}

/// Running no operation changes nothing, and running one operation more is
/// one step more.
pub proof fn law_run_extends(market: Market, ops: Seq<Operation>, op: Operation)
    ensures
        market.run(Seq::empty()) == market,
        market.run(ops.push(op)) == market.run(ops).step(op),
{
    assert(ops.push(op).drop_last() == ops);
}

/// No operation creates or destroys value: whatever is submitted, by
/// whichever party, accepted or not, the wallets, the deposit and the custody
/// add up to what they added up to before. The parties stay who they are.
pub proof fn law_step_conserves_value(market: Market, op: Operation)
    requires
        market.wf(),
    ensures
        market.step(op).supply() == market.supply(),
        market.step(op).requester_key == market.requester_key,
        market.step(op).provider_key == market.provider_key,
        market.step(op).wf(),
{
}

/// Value is conserved over every sequence of operations.
pub proof fn law_run_conserves_value(market: Market, ops: Seq<Operation>)
    requires
        market.wf(),
    ensures
        market.run(ops).supply() == market.supply(),
        market.run(ops).requester_key == market.requester_key,
        market.run(ops).provider_key == market.provider_key,
        market.run(ops).wf(),
    decreases ops.len(),
{
    if ops.len() > 0 {
        law_run_conserves_value(market, ops.drop_last());
        law_step_conserves_value(market.run(ops.drop_last()), ops.last());
    }
}

/// No operation breaks what holds of a market: in particular, no operation
/// leaves a request whose custody is less than its cost ceiling.
pub proof fn law_step_keeps_invariant(market: Market, op: Operation)
    requires
        market.inv(),
    ensures
        market.step(op).inv(),
{
}

/// What holds of a market holds after every sequence of operations.
pub proof fn law_run_keeps_invariant(market: Market, ops: Seq<Operation>)
    requires
        market.inv(),
    ensures
        market.run(ops).inv(),
    decreases ops.len(),
{
    if ops.len() > 0 {
        law_run_keeps_invariant(market, ops.drop_last());
        law_step_keeps_invariant(market.run(ops.drop_last()), ops.last());
    }
}

/// The provider that holds the lock is owed its release: a claim by the
/// lock's holder of any amount up to the cost ceiling is accepted.
pub proof fn law_release_is_owed(market: Market, by: Party, amount: u64)
    requires
        market.inv(),
        market.request is Some,
        market.request->0.locked_by == Some(market.key_of(by)),
        amount <= market.request->0.max_cost,
    ensures
        claim_payment_spec(
            market.request,
            market.custody,
            market.key_of(by),
            market.requester_key,
            amount,
        ) is Ok,
        market.step(Operation::ClaimPayment { by, amount }).request is None,
{
}

/// The requester is owed the cancellation of a request that nobody locked.
pub proof fn law_cancel_is_owed(market: Market)
    requires
        market.inv(),
        market.request is Some,
        market.request->0.locked_by is None,
    ensures
        ({
            let cancelled = market.step(Operation::CancelRequest { by: Party::Requester });
            &&& cancelled.request is None
            &&& cancelled.custody == 0
            &&& cancelled.requester_balance == market.requester_balance + market.custody
            &&& cancelled.provider_balance == market.provider_balance
        }),
{
}

/// While a request exists its custody never grows, and it shrinks only when
/// the request is destroyed.
pub proof fn law_custody_never_grows(market: Market, op: Operation)
    requires
        market.request is Some,
    ensures
        market.step(op).custody <= market.custody,
        market.step(op).request is Some ==> market.step(op).custody == market.custody,
{
}

/// A lock is final: once a provider holds the lock, every operation either
/// leaves the record exactly as it is or destroys the request. Nobody
/// relocks or unlocks it.
pub proof fn law_lock_is_final(market: Market, op: Operation)
    requires
        market.request is Some,
        market.request->0.locked_by is Some,
    ensures
        market.step(op).request is None || market.step(op).request == market.request,
{
}

/// Only the locking provider gets a request destroyed once it is locked, and
/// only by a release.
pub proof fn law_locked_request_ends_by_release(market: Market, op: Operation)
    requires
        market.request is Some,
        market.request->0.locked_by is Some,
        market.step(op).request is None,
    ensures
        op is ClaimPayment,
        market.request->0.locked_by == Some(market.key_of(op->ClaimPayment_by)),
{
}

/// A release settles once: after an accepted release, a further release by
/// anybody, for any amount, is rejected and moves nothing.
pub proof fn law_release_at_most_once(
    market: Market,
    by: Party,
    amount: u64,
    again_by: Party,
    again_amount: u64,
)
    requires
        market.step(Operation::ClaimPayment { by, amount }).request is None,
    ensures
        ({
            let settled = market.step(Operation::ClaimPayment { by, amount });
            &&& claim_payment_spec(
                settled.request,
                settled.custody,
                settled.key_of(again_by),
                settled.requester_key,
                again_amount,
            ) is Err
            &&& settled.step(Operation::ClaimPayment { by: again_by, amount: again_amount })
                == settled
        }),
{
}

/// What an accepted release pays: the claimed amount to the provider that
/// holds the lock, the rest of the custody to the requester, nothing stays.
pub proof fn law_release_pays_out(market: Market, by: Party, amount: u64)
    requires
        market.wf(),
        market.request is Some,
        market.step(Operation::ClaimPayment { by, amount }).request is None,
    ensures
        ({
            let settled = market.step(Operation::ClaimPayment { by, amount });
            &&& amount <= market.request->0.max_cost
            &&& amount <= market.custody
            &&& settled.custody == 0
            &&& by is Provider ==> settled.provider_balance == market.provider_balance + amount
                && settled.requester_balance == market.requester_balance + market.custody
                - amount
            &&& by is Requester ==> settled.provider_balance == market.provider_balance
                && settled.requester_balance == market.requester_balance + market.custody
        }),
{
}

} // verus!
