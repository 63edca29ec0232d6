//! The accounts that each operation works on.
//!
//! A context lists the accounts of one operation, with the caller's wallet
//! among them. The balances of a context are part of one ledger, whose whole
//! supply fits in a `u64`.

use vstd::prelude::*;
use crate::account::{Account, InferenceRequestAccount, ServerAccount, Wallet};

verus! {

/// Registration of a provider: the registry to write and the provider.
#[derive(Clone, Debug, PartialEq, Eq)]
pub struct AddServerCtx {
    pub server_account: Account<ServerAccount>,
    pub owner: Wallet,
}

/// Deregistration of a provider: the registry to destroy and the provider,
/// who gets the registry's deposit.
#[derive(Clone, Debug, PartialEq, Eq)]
pub struct CloseServerCtx {
    pub server_account: Account<ServerAccount>,
    pub owner: Wallet,
}

/// Opening of a request: the account to create and the requester, who pays.
#[derive(Clone, Debug, PartialEq, Eq)]
pub struct RequestInferenceCtx {
    pub request: Account<InferenceRequestAccount>,
    pub requester: Wallet,
}

/// Cancellation of a request: the request and the requester, who gets the
/// custody back.
#[derive(Clone, Debug, PartialEq, Eq)]
pub struct CancelRequestCtx {
    pub request: Account<InferenceRequestAccount>,
    pub requester: Wallet,
}

/// Locking of a request: the request, the registry of the locking provider,
/// and the provider.
#[derive(Clone, Debug, PartialEq, Eq)]
pub struct LockRequestCtx {
    pub request: Account<InferenceRequestAccount>,
    pub server: Account<ServerAccount>,
    pub owner: Wallet,
}

/// Release of a payment: the request, the claiming provider, and the
/// requester, who gets what is not claimed.
#[derive(Clone, Debug, PartialEq, Eq)]
pub struct ClaimPaymentCtx {
    pub request: Account<InferenceRequestAccount>,
    pub server_owner: Wallet,
    pub requester: Wallet,
}

/// Whether the balances `a` and `b` add up to no more than a `u64` holds.
fn sum_fits(a: u64, b: u64) -> (fits: bool)
    ensures
        fits == (a + b <= u64::MAX),
{
    a.checked_add(b).is_some()
}

impl CloseServerCtx {
    /// The sum of the balances in the context.
    pub open spec fn supply(&self) -> int {
        self.server_account.lamports + self.owner.lamports
    }

    /// The balances are part of one ledger: their sum fits in a `u64`.
    pub open spec fn wf(&self) -> bool {
        self.supply() <= u64::MAX
    }

    /// Tests `wf`, for a caller that cannot prove it.
    pub fn is_wf(&self) -> (wf: bool)
        ensures
            wf == self.wf(),
    {
        sum_fits(self.server_account.lamports, self.owner.lamports)
    }
}

impl RequestInferenceCtx {
    /// The sum of the balances in the context.
    pub open spec fn supply(&self) -> int {
        self.request.lamports + self.requester.lamports
    }

    /// The account of the request is new, it holds no record, and the
    /// balances are part of one ledger: their sum fits in a `u64`.
    pub open spec fn wf(&self) -> bool {
        self.request.data is None && self.supply() <= u64::MAX
    }

    /// Tests `wf`, for a caller that cannot prove it.
    pub fn is_wf(&self) -> (wf: bool)
        ensures
            wf == self.wf(),
    {
        self.request.data.is_none() && sum_fits(self.request.lamports, self.requester.lamports)
    }
}

impl CancelRequestCtx {
    /// The sum of the balances in the context.
    pub open spec fn supply(&self) -> int {
        self.request.lamports + self.requester.lamports
    }

    /// The balances are part of one ledger: their sum fits in a `u64`.
    pub open spec fn wf(&self) -> bool {
        self.supply() <= u64::MAX
    }

    /// Tests `wf`, for a caller that cannot prove it.
    pub fn is_wf(&self) -> (wf: bool)
        ensures
            wf == self.wf(),
    {
        sum_fits(self.request.lamports, self.requester.lamports)
    }
}

impl ClaimPaymentCtx {
    /// Whether the provider and the requester are one party. The two wallets
    /// of the context then stand for one wallet.
    pub open spec fn one_party(&self) -> bool {
        self.server_owner.key == self.requester.key
    }

    /// Two wallets of one party show the same balance.
    pub open spec fn consistent(&self) -> bool {
        self.one_party() ==> self.server_owner.lamports == self.requester.lamports
    }

    /// The sum of the balances in the context, each wallet counted once.
    pub open spec fn supply(&self) -> int {
        if self.one_party() {
            self.request.lamports + self.server_owner.lamports
        } else {
            self.request.lamports + self.server_owner.lamports + self.requester.lamports
        }
    }

    /// The wallets are consistent and the balances are part of one ledger:
    /// their sum fits in a `u64`.
    pub open spec fn wf(&self) -> bool {
        self.consistent() && self.supply() <= u64::MAX
    }

    /// Tests `wf`, for a caller that cannot prove it.
    pub fn is_wf(&self) -> (wf: bool)
        ensures
            wf == self.wf(),
    {
        if self.server_owner.key == self.requester.key {
            self.server_owner.lamports == self.requester.lamports && sum_fits(
                self.request.lamports,
                self.server_owner.lamports,
            )
        } else {
            match self.request.lamports.checked_add(self.server_owner.lamports) {
                Some(sum) => sum_fits(sum, self.requester.lamports),
                None => false,
            }
        }
    }
}

} // verus!
