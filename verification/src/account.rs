//! The records of the marketplace and the accounts that hold them.

use vstd::prelude::*;
use crate::error::ChainferenceError;
use crate::identity::Pubkey;
use crate::model::{payment_share, ListingView, RequestView, ServerView};

verus! {

/// A served model and its price per million output tokens.
#[derive(Clone, Debug, PartialEq, Eq)]
pub struct ModelListing {
    pub id: String,
    pub price: u64,
}

impl View for ModelListing {
    type V = ListingView;

    open spec fn view(&self) -> ListingView {
        ListingView { id: self.id@, price: self.price }
    }
}

/// The listings of `models`, in their order.
pub open spec fn listing_views(models: Seq<ModelListing>) -> Seq<ListingView> {
    Seq::new(models.len(), |i: int| models[i]@)
}

/// The registry of one provider: who owns it, what it serves, and when it
/// was last refreshed.
#[derive(Clone, Debug, PartialEq, Eq)]
pub struct ServerAccount {
    pub owner: Pubkey,
    pub models: Vec<ModelListing>,
    pub last_heartbeat: i64,
}

impl View for ServerAccount {
    type V = ServerView;

    open spec fn view(&self) -> ServerView {
        ServerView {
            owner: self.owner,
            models: listing_views(self.models@),
            last_heartbeat: self.last_heartbeat,
        }
    }
}

/// The record of one inference request. The account that holds it keeps the
/// requester's funds in custody.
#[derive(Clone, Debug, PartialEq, Eq)]
pub struct InferenceRequestAccount {
    pub requester: Pubkey,
    pub model: String,
    /// The most that the inference may cost.
    pub max_cost: u64,
    pub locked_by: Option<Pubkey>,
    pub send_prompt_to: String,
}

impl View for InferenceRequestAccount {
    type V = RequestView;

    open spec fn view(&self) -> RequestView {
        RequestView {
            requester: self.requester,
            model: self.model@,
            max_cost: self.max_cost,
            locked_by: self.locked_by,
            send_prompt_to: self.send_prompt_to@,
        }
    }
}

/// The wallet of a party: its identity and the balance it can spend.
#[derive(Clone, Copy, Debug, PartialEq, Eq)]
pub struct Wallet {
    pub key: Pubkey,
    pub lamports: u64,
}

impl Wallet {
    /// The identity of the wallet's holder.
    pub fn key(&self) -> (key: Pubkey)
        ensures
            key == self.key,
    {
        self.key
    }

    /// Books a payment of `amount` to the identity `to`: the wallet grows by
    /// it if `to` holds the wallet, and stays as it is otherwise.
    pub fn receive(&mut self, to: &Pubkey, amount: u64)
        requires
            old(self).key == *to ==> old(self).lamports + amount <= u64::MAX,
        ensures
            final(self).key == old(self).key,
            final(self).lamports == old(self).lamports + payment_share(
                old(self).key,
                *to,
                amount as int,
            ),
    {
        if self.key == *to {
            self.lamports = self.lamports + amount;
        }
    }
}

/// An account of the marketplace: a balance, and a record while the account
/// exists. An account without a record was never created or was destroyed.
#[derive(Clone, Debug, PartialEq, Eq)]
pub struct Account<T> {
    pub lamports: u64,
    pub data: Option<T>,
}

impl<T: View> Account<T> {
    /// The record that the account holds, if it holds one.
    pub open spec fn record(&self) -> Option<T::V> {
        match self.data {
            Some(data) => Some(data@),
            None => None,
        }
    }
}

impl<T> Account<T> {
    /// An account that holds `lamports` and no record.
    pub fn vacant(lamports: u64) -> (account: Account<T>)
        ensures
            account.lamports == lamports,
            account.data is None,
    {
        Account { lamports, data: None }
    }

    /// Takes `amount` out of the account's balance, or takes nothing and
    /// fails with `InsufficientFunds` where the balance does not cover it.
    pub fn withdraw(&mut self, amount: u64) -> (r: Result<(), ChainferenceError>)
        ensures
            r is Ok <==> old(self).lamports >= amount,
            r is Ok ==> final(self).lamports == old(self).lamports - amount,
            r is Err ==> r == Err::<(), _>(ChainferenceError::InsufficientFunds),
            r is Err ==> final(self).lamports == old(self).lamports,
            final(self).data == old(self).data,
    {
        if self.lamports < amount {
            return Err(ChainferenceError::InsufficientFunds);
        }
        self.lamports = self.lamports - amount;
        Ok(())
    }

    /// Destroys the account: the record is dropped and the whole balance is
    /// handed out. The result is the amount to pay to the recipient.
    pub fn close(&mut self) -> (refund: u64)
        ensures
            refund == old(self).lamports,
            final(self).lamports == 0,
            final(self).data is None,
    {
        let refund = self.lamports;
        self.lamports = 0;
        self.data = None;
        refund
    }
}

/// The ledger's transfer: moves `amount` from the balance `from` to the
/// balance `to` in one step, or moves nothing and fails with
/// `InsufficientFunds` where `from` does not cover it.
pub fn transfer(from: &mut u64, to: &mut u64, amount: u64) -> (r: Result<(), ChainferenceError>)
    requires
        *old(from) + *old(to) <= u64::MAX,
    ensures
        r is Ok <==> *old(from) >= amount,
        r is Ok ==> *final(from) == *old(from) - amount && *final(to) == *old(to) + amount,
        r is Err ==> r == Err::<(), _>(ChainferenceError::InsufficientFunds),
        r is Err ==> *final(from) == *old(from) && *final(to) == *old(to),
{
    if *from < amount {
        return Err(ChainferenceError::InsufficientFunds);
    }
    *from = *from - amount;
    *to = *to + amount;
    Ok(())
}

} // verus!
