//! How many bytes a record takes in its account.
//!
//! An account is sized when it is created, from what the record holds then:
//! 8 bytes of type tag, 32 bytes per identity, 8 bytes per number, 4 bytes of
//! length before every string and list, the bytes of each string, and one
//! byte before an optional value. The place to send results to is set later,
//! so its room is reserved at the largest length.

use vstd::prelude::*;
use vstd::utf8::{encode_scalar, encode_utf8};
use crate::account::{listing_views, ModelListing};
use crate::model::{byte_len, ListingView, MAX_ENDPOINT_LEN};

verus! {

/// The bytes of a registry without its listings: the tag, the owner, the
/// length of the list, and the time of the last heartbeat.
pub const SERVER_BASE_SPACE: usize = 8 + 32 + 4 + 8;

/// The bytes of a listing without its model id: the length of the id, and
/// the price.
pub const LISTING_BASE_SPACE: usize = 4 + 8;

/// The bytes of a request without its model id: the tag, the requester, the
/// length of the id, the cost ceiling, the optional lock, and the place to
/// send results to at its largest.
pub const REQUEST_BASE_SPACE: usize = 8 + 32 + 4 + 8 + (1 + 32) + (4 + MAX_ENDPOINT_LEN);

/// The bytes of one listing.
pub open spec fn listing_space(listing: ListingView) -> nat {
    LISTING_BASE_SPACE as nat + byte_len(listing.id)
}

/// The bytes of the listings `models`.
pub open spec fn listings_space(models: Seq<ListingView>) -> nat
    decreases models.len(),
{
    if models.len() == 0 {
        0
    } else {
        listings_space(models.drop_last()) + listing_space(models.last())
    }
}

/// The bytes of a registry that holds `models`.
pub open spec fn server_space(models: Seq<ListingView>) -> nat {
    SERVER_BASE_SPACE as nat + listings_space(models)
}

/// The bytes of a request for `model`.
pub open spec fn request_space(model: Seq<char>) -> nat {
    REQUEST_BASE_SPACE as nat + byte_len(model)
}

/// A text takes at least one byte and at most four for each of its
/// characters.
pub proof fn lemma_byte_len_bounds(text: Seq<char>)
    ensures
        text.len() <= byte_len(text) <= 4 * text.len(),
    decreases text.len(),
{
    if text.len() > 0 {
        lemma_byte_len_bounds(text.drop_first());
        let first = encode_scalar(text[0] as u32);
        assert(1 <= first.len() <= 4);
        assert(encode_utf8(text) == first + encode_utf8(text.drop_first()));
    }
}

/// The listings up to a place take no more bytes than all of them.
pub proof fn lemma_listings_space_grows(models: Seq<ListingView>, n: int)
    requires
        0 <= n <= models.len(),
    ensures
        listings_space(models.take(n)) <= listings_space(models),
    decreases models.len() - n,
{
    if n == models.len() {
        assert(models.take(n) == models);
    } else {
        lemma_listings_space_grows(models, n + 1);
        assert(models.take(n + 1).drop_last() == models.take(n));
    }
}

/// The length of `text` in bytes.
fn string_len(text: &String) -> (len: usize)
    ensures
        len == byte_len(text@),
{
    text.as_str().as_bytes().len()
}

/// The bytes that the account of a registry with `models` needs, or `None`
/// where that is more than a `usize` holds.
pub fn server_account_space(models: &Vec<ModelListing>) -> (space: Option<usize>)
    ensures
        (match space {
            Some(bytes) => bytes == server_space(listing_views(models@)),
            None => server_space(listing_views(models@)) > usize::MAX,
        }),
{
    let ghost views = listing_views(models@);
    let mut total: usize = SERVER_BASE_SPACE;
    let mut i: usize = 0;
    assert(views.take(0) == Seq::<ListingView>::empty());
    while i < models.len()
        invariant
            i <= models.len(),
            views == listing_views(models@),
            total == SERVER_BASE_SPACE + listings_space(views.take(i as int)),
        decreases models.len() - i,
    {
        proof {
            lemma_listings_space_grows(views, i + 1);
            assert(views.take(i + 1).drop_last() == views.take(i as int));
            assert(views.take(i + 1).last() == models@[i as int]@);
        }
        let listing = match LISTING_BASE_SPACE.checked_add(string_len(&models[i].id)) {
            Some(bytes) => bytes,
            None => {
                return None;
            },
        };
        total = match total.checked_add(listing) {
            Some(bytes) => bytes,
            None => {
                return None;
            },
        };
        i += 1;
    }
    assert(views.take(i as int) == views);
    Some(total)
}

/// The bytes that the account of a request for `model` needs, or `None`
/// where that is more than a `usize` holds.
pub fn request_account_space(model: &String) -> (space: Option<usize>)
    ensures
        (match space {
            Some(bytes) => bytes == request_space(model@),
            None => request_space(model@) > usize::MAX,
        }),
{
    REQUEST_BASE_SPACE.checked_add(string_len(model))
}

/// Whether `send_prompt_to` fits in the room that a request reserves for it.
pub fn endpoint_fits(send_prompt_to: &String) -> (fits: bool)
    ensures
        fits == (byte_len(send_prompt_to@) <= MAX_ENDPOINT_LEN),
{
    string_len(send_prompt_to) <= MAX_ENDPOINT_LEN
}

} // verus!
