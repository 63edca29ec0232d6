use anchor_lang::prelude::ProgramError;
use chainference::{
    add_server, add_server_at, close_server, Account, AddServerCtx, AddServerError,
    ChainferenceError, CloseServerCtx, ModelListing, Pubkey, ServerAccount, Wallet, MAX_LISTINGS,
};

fn party(tag: u8) -> Pubkey {
    Pubkey::new_from_array([tag; 32])
}

fn listing(id: &str, price: u64) -> ModelListing {
    ModelListing { id: String::from(id), price }
}

fn listings(count: usize) -> Vec<ModelListing> {
    (0..count).map(|i| listing(&format!("model-{}", i), i as u64)).collect()
}

fn fresh(owner: Pubkey) -> AddServerCtx {
    AddServerCtx {
        server_account: Account::vacant(2_000),
        owner: Wallet { key: owner, lamports: 10_000 },
    }
}

#[test]
fn add_server_at_writes_owner_listings_and_time() {
    let provider = party(2);
    let mut ctx = fresh(provider);
    let models = vec![listing("m1", 15), listing("m2", 40)];
    assert_eq!(add_server_at(&mut ctx, models.clone(), 1_700_000_000), Ok(()));
    assert_eq!(
        ctx.server_account.data,
        Some(ServerAccount { owner: provider, models, last_heartbeat: 1_700_000_000 })
    );
    assert_eq!(ctx.server_account.lamports, 2_000);
    assert_eq!(ctx.owner, Wallet { key: provider, lamports: 10_000 });
}

#[test]
fn add_server_at_replaces_the_listings_as_a_whole() {
    let provider = party(2);
    let mut ctx = fresh(provider);
    assert_eq!(add_server_at(&mut ctx, vec![listing("m1", 15), listing("m2", 40)], 100), Ok(()));
    assert_eq!(add_server_at(&mut ctx, vec![listing("m3", 9)], 250), Ok(()));
    let registry = ctx.server_account.data.unwrap();
    assert_eq!(registry.owner, provider);
    assert_eq!(registry.models, vec![listing("m3", 9)]);
    assert_eq!(registry.last_heartbeat, 250);
}

#[test]
fn add_server_at_accepts_an_empty_list() {
    let mut ctx = fresh(party(2));
    assert_eq!(add_server_at(&mut ctx, Vec::new(), -5), Ok(()));
    let registry = ctx.server_account.data.unwrap();
    assert!(registry.models.is_empty());
    assert_eq!(registry.last_heartbeat, -5);
}

#[test]
fn add_server_at_accepts_exactly_256_listings() {
    assert_eq!(MAX_LISTINGS, 256);
    let mut ctx = fresh(party(2));
    assert_eq!(add_server_at(&mut ctx, listings(256), 1), Ok(()));
    assert_eq!(ctx.server_account.data.unwrap().models.len(), 256);
}

#[test]
fn add_server_at_rejects_257_listings() {
    let mut ctx = fresh(party(2));
    assert_eq!(add_server_at(&mut ctx, listings(257), 1), Err(ChainferenceError::TooManyListings));
    assert_eq!(ctx.server_account, Account::vacant(2_000));
    assert_eq!(ctx.owner, Wallet { key: party(2), lamports: 10_000 });
}

#[test]
fn add_server_at_rejected_keeps_the_earlier_registry() {
    let provider = party(2);
    let mut ctx = fresh(provider);
    assert_eq!(add_server_at(&mut ctx, vec![listing("m1", 15)], 100), Ok(()));
    assert_eq!(add_server_at(&mut ctx, listings(300), 200), Err(ChainferenceError::TooManyListings));
    assert_eq!(
        ctx.server_account.data,
        Some(ServerAccount { owner: provider, models: vec![listing("m1", 15)], last_heartbeat: 100 })
    );
}

#[test]
fn add_server_at_rejects_the_registry_of_another_provider() {
    let existing =
        ServerAccount { owner: party(2), models: vec![listing("m1", 15)], last_heartbeat: 100 };
    let mut ctx = AddServerCtx {
        server_account: Account { lamports: 2_000, data: Some(existing.clone()) },
        owner: Wallet { key: party(3), lamports: 1 },
    };
    assert_eq!(add_server_at(&mut ctx, vec![listing("m9", 1)], 200), Err(ChainferenceError::NotOwner));
    assert_eq!(ctx.server_account.data, Some(existing));
}

#[test]
fn add_server_at_tests_the_owner_before_the_count() {
    let existing = ServerAccount { owner: party(2), models: Vec::new(), last_heartbeat: 100 };
    let mut ctx = AddServerCtx {
        server_account: Account { lamports: 0, data: Some(existing) },
        owner: Wallet { key: party(3), lamports: 1 },
    };
    assert_eq!(add_server_at(&mut ctx, listings(257), 200), Err(ChainferenceError::NotOwner));
}

#[test]
fn provides_finds_a_listed_model_only() {
    let registry = ServerAccount {
        owner: party(2),
        models: vec![listing("m1", 15), listing("m2", 40)],
        last_heartbeat: 0,
    };
    assert!(registry.provides(&String::from("m1")));
    assert!(registry.provides(&String::from("m2")));
    assert!(!registry.provides(&String::from("m3")));
    assert!(!registry.provides(&String::from("m")));
    assert!(!registry.provides(&String::new()));
    let empty = ServerAccount { owner: party(2), models: Vec::new(), last_heartbeat: 0 };
    assert!(!empty.provides(&String::from("m1")));
}

#[test]
fn close_server_destroys_the_registry_and_refunds_the_deposit() {
    let provider = party(2);
    let mut ctx = CloseServerCtx {
        server_account: Account {
            lamports: 2_000,
            data: Some(ServerAccount {
                owner: provider,
                models: vec![listing("m1", 15)],
                last_heartbeat: 100,
            }),
        },
        owner: Wallet { key: provider, lamports: 10_000 },
    };
    assert_eq!(close_server(&mut ctx), Ok(()));
    assert_eq!(ctx.server_account, Account::vacant(0));
    assert_eq!(ctx.owner, Wallet { key: provider, lamports: 12_000 });
}

#[test]
fn close_server_rejects_a_caller_who_is_not_the_owner() {
    let account = Account {
        lamports: 2_000,
        data: Some(ServerAccount { owner: party(2), models: Vec::new(), last_heartbeat: 100 }),
    };
    let mut ctx = CloseServerCtx {
        server_account: account.clone(),
        owner: Wallet { key: party(3), lamports: 10_000 },
    };
    assert_eq!(close_server(&mut ctx), Err(ChainferenceError::NotOwner));
    assert_eq!(ctx.server_account, account);
    assert_eq!(ctx.owner, Wallet { key: party(3), lamports: 10_000 });
}

#[test]
fn close_server_rejects_where_there_is_no_registry() {
    let mut ctx = CloseServerCtx {
        server_account: Account::vacant(2_000),
        owner: Wallet { key: party(2), lamports: 10_000 },
    };
    assert_eq!(close_server(&mut ctx), Err(ChainferenceError::NotOwner));
    assert_eq!(ctx.server_account, Account::vacant(2_000));
    assert_eq!(ctx.owner.lamports, 10_000);
}

#[test]
fn close_server_twice_pays_once() {
    let provider = party(2);
    let mut ctx = CloseServerCtx {
        server_account: Account {
            lamports: 2_000,
            data: Some(ServerAccount { owner: provider, models: Vec::new(), last_heartbeat: 1 }),
        },
        owner: Wallet { key: provider, lamports: 0 },
    };
    assert_eq!(close_server(&mut ctx), Ok(()));
    assert_eq!(close_server(&mut ctx), Err(ChainferenceError::NotOwner));
    assert_eq!(ctx.owner.lamports, 2_000);
}

#[test]
fn add_server_without_a_ledger_cannot_read_the_clock() {
    let mut ctx = fresh(party(2));
    assert_eq!(
        add_server(&mut ctx, vec![listing("m1", 15)]),
        Err(AddServerError::Clock(ProgramError::UnsupportedSysvar))
    );
    assert_eq!(ctx, fresh(party(2)));
}

#[test]
fn add_server_rejects_257_listings_before_it_reads_the_clock() {
    let mut ctx = fresh(party(2));
    assert_eq!(
        add_server(&mut ctx, listings(257)),
        Err(AddServerError::Rejected(ChainferenceError::TooManyListings))
    );
    assert_eq!(ctx, fresh(party(2)));
    assert_eq!(
        add_server(&mut ctx, listings(256)),
        Err(AddServerError::Clock(ProgramError::UnsupportedSysvar))
    );
}

#[test]
fn add_server_rejects_the_registry_of_another_provider_before_it_reads_the_clock() {
    let existing = ServerAccount { owner: party(2), models: Vec::new(), last_heartbeat: 100 };
    let mut ctx = AddServerCtx {
        server_account: Account { lamports: 0, data: Some(existing.clone()) },
        owner: Wallet { key: party(3), lamports: 1 },
    };
    assert_eq!(
        add_server(&mut ctx, vec![listing("m1", 15)]),
        Err(AddServerError::Rejected(ChainferenceError::NotOwner))
    );
    assert_eq!(ctx.server_account.data, Some(existing));
}
