use chainference::{
    endpoint_fits, request_account_space, server_account_space, Account, CancelRequestCtx,
    ClaimPaymentCtx, CloseServerCtx, InferenceRequestAccount, ModelListing, Pubkey,
    RequestInferenceCtx, ServerAccount, Wallet, MAX_ENDPOINT_LEN,
};

fn holder(tag: u8, lamports: u64) -> Wallet {
    Wallet { key: Pubkey::new_from_array([tag; 32]), lamports }
}

fn some_request(lamports: u64) -> Account<InferenceRequestAccount> {
    Account {
        lamports,
        data: Some(InferenceRequestAccount {
            requester: Pubkey::new_from_array([1; 32]),
            model: String::from("m1"),
            max_cost: 10,
            locked_by: None,
            send_prompt_to: String::new(),
        }),
    }
}

#[test]
fn server_account_space_of_no_listings_is_the_base() {
    assert_eq!(server_account_space(&Vec::new()), Some(52));
}

#[test]
fn server_account_space_adds_each_listing_and_its_id() {
    let models = vec![
        ModelListing { id: String::from("m1"), price: 15 },
        ModelListing { id: String::from("meta-llama/Llama-3.1-8B"), price: 40 },
        ModelListing { id: String::new(), price: 0 },
    ];
    assert_eq!(server_account_space(&models), Some(52 + (12 + 2) + (12 + 23) + 12));
}

#[test]
fn server_account_space_counts_bytes_not_characters() {
    let models = vec![ModelListing { id: String::from("modèle-é"), price: 1 }];
    assert_eq!(server_account_space(&models), Some(52 + 12 + 10));
}

#[test]
fn request_account_space_adds_the_model_id() {
    assert_eq!(request_account_space(&String::new()), Some(217));
    assert_eq!(request_account_space(&String::from("m1")), Some(219));
    assert_eq!(request_account_space(&String::from("é")), Some(219));
}

#[test]
fn endpoint_fits_up_to_128_bytes() {
    assert_eq!(MAX_ENDPOINT_LEN, 128);
    assert!(endpoint_fits(&String::new()));
    assert!(endpoint_fits(&String::from("https://provider.example/prompt")));
    assert!(endpoint_fits(&"a".repeat(128)));
    assert!(!endpoint_fits(&"a".repeat(129)));
    assert!(endpoint_fits(&"é".repeat(64)));
    assert!(!endpoint_fits(&"é".repeat(65)));
}

#[test]
fn close_server_context_is_well_formed_while_the_sum_fits() {
    let registry = |lamports| Account {
        lamports,
        data: Some(ServerAccount {
            owner: Pubkey::new_from_array([2; 32]),
            models: Vec::new(),
            last_heartbeat: 0,
        }),
    };
    assert!(CloseServerCtx { server_account: registry(5), owner: holder(2, u64::MAX - 5) }.is_wf());
    assert!(!CloseServerCtx { server_account: registry(6), owner: holder(2, u64::MAX - 5) }.is_wf());
}

#[test]
fn request_inference_context_needs_a_vacant_account() {
    assert!(RequestInferenceCtx { request: Account::vacant(7), requester: holder(1, 9) }.is_wf());
    assert!(!RequestInferenceCtx { request: some_request(7), requester: holder(1, 9) }.is_wf());
    assert!(
        !RequestInferenceCtx { request: Account::vacant(1), requester: holder(1, u64::MAX) }
            .is_wf()
    );
    assert!(
        RequestInferenceCtx { request: Account::vacant(0), requester: holder(1, u64::MAX) }.is_wf()
    );
}

#[test]
fn cancel_request_context_is_well_formed_while_the_sum_fits() {
    assert!(CancelRequestCtx { request: some_request(7), requester: holder(1, 9) }.is_wf());
    assert!(!CancelRequestCtx { request: some_request(7), requester: holder(1, u64::MAX - 6) }
        .is_wf());
}

#[test]
fn claim_payment_context_counts_each_wallet_once() {
    let half = u64::MAX / 2;
    let two_parties = |provider: u64, requester: u64, custody: u64| ClaimPaymentCtx {
        request: some_request(custody),
        server_owner: holder(2, provider),
        requester: holder(1, requester),
    };
    assert!(two_parties(70, 4_000, 1_000).is_wf());
    assert!(two_parties(half, half, 1).is_wf());
    assert!(!two_parties(half, half, 2).is_wf());
    assert!(!two_parties(u64::MAX, 0, 1).is_wf());

    let one_party = |first: u64, second: u64, custody: u64| ClaimPaymentCtx {
        request: some_request(custody),
        server_owner: holder(1, first),
        requester: holder(1, second),
    };
    assert!(one_party(4_000, 4_000, 1_000).is_wf());
    assert!(!one_party(4_000, 4_001, 1_000).is_wf());
    assert!(one_party(u64::MAX - 1_000, u64::MAX - 1_000, 1_000).is_wf());
    assert!(!one_party(u64::MAX - 999, u64::MAX - 999, 1_000).is_wf());
}
