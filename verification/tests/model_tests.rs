use solana_signer::Signer;
use solana_tx_p2p::chain::{
    create_solana_client, get_transaction, ClientAction, ClientProgress, Commitment, Encoding,
    AIRDROP_LAMPORTS,
};
use solana_tx_p2p::error::Error;
use solana_tx_p2p::model::{
    transaction_detail, CompiledInstructionForUtoipa, ConfirmedTransaction, MessageForUtoipa,
    MessageHeaderForUtoipa, TransactionDetail, TransactionForUtoipa,
};
use solana_tx_p2p::peer::PeerWorker;

fn identity() -> (String, String) {
    let keys = PeerWorker::generate_keypair().expect("a fresh key pair");
    let chain = solana_keypair::Keypair::try_from(&keys.key_pair()[..]).expect("a key pair");
    (chain.pubkey().to_string(), keys.identity().public().to_peer_id().to_base58())
}

#[test]
fn detail_names_the_signers_by_their_peer_ids() {
    let (first_address, first_name) = identity();
    let (second_address, second_name) = identity();
    let program = "11111111111111111111111111111111".to_string();
    let detail = TransactionDetail::from_confirmed(ConfirmedTransaction {
        signatures: vec!["first".to_string(), "second".to_string()],
        account_keys: vec![first_address.clone(), second_address.clone(), program.clone()],
        num_required_signatures: 2,
        log_messages: Some(vec!["Hello, world!".to_string()]),
    })
    .expect("details");
    assert_eq!(detail.signatures(), &vec!["first".to_string(), "second".to_string()]);
    assert_eq!(detail.account_keys(), &vec![first_address, second_address, program]);
    assert_eq!(detail.signers(), &vec![first_name, second_name]);
    assert_eq!(detail.log_messages(), &vec!["Hello, world!".to_string()]);
}

#[test]
fn detail_without_log_has_an_empty_log() {
    let (address, name) = identity();
    let detail = TransactionDetail::from_confirmed(ConfirmedTransaction {
        signatures: Vec::new(),
        account_keys: vec![address, "not an address".to_string()],
        num_required_signatures: 1,
        log_messages: None,
    })
    .expect("details");
    assert_eq!(detail.signers(), &vec![name]);
    assert!(detail.log_messages().is_empty());
    assert!(detail.signatures().is_empty());
}

#[test]
fn detail_without_signers() {
    let detail = TransactionDetail::from_confirmed(ConfirmedTransaction {
        signatures: Vec::new(),
        account_keys: Vec::new(),
        num_required_signatures: 0,
        log_messages: None,
    })
    .expect("details");
    assert!(detail.signers().is_empty());
    assert!(detail.account_keys().is_empty());
}

#[test]
fn no_detail_where_signers_outnumber_the_account_keys() {
    let (address, _) = identity();
    let detail = TransactionDetail::from_confirmed(ConfirmedTransaction {
        signatures: Vec::new(),
        account_keys: vec![address],
        num_required_signatures: 2,
        log_messages: None,
    });
    assert!(detail.is_none());
}

#[test]
fn no_detail_where_a_signer_key_is_no_address() {
    let (address, _) = identity();
    let detail = TransactionDetail::from_confirmed(ConfirmedTransaction {
        signatures: Vec::new(),
        account_keys: vec![address, "not an address".to_string()],
        num_required_signatures: 2,
        log_messages: None,
    });
    assert!(detail.is_none());
}

#[test]
fn shown_transaction_holds_plain_values() {
    let shown = TransactionForUtoipa {
        signatures: vec!["s".to_string()],
        message: MessageForUtoipa {
            header: MessageHeaderForUtoipa {
                num_required_signatures: 1,
                num_readonly_signed_accounts: 0,
                num_readonly_unsigned_accounts: 1,
            },
            account_keys: vec!["payer".to_string(), "program".to_string()],
            recent_blockhash: "hash".to_string(),
            instructions: vec![CompiledInstructionForUtoipa {
                program_id_index: 1,
                accounts: Vec::new(),
                data: vec![1, 2, 3],
            }],
        },
    };
    assert_eq!(shown.message.header.num_required_signatures as usize, shown.signatures.len());
    assert_eq!(shown.message.account_keys[shown.message.instructions[0].program_id_index as usize], "program");
}

#[test]
fn lookup_of_a_signature_asks_for_confirmed_json_of_version_zero() {
    let signature = solana_signature::Signature::from([5u8; 64]);
    let lookup = get_transaction(&signature.to_string()).expect("a signature");
    assert_eq!(lookup.signature, [5u8; 64]);
    assert_eq!(lookup.encoding, Encoding::Json);
    assert_eq!(lookup.commitment, Commitment::Confirmed);
    assert_eq!(lookup.max_supported_transaction_version, 0);
}

#[test]
fn lookup_of_text_that_is_no_signature_is_refused() {
    for text in ["", "abc", "0OIl", "11111111111111111111111111111111"] {
        match get_transaction(text) {
            Err(Error::ParseSolanaSignature { source }) => assert!(!source.is_empty()),
            other => panic!("unexpected result {other:?}"),
        }
    }
}

#[test]
fn client_setup_asks_for_one_airdrop_and_polls_its_confirmation() {
    assert_eq!(AIRDROP_LAMPORTS, 1_000_000_000);
    assert!(matches!(
        create_solana_client(ClientProgress::Connected),
        ClientAction::RequestAirdrop(1_000_000_000)
    ));
    assert!(matches!(
        create_solana_client(ClientProgress::AirdropRequested(Ok(()))),
        ClientAction::ConfirmAirdrop
    ));
    assert!(matches!(
        create_solana_client(ClientProgress::ConfirmationChecked(Ok(false))),
        ClientAction::ConfirmAirdrop
    ));
    assert!(matches!(
        create_solana_client(ClientProgress::ConfirmationChecked(Ok(true))),
        ClientAction::Ready
    ));
}

#[test]
fn client_setup_fails_where_the_chain_refuses() {
    match create_solana_client(ClientProgress::AirdropRequested(Err("no funds".to_string()))) {
        ClientAction::Fail(Error::RequestAirdrop { source }) => assert_eq!(source, "no funds"),
        other => panic!("unexpected action {other:?}"),
    }
    match create_solana_client(ClientProgress::ConfirmationChecked(Err("timeout".to_string()))) {
        ClientAction::Fail(Error::ConfirmSolanaTransaction { source }) => {
            assert_eq!(source, "timeout")
        }
        other => panic!("unexpected action {other:?}"),
    }
}

#[test]
fn found_transaction_gives_its_details() {
    let (address, name) = identity();
    let told = transaction_detail(
        "5sig".to_string(),
        Ok(ConfirmedTransaction {
            signatures: vec!["5sig".to_string()],
            account_keys: vec![address.clone()],
            num_required_signatures: 1,
            log_messages: None,
        }),
    )
    .expect("details");
    assert_eq!(told.signatures(), &vec!["5sig".to_string()]);
    assert_eq!(told.account_keys(), &vec![address]);
    assert_eq!(told.signers(), &vec![name]);
}

#[test]
fn failed_lookup_names_the_signature_and_the_reason() {
    match transaction_detail("5sig".to_string(), Err("not found".to_string())) {
        Err(Error::GetSolanaTransaction { signature, source }) => {
            assert_eq!(signature, "5sig");
            assert_eq!(source, "not found");
        }
        other => panic!("unexpected result {other:?}"),
    }
}

#[test]
fn found_transaction_without_details_is_an_error() {
    let told = transaction_detail(
        "5sig".to_string(),
        Ok(ConfirmedTransaction {
            signatures: Vec::new(),
            account_keys: vec!["not an address".to_string()],
            num_required_signatures: 1,
            log_messages: None,
        }),
    );
    match told {
        Err(Error::GetSolanaTransaction { signature, source }) => {
            assert_eq!(signature, "5sig");
            assert_eq!(source, "a signer of the transaction is no peer");
        }
        other => panic!("unexpected result {other:?}"),
    }
}
