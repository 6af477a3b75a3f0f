use solana_keypair::Keypair;
use solana_signer::Signer;
use solana_transaction::Transaction;
use solana_tx_p2p::election::RRElectionWorkerType;
use solana_tx_p2p::peer::PeerWorkerInboundEvent;
use solana_tx_p2p::replicated::ReplicatedState;
use solana_tx_p2p::signer::{SignerInboundEvent, SignerInput, SignerOutcome, SolanaSigner};

const PROGRAM: [u8; 32] = [9u8; 32];
const BLOCKHASH: [u8; 32] = [3u8; 32];

fn signer(name: &str) -> (SolanaSigner, Keypair) {
    let keypair = Keypair::new();
    (SolanaSigner::new(name.to_string(), keypair.to_bytes(), PROGRAM), keypair)
}

fn leading(name: &str) -> ReplicatedState {
    let mut state = ReplicatedState::new(name.to_string());
    state.set_leader(RRElectionWorkerType::Signer, name.to_string());
    state
}

fn raw(bytes: &[u8]) -> SignerInput {
    SignerInput::Inbound(Some(SignerInboundEvent::RawMessage(bytes.to_vec())))
}

fn borsh_text(data: &[u8]) -> String {
    let len = u32::from_le_bytes([data[0], data[1], data[2], data[3]]) as usize;
    assert_eq!(data.len(), 4 + len);
    String::from_utf8(data[4..].to_vec()).expect("text")
}

fn emitted(event: Option<PeerWorkerInboundEvent>) -> Transaction {
    match event {
        Some(PeerWorkerInboundEvent::Transaction(transaction)) => transaction,
        other => panic!("unexpected event {other:?}"),
    }
}

#[test]
fn signer_keeps_what_it_was_made_with() {
    let (signer, keypair) = signer("P");
    assert_eq!(signer.peer_id(), "P");
    assert_eq!(signer.program_id(), PROGRAM);
    assert_eq!(signer.payer_address(), keypair.pubkey().to_bytes());
}

#[test]
fn payload_is_the_message_and_the_signer() {
    let (signer, _) = signer("P");
    assert_eq!(signer.payload(&b"hello".to_vec()), "hello, Signer: P");
    assert_eq!(signer.payload(&Vec::new()), ", Signer: P");
    assert_eq!(signer.payload(&"h\u{e9}".as_bytes().to_vec()), "h\u{e9}, Signer: P");
}

#[test]
fn payload_replaces_bytes_that_are_no_text() {
    let (signer, _) = signer("P");
    assert_eq!(signer.payload(&vec![b'a', 0xff, b'b']), "a\u{fffd}b, Signer: P");
}

#[test]
fn signed_payload_format() {
    let (signer, keypair) = signer("P");
    let state = leading("P");
    let payload = match signer.start(&state, raw(b"hello")) {
        SignerOutcome::Sign(payload) => payload,
        other => panic!("unexpected outcome {other:?}"),
    };
    assert_eq!(payload, "hello, Signer: P");
    let transaction = emitted(signer.finish(&payload, Some(BLOCKHASH)));
    assert_eq!(transaction.message.instructions.len(), 1);
    let instruction = &transaction.message.instructions[0];
    assert_eq!(borsh_text(&instruction.data), "hello, Signer: P");
    assert!(instruction.accounts.is_empty());
    let program = transaction.message.account_keys[instruction.program_id_index as usize];
    assert_eq!(program.to_bytes(), PROGRAM);
    assert_eq!(transaction.message.account_keys[0], keypair.pubkey());
    assert_eq!(transaction.message.header.num_required_signatures, 1);
}

#[test]
fn emitted_transaction_is_signed_once_by_the_payer_over_the_block_hash() {
    let (signer, keypair) = signer("P");
    let transaction = emitted(signer.finish(&"hello, Signer: P".to_string(), Some(BLOCKHASH)));
    assert!(transaction.is_signed());
    assert_eq!(transaction.message.recent_blockhash.to_bytes(), BLOCKHASH);
    assert_eq!(transaction.signatures.len(), 1);
    assert!(transaction.signatures[0].verify(keypair.pubkey().as_ref(), &transaction.message_data()));
    assert_eq!(transaction.message.account_keys[0], keypair.pubkey());
}

#[test]
fn signing_is_a_function_of_what_is_signed() {
    let (signer, _) = signer("P");
    let first = emitted(signer.finish(&"hello".to_string(), Some(BLOCKHASH)));
    let again = emitted(signer.finish(&"hello".to_string(), Some(BLOCKHASH)));
    assert_eq!(first, again);
    let other_text = emitted(signer.finish(&"hullo".to_string(), Some(BLOCKHASH)));
    assert_ne!(first, other_text);
    let other_hash = emitted(signer.finish(&"hello".to_string(), Some([4u8; 32])));
    assert_ne!(first, other_hash);
    assert_ne!(first.signatures, other_hash.signatures);
}

#[test]
fn payload_without_a_block_hash_is_dropped_and_the_next_is_signed() {
    let (signer, _) = signer("P");
    let state = leading("P");
    let SignerOutcome::Sign(first) = signer.start(&state, raw(b"m1")) else {
        panic!("the leader signs")
    };
    assert!(signer.finish(&first, None).is_none());
    let SignerOutcome::Sign(second) = signer.start(&state, raw(b"m2")) else {
        panic!("the leader signs")
    };
    let transaction = emitted(signer.finish(&second, Some(BLOCKHASH)));
    assert_eq!(borsh_text(&transaction.message.instructions[0].data), "m2, Signer: P");
    assert_eq!(transaction.message.recent_blockhash.to_bytes(), BLOCKHASH);
}

#[test]
fn bytes_that_are_no_key_pair_sign_nothing() {
    let signer = SolanaSigner::new("P".to_string(), [7u8; 64], PROGRAM);
    assert!(signer.finish(&"hello".to_string(), Some(BLOCKHASH)).is_none());
}

#[test]
fn longest_payload_that_fits_is_signed_and_a_longer_one_is_ignored() {
    let (signer, _) = signer("P");
    let state = leading("P");
    // The payload is the message and eleven more bytes.
    let fits = vec![b'a'; 65531 - 11];
    let SignerOutcome::Sign(payload) = signer.start(&state, raw(&fits)) else {
        panic!("the longest payload fits")
    };
    assert_eq!(payload.len(), 65531);
    let transaction = emitted(signer.finish(&payload, Some(BLOCKHASH)));
    assert_eq!(transaction.message.instructions[0].data.len(), 65535);
    let too_long = vec![b'a'; 65531 - 10];
    assert!(matches!(signer.start(&state, raw(&too_long)), SignerOutcome::Ignore));
}

#[test]
fn signer_ignores_messages_while_another_peer_leads() {
    let (signer, _) = signer("P");
    let placeholder = ReplicatedState::new("P".to_string());
    assert!(!signer.is_leader(&placeholder));
    assert!(matches!(signer.start(&placeholder, raw(b"hello")), SignerOutcome::Ignore));
    let mut other = ReplicatedState::new("P".to_string());
    other.set_leader(RRElectionWorkerType::Signer, "Q".to_string());
    assert!(matches!(signer.start(&other, raw(b"hello")), SignerOutcome::Ignore));
    // Leading the relayer role is of no account.
    let mut relayer = ReplicatedState::new("P".to_string());
    relayer.set_leader(RRElectionWorkerType::Relayer, "P".to_string());
    assert!(matches!(signer.start(&relayer, raw(b"hello")), SignerOutcome::Ignore));
}

#[test]
fn signer_reads_the_leader_at_each_message() {
    let (signer, _) = signer("P");
    let mut state = ReplicatedState::new("P".to_string());
    assert!(matches!(signer.start(&state, raw(b"1")), SignerOutcome::Ignore));
    state.set_leader(RRElectionWorkerType::Signer, "P".to_string());
    assert!(signer.is_leader(&state));
    assert!(matches!(signer.start(&state, raw(b"2")), SignerOutcome::Sign(_)));
    state.set_leader(RRElectionWorkerType::Signer, "Q".to_string());
    assert!(matches!(signer.start(&state, raw(b"3")), SignerOutcome::Ignore));
}

#[test]
fn signer_stops_on_shutdown_and_on_a_closed_queue() {
    let (signer, _) = signer("P");
    let state = leading("P");
    assert!(matches!(signer.start(&state, SignerInput::Stop), SignerOutcome::Stop));
    assert!(matches!(signer.start(&state, SignerInput::Inbound(None)), SignerOutcome::Stop));
}
