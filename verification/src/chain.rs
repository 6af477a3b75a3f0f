//! The on-chain side of the node: keys, instructions and transactions as
//! the Solana crates build them.

use vstd::prelude::*;

use crate::error::Error;

use solana_instruction::{AccountMeta, Instruction};
use solana_keypair::Keypair;
use solana_pubkey::Pubkey;
use solana_signer::Signer;
use solana_transaction::Transaction;

verus! {

/// A transaction as `solana_transaction` holds it. The node carries
/// transactions about and never looks inside one.
#[verifier::external_type_specification]
#[verifier::external_body]
pub struct ExTransaction(solana_transaction::Transaction);

/// The mention of an account in an instruction as `solana_instruction`
/// holds it.
#[verifier::external_type_specification]
#[verifier::external_body]
pub struct ExAccountMeta(solana_instruction::AccountMeta);

/// The half of the 64 bytes of a key pair that is the public key: the
/// secret half comes first.
pub open spec fn public_half(key_pair: Seq<u8>) -> Seq<u8> {
    key_pair.subrange(32, 64)
}

/// The public half of a key pair.
pub fn public_half_of(key_pair: &[u8; 64]) -> (public_key: [u8; 32])
    ensures
        public_key@ == public_half(key_pair@),
{
    let mut public_key: [u8; 32] = [0u8; 32];
    let mut index: usize = 0;
    while index < 32
        invariant
            index <= 32,
            forall|j: int| 0 <= j < index ==> public_key@[j] == key_pair@[32 + j],
        decreases 32 - index,
    {
        public_key[index] = key_pair[32 + index];
        index += 1;
    }
    assert(public_key@ =~= public_half(key_pair@));
    public_key
}

/// Whether 64 bytes are a key pair of the chain, as `Keypair::try_from`
/// of `solana_keypair` judges it: the second half must be the public key
/// of the first.
pub uninterp spec fn is_key_pair(key_pair: Seq<u8>) -> bool;

/// Asks `Keypair::try_from` of `solana_keypair` whether the 64 bytes are
/// a key pair.
#[verifier::external_body]
pub(crate) fn accepts_key_pair(key_pair: &[u8; 64]) -> (accepted: bool)
    ensures
        accepted == is_key_pair(key_pair@),
{
    Keypair::try_from(&key_pair[..]).is_ok()
}

/// The signed transaction that carries `text` to the program at
/// `program_id`: `Keypair::try_from` reads the key pair,
/// `Instruction::new_with_borsh` makes the one instruction, with `text` as
/// its data and no accounts, `Transaction::new_with_payer` wraps it for
/// the address of the key pair, and `Transaction::try_sign` signs it with
/// the key pair over `recent_blockhash`. Nothing where the bytes are no
/// key pair or the signing fails.
pub uninterp spec fn signed_message_transaction(
    program_id: Seq<u8>,
    key_pair: Seq<u8>,
    text: Seq<char>,
    recent_blockhash: Seq<u8>,
) -> Option<solana_transaction::Transaction>;

/// Whether `text` is short enough to be the data of an instruction in a
/// transaction: its Borsh encoding, which is four bytes of length and
/// then its UTF-8 bytes, must be such as the wire form of a message can
/// count in sixteen bits.
pub open spec fn fits_instruction(text: Seq<char>) -> bool {
    vstd::utf8::encode_utf8(text).len() + 4 <= u16::MAX
}

/// Builds and signs the transaction that carries `text` to the program at
/// `program_id`, through `Keypair::try_from`,
/// `Instruction::new_with_borsh`, `Transaction::new_with_payer` and
/// `Transaction::try_sign`. All of them compute from their arguments
/// alone, and Ed25519 signs the same message with the same key in one way
/// only, so the result is named after the arguments. The text must be
/// short enough, else the encoding of the message fails; the accounts
/// handed in are none.
#[verifier::external_body]
pub(crate) fn sign_message(
    program_id: &[u8; 32],
    key_pair: &[u8; 64],
    text: &String,
    recent_blockhash: &[u8; 32],
    accounts: Vec<AccountMeta>,
) -> (signed: Option<Transaction>)
    requires
        accounts@.len() == 0,
        fits_instruction(text@),
    ensures
        signed == signed_message_transaction(
            program_id@,
            key_pair@,
            text@,
            recent_blockhash@,
        ),
{
    let Ok(keypair) = Keypair::try_from(&key_pair[..]) else { return None };
    let program = Pubkey::new_from_array(*program_id);
    let instruction = Instruction::new_with_borsh(program, text, accounts);
    let mut transaction = Transaction::new_with_payer(&[instruction], Some(&keypair.pubkey()));
    let recent_blockhash = solana_hash::Hash::new_from_array(*recent_blockhash);
    match transaction.try_sign(&[&keypair], recent_blockhash) {
        Ok(()) => Some(transaction),
        Err(_) => None,
    }
}

/// `Clone` of a transaction is derived from the clones of its signatures
/// and of its message, all plain data: the copy equals what it was made of.
pub assume_specification[ <solana_transaction::Transaction as Clone>::clone ](
    subject: &solana_transaction::Transaction,
) -> (copy: solana_transaction::Transaction)
    ensures
        copy == *subject,
;

/// A copy of every transaction of `list`, in the same order.
pub fn copy_transactions(list: &Vec<Transaction>) -> (copy: Vec<Transaction>)
    ensures
        copy@ == list@,
{
    let mut copy: Vec<Transaction> = Vec::new();
    let mut index: usize = 0;
    while index < list.len()
        invariant
            index <= list.len(),
            copy@ == list@.take(index as int),
        decreases list.len() - index,
    {
        copy.push(list[index].clone());
        assert(list@.take(index as int).push(list@[index as int]) =~= list@.take(index + 1));
        index += 1;
    }
    assert(list@.take(list@.len() as int) =~= list@);
    copy
}

/// The 64 bytes that the text `signature` stands for as the signature of a
/// transaction, as `Signature::from_str` of `solana_signature` reads it;
/// nothing where the text is no signature.
pub uninterp spec fn signature_of_text(signature: Seq<char>) -> Option<Seq<u8>>;

/// Reads the signature of a transaction from text through
/// `Signature::from_str` of `solana_signature`, which decodes base 58
/// into exactly 64 bytes or refuses; a refusal comes with its reason as
/// text, of which nothing is claimed.
#[verifier::external_body]
pub(crate) fn read_signature(signature: &str) -> (bytes: Result<[u8; 64], String>)
    ensures
        match bytes {
            Ok(bytes) => signature_of_text(signature@) == Some(bytes@),
            Err(_) => signature_of_text(signature@) is None,
        },
{
    match signature.parse::<solana_signature::Signature>() {
        Ok(signature) => Ok(signature.into()),
        Err(error) => Err(error.to_string()),
    }
}

/// How the chain is to encode a transaction that it hands out.
#[derive(Clone, Copy, Debug, PartialEq, Eq, Structural)]
pub enum Encoding {
    /// As JSON.
    Json,
}

/// How settled a transaction has to be for the chain to hand it out.
#[derive(Clone, Copy, Debug, PartialEq, Eq, Structural)]
pub enum Commitment {
    /// Confirmed by the cluster.
    Confirmed,
}

/// A request to the chain for the transaction with a given signature.
#[derive(Debug)]
pub struct TransactionLookup {
    /// The 64 bytes of the signature.
    pub signature: [u8; 64],
    /// How the transaction is to be encoded.
    pub encoding: Encoding,
    /// How settled the transaction has to be.
    pub commitment: Commitment,
    /// The highest version of transactions that the node can read.
    pub max_supported_transaction_version: u8,
}

/// The request for the transaction with the signature `signature`, given
/// as text: the transaction is to be confirmed, encoded as JSON, and of
/// version 0 at most. Text that is no signature is refused.
pub fn get_transaction(signature: &str) -> (lookup: Result<TransactionLookup, Error>)
    ensures
        match signature_of_text(signature@) {
            Some(bytes) => lookup is Ok && lookup->Ok_0.signature@ == bytes && lookup->Ok_0.encoding
                == Encoding::Json && lookup->Ok_0.commitment == Commitment::Confirmed
                && lookup->Ok_0.max_supported_transaction_version == 0,
            None => lookup is Err && lookup->Err_0 is ParseSolanaSignature,
        },
{
    match read_signature(signature) {
        Ok(bytes) => Ok(
            TransactionLookup {
                signature: bytes,
                encoding: Encoding::Json,
                commitment: Commitment::Confirmed,
                max_supported_transaction_version: 0,
            },
        ),
        Err(source) => Err(Error::ParseSolanaSignature { source }),
    }
}

/// What a node asks for in its first airdrop: one SOL, in lamports.
pub const AIRDROP_LAMPORTS: u64 = 1_000_000_000;

/// How far the setting up of the chain client has come.
#[derive(Debug)]
pub enum ClientProgress {
    /// The client exists; nothing has been asked of the chain yet.
    Connected,
    /// The chain has answered the request for an airdrop: it has taken
    /// it, or refused it for the reason given.
    AirdropRequested(Result<(), String>),
    /// The chain has answered whether the airdrop is confirmed, or has
    /// failed to for the reason given.
    ConfirmationChecked(Result<bool, String>),
}

/// What to do next in setting up the chain client.
#[derive(Debug)]
pub enum ClientAction {
    /// Ask the chain for an airdrop of so many lamports to the node's own
    /// account.
    RequestAirdrop(u64),
    /// Ask the chain whether the airdrop is confirmed.
    ConfirmAirdrop,
    /// The client is ready for use.
    Ready,
    /// The setting up has failed.
    Fail(Error),
}

/// What follows on `progress` in setting up the chain client.
pub open spec fn client_action(progress: ClientProgress) -> ClientAction {
    match progress {
        ClientProgress::Connected => ClientAction::RequestAirdrop(AIRDROP_LAMPORTS),
        ClientProgress::AirdropRequested(Ok(())) => ClientAction::ConfirmAirdrop,
        ClientProgress::AirdropRequested(Err(source)) => ClientAction::Fail(
            Error::RequestAirdrop { source },
        ),
        ClientProgress::ConfirmationChecked(Ok(true)) => ClientAction::Ready,
        ClientProgress::ConfirmationChecked(Ok(false)) => ClientAction::ConfirmAirdrop,
        ClientProgress::ConfirmationChecked(Err(source)) => ClientAction::Fail(
            Error::ConfirmSolanaTransaction { source },
        ),
    }
}

/// Sets the chain client up, one step at a time: an airdrop of one SOL is
/// asked for once, and its confirmation is asked for until the chain
/// confirms. A refusal by the chain at either step ends the setting up.
pub fn create_solana_client(progress: ClientProgress) -> (action: ClientAction)
    ensures
        action == client_action(progress),
{
    match progress {
        ClientProgress::Connected => ClientAction::RequestAirdrop(AIRDROP_LAMPORTS),
        ClientProgress::AirdropRequested(Ok(())) => ClientAction::ConfirmAirdrop,
        ClientProgress::AirdropRequested(Err(source)) => ClientAction::Fail(
            Error::RequestAirdrop { source },
        ),
        ClientProgress::ConfirmationChecked(Ok(true)) => ClientAction::Ready,
        ClientProgress::ConfirmationChecked(Ok(false)) => ClientAction::ConfirmAirdrop,
        ClientProgress::ConfirmationChecked(Err(source)) => ClientAction::Fail(
            Error::ConfirmSolanaTransaction { source },
        ),
    }
}

} // verus!
