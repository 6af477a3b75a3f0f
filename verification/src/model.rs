//! What the node answers to those who ask what it has seen.

use vstd::prelude::*;

use crate::error::Error;
use crate::identity::{peer_name_of_address, solana_public_key_str_to_peer_id};
use crate::replicated::ids;

verus! {

/// A signed transaction as it is shown: signatures, account keys and the
/// block hash as base-58 text.
#[derive(Debug)]
pub struct TransactionForUtoipa {
    /// The signatures over the message, one for each of its first
    /// `num_required_signatures` account keys.
    pub signatures: Vec<String>,
    /// The message that was signed.
    pub message: MessageForUtoipa,
}

/// The message of a transaction as it is shown.
#[derive(Debug)]
pub struct MessageForUtoipa {
    /// Which of the account keys sign and which are read only.
    pub header: MessageHeaderForUtoipa,
    /// All the account keys that the transaction uses.
    pub account_keys: Vec<String>,
    /// The hash of a recent block.
    pub recent_blockhash: String,
    /// The programs to run, in order, all or none.
    pub instructions: Vec<CompiledInstructionForUtoipa>,
}

/// The header of a message as it is shown.
#[derive(Clone, Copy, Debug, PartialEq, Eq, Structural)]
pub struct MessageHeaderForUtoipa {
    /// How many signatures the message needs; the signers are the first
    /// so many of the account keys.
    pub num_required_signatures: u8,
    /// How many of the signing keys, counted from the last, are read
    /// only.
    pub num_readonly_signed_accounts: u8,
    /// How many of the other keys, counted from the last, are read only.
    pub num_readonly_unsigned_accounts: u8,
}

/// One instruction of a message as it is shown.
#[derive(Debug)]
pub struct CompiledInstructionForUtoipa {
    /// Where among the account keys the program stands that runs the
    /// instruction.
    pub program_id_index: u8,
    /// Where among the account keys the accounts stand that are handed
    /// to the program, in order.
    pub accounts: Vec<u8>,
    /// What the program is given to read.
    pub data: Vec<u8>,
}

/// What the chain holds of a confirmed transaction, as far as the node
/// reads it.
#[derive(Debug)]
pub struct ConfirmedTransaction {
    /// The signatures, as base-58 text.
    pub signatures: Vec<String>,
    /// The account keys, as base-58 text.
    pub account_keys: Vec<String>,
    /// How many of the account keys, from the first, have signed.
    pub num_required_signatures: u8,
    /// What the programs logged, where the chain kept it.
    pub log_messages: Option<Vec<String>>,
}

/// The details of a relayed transaction.
#[derive(Debug)]
pub struct TransactionDetail {
    signatures: Vec<String>,
    account_keys: Vec<String>,
    signers: Vec<String>,
    log_messages: Vec<String>,
}

/// The mathematical content of a [`TransactionDetail`].
pub struct TransactionDetailView {
    /// The signatures, as base-58 text.
    pub signatures: Seq<Seq<char>>,
    /// The account keys, as base-58 text.
    pub account_keys: Seq<Seq<char>>,
    /// The names of the signers on the gossip bus.
    pub signers: Seq<Seq<char>>,
    /// What the programs logged.
    pub log_messages: Seq<Seq<char>>,
}

impl View for TransactionDetail {
    type V = TransactionDetailView;

    closed spec fn view(&self) -> TransactionDetailView {
        TransactionDetailView {
            signatures: ids(self.signatures@),
            account_keys: ids(self.account_keys@),
            signers: ids(self.signers@),
            log_messages: ids(self.log_messages@),
        }
    }
}

/// Whether the first `count` of `keys` exist and each of them names a
/// peer.
pub open spec fn signers_are_peers(keys: Seq<Seq<char>>, count: int) -> bool {
    &&& count <= keys.len()
    &&& forall|i: int| 0 <= i < count ==> peer_name_of_address(#[trigger] keys[i]) is Some
}

/// The names on the gossip bus of the first `count` of `keys`.
pub open spec fn signer_names(keys: Seq<Seq<char>>, count: int) -> Seq<Seq<char>>
    recommends
        signers_are_peers(keys, count),
{
    Seq::new(count as nat, |i: int| peer_name_of_address(keys[i])->0)
}

/// The log of a confirmed transaction, which is empty where the chain
/// kept none.
pub open spec fn logged(log_messages: Option<Vec<String>>) -> Seq<Seq<char>> {
    match log_messages {
        Some(lines) => ids(lines@),
        None => seq![],
    }
}

/// The details of the confirmed transaction `confirmed`: its signatures,
/// its account keys, the names on the gossip bus of those who signed it,
/// and its log.
pub open spec fn details_of(confirmed: ConfirmedTransaction) -> TransactionDetailView {
    TransactionDetailView {
        signatures: ids(confirmed.signatures@),
        account_keys: ids(confirmed.account_keys@),
        signers: signer_names(
            ids(confirmed.account_keys@),
            confirmed.num_required_signatures as int,
        ),
        log_messages: logged(confirmed.log_messages),
    }
}

/// Whether the details of `confirmed` can be given: it claims no more
/// signers than it has account keys, and the key of each signer names a
/// peer.
pub open spec fn has_details(confirmed: ConfirmedTransaction) -> bool {
    signers_are_peers(ids(confirmed.account_keys@), confirmed.num_required_signatures as int)
}

/// What is said of a transaction whose details cannot be given.
pub open spec fn no_details() -> Seq<char> {
    "a signer of the transaction is no peer"@
}

/// What the asker is told once the chain has answered the lookup of the
/// transaction with the signature `signature`. Where the chain has
/// handed the transaction out, the asker gets its details; where it has
/// refused, for the reason that it gave, or where the details cannot be
/// given, the asker gets the error that names the signature and the
/// reason.
pub fn transaction_detail(signature: String, answer: Result<ConfirmedTransaction, String>) -> (told:
    Result<TransactionDetail, Error>)
    ensures
        match answer {
            Ok(confirmed) => if has_details(confirmed) {
                told is Ok && told->Ok_0@ == details_of(confirmed)
            } else {
                told is Err && told->Err_0 is GetSolanaTransaction
                    && told->Err_0->GetSolanaTransaction_signature == signature
                    && told->Err_0->GetSolanaTransaction_source@ == no_details()
            },
            Err(reason) => told == Err::<TransactionDetail, Error>(
                Error::GetSolanaTransaction { signature, source: reason },
            ),
        },
{
    match answer {
        Ok(confirmed) => match TransactionDetail::from_confirmed(confirmed) {
            Some(detail) => Ok(detail),
            None => Err(
                Error::GetSolanaTransaction {
                    signature,
                    source: String::from_str("a signer of the transaction is no peer"),
                },
            ),
        },
        Err(reason) => Err(Error::GetSolanaTransaction { signature, source: reason }),
    }
}

impl TransactionDetail {
    /// The details of the confirmed transaction `confirmed`: its
    /// signatures, its account keys, the names on the gossip bus of
    /// those who signed it, and its log. There are none where the
    /// transaction claims more signers than it has account keys, or
    /// where the key of a signer names no peer.
    pub fn from_confirmed(confirmed: ConfirmedTransaction) -> (detail: Option<TransactionDetail>)
        ensures
            detail is Some == has_details(confirmed),
            detail is Some ==> detail->0@ == details_of(confirmed),
    {
        let ConfirmedTransaction { signatures, account_keys, num_required_signatures, log_messages } =
            confirmed;
        let count = num_required_signatures as usize;
        let ghost keys = ids(account_keys@);
        if count > account_keys.len() {
            return None;
        }
        let mut signers: Vec<String> = Vec::new();
        let mut index: usize = 0;
        while index < count
            invariant
                index <= count <= account_keys.len(),
                count == confirmed.num_required_signatures,
                account_keys == confirmed.account_keys,
                keys == ids(account_keys@),
                signers@.len() == index,
                forall|j: int| 0 <= j < index ==> peer_name_of_address(#[trigger] keys[j]) is Some,
                forall|j: int|
                    0 <= j < index ==> #[trigger] signers@[j]@ == peer_name_of_address(keys[j])->0,
            decreases count - index,
        {
            match solana_public_key_str_to_peer_id(account_keys[index].as_str()) {
                Some(name) => {
                    signers.push(name);
                },
                None => {
                    assert(peer_name_of_address(keys[index as int]) is None);
                    return None;
                },
            }
            index += 1;
        }
        let log_messages = match log_messages {
            Some(lines) => lines,
            None => Vec::new(),
        };
        let detail = TransactionDetail { signatures, account_keys, signers, log_messages };
        assert(detail@.signers =~= signer_names(keys, count as int));
        assert(detail@.log_messages =~= logged(confirmed.log_messages));
        Some(detail)
    }

    /// The signatures, as base-58 text.
    pub fn signatures(&self) -> (list: &Vec<String>)
        ensures
            ids(list@) == self@.signatures,
    {
        &self.signatures
    }

    /// The account keys, as base-58 text.
    pub fn account_keys(&self) -> (list: &Vec<String>)
        ensures
            ids(list@) == self@.account_keys,
    {
        &self.account_keys
    }

    /// The names of the signers on the gossip bus.
    pub fn signers(&self) -> (list: &Vec<String>)
        ensures
            ids(list@) == self@.signers,
    {
        &self.signers
    }

    /// What the programs logged.
    pub fn log_messages(&self) -> (list: &Vec<String>)
        ensures
            ids(list@) == self@.log_messages,
    {
        &self.log_messages
    }
}

} // verus!
