//! The signer: while the node leads the signer role, it wraps each plain
//! message into a signed transaction.

use vstd::prelude::*;

use solana_instruction::AccountMeta;

use crate::chain::{
    fits_instruction, public_half, public_half_of, sign_message, signed_message_transaction,
};
use crate::election::RRElectionWorkerType;
use crate::peer::PeerWorkerInboundEvent;
use crate::replicated::ReplicatedState;
use crate::text::{read_text, text_of};

verus! {

/// What the signer is sent by the rest of the node.
#[derive(Debug)]
pub enum SignerInboundEvent {
    /// The bytes of a plain message.
    RawMessage(Vec<u8>),
}

/// What wakes the signer.
#[derive(Debug)]
pub enum SignerInput {
    /// The node is shutting down.
    Stop,
    /// Something arrived on the inbound queue, or the queue was closed.
    Inbound(Option<SignerInboundEvent>),
}

/// What the signer does in answer to an input.
#[derive(Debug)]
pub enum SignerOutcome {
    /// The signer ends its loop.
    Stop,
    /// Nothing is to be done: the node does not lead the signer role, or
    /// the message is too long to be signed.
    Ignore,
    /// The text is to be signed; it needs a recent block hash to be
    /// signed over.
    Sign(String),
}

/// The mathematical content of a [`SignerOutcome`].
pub enum SignerOutcomeView {
    Stop,
    Ignore,
    Sign(Seq<char>),
}

impl View for SignerOutcome {
    type V = SignerOutcomeView;

    open spec fn view(&self) -> SignerOutcomeView {
        match *self {
            SignerOutcome::Stop => SignerOutcomeView::Stop,
            SignerOutcome::Ignore => SignerOutcomeView::Ignore,
            SignerOutcome::Sign(payload) => SignerOutcomeView::Sign(payload@),
        }
    }
}

/// The text that is signed for the plain message `raw` by the signer
/// `signer`: the message, read as text, with the signer's name behind it.
pub open spec fn payload_text(raw: Seq<u8>, signer: Seq<char>) -> Seq<char> {
    text_of(raw) + ", Signer: "@ + signer
}

/// The signer of a node.
pub struct SolanaSigner {
    peer_id: String,
    key_pair: [u8; 64],
    program_id: [u8; 32],
}

impl SolanaSigner {
    /// The signer of the node `peer_id` that signs and pays with the key
    /// pair whose 64 bytes are `key_pair`, and addresses the program
    /// whose address has the bytes `program_id`.
    pub fn new(peer_id: String, key_pair: [u8; 64], program_id: [u8; 32]) -> (signer: SolanaSigner)
        ensures
            signer.name() == peer_id@,
            signer.key_pair() == key_pair@,
            signer.program() == program_id@,
    {
        SolanaSigner { peer_id, key_pair, program_id }
    }

    /// The name of the node that the signer belongs to.
    pub closed spec fn name(&self) -> Seq<char> {
        self.peer_id@
    }

    /// The 64 bytes of the key pair that signs and pays.
    pub closed spec fn key_pair(&self) -> Seq<u8> {
        self.key_pair@
    }

    /// The bytes of the address of the program that the transactions are
    /// for.
    pub closed spec fn program(&self) -> Seq<u8> {
        self.program_id@
    }

    /// What the signer does when it takes `input` while the signer cell
    /// holds `leader`.
    pub open spec fn outcome_of(&self, leader: Seq<char>, input: SignerInput) -> SignerOutcomeView {
        match input {
            SignerInput::Stop => SignerOutcomeView::Stop,
            SignerInput::Inbound(None) => SignerOutcomeView::Stop,
            SignerInput::Inbound(Some(SignerInboundEvent::RawMessage(raw))) => {
                let payload = payload_text(raw@, self.name());
                if leader == self.name() && fits_instruction(payload) {
                    SignerOutcomeView::Sign(payload)
                } else {
                    SignerOutcomeView::Ignore
                }
            },
        }
    }

    /// What goes to the peer worker for the text `payload` once the chain
    /// has been asked for a recent block hash: the transaction that
    /// carries the text to the program, paid for and signed by the
    /// signer's key pair over the block hash; nothing without a block
    /// hash, and nothing where the key pair cannot sign.
    pub open spec fn emitted(&self, payload: Seq<char>, recent_blockhash: Option<[u8; 32]>) -> Option<
        PeerWorkerInboundEvent,
    > {
        match recent_blockhash {
            Some(blockhash) => match signed_message_transaction(
                self.program(),
                self.key_pair(),
                payload,
                blockhash@,
            ) {
                Some(transaction) => Some(PeerWorkerInboundEvent::Transaction(transaction)),
                None => None,
            },
            None => None,
        }
    }

    /// The name of the node that the signer belongs to.
    pub fn peer_id(&self) -> (peer_id: &String)
        ensures
            peer_id@ == self.name(),
    {
        &self.peer_id
    }

    /// The bytes of the address that pays for the transactions: the
    /// public half of the key pair.
    pub fn payer_address(&self) -> (address: [u8; 32])
        ensures
            address@ == public_half(self.key_pair()),
    {
        public_half_of(&self.key_pair)
    }

    /// The bytes of the address of the program that the transactions are
    /// for.
    pub fn program_id(&self) -> (address: [u8; 32])
        ensures
            address@ == self.program(),
    {
        self.program_id
    }

    /// Whether the node leads the signer role at this moment.
    pub fn is_leader(&self, state: &ReplicatedState) -> (leads: bool)
        ensures
            leads == (state@.signer == self.name()),
    {
        *state.leader(RRElectionWorkerType::Signer) == self.peer_id
    }

    /// The text to sign for the plain message `raw`: the message, read
    /// as text, with the signer's name behind it. Bytes that are valid
    /// UTF-8 are read as the text that they encode.
    pub fn payload(&self, raw: &Vec<u8>) -> (payload: String)
        ensures
            payload@ == payload_text(raw@, self.name()),
            vstd::utf8::valid_utf8(raw@) ==> payload@ == vstd::utf8::decode_utf8(raw@)
                + ", Signer: "@ + self.name(),
    {
        let message = read_text(raw.as_slice());
        let tagged = message.concat(", Signer: ");
        tagged.concat(self.peer_id.as_str())
    }

    /// Takes one input of the signer's loop and says what to do next. A
    /// message is taken up only while the node leads the signer role, as
    /// read from `state` at this moment, and only where the text to sign
    /// is short enough for a transaction.
    pub fn start(&self, state: &ReplicatedState, input: SignerInput) -> (outcome: SignerOutcome)
        ensures
            outcome@ == self.outcome_of(state@.signer, input),
            outcome is Sign ==> fits_instruction(outcome->Sign_0@),
    {
        match input {
            SignerInput::Stop => SignerOutcome::Stop,
            SignerInput::Inbound(None) => SignerOutcome::Stop,
            SignerInput::Inbound(Some(SignerInboundEvent::RawMessage(raw))) => {
                if self.is_leader(state) {
                    let payload = self.payload(&raw);
                    if payload.as_str().as_bytes().len() <= 65531 {
                        SignerOutcome::Sign(payload)
                    } else {
                        SignerOutcome::Ignore
                    }
                } else {
                    SignerOutcome::Ignore
                }
            },
        }
    }

    /// Finishes the signing of `payload` once the chain has been asked for
    /// a recent block hash. With a block hash, the transaction that
    /// carries the payload is built, paid for and signed with the
    /// signer's key pair over that hash, and goes to the peer worker;
    /// without one, the payload is dropped and the signer goes on.
    pub fn finish(&self, payload: &String, recent_blockhash: Option<[u8; 32]>) -> (event: Option<
        PeerWorkerInboundEvent,
    >)
        requires
            fits_instruction(payload@),
        ensures
            event == self.emitted(payload@, recent_blockhash),
    {
        match recent_blockhash {
            Some(blockhash) => {
                let accounts: Vec<AccountMeta> = Vec::new();
                match sign_message(&self.program_id, &self.key_pair, payload, &blockhash, accounts) {
                    Some(signed) => Some(PeerWorkerInboundEvent::Transaction(signed)),
                    None => None,
                }
            },
            None => None,
        }
    }
}

} // verus!
