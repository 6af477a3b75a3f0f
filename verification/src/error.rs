//! What can go wrong in the services of a node, and how it is told.

use vstd::prelude::*;

use crate::text::joined;

verus! {

/// The words that tell what caused an error.
pub open spec fn source_text(source: Seq<char>) -> Seq<char> {
    ". Caused by: "@ + source
}

/// The words that tell that `source` caused an error.
pub fn fmt_source(source: &str) -> (text: String)
    ensures
        text@ == source_text(source@),
{
    joined(". Caused by: ", source)
}

/// An error of the services of a node. Each carries, as text, what caused
/// it.
#[derive(Debug)]
pub enum Error {
    /// The gossip bus could not be set up over TCP.
    SwarmWithTcp { source: String },
    /// The named instruction could not be handed to the peer worker.
    SendPeerWorkerInstruction { instruction: String, source: String },
    /// The peer worker did not reply with the peers.
    ListPeers { source: String },
    /// The peer worker did not reply with the signed messages.
    ListSignedMessages { source: String },
    /// The peer worker did not reply with the relayed transactions.
    ListRelayedTransactions { source: String },
    /// The peer worker did not reply with the transaction.
    GetTransaction { source: String },
    /// The chain refused the airdrop.
    RequestAirdrop { source: String },
    /// The chain could not say whether a transaction is confirmed.
    ConfirmSolanaTransaction { source: String },
    /// The text is no signature.
    ParseSolanaSignature { source: String },
    /// The chain did not hand out the transaction with the signature.
    GetSolanaTransaction { signature: String, source: String },
    /// The named queue to another actor is closed: that actor has ended.
    QueueClosed { queue: String, source: String },
}

/// What an error says of itself, before it names its cause.
pub open spec fn headline(error: Error) -> Seq<char> {
    match error {
        Error::SwarmWithTcp { .. } => "Fail to create swarm with tcp"@,
        Error::SendPeerWorkerInstruction { instruction, .. } =>
            "Fail to send peer worker instruction `"@ + instruction@ + "`"@,
        Error::ListPeers { .. } => "Fail to list peers"@,
        Error::ListSignedMessages { .. } => "Fail to list signed messages"@,
        Error::ListRelayedTransactions { .. } => "Fail to list relayed transactions"@,
        Error::GetTransaction { .. } => "Fail to get transaction"@,
        Error::RequestAirdrop { .. } => "Fail to request airdrop"@,
        Error::ConfirmSolanaTransaction { .. } => "Fail to confirm transaction"@,
        Error::ParseSolanaSignature { .. } => "Fail to parse solana signature"@,
        Error::GetSolanaTransaction { signature, .. } => "Fail to get solana transaction of `"@
            + signature@ + "`"@,
        Error::QueueClosed { queue, .. } => "Fail to send to "@ + queue@,
    }
}

/// What caused an error, as text.
pub open spec fn cause(error: Error) -> Seq<char> {
    match error {
        Error::SwarmWithTcp { source } => source@,
        Error::SendPeerWorkerInstruction { source, .. } => source@,
        Error::ListPeers { source } => source@,
        Error::ListSignedMessages { source } => source@,
        Error::ListRelayedTransactions { source } => source@,
        Error::GetTransaction { source } => source@,
        Error::RequestAirdrop { source } => source@,
        Error::ConfirmSolanaTransaction { source } => source@,
        Error::ParseSolanaSignature { source } => source@,
        Error::GetSolanaTransaction { source, .. } => source@,
        Error::QueueClosed { source, .. } => source@,
    }
}

/// What an error says in full: what failed, and what caused it.
pub open spec fn message_of(error: Error) -> Seq<char> {
    headline(error) + source_text(cause(error))
}

/// The body of the reply that tells a caller of an error.
#[derive(Clone, Debug)]
pub struct ErrorResponse {
    /// The status under which the reply goes out over HTTP.
    pub status: u16,
    /// What went wrong.
    pub message: String,
}

/// The status under which a fault of the node is reported to a caller
/// over HTTP.
pub const INTERNAL_SERVER_ERROR: u16 = 500;

/// The status under which a request that cannot be read is reported to a
/// caller over HTTP.
pub const BAD_REQUEST: u16 = 400;

/// The status under which an error is reported to a caller over HTTP: a
/// signature that cannot be read is the caller's fault, and everything
/// else is a fault of the node.
pub open spec fn status_of(error: Error) -> u16 {
    if error is ParseSolanaSignature {
        BAD_REQUEST
    } else {
        INTERNAL_SERVER_ERROR
    }
}

impl Error {
    /// What caused the error, as text.
    pub fn source(&self) -> (source: &String)
        ensures
            source@ == cause(*self),
    {
        match self {
            Error::SwarmWithTcp { source } => source,
            Error::SendPeerWorkerInstruction { source, .. } => source,
            Error::ListPeers { source } => source,
            Error::ListSignedMessages { source } => source,
            Error::ListRelayedTransactions { source } => source,
            Error::GetTransaction { source } => source,
            Error::RequestAirdrop { source } => source,
            Error::ConfirmSolanaTransaction { source } => source,
            Error::ParseSolanaSignature { source } => source,
            Error::GetSolanaTransaction { source, .. } => source,
            Error::QueueClosed { source, .. } => source,
        }
    }

    /// What the error says in full: what failed, and what caused it.
    pub fn message(&self) -> (text: String)
        ensures
            text@ == message_of(*self),
    {
        let head = match self {
            Error::SwarmWithTcp { .. } => String::from_str("Fail to create swarm with tcp"),
            Error::SendPeerWorkerInstruction { instruction, .. } => joined(
                "Fail to send peer worker instruction `",
                instruction.as_str(),
            ).concat("`"),
            Error::ListPeers { .. } => String::from_str("Fail to list peers"),
            Error::ListSignedMessages { .. } => String::from_str("Fail to list signed messages"),
            Error::ListRelayedTransactions { .. } => String::from_str(
                "Fail to list relayed transactions",
            ),
            Error::GetTransaction { .. } => String::from_str("Fail to get transaction"),
            Error::RequestAirdrop { .. } => String::from_str("Fail to request airdrop"),
            Error::ConfirmSolanaTransaction { .. } => String::from_str("Fail to confirm transaction"),
            Error::ParseSolanaSignature { .. } => String::from_str("Fail to parse solana signature"),
            Error::GetSolanaTransaction { signature, .. } => joined(
                "Fail to get solana transaction of `",
                signature.as_str(),
            ).concat("`"),
            Error::QueueClosed { queue, .. } => joined("Fail to send to ", queue.as_str()),
        };
        let tail = fmt_source(self.source().as_str());
        head.concat(tail.as_str())
    }

    /// The status under which the error is reported to a caller over
    /// HTTP.
    pub fn status(&self) -> (status: u16)
        ensures
            status == status_of(*self),
    {
        match self {
            Error::ParseSolanaSignature { .. } => BAD_REQUEST,
            _ => INTERNAL_SERVER_ERROR,
        }
    }

    /// The reply that tells a caller of the error: its status, and what
    /// the error says as the body.
    pub fn into_response(self) -> (response: ErrorResponse)
        ensures
            response.status == status_of(self),
            response.message@ == message_of(self),
    {
        ErrorResponse { status: self.status(), message: self.message() }
    }
}

} // verus!
