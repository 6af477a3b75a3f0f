//! The gossip topics of the network.

use vstd::prelude::*;

use crate::replicated::{ids, position};

verus! {

/// One of the six topics that every node subscribes to.
#[derive(Clone, Copy, Debug, PartialEq, Eq, Structural)]
pub enum Topic {
    /// Plain messages waiting to be signed.
    Message,
    /// Signs of life.
    Heartbeat,
    /// Announcements of the relayer leader.
    RelayerInfo,
    /// Announcements of the signer leader.
    SignerInfo,
    /// Signed transactions.
    Transaction,
    /// Signatures of relayed transactions.
    RelayedTransaction,
}

/// The name under which `topic` goes on the wire.
pub open spec fn topic_name(topic: Topic) -> Seq<char> {
    match topic {
        Topic::Message => "message"@,
        Topic::Heartbeat => "heartbeat"@,
        Topic::RelayerInfo => "relayer-info"@,
        Topic::SignerInfo => "signer-info"@,
        Topic::Transaction => "transaction"@,
        Topic::RelayedTransaction => "relayed-transaction"@,
    }
}

/// The topic under which a delivery that is marked with `names` is
/// handled. Where it is marked with several, the first of `message`,
/// `heartbeat`, `relayer-info`, `signer-info`, `relayed-transaction`
/// decides. A delivery that bears none of these, such as one on
/// `transaction` alone, is handled under no topic.
pub open spec fn handled_under(names: Seq<Seq<char>>) -> Option<Topic> {
    if names.contains(topic_name(Topic::Message)) {
        Some(Topic::Message)
    } else if names.contains(topic_name(Topic::Heartbeat)) {
        Some(Topic::Heartbeat)
    } else if names.contains(topic_name(Topic::RelayerInfo)) {
        Some(Topic::RelayerInfo)
    } else if names.contains(topic_name(Topic::SignerInfo)) {
        Some(Topic::SignerInfo)
    } else if names.contains(topic_name(Topic::RelayedTransaction)) {
        Some(Topic::RelayedTransaction)
    } else {
        None
    }
}

impl Topic {
    /// The name under which the topic goes on the wire.
    pub fn name(&self) -> (name: String)
        ensures
            name@ == topic_name(*self),
    {
        match self {
            Topic::Message => String::from_str("message"),
            Topic::Heartbeat => String::from_str("heartbeat"),
            Topic::RelayerInfo => String::from_str("relayer-info"),
            Topic::SignerInfo => String::from_str("signer-info"),
            Topic::Transaction => String::from_str("transaction"),
            Topic::RelayedTransaction => String::from_str("relayed-transaction"),
        }
    }

    /// All six topics, in the order in which a node subscribes to them.
    pub fn all() -> (topics: Vec<Topic>)
        ensures
            topics@ == seq![
                Topic::Message,
                Topic::Heartbeat,
                Topic::RelayerInfo,
                Topic::SignerInfo,
                Topic::Transaction,
                Topic::RelayedTransaction,
            ],
    {
        let mut topics: Vec<Topic> = Vec::new();
        topics.push(Topic::Message);
        topics.push(Topic::Heartbeat);
        topics.push(Topic::RelayerInfo);
        topics.push(Topic::SignerInfo);
        topics.push(Topic::Transaction);
        topics.push(Topic::RelayedTransaction);
        assert(topics@ =~= seq![
            Topic::Message,
            Topic::Heartbeat,
            Topic::RelayerInfo,
            Topic::SignerInfo,
            Topic::Transaction,
            Topic::RelayedTransaction,
        ]);
        topics
    }

    /// Whether a delivery marked with `names` bears this topic.
    pub fn is_among(&self, names: &Vec<String>) -> (among: bool)
        ensures
            among == ids(names@).contains(topic_name(*self)),
    {
        let name = self.name();
        let found = position(names, &name);
        proof {
            ids(names@).index_of_first_ensures(name@);
        }
        found.is_some()
    }

    /// The topic under which a delivery marked with `names` is handled.
    pub fn dispatch(names: &Vec<String>) -> (topic: Option<Topic>)
        ensures
            topic == handled_under(ids(names@)),
    {
        if Topic::Message.is_among(names) {
            Some(Topic::Message)
        } else if Topic::Heartbeat.is_among(names) {
            Some(Topic::Heartbeat)
        } else if Topic::RelayerInfo.is_among(names) {
            Some(Topic::RelayerInfo)
        } else if Topic::SignerInfo.is_among(names) {
            Some(Topic::SignerInfo)
        } else if Topic::RelayedTransaction.is_among(names) {
            Some(Topic::RelayedTransaction)
        } else {
            None
        }
    }
}

} // verus!
