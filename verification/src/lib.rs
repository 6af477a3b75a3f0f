//! Decision logic of a peer-to-peer node that elects a rotating signer and a
//! rotating relayer and has them turn gossiped messages into relayed
//! on-chain transactions.
//!
//! Every actor of the node is modelled as a state and a transition: the
//! caller feeds in what arrived (a queue item, a timer, a bus delivery) and
//! gets back what to do next. The transitions carry contracts that pin down
//! the resulting state and the emitted effects.

pub mod time;
pub mod election;
pub mod replicated;
pub mod chain;
pub mod text;
pub mod topic;
pub mod peer;
pub mod relayer;
pub mod signer;
pub mod identity;
pub mod trigger;
pub mod model;
pub mod error;
pub mod shutdown;
pub mod node;
