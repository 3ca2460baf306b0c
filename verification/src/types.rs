use vstd::prelude::*;

verus! {

/// A peer's externally visible network address, as the propagation logic
/// reads it: an IP (wide enough for either address family) and a port.
#[derive(Clone, Copy, PartialEq, Eq, Structural, Hash, Debug)]
pub struct Address {
    pub ip: u128,
    pub port: u16,
}

/// What the relay logic reads of a decoded transaction: the identity the
/// mempool deduplicates by, and the signed value balance. A negative value
/// balance marks a coinbase-shaped transaction, which the relay path refuses.
#[derive(Clone, Copy, PartialEq, Eq, Structural, Debug)]
pub struct DecodedTransaction {
    pub id: u64,
    pub value_balance: i64,
}

/// A pending transaction as the mempool accounts for it: the decoded
/// transaction together with the length of the raw bytes it arrived in.
#[derive(Clone, Copy, PartialEq, Eq, Structural, Debug)]
pub struct MempoolEntry {
    pub size: usize,
    pub transaction: DecodedTransaction,
}

/// What the consensus validator said of a decoded transaction.
#[derive(Clone, Copy, PartialEq, Eq, Structural, Debug)]
pub enum VerifyOutcome {
    /// The validator itself faulted (for instance on ledger reads); the
    /// fault is surfaced to the caller.
    Fault,
    /// The transaction breaks a consensus rule; it is dropped silently.
    Invalid,
    /// The transaction passes the consensus rules.
    Valid,
}

/// The faults a propagation call surfaces. Rule rejections (a failed decode,
/// an invalid transaction, a coinbase-shaped transaction, a duplicate relay)
/// are absorbed locally and never returned as errors.
#[derive(Clone, Copy, PartialEq, Eq, Structural, Debug)]
pub enum PropagationError {
    /// The consensus validator faulted while it was consulted.
    ValidatorFault,
    /// A write to a peer failed; the remaining fan-out was abandoned.
    SendFailure,
}

/// The kind of message a fan-out writes to a peer.
#[derive(Clone, Copy, PartialEq, Eq, Structural, Debug)]
pub enum MessageKind {
    Transaction,
    Block,
}

/// An outbound message: a kind and the raw payload bytes, handed to the
/// network layer unchanged.
#[derive(Debug)]
pub struct OutboundMessage {
    pub kind: MessageKind,
    pub payload: Vec<u8>,
}

impl OutboundMessage {
    /// A transaction message carrying the given raw bytes.
    pub fn transaction(payload: Vec<u8>) -> (m: OutboundMessage)
        ensures
            m.kind == MessageKind::Transaction,
            m.payload@ == payload@,
    {
        OutboundMessage { kind: MessageKind::Transaction, payload }
    }

    /// A block message carrying the given raw bytes.
    pub fn block(payload: Vec<u8>) -> (m: OutboundMessage)
        ensures
            m.kind == MessageKind::Block,
            m.payload@ == payload@,
    {
        OutboundMessage { kind: MessageKind::Block, payload }
    }
}

} // verus!
