use vstd::prelude::*;

use crate::fanout::{recipients_of, FanOut};
use crate::mempool::{pool_contains_id, Mempool};
use crate::types::{
    Address, DecodedTransaction, MempoolEntry, MessageKind, OutboundMessage, PropagationError,
    VerifyOutcome,
};

verus! {

/// What admission into the mempool decided for one relayed transaction.
#[derive(Clone, Copy, PartialEq, Eq, Structural, Debug)]
pub enum AdmitOutcome {
    /// The consensus validator faulted; the call surfaces the fault.
    ValidatorFault,
    /// The validator judged the transaction invalid; dropped silently.
    RejectedInvalid,
    /// The value balance is negative: a coinbase-shaped transaction, which
    /// the relay path refuses; dropped silently.
    RejectedCoinbase,
    /// The identity was already pending: a duplicate relay, no new
    /// information, nothing is broadcast.
    Duplicate,
    /// Newly added to the mempool: the one case that fans out.
    Admitted,
}

/// What admission decides, as a function of the pool's contents, the decoded
/// transaction, and the validator's verdict. The checks run in this order:
/// the validator's word, then the value balance, then deduplication.
pub open spec fn admit_outcome(
    pool: Seq<MempoolEntry>,
    tx: DecodedTransaction,
    verdict: VerifyOutcome,
) -> AdmitOutcome {
    match verdict {
        VerifyOutcome::Fault => AdmitOutcome::ValidatorFault,
        VerifyOutcome::Invalid => AdmitOutcome::RejectedInvalid,
        VerifyOutcome::Valid => if tx.value_balance < 0 {
            AdmitOutcome::RejectedCoinbase
        } else if pool_contains_id(pool, tx.id) {
            AdmitOutcome::Duplicate
        } else {
            AdmitOutcome::Admitted
        },
    }
}

/// The pool after admission ran: one entry longer exactly when the
/// transaction was admitted, untouched in every other case.
pub open spec fn pool_after_admit(
    pool: Seq<MempoolEntry>,
    tx: DecodedTransaction,
    verdict: VerifyOutcome,
    size: usize,
) -> Seq<MempoolEntry> {
    if admit_outcome(pool, tx, verdict) == AdmitOutcome::Admitted {
        pool.push(MempoolEntry { size, transaction: tx })
    } else {
        pool
    }
}

/// Where one propagation call stands.
#[derive(Clone, Copy, PartialEq, Eq, Structural, Debug)]
pub enum Phase {
    /// Waiting for the raw bytes to be decoded.
    Decoding,
    /// Waiting for the consensus validator's verdict.
    Verifying,
    /// Newly added to the mempool; waiting for a peer snapshot to fan out.
    Admitted,
    /// Writing to the recipients, one at a time.
    Relaying,
    /// The call is over; `result` says how it ended.
    Finished,
}

/// One call of the transaction relay path, step by step: the raw bytes are
/// decoded, the decoded transaction is validated and inserted into the
/// mempool, and exactly when it was newly added it is fanned out to every
/// connected peer that is neither the origin nor the node itself.
///
/// The surrounding node performs the outside work (decoding, validation, the
/// per-peer writes) and reports each result; every decision in between is
/// taken here. The mempool is handed in only for the validation-and-insertion
/// step, so the node can hold its lock for exactly that critical section.
pub struct TxPropagation {
    raw: Vec<u8>,
    origin: Address,
    self_addr: Address,
    phase: Phase,
    tx: Option<DecodedTransaction>,
    fanout: Option<FanOut>,
    error: Option<PropagationError>,
}

impl TxPropagation {
    /// The raw bytes being relayed.
    pub closed spec fn raw_bytes(self) -> Seq<u8> {
        self.raw@
    }

    /// The address the transaction arrived from.
    pub closed spec fn origin_spec(self) -> Address {
        self.origin
    }

    /// The node's own address, read once when the call began.
    pub closed spec fn self_addr_spec(self) -> Address {
        self.self_addr
    }

    pub closed spec fn phase_spec(self) -> Phase {
        self.phase
    }

    /// The decoded transaction, once one was reported.
    pub closed spec fn tx_spec(self) -> Option<DecodedTransaction> {
        self.tx
    }

    /// The fan-out, once one began.
    pub closed spec fn fanout_spec(self) -> Option<FanOut> {
        self.fanout
    }

    /// The fault the call surfaces, if any.
    pub closed spec fn error_spec(self) -> Option<PropagationError> {
        self.error
    }

    pub open spec fn wf(self) -> bool {
        &&& (self.phase_spec() == Phase::Verifying ==> self.tx_spec() is Some)
        &&& (self.phase_spec() == Phase::Relaying ==> self.fanout_spec() is Some
            && self.fanout_spec()->0.wf() && !self.fanout_spec()->0.done())
        &&& (self.phase_spec() != Phase::Finished ==> self.error_spec() is None)
    }

    /// Begin relaying raw transaction bytes that arrived from `origin`, on
    /// the node whose own address is `self_addr`. The first step the caller
    /// owes is decoding the bytes.
    pub fn start(raw: Vec<u8>, origin: Address, self_addr: Address) -> (m: TxPropagation)
        ensures
            m.wf(),
            m.phase_spec() == Phase::Decoding,
            m.raw_bytes() == raw@,
            m.origin_spec() == origin,
            m.self_addr_spec() == self_addr,
            m.tx_spec() is None,
            m.error_spec() is None,
    {
        TxPropagation {
            raw,
            origin,
            self_addr,
            phase: Phase::Decoding,
            tx: None,
            fanout: None,
            error: None,
        }
    }

    pub fn current_phase(&self) -> (p: Phase)
        ensures
            p == self.phase_spec(),
    {
        self.phase
    }

    /// Report what decoding the raw bytes gave. Malformed bytes are not an
    /// error: the call ends at once, successfully, having touched neither the
    /// mempool nor the network.
    pub fn on_decoded(&mut self, decoded: Option<DecodedTransaction>)
        requires
            old(self).wf(),
            old(self).phase_spec() == Phase::Decoding,
        ensures
            final(self).wf(),
            final(self).raw_bytes() == old(self).raw_bytes(),
            final(self).origin_spec() == old(self).origin_spec(),
            final(self).self_addr_spec() == old(self).self_addr_spec(),
            decoded is None ==> final(self).phase_spec() == Phase::Finished
                && final(self).error_spec() is None,
            decoded is Some ==> final(self).phase_spec() == Phase::Verifying
                && final(self).tx_spec() == decoded,
    {
        match decoded {
            None => {
                self.phase = Phase::Finished;
            },
            Some(tx) => {
                self.tx = Some(tx);
                self.phase = Phase::Verifying;
            },
        }
    }

    /// The decoded transaction the validator is owed a verdict on.
    pub fn transaction(&self) -> (t: Option<DecodedTransaction>)
        ensures
            t == self.tx_spec(),
    {
        self.tx
    }

    /// Report the validator's verdict and run admission: a faulting validator
    /// ends the call with its fault; an invalid or coinbase-shaped
    /// transaction is dropped silently; anything else is inserted into the
    /// mempool, sized by the raw byte length, and the call goes on to a
    /// fan-out exactly when the insertion reported the entry newly added.
    ///
    /// The caller must hold the mempool exclusively from before the validator
    /// ran until this returns, so that no concurrent call judges the same
    /// transaction new.
    pub fn on_verdict(&mut self, mempool: &mut Mempool, verdict: VerifyOutcome) -> (o:
        AdmitOutcome)
        requires
            old(self).wf(),
            old(self).phase_spec() == Phase::Verifying,
        ensures
            final(self).wf(),
            o == admit_outcome(old(mempool)@, old(self).tx_spec()->0, verdict),
            final(mempool)@ == pool_after_admit(
                old(mempool)@,
                old(self).tx_spec()->0,
                verdict,
                old(self).raw_bytes().len() as usize,
            ),
            final(self).raw_bytes() == old(self).raw_bytes(),
            final(self).origin_spec() == old(self).origin_spec(),
            final(self).self_addr_spec() == old(self).self_addr_spec(),
            final(self).tx_spec() == old(self).tx_spec(),
            o == AdmitOutcome::Admitted ==> final(self).phase_spec() == Phase::Admitted
                && final(self).error_spec() is None,
            o == AdmitOutcome::ValidatorFault ==> final(self).phase_spec() == Phase::Finished
                && final(self).error_spec() == Some(PropagationError::ValidatorFault),
            o == AdmitOutcome::RejectedInvalid || o == AdmitOutcome::RejectedCoinbase || o
                == AdmitOutcome::Duplicate ==> final(self).phase_spec() == Phase::Finished
                && final(self).error_spec() is None,
    {
        let tx = self.tx.unwrap();
        match verdict {
            VerifyOutcome::Fault => {
                self.phase = Phase::Finished;
                self.error = Some(PropagationError::ValidatorFault);
                AdmitOutcome::ValidatorFault
            },
            VerifyOutcome::Invalid => {
                self.phase = Phase::Finished;
                AdmitOutcome::RejectedInvalid
            },
            VerifyOutcome::Valid => {
                if tx.value_balance < 0 {
                    self.phase = Phase::Finished;
                    AdmitOutcome::RejectedCoinbase
                } else {
                    let entry = MempoolEntry { size: self.raw.len(), transaction: tx };
                    let added = mempool.insert(entry);
                    if added {
                        self.phase = Phase::Admitted;
                        AdmitOutcome::Admitted
                    } else {
                        self.phase = Phase::Finished;
                        AdmitOutcome::Duplicate
                    }
                }
            },
        }
    }

    /// Hand in the snapshot of the connected peers and begin the fan-out.
    /// The recipients are the snapshot without the origin and the node
    /// itself; with no recipient the call simply ends, successfully.
    pub fn begin_fan_out(&mut self, peers: &Vec<Address>)
        requires
            old(self).wf(),
            old(self).phase_spec() == Phase::Admitted,
        ensures
            final(self).wf(),
            final(self).raw_bytes() == old(self).raw_bytes(),
            final(self).origin_spec() == old(self).origin_spec(),
            final(self).self_addr_spec() == old(self).self_addr_spec(),
            ({
                let recips = recipients_of(
                    peers@,
                    old(self).origin_spec(),
                    old(self).self_addr_spec(),
                );
                if recips.len() == 0 {
                    final(self).phase_spec() == Phase::Finished && final(self).error_spec()
                        is None
                } else {
                    final(self).phase_spec() == Phase::Relaying && final(self).fanout_spec()
                        is Some && final(self).fanout_spec()->0.targets_spec() == recips
                        && final(self).fanout_spec()->0.cursor_spec() == 0
                        && !final(self).fanout_spec()->0.aborted_spec()
                }
            }),
    {
        let fo = FanOut::begin(peers, self.origin, self.self_addr);
        if fo.is_done() {
            self.phase = Phase::Finished;
        } else {
            self.fanout = Some(fo);
            self.phase = Phase::Relaying;
        }
    }

    /// The peer the next write goes to.
    pub fn next_peer(&self) -> (p: Address)
        requires
            self.wf(),
            self.phase_spec() == Phase::Relaying,
        ensures
            p == self.fanout_spec()->0.targets_spec()[self.fanout_spec()->0.cursor_spec()],
    {
        match &self.fanout {
            Some(fo) => fo.peek(),
            None => {
                proof {
                    assert(false);
                }
                Address { ip: 0, port: 0 }
            },
        }
    }

    /// The message the fan-out writes: a transaction message carrying the
    /// original raw bytes, cloned once per outbound write.
    pub fn message(&self) -> (m: OutboundMessage)
        ensures
            m.kind == MessageKind::Transaction,
            m.payload@ == self.raw_bytes(),
    {
        OutboundMessage::transaction(self.raw.clone())
    }

    /// The write to the current peer succeeded, or the peer was skipped
    /// because its channel was absent: move on, and end the call once every
    /// recipient was handled.
    pub fn on_peer_done(&mut self)
        requires
            old(self).wf(),
            old(self).phase_spec() == Phase::Relaying,
        ensures
            final(self).wf(),
            final(self).raw_bytes() == old(self).raw_bytes(),
            final(self).origin_spec() == old(self).origin_spec(),
            final(self).self_addr_spec() == old(self).self_addr_spec(),
            ({
                let fo = old(self).fanout_spec()->0;
                if fo.cursor_spec() + 1 == fo.targets_spec().len() {
                    final(self).phase_spec() == Phase::Finished && final(self).error_spec()
                        is None
                } else {
                    final(self).phase_spec() == Phase::Relaying && final(self).fanout_spec()
                        is Some && final(self).fanout_spec()->0.targets_spec()
                        == fo.targets_spec() && final(self).fanout_spec()->0.cursor_spec()
                        == fo.cursor_spec() + 1 && !final(self).fanout_spec()->0.aborted_spec()
                }
            }),
    {
        match &mut self.fanout {
            Some(fo) => {
                fo.advance();
            },
            None => {
                proof {
                    assert(false);
                }
            },
        }
        let done = match &self.fanout {
            Some(fo) => fo.is_done(),
            None => {
                proof {
                    assert(false);
                }
                true
            },
        };
        if done {
            self.phase = Phase::Finished;
        }
    }

    /// The write to the current peer failed: the whole call fails with that
    /// send failure, and no further recipient is attempted.
    pub fn on_write_failed(&mut self)
        requires
            old(self).wf(),
            old(self).phase_spec() == Phase::Relaying,
        ensures
            final(self).wf(),
            final(self).raw_bytes() == old(self).raw_bytes(),
            final(self).origin_spec() == old(self).origin_spec(),
            final(self).self_addr_spec() == old(self).self_addr_spec(),
            final(self).phase_spec() == Phase::Finished,
            final(self).error_spec() == Some(PropagationError::SendFailure),
            final(self).fanout_spec() is Some,
            final(self).fanout_spec()->0.aborted_spec(),
            final(self).fanout_spec()->0.targets_spec() == old(
                self,
            ).fanout_spec()->0.targets_spec(),
            final(self).fanout_spec()->0.cursor_spec() == old(self).fanout_spec()->0.cursor_spec(),
    {
        match &mut self.fanout {
            Some(fo) => {
                fo.record_failure();
            },
            None => {
                proof {
                    assert(false);
                }
            },
        }
        self.phase = Phase::Finished;
        self.error = Some(PropagationError::SendFailure);
    }

    /// How the call ended: `Ok` unless an infrastructure fault was surfaced.
    /// A successful result does not mean the transaction was relayed — a
    /// failed decode, a rule rejection and a duplicate all end successfully.
    pub fn result(&self) -> (r: Result<(), PropagationError>)
        requires
            self.wf(),
            self.phase_spec() == Phase::Finished,
        ensures
            r == match self.error_spec() {
                None => Result::<(), PropagationError>::Ok(()),
                Some(e) => Result::<(), PropagationError>::Err(e),
            },
    {
        match self.error {
            None => Ok(()),
            Some(e) => Err(e),
        }
    }
}

} // verus!
