use vstd::prelude::*;

use crate::types::Address;

verus! {

/// Is this peer written to in a fan-out triggered by `origin`, on the node
/// whose own address is `self_addr`? Neither the origin of a message nor the
/// node itself ever receives the broadcast it triggered.
pub open spec fn eligible(peer: Address, origin: Address, self_addr: Address) -> bool {
    peer != origin && peer != self_addr
}

/// The recipients of a fan-out: the peers of the snapshot, in snapshot order,
/// with the origin and the node's own address left out.
pub open spec fn recipients_of(
    peers: Seq<Address>,
    origin: Address,
    self_addr: Address,
) -> Seq<Address> {
    peers.filter(|p: Address| eligible(p, origin, self_addr))
}

/// One fan-out of a message to the connected peers: the recipients are fixed
/// from a peer snapshot when the fan-out begins, each is handled in turn, and
/// the first failed write aborts whatever remains.
pub struct FanOut {
    targets: Vec<Address>,
    cursor: usize,
    aborted: bool,
}

impl FanOut {
    /// The recipients, in the order they are written to.
    pub closed spec fn targets_spec(self) -> Seq<Address> {
        self.targets@
    }

    /// How many recipients have been handled (written to or skipped).
    pub closed spec fn cursor_spec(self) -> int {
        self.cursor as int
    }

    /// Whether a failed write has aborted the fan-out.
    pub closed spec fn aborted_spec(self) -> bool {
        self.aborted
    }

    pub open spec fn wf(self) -> bool {
        0 <= self.cursor_spec() <= self.targets_spec().len()
    }

    /// A fan-out is done once every recipient was handled or a write failed.
    pub open spec fn done(self) -> bool {
        self.aborted_spec() || self.cursor_spec() == self.targets_spec().len()
    }

    /// Start a fan-out over a snapshot of the connected peers, excluding the
    /// message's origin and the node's own address.
    pub fn begin(peers: &Vec<Address>, origin: Address, self_addr: Address) -> (fo: FanOut)
        ensures
            fo.wf(),
            fo.targets_spec() == recipients_of(peers@, origin, self_addr),
            fo.cursor_spec() == 0,
            !fo.aborted_spec(),
    {
        let mut targets: Vec<Address> = Vec::new();
        let mut i: usize = 0;
        while i < peers.len()
            invariant
                i <= peers.len(),
                targets@ == recipients_of(peers@.subrange(0, i as int), origin, self_addr),
            decreases peers.len() - i,
        {
            let p = peers[i];
            if p != origin && p != self_addr {
                targets.push(p);
            }
            proof {
                reveal_with_fuel(Seq::filter, 2);
                let prefix = peers@.subrange(0, i as int);
                let next = peers@.subrange(0, i as int + 1);
                assert(next.drop_last() =~= prefix);
                assert(next.last() == peers@[i as int]);
            }
            i += 1;
        }
        proof {
            assert(peers@.subrange(0, peers@.len() as int) =~= peers@);
        }
        FanOut { targets, cursor: 0, aborted: false }
    }

    /// The peer the next write goes to.
    pub fn peek(&self) -> (p: Address)
        requires
            self.wf(),
            !self.done(),
        ensures
            p == self.targets_spec()[self.cursor_spec()],
    {
        self.targets[self.cursor]
    }

    /// Move past the current peer, after the write to it succeeded or after
    /// it was skipped because its channel was absent (it disconnected between
    /// the snapshot and the lookup).
    pub fn advance(&mut self)
        requires
            old(self).wf(),
            !old(self).done(),
        ensures
            final(self).wf(),
            final(self).targets_spec() == old(self).targets_spec(),
            final(self).cursor_spec() == old(self).cursor_spec() + 1,
            !final(self).aborted_spec(),
    {
        let n = self.targets.len();
        proof {
            assert(self.cursor < n);
        }
        self.cursor = self.cursor + 1;
    }

    /// A write to the current peer failed: abort the fan-out. Recipients not
    /// yet reached are never attempted.
    pub fn record_failure(&mut self)
        requires
            old(self).wf(),
            !old(self).done(),
        ensures
            final(self).wf(),
            final(self).targets_spec() == old(self).targets_spec(),
            final(self).cursor_spec() == old(self).cursor_spec(),
            final(self).aborted_spec(),
            final(self).done(),
    {
        self.aborted = true;
    }

    /// Whether the fan-out is over.
    pub fn is_done(&self) -> (r: bool)
        requires
            self.wf(),
        ensures
            r == self.done(),
    {
        self.aborted || self.cursor == self.targets.len()
    }
}

} // verus!
