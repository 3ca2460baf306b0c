use vstd::prelude::*;

use crate::fanout::{eligible, recipients_of};
use crate::mempool::{pool_contains_id, pool_unique};
use crate::propagator::{admit_outcome, pool_after_admit, AdmitOutcome};
use crate::types::{Address, DecodedTransaction, MempoolEntry, VerifyOutcome};

verus! {

/// Every entry of the pool has a non-negative value balance: no
/// coinbase-shaped transaction is pending.
pub open spec fn pool_coinbase_free(pool: Seq<MempoolEntry>) -> bool {
    forall|i: int| 0 <= i < pool.len() ==> pool[i].transaction.value_balance >= 0
}

/// Every recipient of a fan-out came from the peer snapshot it was built
/// from.
proof fn lemma_recipient_is_a_peer(
    peers: Seq<Address>,
    origin: Address,
    self_addr: Address,
    a: Address,
)
    requires
        recipients_of(peers, origin, self_addr).contains(a),
    ensures
        peers.contains(a),
    decreases peers.len(),
{
    reveal(Seq::filter);
    let recips = recipients_of(peers, origin, self_addr);
    if peers.len() == 0 {
    } else {
        let rest = peers.drop_last();
        if a == peers.last() {
            assert(peers[peers.len() - 1] == a);
        } else {
            let i = choose|i: int| 0 <= i < recips.len() && recips[i] == a;
            assert(recipients_of(rest, origin, self_addr).contains(a)) by {
                assert(recipients_of(rest, origin, self_addr)[i] == a);
            }
            lemma_recipient_is_a_peer(rest, origin, self_addr, a);
            let j = choose|j: int| 0 <= j < rest.len() && rest[j] == a;
            assert(peers[j] == a);
        }
    }
}

/// A snapshot without duplicate peers yields a recipient list without
/// duplicates.
proof fn lemma_recipients_no_duplicates(peers: Seq<Address>, origin: Address, self_addr: Address)
    requires
        peers.no_duplicates(),
    ensures
        recipients_of(peers, origin, self_addr).no_duplicates(),
    decreases peers.len(),
{
    reveal(Seq::filter);
    if peers.len() == 0 {
    } else {
        let rest = peers.drop_last();
        assert(rest.no_duplicates());
        lemma_recipients_no_duplicates(rest, origin, self_addr);
        let sub = recipients_of(rest, origin, self_addr);
        if eligible(peers.last(), origin, self_addr) {
            assert(!sub.contains(peers.last())) by {
                if sub.contains(peers.last()) {
                    lemma_recipient_is_a_peer(rest, origin, self_addr, peers.last());
                    let i = choose|i: int| 0 <= i < rest.len() && rest[i] == peers.last();
                    assert(peers[i] == peers[peers.len() - 1]);
                }
            }
            let pushed = sub.push(peers.last());
            assert forall|i: int, j: int|
                0 <= i < pushed.len() && 0 <= j < pushed.len() && i != j implies pushed[i]
                != pushed[j] by {
                if i < sub.len() && j < sub.len() {
                } else if j == sub.len() {
                    assert(sub.contains(sub[i])) by {
                        assert(sub[i] == sub[i]);
                    }
                } else {
                    assert(sub.contains(sub[j])) by {
                        assert(sub[j] == sub[j]);
                    }
                }
            }
            assert(recipients_of(peers, origin, self_addr) == pushed);
        } else {
            assert(recipients_of(peers, origin, self_addr) == sub);
        }
    }
}

/// The origin address and the node's own address are never among the
/// recipients of the broadcast they triggered.
pub proof fn lemma_fan_out_excludes_origin_and_self(
    peers: Seq<Address>,
    origin: Address,
    self_addr: Address,
)
    ensures
        forall|i: int|
            0 <= i < recipients_of(peers, origin, self_addr).len() ==> #[trigger] recipients_of(
                peers,
                origin,
                self_addr,
            )[i] != origin && recipients_of(peers, origin, self_addr)[i] != self_addr,
        !recipients_of(peers, origin, self_addr).contains(origin),
        !recipients_of(peers, origin, self_addr).contains(self_addr),
{
    broadcast use vstd::seq_lib::group_filter_ensures;

    let recips = recipients_of(peers, origin, self_addr);
    assert forall|i: int| 0 <= i < recips.len() implies #[trigger] recips[i] != origin && recips[i]
        != self_addr by {
        assert(eligible(recips[i], origin, self_addr));
    }
    if recips.contains(origin) {
        let i = choose|i: int| 0 <= i < recips.len() && recips[i] == origin;
        assert(recips[i] != origin);
    }
    if recips.contains(self_addr) {
        let i = choose|i: int| 0 <= i < recips.len() && recips[i] == self_addr;
        assert(recips[i] != self_addr);
    }
}

/// A fan-out over a snapshot without duplicate peers targets exactly the
/// connected peers other than the origin and the node itself, each of them
/// exactly once: with every channel present and every write succeeding, each
/// such peer receives the message once and nobody else receives it at all.
pub proof fn lemma_fan_out_covers_eligible_peers_once(
    peers: Seq<Address>,
    origin: Address,
    self_addr: Address,
)
    requires
        peers.no_duplicates(),
    ensures
        forall|a: Address|
            #[trigger] recipients_of(peers, origin, self_addr).contains(a) <==> (peers.contains(a)
                && a != origin && a != self_addr),
        recipients_of(peers, origin, self_addr).no_duplicates(),
{
    broadcast use vstd::seq_lib::group_filter_ensures;

    let recips = recipients_of(peers, origin, self_addr);
    assert forall|a: Address| #[trigger] recips.contains(a) implies (peers.contains(a) && a
        != origin && a != self_addr) by {
        lemma_recipient_is_a_peer(peers, origin, self_addr, a);
        let i = choose|i: int| 0 <= i < recips.len() && recips[i] == a;
        assert(eligible(recips[i], origin, self_addr));
    }
    assert forall|a: Address| peers.contains(a) && a != origin && a != self_addr implies recips
        .contains(a) by {
        let i = choose|i: int| 0 <= i < peers.len() && peers[i] == a;
        assert(eligible(peers[i], origin, self_addr));
        assert(recips.contains(peers[i]));
    }
    lemma_recipients_no_duplicates(peers, origin, self_addr);
}

/// Relaying byte-identical transactions twice admits at most one of them:
/// once the identity was admitted, the same identity is never admitted again,
/// and a second valid relay is judged a duplicate. The second call therefore
/// performs zero peer writes.
pub proof fn lemma_second_relay_never_admitted(
    pool: Seq<MempoolEntry>,
    tx: DecodedTransaction,
    first: VerifyOutcome,
    second: VerifyOutcome,
    size: usize,
)
    requires
        admit_outcome(pool, tx, first) == AdmitOutcome::Admitted,
    ensures
        admit_outcome(pool_after_admit(pool, tx, first, size), tx, second)
            != AdmitOutcome::Admitted,
        second == VerifyOutcome::Valid ==> admit_outcome(
            pool_after_admit(pool, tx, first, size),
            tx,
            second,
        ) == AdmitOutcome::Duplicate,
{
    let after = pool_after_admit(pool, tx, first, size);
    assert(after[pool.len() as int].transaction.id == tx.id);
    assert(pool_contains_id(after, tx.id));
}

/// A coinbase-shaped transaction (negative value balance) is never admitted
/// and leaves the pool untouched, whatever the validator said of it.
pub proof fn lemma_coinbase_never_admitted(
    pool: Seq<MempoolEntry>,
    tx: DecodedTransaction,
    verdict: VerifyOutcome,
    size: usize,
)
    requires
        tx.value_balance < 0,
    ensures
        admit_outcome(pool, tx, verdict) != AdmitOutcome::Admitted,
        pool_after_admit(pool, tx, verdict, size) == pool,
{
}

/// A pool free of coinbase-shaped transactions stays free of them across an
/// admission; so after any number of calls, no transaction with a negative
/// value balance is ever pending.
pub proof fn lemma_pool_stays_coinbase_free(
    pool: Seq<MempoolEntry>,
    tx: DecodedTransaction,
    verdict: VerifyOutcome,
    size: usize,
)
    requires
        pool_coinbase_free(pool),
    ensures
        pool_coinbase_free(pool_after_admit(pool, tx, verdict, size)),
{
    let after = pool_after_admit(pool, tx, verdict, size);
    assert forall|i: int| 0 <= i < after.len() implies after[i].transaction.value_balance >= 0 by {
        if i < pool.len() {
            assert(pool[i].transaction.value_balance >= 0);
        }
    }
}

/// Admission keeps the mempool a set: entries stay unique by transaction
/// identity.
pub proof fn lemma_pool_stays_unique(
    pool: Seq<MempoolEntry>,
    tx: DecodedTransaction,
    verdict: VerifyOutcome,
    size: usize,
)
    requires
        pool_unique(pool),
    ensures
        pool_unique(pool_after_admit(pool, tx, verdict, size)),
{
    let after = pool_after_admit(pool, tx, verdict, size);
    if admit_outcome(pool, tx, verdict) == AdmitOutcome::Admitted {
        assert forall|i: int, j: int| 0 <= i < j < after.len() implies after[i].transaction.id
            != after[j].transaction.id by {
            if j < pool.len() {
            } else {
                assert(after[j].transaction.id == tx.id);
                assert(!pool_contains_id(pool, tx.id));
                assert(pool[i].transaction.id != tx.id);
            }
        }
    }
}

} // verus!
