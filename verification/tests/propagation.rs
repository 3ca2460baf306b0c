use propagation::{
    Address, AdmitOutcome, DecodedTransaction, FanOut, Mempool, MempoolEntry, MessageKind,
    OutboundMessage, Phase, PropagationError, TxPropagation, VerifyOutcome,
};

fn addr(n: u16) -> Address {
    Address { ip: n as u128, port: n }
}

fn tx(id: u64, value_balance: i64) -> DecodedTransaction {
    DecodedTransaction { id, value_balance }
}

/// Drives a started machine through decode and verdict, then fans out.
/// `absent` peers have no channel and are skipped; `failing` peers fail the
/// write. Returns the writes performed, in order, and the call's result.
fn drive(
    raw: Vec<u8>,
    origin: Address,
    self_addr: Address,
    decoded: Option<DecodedTransaction>,
    verdict: VerifyOutcome,
    mempool: &mut Mempool,
    peers: &Vec<Address>,
    absent: &[Address],
    failing: &[Address],
) -> (Vec<(Address, OutboundMessage)>, Result<(), PropagationError>) {
    let mut writes: Vec<(Address, OutboundMessage)> = Vec::new();
    let mut m = TxPropagation::start(raw, origin, self_addr);
    assert_eq!(m.current_phase(), Phase::Decoding);
    m.on_decoded(decoded);
    if m.current_phase() == Phase::Verifying {
        m.on_verdict(mempool, verdict);
    }
    if m.current_phase() == Phase::Admitted {
        m.begin_fan_out(peers);
    }
    while m.current_phase() == Phase::Relaying {
        let peer = m.next_peer();
        if absent.contains(&peer) {
            m.on_peer_done();
        } else if failing.contains(&peer) {
            m.on_write_failed();
        } else {
            writes.push((peer, m.message()));
            m.on_peer_done();
        }
    }
    assert_eq!(m.current_phase(), Phase::Finished);
    (writes, m.result())
}

#[test]
fn mempool_deduplicates_by_identity() {
    let mut mp = Mempool::new();
    assert_eq!(mp.len(), 0);
    assert!(!mp.contains(7));
    assert!(mp.insert(MempoolEntry { size: 3, transaction: tx(7, 1) }));
    assert!(mp.contains(7));
    assert_eq!(mp.len(), 1);
    // Same identity again: not newly added, not re-counted.
    assert!(!mp.insert(MempoolEntry { size: 9, transaction: tx(7, 2) }));
    assert_eq!(mp.len(), 1);
    // A different identity is added.
    assert!(mp.insert(MempoolEntry { size: 4, transaction: tx(8, 0) }));
    assert_eq!(mp.len(), 2);
}

#[test]
fn valid_new_transaction_reaches_every_eligible_peer_once() {
    let (a, b, c, node) = (addr(1), addr(2), addr(3), addr(9));
    let peers = vec![a, b, c];
    let mut mp = Mempool::new();
    let raw = vec![1u8, 2, 3, 4];
    let (writes, result) =
        drive(raw.clone(), a, node, Some(tx(7, 5)), VerifyOutcome::Valid, &mut mp, &peers, &[], &[]);
    assert!(result.is_ok());
    let recipients: Vec<Address> = writes.iter().map(|(p, _)| *p).collect();
    assert_eq!(recipients, vec![b, c]);
    for (_, msg) in &writes {
        assert_eq!(msg.kind, MessageKind::Transaction);
        assert_eq!(msg.payload, raw);
    }
    assert!(mp.contains(7));
    assert_eq!(mp.len(), 1);
}

#[test]
fn duplicate_relay_fans_out_only_once() {
    let (a, b, c, node) = (addr(1), addr(2), addr(3), addr(9));
    let peers = vec![a, b, c];
    let mut mp = Mempool::new();
    let raw = vec![1u8, 2, 3];
    let (first_writes, r1) =
        drive(raw.clone(), a, node, Some(tx(7, 5)), VerifyOutcome::Valid, &mut mp, &peers, &[], &[]);
    assert!(r1.is_ok());
    assert_eq!(first_writes.len(), 2);
    // Byte-identical relay: same decoded transaction, same identity.
    let (second_writes, r2) =
        drive(raw, a, node, Some(tx(7, 5)), VerifyOutcome::Valid, &mut mp, &peers, &[], &[]);
    assert!(r2.is_ok());
    assert_eq!(second_writes.len(), 0);
    assert_eq!(mp.len(), 1);
}

#[test]
fn coinbase_shaped_transaction_is_dropped() {
    let (a, b, node) = (addr(1), addr(2), addr(9));
    let peers = vec![a, b];
    let mut mp = Mempool::new();
    let (writes, result) =
        drive(vec![5u8], a, node, Some(tx(7, -1)), VerifyOutcome::Valid, &mut mp, &peers, &[], &[]);
    assert!(result.is_ok());
    assert_eq!(writes.len(), 0);
    assert_eq!(mp.len(), 0);
    assert!(!mp.contains(7));
}

#[test]
fn invalid_transaction_is_dropped_silently() {
    let (a, b, node) = (addr(1), addr(2), addr(9));
    let peers = vec![a, b];
    let mut mp = Mempool::new();
    let (writes, result) =
        drive(vec![5u8], a, node, Some(tx(7, 5)), VerifyOutcome::Invalid, &mut mp, &peers, &[], &[]);
    assert!(result.is_ok());
    assert_eq!(writes.len(), 0);
    assert_eq!(mp.len(), 0);
}

#[test]
fn malformed_bytes_are_a_successful_no_op() {
    let (a, b, node) = (addr(1), addr(2), addr(9));
    let peers = vec![a, b];
    let mut mp = Mempool::new();
    let (writes, result) =
        drive(vec![0u8, 255], a, node, None, VerifyOutcome::Valid, &mut mp, &peers, &[], &[]);
    assert!(result.is_ok());
    assert_eq!(writes.len(), 0);
    assert_eq!(mp.len(), 0);
}

#[test]
fn validator_fault_is_surfaced() {
    let (a, b, node) = (addr(1), addr(2), addr(9));
    let peers = vec![a, b];
    let mut mp = Mempool::new();
    let (writes, result) =
        drive(vec![5u8], a, node, Some(tx(7, 5)), VerifyOutcome::Fault, &mut mp, &peers, &[], &[]);
    assert_eq!(result, Err(PropagationError::ValidatorFault));
    assert_eq!(writes.len(), 0);
    assert_eq!(mp.len(), 0);
}

#[test]
fn origin_and_self_never_receive_their_own_traffic() {
    let (a, node) = (addr(1), addr(9));
    // The snapshot holds the origin and the node itself among others.
    let peers = vec![a, addr(2), node, addr(3)];
    let mut mp = Mempool::new();
    let (writes, result) =
        drive(vec![5u8], a, node, Some(tx(7, 5)), VerifyOutcome::Valid, &mut mp, &peers, &[], &[]);
    assert!(result.is_ok());
    let recipients: Vec<Address> = writes.iter().map(|(p, _)| *p).collect();
    assert!(!recipients.contains(&a));
    assert!(!recipients.contains(&node));
    assert_eq!(recipients, vec![addr(2), addr(3)]);
}

#[test]
fn absent_channel_is_skipped_silently() {
    let (a, b, c, node) = (addr(1), addr(2), addr(3), addr(9));
    let peers = vec![a, b, c];
    let mut mp = Mempool::new();
    // The origin is elsewhere, so a, b and c are all recipients; c
    // disconnected between the snapshot and the channel lookup.
    let origin = addr(8);
    let (writes, result) = drive(
        vec![5u8],
        origin,
        node,
        Some(tx(7, 5)),
        VerifyOutcome::Valid,
        &mut mp,
        &peers,
        &[c],
        &[],
    );
    assert!(result.is_ok());
    let recipients: Vec<Address> = writes.iter().map(|(p, _)| *p).collect();
    assert_eq!(recipients, vec![a, b]);
}

#[test]
fn write_failure_aborts_the_remaining_fan_out() {
    let (a, b, c, node) = (addr(1), addr(2), addr(3), addr(9));
    let peers = vec![a, b, c];
    let origin = addr(8);
    let mut mp = Mempool::new();
    let (writes, result) = drive(
        vec![5u8],
        origin,
        node,
        Some(tx(7, 5)),
        VerifyOutcome::Valid,
        &mut mp,
        &peers,
        &[],
        &[b],
    );
    assert_eq!(result, Err(PropagationError::SendFailure));
    // a was written before the failure; c, iterated after b, never was.
    let recipients: Vec<Address> = writes.iter().map(|(p, _)| *p).collect();
    assert_eq!(recipients, vec![a]);
    // The mempool insertion stands even though the broadcast failed.
    assert!(mp.contains(7));
}

#[test]
fn fan_out_with_no_eligible_peer_ends_successfully() {
    let (a, node) = (addr(1), addr(9));
    let peers = vec![a, node];
    let mut mp = Mempool::new();
    let (writes, result) =
        drive(vec![5u8], a, node, Some(tx(7, 5)), VerifyOutcome::Valid, &mut mp, &peers, &[], &[]);
    assert!(result.is_ok());
    assert_eq!(writes.len(), 0);
    assert!(mp.contains(7));
}

#[test]
fn block_broadcast_reaches_every_peer_but_the_miner() {
    let (m, b, c, node) = (addr(1), addr(2), addr(3), addr(9));
    let peers = vec![m, b, c];
    let data = vec![10u8, 20, 30];
    let mut fo = FanOut::begin(&peers, m, node);
    let mut writes: Vec<(Address, OutboundMessage)> = Vec::new();
    while !fo.is_done() {
        let peer = fo.peek();
        writes.push((peer, OutboundMessage::block(data.clone())));
        fo.advance();
    }
    let recipients: Vec<Address> = writes.iter().map(|(p, _)| *p).collect();
    assert_eq!(recipients, vec![b, c]);
    for (_, msg) in &writes {
        assert_eq!(msg.kind, MessageKind::Block);
        assert_eq!(msg.payload, data);
    }
}

#[test]
fn block_broadcast_aborts_on_first_send_failure() {
    let (m, b, c, node) = (addr(1), addr(2), addr(3), addr(9));
    let peers = vec![m, b, c];
    let mut fo = FanOut::begin(&peers, m, node);
    // b is iterated first and its write fails: c is never attempted.
    assert_eq!(fo.peek(), b);
    fo.record_failure();
    assert!(fo.is_done());
}

#[test]
fn outbound_messages_carry_the_raw_bytes_unchanged() {
    let raw = vec![9u8, 8, 7];
    let t = OutboundMessage::transaction(raw.clone());
    assert_eq!(t.kind, MessageKind::Transaction);
    assert_eq!(t.payload, raw);
    let b = OutboundMessage::block(raw.clone());
    assert_eq!(b.kind, MessageKind::Block);
    assert_eq!(b.payload, raw);
}

#[test]
fn transaction_message_carries_the_original_bytes() {
    let (a, node) = (addr(1), addr(9));
    let raw = vec![4u8, 5, 6];
    let m = TxPropagation::start(raw.clone(), a, node);
    let msg = m.message();
    assert_eq!(msg.kind, MessageKind::Transaction);
    assert_eq!(msg.payload, raw);
}

#[test]
fn admission_outcomes_are_reported() {
    let (a, node) = (addr(1), addr(9));
    let mut mp = Mempool::new();

    let mut m = TxPropagation::start(vec![1u8], a, node);
    m.on_decoded(Some(tx(7, 5)));
    assert_eq!(m.on_verdict(&mut mp, VerifyOutcome::Valid), AdmitOutcome::Admitted);

    let mut m = TxPropagation::start(vec![1u8], a, node);
    m.on_decoded(Some(tx(7, 5)));
    assert_eq!(m.on_verdict(&mut mp, VerifyOutcome::Valid), AdmitOutcome::Duplicate);

    let mut m = TxPropagation::start(vec![1u8], a, node);
    m.on_decoded(Some(tx(8, -3)));
    assert_eq!(m.on_verdict(&mut mp, VerifyOutcome::Valid), AdmitOutcome::RejectedCoinbase);

    let mut m = TxPropagation::start(vec![1u8], a, node);
    m.on_decoded(Some(tx(9, 0)));
    assert_eq!(m.on_verdict(&mut mp, VerifyOutcome::Invalid), AdmitOutcome::RejectedInvalid);

    let mut m = TxPropagation::start(vec![1u8], a, node);
    m.on_decoded(Some(tx(10, 0)));
    assert_eq!(m.on_verdict(&mut mp, VerifyOutcome::Fault), AdmitOutcome::ValidatorFault);
}
