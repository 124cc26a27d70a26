use fakon::can_queue::{on_tx_complete, submit, Mailbox, RxChannel, TransmitOutcome, Tx, RX_CAPACITY, TX_CAPACITY};
use fakon::frame::{is_diagnostic, FrameId, QueuedFrame};

fn std_frame(id: u16) -> QueuedFrame {
    QueuedFrame::new_std(id, &[id as u8])
}

fn ext_frame(id: u32) -> QueuedFrame {
    QueuedFrame::new(FrameId::Extended(id), &[1, 2]).unwrap()
}

fn drain(tx: &mut Tx) -> Vec<FrameId> {
    let mut out = Vec::new();
    while let Some(f) = tx.pop_next() {
        out.push(f.id);
    }
    out
}

#[test]
fn pops_by_ascending_standard_id() {
    let mut tx = Tx::new();
    for id in [0x300u16, 0x100, 0x7FF, 0x000, 0x200] {
        assert!(!tx.transmit(std_frame(id), TransmitOutcome::WouldBlock));
    }
    assert_eq!(tx.len(), 5);
    let order = drain(&mut tx);
    assert_eq!(
        order,
        vec![
            FrameId::Standard(0x000),
            FrameId::Standard(0x100),
            FrameId::Standard(0x200),
            FrameId::Standard(0x300),
            FrameId::Standard(0x7FF)
        ]
    );
}

#[test]
fn pops_by_ascending_extended_id() {
    let mut tx = Tx::new();
    for id in [0x1234_5678u32, 0x0000_0001, 0x1FFF_FFFF, 0x0004_0000, 0x0003_FFFF] {
        tx.transmit(ext_frame(id), TransmitOutcome::WouldBlock);
    }
    let order = drain(&mut tx);
    assert_eq!(
        order,
        vec![
            FrameId::Extended(0x0000_0001),
            FrameId::Extended(0x0003_FFFF),
            FrameId::Extended(0x0004_0000),
            FrameId::Extended(0x1234_5678),
            FrameId::Extended(0x1FFF_FFFF)
        ]
    );
}

#[test]
fn standard_beats_extended_with_same_base() {
    let mut tx = Tx::new();
    // Extended identifier whose top 11 bits are 0x123.
    tx.transmit(ext_frame((0x123 << 18) | 5), TransmitOutcome::WouldBlock);
    tx.transmit(ext_frame(0x123 << 18), TransmitOutcome::WouldBlock);
    tx.transmit(std_frame(0x123), TransmitOutcome::WouldBlock);
    // A lower base identifier wins whatever the width.
    tx.transmit(ext_frame(0x122 << 18), TransmitOutcome::WouldBlock);
    tx.transmit(std_frame(0x124), TransmitOutcome::WouldBlock);
    let order = drain(&mut tx);
    assert_eq!(
        order,
        vec![
            FrameId::Extended(0x122 << 18),
            FrameId::Standard(0x123),
            FrameId::Extended(0x123 << 18),
            FrameId::Extended((0x123 << 18) | 5),
            FrameId::Standard(0x124)
        ]
    );
}

#[test]
fn popped_frame_keeps_its_payload() {
    let mut tx = Tx::new();
    let f = QueuedFrame::new_std(0x5A3, &[9, 8, 7]);
    tx.transmit(f, TransmitOutcome::WouldBlock);
    let g = tx.pop_next().unwrap();
    assert_eq!(g.id, FrameId::Standard(0x5A3));
    assert_eq!(g.dlc(), 3);
    assert_eq!(g.data(), &[9, 8, 7]);
    assert_eq!(g.data, [9, 8, 7, 0, 0, 0, 0, 0]);
    assert!(tx.pop_next().is_none());
}

#[test]
fn sent_frame_is_not_queued_and_displaced_one_is() {
    let mut tx = Tx::new();
    assert!(!tx.transmit(std_frame(0x10), TransmitOutcome::Sent));
    assert_eq!(tx.len(), 0);
    let displaced = std_frame(0x20);
    assert!(!tx.transmit(std_frame(0x10), TransmitOutcome::Displaced(displaced)));
    assert_eq!(tx.len(), 1);
    assert_eq!(tx.pop_next().unwrap().id, FrameId::Standard(0x20));
}

#[test]
fn at_most_one_in_flight_and_nothing_lost() {
    let mut tx = Tx::new();
    let mut mailbox = Mailbox::new();
    let mut delivered = Vec::new();
    let ids = [0x50u16, 0x40, 0x30, 0x60, 0x10, 0x20];
    for (i, id) in ids.iter().enumerate() {
        assert!(!submit(&mut tx, &mut mailbox, std_frame(*id)));
        // The mailbox holds one frame; the rest wait.
        assert!(mailbox.slot.is_some());
        assert_eq!(tx.len(), i - delivered.len());
        if i % 2 == 1 {
            if let Some(f) = on_tx_complete(&mut tx, &mut mailbox) {
                delivered.push(f.id);
            }
        }
    }
    while let Some(f) = on_tx_complete(&mut tx, &mut mailbox) {
        delivered.push(f.id);
    }
    assert_eq!(tx.len(), 0);
    assert!(mailbox.slot.is_none());
    assert_eq!(
        delivered,
        vec![
            FrameId::Standard(0x50),
            FrameId::Standard(0x40),
            FrameId::Standard(0x30),
            FrameId::Standard(0x10),
            FrameId::Standard(0x20),
            FrameId::Standard(0x60)
        ]
    );
}

#[test]
fn overflow_clears_everything() {
    let mut tx = Tx::new();
    let mut mailbox = Mailbox::new();
    // The first frame takes the mailbox, which then stays busy.
    assert!(!submit(&mut tx, &mut mailbox, std_frame(0x700)));
    for i in 0..TX_CAPACITY {
        assert!(!submit(&mut tx, &mut mailbox, std_frame(i as u16)));
    }
    assert_eq!(tx.len(), TX_CAPACITY);
    assert!(submit(&mut tx, &mut mailbox, std_frame(0x7FF)));
    assert_eq!(tx.len(), 0);
    assert!(mailbox.slot.is_none());
    // The next frame goes straight to the hardware.
    assert!(!submit(&mut tx, &mut mailbox, std_frame(0x42)));
    assert_eq!(tx.len(), 0);
    assert_eq!(mailbox.slot.unwrap().id, FrameId::Standard(0x42));
}

#[test]
fn overflow_on_transmit_reports_it() {
    let mut tx = Tx::new();
    for i in 0..TX_CAPACITY {
        assert!(!tx.transmit(std_frame(i as u16), TransmitOutcome::WouldBlock));
    }
    assert!(tx.transmit(std_frame(0x1), TransmitOutcome::WouldBlock));
    assert_eq!(tx.len(), 0);
    assert!(!tx.transmit(std_frame(0x2), TransmitOutcome::WouldBlock));
    assert_eq!(tx.len(), 1);
}

#[test]
fn frame_constructors() {
    assert!(QueuedFrame::new(FrameId::Standard(1), &[0; 9]).is_none());
    let f = QueuedFrame::new(FrameId::Extended(0x1FFF_FFFF), &[1, 2, 3, 4, 5, 6, 7, 8]).unwrap();
    assert!(f.is_extended());
    assert!(!f.is_remote_frame());
    assert_eq!(f.dlc(), 8);
    assert_eq!(f.id().as_raw(), 0x1FFF_FFFF);
    let e = QueuedFrame::new_std(0x7FF, &[]);
    assert_eq!(e.dlc(), 0);
    assert!(e.data().is_empty());
    assert_eq!(f.data(), &[1, 2, 3, 4, 5, 6, 7, 8]);
    assert!(QueuedFrame::new_remote(FrameId::Standard(1), 2).is_none());
}

#[test]
fn priority_keys() {
    assert_eq!(FrameId::Standard(0).priority_key(), 0);
    assert_eq!(FrameId::Standard(1).priority_key(), 0x8_0000);
    assert_eq!(FrameId::Extended(0).priority_key(), 0x4_0000);
    assert_eq!(FrameId::Extended(0x1FFF_FFFF).priority_key(), 0x3FFF_FFFF);
}

#[test]
fn diagnostic_range() {
    assert!(is_diagnostic(FrameId::Standard(0x700)));
    assert!(is_diagnostic(FrameId::Standard(0x7DF)));
    assert!(!is_diagnostic(FrameId::Standard(0x6FF)));
    assert!(!is_diagnostic(FrameId::Extended(0x700)));
}

#[test]
fn rx_channel_is_fifo_and_bounded() {
    let mut rx = RxChannel::new();
    assert!(rx.try_recv().is_none());
    for i in 0..RX_CAPACITY {
        assert!(rx.try_send(std_frame(0x100 + i as u16)).is_ok());
    }
    assert!(rx.try_send(std_frame(0x001)).is_err());
    assert_eq!(rx.len(), RX_CAPACITY);
    for i in 0..RX_CAPACITY {
        assert_eq!(rx.try_recv().unwrap().id, FrameId::Standard(0x100 + i as u16));
    }
    assert!(rx.try_recv().is_none());
}

#[test]
fn frames_equal_by_priority() {
    let a = QueuedFrame::new_std(0x123, &[1]);
    let b = QueuedFrame::new_std(0x123, &[2, 3]);
    let c = QueuedFrame::new_std(0x124, &[1]);
    assert!(a == b);
    assert!(a != c);
    assert!(a != ext_frame(0x123));
}

#[test]
fn well_formedness_check() {
    let mut f = QueuedFrame::new_std(0x10, &[1, 2]);
    assert!(f.is_well_formed());
    f.data[5] = 1;
    assert!(!f.is_well_formed());
    let g = QueuedFrame { id: FrameId::Standard(0x800), len: 0, data: [0; 8] };
    assert!(!g.is_well_formed());
}
