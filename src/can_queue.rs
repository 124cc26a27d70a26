//! Software transmit queue in front of the CAN controller's mailboxes.
//!
//! A frame goes straight to the hardware when a mailbox is free. When the
//! hardware is busy, or hands back a lower-priority frame that the new one
//! displaced, the frame waits in a bounded heap ordered by bus arbitration.
//! When the heap is full, everything pending is dropped and the mailboxes are
//! aborted: all traffic here is periodic state, and stale state is worse
//! than none.
use vstd::multiset::Multiset;
use vstd::prelude::*;

use crate::frame::{FrameId, QueuedFrame, BASE_SPAN, EXTENDED_LOW_SPAN};

verus! {

/// Number of received frames the receive channel holds.
pub const RX_CAPACITY: usize = 16;

/// Number of frames the software transmit queue holds.
pub const TX_CAPACITY: usize = 32;

/// A waiting frame as the heap stores it: arbitration key, length, buffer.
/// The heap yields the smallest key first, the frame that wins the bus.
pub type TxItem = (u32, u8, [u8; 8]);

/// The heap that holds the waiting frames.
pub type TxHeap = heapless::BinaryHeap<(u32, u8, [u8; 8]), heapless::binary_heap::Min, 32>;

#[verifier::external_type_specification]
#[verifier::external_body]
#[verifier::reject_recursive_types(T)]
#[verifier::reject_recursive_types(K)]
pub struct ExBinaryHeap<T, K, const N: usize>(heapless::BinaryHeap<T, K, N>);

#[verifier::external_type_specification]
#[verifier::external_body]
pub struct ExMin(heapless::binary_heap::Min);

/// What the transmit heap holds.
pub uninterp spec fn heap_items(h: heapless::BinaryHeap<(u32, u8, [u8; 8]), heapless::binary_heap::Min, 32>) -> Multiset<(u32, u8, [u8; 8])>;

/// Relies on heapless::BinaryHeap::new: the heap starts empty.
#[verifier::external_body]
fn heap_new() -> (r: TxHeap)
    ensures
        heap_items(r) =~= Multiset::empty(),
{
    heapless::BinaryHeap::new()
}

/// Relies on heapless::BinaryHeap::push: a full heap hands the item back and
/// stays as it was; otherwise the item is added.
#[verifier::external_body]
fn heap_push(h: &mut TxHeap, item: TxItem) -> (r: Result<(), TxItem>)
    ensures
        heap_items(*old(h)).len() < TX_CAPACITY ==> r is Ok && heap_items(*final(h)) == heap_items(*old(h)).insert(item),
        heap_items(*old(h)).len() >= TX_CAPACITY ==> r is Err && heap_items(*final(h)) == heap_items(*old(h)),
{
    h.push(item)
}

/// Relies on heapless::BinaryHeap::pop on a min-heap: removes and returns an
/// item that no other item is below; its key is the smallest, as tuples
/// compare by their first field first.
#[verifier::external_body]
fn heap_pop(h: &mut TxHeap) -> (r: Option<TxItem>)
    ensures
        heap_items(*old(h)).len() == 0 ==> r is None && heap_items(*final(h)) == heap_items(*old(h)),
        heap_items(*old(h)).len() > 0 ==> (r matches Some(x) && heap_items(*old(h)).contains(x)
            && heap_items(*final(h)) == heap_items(*old(h)).remove(x)
            && forall|y: TxItem| #[trigger] heap_items(*old(h)).contains(y) ==> x.0 <= y.0),
{
    h.pop()
}

/// Relies on heapless::BinaryHeap::clear: the heap is empty afterwards.
#[verifier::external_body]
fn heap_clear(h: &mut TxHeap)
    ensures
        heap_items(*final(h)) =~= Multiset::empty(),
{
    h.clear()
}

/// Relies on heapless::BinaryHeap::len: the number of items held.
#[verifier::external_body]
fn heap_len(h: &TxHeap) -> (r: usize)
    ensures
        r == heap_items(*h).len(),
{
    h.len()
}

/// The heap entry for a frame.
pub open spec fn item_of(f: QueuedFrame) -> TxItem {
    (f.id.key_spec() as u32, f.len, f.data)
}

/// The frame a heap entry stands for.
pub open spec fn frame_of(i: TxItem) -> QueuedFrame {
    QueuedFrame { id: FrameId::from_key(i.0 as nat), len: i.1, data: i.2 }
}

/// A heap entry made from a well-formed frame.
pub open spec fn item_wf(i: TxItem) -> bool {
    frame_of(i).wf() && item_of(frame_of(i)) == i
}

proof fn lemma_item_of_wf(f: QueuedFrame)
    requires
        f.wf(),
    ensures
        item_wf(item_of(f)),
        frame_of(item_of(f)) == f,
        item_of(f).0 < 0x4000_0000,
{
    crate::frame::lemma_key_round_trip(f.id);
    lemma_key_bound(f.id);
}

proof fn lemma_key_bound(id: FrameId)
    requires
        id.wf(),
    ensures
        id.key_spec() < 0x4000_0000,
{
    match id {
        FrameId::Standard(s) => {
            assert(s as nat * 0x8_0000 < 0x4000_0000) by (nonlinear_arith)
                requires s <= 0x7FF;
        },
        FrameId::Extended(e) => {
            let base = e as nat / 0x4_0000;
            assert(base <= 0x7FF) by (nonlinear_arith)
                requires base == e as nat / 0x4_0000, e <= 0x1FFF_FFFF;
            assert(base * 0x8_0000 <= 0x7FF * 0x8_0000) by (nonlinear_arith)
                requires base <= 0x7FF;
        },
    }
}

fn to_item(f: &QueuedFrame) -> (r: TxItem)
    requires
        f.wf(),
    ensures
        r == item_of(*f),
        item_wf(r),
{
    proof {
        lemma_item_of_wf(*f);
    }
    (f.id.priority_key(), f.len, f.data)
}

fn from_item(i: TxItem) -> (r: QueuedFrame)
    requires
        item_wf(i),
    ensures
        r == frame_of(i),
        r.wf(),
        item_of(r) == i,
{
    proof {
        lemma_key_bound(frame_of(i).id);
    }
    let key = i.0;
    let base = key / BASE_SPAN;
    let rest = key % BASE_SPAN;
    assert(base < 0x800) by (nonlinear_arith)
        requires base == key / 0x8_0000, key < 0x4000_0000;
    let id = if rest >= EXTENDED_LOW_SPAN {
        assert(base * 0x4_0000 < 0x2000_0000) by (nonlinear_arith)
            requires base < 0x800;
        FrameId::Extended(base * EXTENDED_LOW_SPAN + (rest - EXTENDED_LOW_SPAN))
    } else {
        FrameId::Standard(base as u16)
    };
    QueuedFrame { id, len: i.1, data: i.2 }
}

/// What the hardware did with a frame offered to it.
#[derive(Clone, Copy, Debug)]
pub enum TransmitOutcome {
    /// A mailbox was free and took the frame.
    Sent,
    /// The frame took a mailbox from this lower-priority frame, which now
    /// needs a place to wait.
    Displaced(QueuedFrame),
    /// Every mailbox was busy: the frame was not taken.
    WouldBlock,
}

/// The frame that has to wait after `frame` was offered with this outcome.
pub open spec fn to_queue(frame: QueuedFrame, outcome: TransmitOutcome) -> Option<QueuedFrame> {
    match outcome {
        TransmitOutcome::Sent => None,
        TransmitOutcome::Displaced(d) => Some(d),
        TransmitOutcome::WouldBlock => Some(frame),
    }
}

/// The software side of the transmit path: frames waiting for a mailbox.
pub struct Tx {
    queue: TxHeap,
}

impl View for Tx {
    type V = Multiset<TxItem>;

    /// The frames waiting, as heap entries.
    closed spec fn view(&self) -> Multiset<TxItem> {
        heap_items(self.queue)
    }
}

impl Tx {
    /// At most `TX_CAPACITY` entries, each made from a well-formed frame.
    pub open spec fn wf(&self) -> bool {
        &&& self@.len() <= TX_CAPACITY
        &&& forall|i: TxItem| #[trigger] self@.contains(i) ==> item_wf(i)
    }

    /// How `transmit` leaves the queue.
    pub open spec fn transmit_spec(pre: Tx, post: Tx, frame: QueuedFrame, outcome: TransmitOutcome, overflow: bool) -> bool {
        match to_queue(frame, outcome) {
            None => !overflow && post@ == pre@,
            Some(q) => if pre@.len() < TX_CAPACITY {
                !overflow && post@ == pre@.insert(item_of(q))
            } else {
                overflow && post@ =~= Multiset::empty()
            },
        }
    }

    /// How `pop_next` leaves the queue: the frame that wins arbitration
    /// among those waiting leaves, or nothing when none waits.
    pub open spec fn pop_spec(pre: Tx, post: Tx, r: Option<QueuedFrame>) -> bool {
        match r {
            None => pre@.len() == 0 && post@ == pre@,
            Some(f) => {
                &&& f.wf()
                &&& pre@.contains(item_of(f))
                &&& post@ == pre@.remove(item_of(f))
                &&& forall|y: TxItem| #[trigger] pre@.contains(y) ==> f.id.key_spec() <= y.0
            },
        }
    }

    /// An empty queue.
    pub fn new() -> (r: Tx)
        ensures
            r.wf(),
            r@ =~= Multiset::empty(),
    {
        Tx { queue: heap_new() }
    }

    /// Number of frames waiting.
    pub fn len(&self) -> (r: usize)
        ensures
            r == self@.len(),
    {
        heap_len(&self.queue)
    }

    /// Takes the hardware's answer to `frame`. A frame that the hardware
    /// could not take, or that it displaced, waits in the queue. If the queue
    /// is full, it is cleared instead and the result is true: the caller
    /// then aborts the hardware mailboxes.
    pub fn transmit(&mut self, frame: QueuedFrame, outcome: TransmitOutcome) -> (overflow: bool)
        requires
            old(self).wf(),
            frame.wf(),
            outcome matches TransmitOutcome::Displaced(d) ==> d.wf(),
        ensures
            final(self).wf(),
            Tx::transmit_spec(*old(self), *final(self), frame, outcome, overflow),
    {
        let waiting = match outcome {
            TransmitOutcome::Sent => None,
            TransmitOutcome::Displaced(d) => Some(d),
            TransmitOutcome::WouldBlock => Some(frame),
        };
        match waiting {
            None => false,
            Some(q) => {
                let item = to_item(&q);
                let ghost pre = self@;
                match heap_push(&mut self.queue, item) {
                    Ok(()) => {
                        assert forall|i: TxItem| #[trigger] self@.contains(i) implies item_wf(i) by {
                            if i != item {
                                assert(pre.contains(i));
                            }
                        }
                        false
                    },
                    Err(_) => {
                        heap_clear(&mut self.queue);
                        true
                    },
                }
            },
        }
    }

    /// Removes and returns the waiting frame that wins bus arbitration, to
    /// be offered to the hardware once a mailbox is free.
    pub fn pop_next(&mut self) -> (r: Option<QueuedFrame>)
        requires
            old(self).wf(),
        ensures
            final(self).wf(),
            Tx::pop_spec(*old(self), *final(self), r),
            r.is_none() <==> old(self)@.len() == 0,
    {
        match heap_pop(&mut self.queue) {
            None => None,
            Some(item) => {
                assert forall|i: TxItem| #[trigger] self@.contains(i) implies item_wf(i) by {
                    assert(old(self)@.contains(i));
                }
                let f = from_item(item);
                Some(f)
            },
        }
    }
}

/// Frames leave the queue in arbitration order: of two frames popped one
/// after the other, with distinct identifiers among those waiting, the first
/// has the lower arbitration key. By `lemma_key_order` that is the lower
/// identifier among frames of one width, and the standard frame among two
/// that share a base identifier.
pub proof fn lemma_pop_order(t0: Tx, t1: Tx, t2: Tx, f1: QueuedFrame, f2: QueuedFrame)
    requires
        t0.wf(),
        forall|i: TxItem| #[trigger] t0@.count(i) <= 1,
        forall|i: TxItem, j: TxItem| #[trigger] t0@.contains(i) && #[trigger] t0@.contains(j)
            && frame_of(i).id == frame_of(j).id ==> i == j,
        Tx::pop_spec(t0, t1, Some(f1)),
        Tx::pop_spec(t1, t2, Some(f2)),
    ensures
        f1.id.key_spec() < f2.id.key_spec(),
{
    let i1 = item_of(f1);
    let i2 = item_of(f2);
    assert(t0@.contains(i2));
    if i1 == i2 {
        assert(t0@.count(i1) >= 2);
    }
    lemma_key_bound(f1.id);
    lemma_key_bound(f2.id);
}

/// A model of one hardware transmit mailbox: it takes a frame while empty
/// and is busy until that frame has gone out or is aborted.
pub struct Mailbox {
    pub slot: Option<QueuedFrame>,
}

impl Mailbox {
    /// The frame in flight, as a heap entry.
    pub open spec fn in_flight(&self) -> Multiset<TxItem> {
        match self.slot {
            Some(f) => Multiset::singleton(item_of(f)),
            None => Multiset::empty(),
        }
    }

    /// An empty mailbox.
    pub fn new() -> (r: Mailbox)
        ensures
            r.slot is None,
    {
        Mailbox { slot: None }
    }

    /// Offers a frame: an empty mailbox takes it, a busy one refuses it.
    pub fn offer(&mut self, frame: QueuedFrame) -> (r: TransmitOutcome)
        ensures
            old(self).slot is None ==> r is Sent && final(self).slot == Some(frame),
            old(self).slot is Some ==> r is WouldBlock && final(self).slot == old(self).slot,
    {
        match self.slot {
            None => {
                self.slot = Some(frame);
                TransmitOutcome::Sent
            },
            Some(_) => TransmitOutcome::WouldBlock,
        }
    }

    /// The frame in flight has gone out: the mailbox is free again and the
    /// frame is returned.
    pub fn complete(&mut self) -> (r: Option<QueuedFrame>)
        ensures
            r == old(self).slot,
            final(self).slot is None,
    {
        let r = self.slot;
        self.slot = None;
        r
    }

    /// Drops the frame in flight.
    pub fn abort(&mut self)
        ensures
            final(self).slot is None,
    {
        self.slot = None;
    }
}

/// How `submit` leaves the queue and the mailbox. Without overflow, what is
/// pending or in flight grew by exactly the new frame; with it, both are
/// empty. Overflow happens exactly when the mailbox was busy and the queue
/// full.
pub open spec fn submit_spec(t0: Tx, m0: Mailbox, t1: Tx, m1: Mailbox, frame: QueuedFrame, overflow: bool) -> bool {
    &&& overflow == (m0.slot is Some && t0@.len() == TX_CAPACITY)
    &&& !overflow ==> t1@.add(m1.in_flight()) == t0@.add(m0.in_flight()).insert(item_of(frame))
    &&& !overflow ==> (m0.slot is None ==> m1.slot == Some(frame) && t1@ == t0@)
    &&& !overflow ==> (m0.slot is Some ==> m1.slot == m0.slot && t1@ == t0@.insert(item_of(frame)))
    &&& overflow ==> t1@.len() == 0 && m1.slot is None
}

/// Offers `frame` to the mailbox and queues it if the mailbox is busy;
/// clears both when the queue overflows. Returns true on overflow.
pub fn submit(tx: &mut Tx, mailbox: &mut Mailbox, frame: QueuedFrame) -> (overflow: bool)
    requires
        old(tx).wf(),
        frame.wf(),
    ensures
        final(tx).wf(),
        submit_spec(*old(tx), *old(mailbox), *final(tx), *final(mailbox), frame, overflow),
{
    let outcome = mailbox.offer(frame);
    let overflow = tx.transmit(frame, outcome);
    if overflow {
        mailbox.abort();
    }
    proof {
        if !overflow {
            assert(tx@.add(mailbox.in_flight()) =~= old(tx)@.add(old(mailbox).in_flight()).insert(item_of(frame)));
        }
    }
    overflow
}

/// How `on_tx_complete` leaves the queue and the mailbox: the frame in
/// flight is delivered, the winner among the waiting frames takes the
/// mailbox, and nothing else is lost or added.
pub open spec fn complete_spec(t0: Tx, m0: Mailbox, t1: Tx, m1: Mailbox, delivered: Option<QueuedFrame>) -> bool {
    &&& delivered == m0.slot
    &&& t1@.add(m1.in_flight()).add(Mailbox { slot: delivered }.in_flight()) == t0@.add(m0.in_flight())
    &&& t0@.len() == 0 ==> m1.slot is None
    &&& t0@.len() > 0 ==> (m1.slot matches Some(f) && t0@.contains(item_of(f))
        && forall|y: TxItem| #[trigger] t0@.contains(y) ==> f.id.key_spec() <= y.0)
}

/// The hardware reports the frame in flight sent: frees the mailbox and
/// hands it the next frame that wins arbitration. Returns the frame sent.
pub fn on_tx_complete(tx: &mut Tx, mailbox: &mut Mailbox) -> (delivered: Option<QueuedFrame>)
    requires
        old(tx).wf(),
    ensures
        final(tx).wf(),
        complete_spec(*old(tx), *old(mailbox), *final(tx), *final(mailbox), delivered),
{
    let delivered = mailbox.complete();
    match tx.pop_next() {
        Some(next) => {
            let ghost t_mid = *tx;
            let outcome = mailbox.offer(next);
            tx.transmit(next, outcome);
            proof {
                assert(tx@ == t_mid@);
                assert(old(tx)@ =~= t_mid@.insert(item_of(next)));
            }
        },
        None => {},
    }
    proof {
        assert(tx@.add(mailbox.in_flight()).add(Mailbox { slot: delivered }.in_flight()) =~= old(tx)@.add(old(mailbox).in_flight()));
    }
    delivered
}

/// One step of the transmit path, as seen from outside.
#[derive(Clone, Copy, Debug)]
pub enum TxEvent {
    /// `submit` took this frame without overflow.
    Submitted(QueuedFrame),
    /// `on_tx_complete` ran and delivered this frame, if any.
    Completed(Option<QueuedFrame>),
}

/// Frames pending or in flight.
pub open spec fn outstanding(t: Tx, m: Mailbox) -> Multiset<TxItem> {
    t@.add(m.in_flight())
}

/// The step from `(t0, m0)` to `(t1, m1)` is the event.
pub open spec fn event_step(t0: Tx, m0: Mailbox, e: TxEvent, t1: Tx, m1: Mailbox) -> bool {
    match e {
        TxEvent::Submitted(f) => submit_spec(t0, m0, t1, m1, f, false),
        TxEvent::Completed(d) => complete_spec(t0, m0, t1, m1, d),
    }
}

/// Frames the events submitted.
pub open spec fn submitted(events: Seq<TxEvent>) -> Multiset<TxItem>
    decreases events.len(),
{
    if events.len() == 0 {
        Multiset::empty()
    } else {
        submitted(events.drop_last()).add(match events.last() {
            TxEvent::Submitted(f) => Multiset::singleton(item_of(f)),
            TxEvent::Completed(_) => Multiset::empty(),
        })
    }
}

/// Frames the events delivered.
pub open spec fn delivered(events: Seq<TxEvent>) -> Multiset<TxItem>
    decreases events.len(),
{
    if events.len() == 0 {
        Multiset::empty()
    } else {
        delivered(events.drop_last()).add(match events.last() {
            TxEvent::Completed(d) => Mailbox { slot: d }.in_flight(),
            TxEvent::Submitted(_) => Multiset::empty(),
        })
    }
}

/// No frame is duplicated or lost: over any run of submissions without
/// overflow and completions, what is pending or in flight at the end,
/// together with what was delivered, is exactly what was there at the start
/// together with what was submitted. At most one frame is in flight at any
/// time, as the mailbox has one slot.
pub proof fn lemma_no_loss(ts: Seq<Tx>, ms: Seq<Mailbox>, events: Seq<TxEvent>)
    requires
        ts.len() == events.len() + 1,
        ms.len() == events.len() + 1,
        forall|i: int| 0 <= i < events.len() ==> #[trigger] event_step(ts[i], ms[i], events[i], ts[i + 1], ms[i + 1]),
    ensures
        outstanding(ts.last(), ms.last()).add(delivered(events)) =~= outstanding(ts[0], ms[0]).add(submitted(events)),
    decreases events.len(),
{
    if events.len() > 0 {
        let k = events.len() - 1;
        let ts0 = ts.drop_last();
        let ms0 = ms.drop_last();
        let ev0 = events.drop_last();
        assert forall|i: int| 0 <= i < ev0.len() implies #[trigger] event_step(ts0[i], ms0[i], ev0[i], ts0[i + 1], ms0[i + 1]) by {
            assert(event_step(ts[i], ms[i], events[i], ts[i + 1], ms[i + 1]));
        }
        lemma_no_loss(ts0, ms0, ev0);
        assert(event_step(ts[k], ms[k], events[k], ts[k + 1], ms[k + 1]));
        let o_0 = outstanding(ts[0], ms[0]);
        let o_k = outstanding(ts[k], ms[k]);
        let o_n = outstanding(ts.last(), ms.last());
        assert(ts0.last() == ts[k] && ms0.last() == ms[k] && ts0[0] == ts[0] && ms0[0] == ms[0]);
        assert(events.last() == events[k]);
        // What the earlier steps established.
        assert(o_k.add(delivered(ev0)) =~= o_0.add(submitted(ev0)));
        match events[k] {
            TxEvent::Submitted(f) => {
                assert(o_n =~= o_k.insert(item_of(f)));
                assert(submitted(events) == submitted(ev0).add(Multiset::singleton(item_of(f))));
                assert(delivered(events) == delivered(ev0).add(Multiset::empty()));
                assert forall|x: TxItem| #[trigger] o_n.add(delivered(events)).count(x) == o_0.add(submitted(events)).count(x) by {
                    assert(o_k.add(delivered(ev0)).count(x) == o_0.add(submitted(ev0)).count(x));
                    assert(o_n.count(x) == o_k.insert(item_of(f)).count(x));
                }
                assert(o_n.add(delivered(events)) =~= o_0.add(submitted(events)));
            },
            TxEvent::Completed(d) => {
                let r = Mailbox { slot: d }.in_flight();
                assert(o_n.add(r) =~= o_k);
                assert(submitted(events) == submitted(ev0).add(Multiset::empty()));
                assert(delivered(events) == delivered(ev0).add(r));
                assert forall|x: TxItem| #[trigger] o_n.add(delivered(events)).count(x) == o_0.add(submitted(events)).count(x) by {
                    assert(o_k.add(delivered(ev0)).count(x) == o_0.add(submitted(ev0)).count(x));
                    assert(o_n.add(r).count(x) == o_k.count(x));
                }
                assert(o_n.add(delivered(events)) =~= o_0.add(submitted(events)));
            },
        }
    }
}

/// A queue that overflows is reset, not trimmed: offering one frame more
/// than it holds while the mailbox stays busy leaves nothing pending and
/// nothing in flight, and the next frame goes straight to the hardware.
pub proof fn lemma_overflow_reset(
    t0: Tx, m0: Mailbox, f1: QueuedFrame, t1: Tx, m1: Mailbox, o1: bool,
    f2: QueuedFrame, t2: Tx, m2: Mailbox, o2: bool,
)
    requires
        t0@.len() == TX_CAPACITY,
        m0.slot is Some,
        submit_spec(t0, m0, t1, m1, f1, o1),
        submit_spec(t1, m1, t2, m2, f2, o2),
    ensures
        o1,
        t1@.len() == 0,
        m1.slot is None,
        !o2,
        m2.slot == Some(f2),
        t2@.len() == 0,
{
}

/// Received frames on their way from the receive interrupt to the task that
/// handles them, oldest first. Overflowing it means the handler cannot keep
/// up with the bus, which the caller treats as fatal.
pub struct RxChannel {
    frames: Vec<QueuedFrame>,
}

impl View for RxChannel {
    type V = Seq<QueuedFrame>;

    /// The frames waiting, oldest first.
    closed spec fn view(&self) -> Seq<QueuedFrame> {
        self.frames@
    }
}

impl RxChannel {
    /// An empty channel.
    pub fn new() -> (r: RxChannel)
        ensures
            r@.len() == 0,
    {
        RxChannel { frames: Vec::new() }
    }

    /// Number of frames waiting.
    pub fn len(&self) -> (r: usize)
        ensures
            r == self@.len(),
    {
        self.frames.len()
    }

    /// Adds a frame at the back, or hands it back when the channel already
    /// holds `RX_CAPACITY` frames.
    pub fn try_send(&mut self, frame: QueuedFrame) -> (r: Result<(), QueuedFrame>)
        ensures
            old(self)@.len() < RX_CAPACITY ==> r is Ok && final(self)@ == old(self)@.push(frame),
            old(self)@.len() >= RX_CAPACITY ==> r is Err && final(self)@ == old(self)@,
    {
        if self.frames.len() >= RX_CAPACITY {
            Err(frame)
        } else {
            self.frames.push(frame);
            Ok(())
        }
    }

    /// Takes the oldest frame, if any.
    pub fn try_recv(&mut self) -> (r: Option<QueuedFrame>)
        ensures
            old(self)@.len() == 0 ==> r is None && final(self)@ == old(self)@,
            old(self)@.len() > 0 ==> r == Some(old(self)@[0]) && final(self)@ == old(self)@.drop_first(),
    {
        if self.frames.len() == 0 {
            None
        } else {
            let f = self.frames.remove(0);
            proof {
                assert(self.frames@ =~= old(self)@.drop_first());
            }
            Some(f)
        }
    }
}

} // verus!
