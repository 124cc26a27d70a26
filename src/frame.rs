//! Classic CAN frames: an 11-bit or 29-bit identifier and up to eight bytes of
//! payload, and the order in which the bus arbitrates between them.
use vstd::prelude::*;
use vstd::std_specs::cmp::PartialEqSpec;

verus! {

/// The largest standard (11-bit) identifier.
pub const STANDARD_ID_MAX: u16 = 0x7FF;

/// The largest extended (29-bit) identifier.
pub const EXTENDED_ID_MAX: u32 = 0x1FFF_FFFF;

/// First identifier of the range that diagnostic requests and replies use.
pub const DIAGNOSTIC_ID_MIN: u16 = 0x700;

/// Bits of an extended identifier below its 11-bit base identifier.
pub const EXTENDED_LOW_SPAN: u32 = 0x4_0000;

/// Span of one base identifier in the arbitration key: the low extended
/// bits and one bit that tells standard and extended frames apart.
pub const BASE_SPAN: u32 = 0x8_0000;

/// A CAN identifier, tagged standard or extended.
#[derive(Clone, Copy, Debug, PartialEq, Eq, Structural)]
pub enum FrameId {
    Standard(u16),
    Extended(u32),
}

impl FrameId {
    /// The identifier fits its width.
    pub open spec fn wf(self) -> bool {
        match self {
            FrameId::Standard(s) => s <= STANDARD_ID_MAX,
            FrameId::Extended(e) => e <= EXTENDED_ID_MAX,
        }
    }

    /// The numeric identifier, whatever its width.
    pub open spec fn raw_spec(self) -> nat {
        match self {
            FrameId::Standard(s) => s as nat,
            FrameId::Extended(e) => e as nat,
        }
    }

    /// The 11 bits that are sent first on the bus.
    pub open spec fn base_spec(self) -> nat {
        match self {
            FrameId::Standard(s) => s as nat,
            FrameId::Extended(e) => e as nat / EXTENDED_LOW_SPAN as nat,
        }
    }

    /// Position of the identifier in bus arbitration: the lower key wins.
    /// Frames are ordered by base identifier first; on an equal base the
    /// standard frame wins; extended frames then go by their low bits.
    pub open spec fn key_spec(self) -> nat {
        match self {
            FrameId::Standard(s) => s as nat * BASE_SPAN as nat,
            FrameId::Extended(e) => (e as nat / EXTENDED_LOW_SPAN as nat) * BASE_SPAN as nat
                + EXTENDED_LOW_SPAN as nat + e as nat % EXTENDED_LOW_SPAN as nat,
        }
    }

    /// The identifier that an arbitration key stands for.
    pub open spec fn from_key(k: nat) -> FrameId {
        let base = k / BASE_SPAN as nat;
        let rest = k % BASE_SPAN as nat;
        if rest >= EXTENDED_LOW_SPAN as nat {
            FrameId::Extended((base * EXTENDED_LOW_SPAN as nat + (rest - EXTENDED_LOW_SPAN as nat)) as u32)
        } else {
            FrameId::Standard(base as u16)
        }
    }

    /// True for a 29-bit identifier.
    pub fn is_extended(&self) -> (r: bool)
        ensures
            r == (*self is Extended),
    {
        match self {
            FrameId::Standard(_) => false,
            FrameId::Extended(_) => true,
        }
    }

    /// The numeric identifier, whatever its width.
    pub fn as_raw(&self) -> (r: u32)
        ensures
            r as nat == self.raw_spec(),
    {
        match self {
            FrameId::Standard(s) => *s as u32,
            FrameId::Extended(e) => *e,
        }
    }

    /// The arbitration key of the identifier: the lower key wins the bus.
    pub fn priority_key(&self) -> (r: u32)
        requires
            self.wf(),
        ensures
            r as nat == self.key_spec(),
            r < 0x4000_0000,
    {
        match self {
            FrameId::Standard(s) => {
                assert(*s as nat * 0x8_0000 < 0x4000_0000) by (nonlinear_arith)
                    requires *s <= 0x7FF;
                (*s as u32) * BASE_SPAN
            },
            FrameId::Extended(e) => {
                let base = *e / EXTENDED_LOW_SPAN;
                assert(base <= 0x7FF) by (nonlinear_arith)
                    requires base == *e / 0x4_0000, *e <= 0x1FFF_FFFF;
                assert(base as nat * 0x8_0000 <= 0x7FF * 0x8_0000) by (nonlinear_arith)
                    requires base <= 0x7FF;
                base * BASE_SPAN + EXTENDED_LOW_SPAN + *e % EXTENDED_LOW_SPAN
            },
        }
    }
}

/// The arbitration key determines the identifier.
pub proof fn lemma_key_round_trip(id: FrameId)
    requires
        id.wf(),
    ensures
        FrameId::from_key(id.key_spec()) == id,
{
    let b = BASE_SPAN as int;
    let l = EXTENDED_LOW_SPAN as int;
    match id {
        FrameId::Standard(s) => {
            let k = s as int * b;
            vstd::arithmetic::div_mod::lemma_fundamental_div_mod_converse(k, b, s as int, 0);
        },
        FrameId::Extended(e) => {
            let hi = e as int / l;
            let lo = e as int % l;
            let k = hi * b + l + lo;
            vstd::arithmetic::div_mod::lemma_fundamental_div_mod(e as int, l);
            vstd::arithmetic::div_mod::lemma_fundamental_div_mod_converse(k, b, hi, l + lo);
        },
    }
}

/// Two identifiers with the same key are the same identifier.
pub proof fn lemma_key_injective(a: FrameId, b: FrameId)
    requires
        a.wf(),
        b.wf(),
        a.key_spec() == b.key_spec(),
    ensures
        a == b,
{
    lemma_key_round_trip(a);
    lemma_key_round_trip(b);
}

/// Bus arbitration as a key order: among identifiers of one width the lower
/// number wins, and on an equal base identifier the standard frame wins.
pub proof fn lemma_key_order(a: FrameId, b: FrameId)
    requires
        a.wf(),
        b.wf(),
    ensures
        (a is Standard && b is Standard) ==> (a.key_spec() < b.key_spec() <==> a.raw_spec() < b.raw_spec()),
        (a is Extended && b is Extended) ==> (a.key_spec() < b.key_spec() <==> a.raw_spec() < b.raw_spec()),
        (a is Standard && b is Extended && a.base_spec() == b.base_spec()) ==> a.key_spec() < b.key_spec(),
        a.base_spec() < b.base_spec() ==> a.key_spec() < b.key_spec(),
{
    let bs = BASE_SPAN as int;
    let l = EXTENDED_LOW_SPAN as int;
    assert(forall|x: int, y: int| 0 <= x < y ==> #[trigger] (x * bs) < #[trigger] (y * bs)) by {
        assert forall|x: int, y: int| 0 <= x < y implies #[trigger] (x * bs) < #[trigger] (y * bs) by {
            vstd::arithmetic::mul::lemma_mul_strict_inequality(x, y, bs);
        }
    }
    assert(forall|x: int, y: int| 0 <= x < y ==> #[trigger] (x * bs) + bs <= #[trigger] (y * bs)) by {
        assert forall|x: int, y: int| 0 <= x < y implies #[trigger] (x * bs) + bs <= #[trigger] (y * bs) by {
            vstd::arithmetic::mul::lemma_mul_inequality(x + 1, y, bs);
            vstd::arithmetic::mul::lemma_mul_is_distributive_add_other_way(bs, x, 1);
        }
    }
    match (a, b) {
        (FrameId::Extended(x), FrameId::Extended(y)) => {
            vstd::arithmetic::div_mod::lemma_fundamental_div_mod(x as int, l);
            vstd::arithmetic::div_mod::lemma_fundamental_div_mod(y as int, l);
            vstd::arithmetic::mul::lemma_mul_is_commutative(l, x as int / l);
            vstd::arithmetic::mul::lemma_mul_is_commutative(l, y as int / l);
            if x < y {
                vstd::arithmetic::div_mod::lemma_div_is_ordered(x as int, y as int, l);
            } else {
                vstd::arithmetic::div_mod::lemma_div_is_ordered(y as int, x as int, l);
            }
        },
        _ => {},
    }
}

/// A classic CAN data frame: identifier, length and an eight-byte buffer whose
/// bytes past the length are zero.
#[derive(Clone, Copy, Debug)]
pub struct QueuedFrame {
    pub id: FrameId,
    pub len: u8,
    pub data: [u8; 8],
}

/// A payload of up to eight bytes, zero-padded to eight.
pub open spec fn padded(s: Seq<u8>) -> Seq<u8> {
    Seq::new(8, |i: int| if i < s.len() { s[i] } else { 0u8 })
}

impl QueuedFrame {
    /// The identifier fits its width, the length is at most eight and the
    /// bytes past it are zero.
    pub open spec fn wf(self) -> bool {
        &&& self.id.wf()
        &&& self.len <= 8
        &&& self.data@ == padded(self.data@.subrange(0, self.len as int))
    }

    /// The payload bytes.
    pub open spec fn payload(self) -> Seq<u8> {
        self.data@.subrange(0, self.len as int)
    }

    /// A frame with a standard identifier and the given payload.
    pub fn new_std(id_raw: u16, data: &[u8]) -> (r: Self)
        requires
            id_raw <= STANDARD_ID_MAX,
            data@.len() <= 8,
        ensures
            r.wf(),
            r.id == FrameId::Standard(id_raw),
            r.payload() == data@,
    {
        Self::new_tx(FrameId::Standard(id_raw), data)
    }

    /// A frame with the given identifier and payload, or `None` where the
    /// payload is longer than eight bytes.
    pub fn new(id: FrameId, data: &[u8]) -> (r: Option<Self>)
        requires
            id.wf(),
        ensures
            data@.len() > 8 <==> r.is_none(),
            r matches Some(f) ==> f.wf() && f.id == id && f.payload() == data@,
    {
        if data.len() > 8 {
            None
        } else {
            Some(Self::new_tx(id, data))
        }
    }

    /// Remote frames are not supported: always `None`.
    pub fn new_remote(id: FrameId, dlc: usize) -> (r: Option<Self>)
        ensures
            r.is_none(),
    {
        None
    }

    fn new_tx(id: FrameId, src: &[u8]) -> (r: Self)
        requires
            id.wf(),
            src@.len() <= 8,
        ensures
            r.wf(),
            r.id == id,
            r.payload() == src@,
    {
        let mut data: [u8; 8] = [0u8; 8];
        let len = src.len();
        let mut i: usize = 0;
        while i < len
            invariant
                len == src@.len(),
                len <= 8,
                i <= len,
                forall|j: int| 0 <= j < i ==> data@[j] == src@[j],
                forall|j: int| i <= j < 8 ==> data@[j] == 0u8,
            decreases len - i,
        {
            data[i] = src[i];
            i += 1;
        }
        let r = QueuedFrame { id, len: len as u8, data };
        assert(r.payload() =~= src@);
        assert(r.data@ =~= padded(r.payload()));
        r
    }

    /// Checks `wf`: for frames built field by field rather than through
    /// the constructors.
    pub fn is_well_formed(&self) -> (r: bool)
        ensures
            r == self.wf(),
    {
        let id_ok = match self.id {
            FrameId::Standard(s) => s <= STANDARD_ID_MAX,
            FrameId::Extended(e) => e <= EXTENDED_ID_MAX,
        };
        if !id_ok || self.len > 8 {
            return false;
        }
        let len = self.len as usize;
        let mut i: usize = len;
        while i < 8
            invariant
                len <= i <= 8,
                len == self.len,
                forall|j: int| len <= j < i ==> self.data@[j] == 0u8,
            decreases 8 - i,
        {
            if self.data[i] != 0 {
                proof {
                    assert(padded(self.payload())[i as int] == 0u8);
                }
                return false;
            }
            i += 1;
        }
        assert(self.data@ =~= padded(self.payload()));
        true
    }

    /// True for a 29-bit identifier.
    pub fn is_extended(&self) -> (r: bool)
        ensures
            r == (self.id is Extended),
    {
        self.id.is_extended()
    }

    /// Always false: only data frames are carried.
    pub fn is_remote_frame(&self) -> (r: bool)
        ensures
            !r,
    {
        false
    }

    /// The identifier.
    pub fn id(&self) -> (r: FrameId)
        ensures
            r == self.id,
    {
        self.id
    }

    /// The payload length.
    pub fn dlc(&self) -> (r: usize)
        ensures
            r == self.len,
    {
        self.len as usize
    }

    /// The payload: the first `dlc` bytes of the buffer.
    pub fn data(&self) -> (r: &[u8])
        requires
            self.len <= 8,
        ensures
            r@ == self.payload(),
    {
        let all = self.data.as_slice();
        &all[0..self.len as usize]
    }
}

/// Frames compare equal when they have the same identifier, and so the same
/// bus priority; the payload is not compared. Two such frames are
/// interchangeable in the transmit queue.
impl PartialEq for QueuedFrame {
    fn eq(&self, other: &QueuedFrame) -> (r: bool) {
        self.id == other.id
    }
}

impl vstd::std_specs::cmp::PartialEqSpecImpl for QueuedFrame {
    open spec fn obeys_eq_spec() -> bool {
        true
    }

    open spec fn eq_spec(&self, other: &QueuedFrame) -> bool {
        self.id == other.id
    }
}

/// For well-formed frames, equality is equality of arbitration keys.
pub proof fn lemma_eq_is_priority_eq(a: QueuedFrame, b: QueuedFrame)
    requires
        a.wf(),
        b.wf(),
    ensures
        a.eq_spec(&b) <==> a.id.key_spec() == b.id.key_spec(),
{
    if a.id.key_spec() == b.id.key_spec() {
        lemma_key_injective(a.id, b.id);
    }
}

/// True for identifiers in the diagnostic range, which the receive path
/// skips: standard identifiers from `DIAGNOSTIC_ID_MIN` up.
pub fn is_diagnostic(id: FrameId) -> (r: bool)
    ensures
        r == (id matches FrameId::Standard(s) && s >= DIAGNOSTIC_ID_MIN),
{
    match id {
        FrameId::Standard(s) => s >= DIAGNOSTIC_ID_MIN,
        FrameId::Extended(_) => false,
    }
}

} // verus!
