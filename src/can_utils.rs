//! Helpers for the contents of outgoing messages: the simple byte checksum
//! and rolling counters packed into part of a byte.
use vstd::prelude::*;

verus! {

/// Sum of the bytes, as an integer.
pub open spec fn byte_sum(s: Seq<u8>) -> nat
    decreases s.len(),
{
    if s.len() == 0 {
        0
    } else {
        byte_sum(s.drop_last()) + s.last() as nat
    }
}

/// The simplest checksum: the sum of all bytes modulo 256.
pub fn byte_checksum_simple(data: &[u8]) -> (r: u8)
    ensures
        r as nat == byte_sum(data@) % 256,
{
    let mut sum: u8 = 0;
    let mut i: usize = 0;
    while i < data.len()
        invariant
            i <= data@.len(),
            sum as nat == byte_sum(data@.subrange(0, i as int)) % 256,
        decreases data@.len() - i,
    {
        let ghost before = data@.subrange(0, i as int);
        let next = data[i].wrapping_add(sum);
        proof {
            let after = data@.subrange(0, i + 1);
            assert(after.drop_last() =~= before);
            vstd::arithmetic::div_mod::lemma_add_mod_noop(byte_sum(before) as int, data@[i as int] as int, 256);
            vstd::arithmetic::div_mod::lemma_mod_twice(byte_sum(before) as int, 256);
        }
        sum = next;
        i += 1;
    }
    proof {
        assert(data@.subrange(0, data@.len() as int) =~= data@);
    }
    sum
}

/// One step of a counter held in the bits of `mask`: the masked field plus
/// one at the lowest bit of the mask, wrapping inside the mask, over the
/// bits outside the mask.
pub open spec fn counter_bump(mask: u8, data: u8) -> u8 {
    ((data & mask).wrapping_add(1u8 << mask.trailing_zeros()) & mask) | (data & !mask)
}

proof fn lemma_masked_merge(c: u8, d: u8, m: u8)
    ensures
        ((c & m) | (d & !m)) & !m == d & !m,
        ((c & m) | (d & !m)) & m == c & m,
{
    assert(((c & m) | (d & !m)) & !m == d & !m) by (bit_vector);
    assert(((c & m) | (d & !m)) & m == c & m) by (bit_vector);
}

/// Advances the counter held in the bits of `MASK`. The field wraps within
/// the mask and the other bits are kept.
pub fn counter_update<const MASK: u8>(data: &mut u8)
    requires
        MASK != 0,
    ensures
        *final(data) == counter_bump(MASK, *old(data)),
        *final(data) & !MASK == *old(data) & !MASK,
        *final(data) & MASK == (*old(data) & MASK).wrapping_add(1u8 << MASK.trailing_zeros()) & MASK,
{
    let shift = MASK.trailing_zeros();
    proof {
        vstd::std_specs::bits::axiom_u8_trailing_zeros(MASK);
    }
    let counter = (*data & MASK).wrapping_add(1u8 << shift) & MASK;
    let rest = *data & !MASK;
    proof {
        lemma_masked_merge((*data & MASK).wrapping_add(1u8 << shift), *data, MASK);
    }
    *data = counter | rest;
}

/// Advances the counter held in the bits of `MASK`, stepping once more when
/// it lands on `SKIP`.
pub fn counter_update_skip<const MASK: u8, const SKIP: u8>(data: &mut u8)
    requires
        MASK != 0,
    ensures
        *final(data) & !MASK == *old(data) & !MASK,
        *final(data) == (if counter_bump(MASK, *old(data)) & MASK == SKIP {
            counter_bump(MASK, counter_bump(MASK, *old(data)))
        } else {
            counter_bump(MASK, *old(data))
        }),
{
    counter_update::<MASK>(data);
    if *data & MASK == SKIP {
        counter_update::<MASK>(data);
    }
    assert(*data & !MASK == *old(data) & !MASK);
}

/// Steps a rolling counter that runs from `min` to `max` and wraps; a value
/// above `max` also wraps.
pub fn next_counter(c: u8, min: u8, max: u8) -> (r: u8)
    ensures
        r == (if c >= max { min } else { (c + 1) as u8 }),
{
    if c >= max {
        min
    } else {
        c + 1
    }
}

/// Exclusive or of all the bytes.
pub open spec fn xor_all(s: Seq<u8>) -> u8
    decreases s.len(),
{
    if s.len() == 0 {
        0
    } else {
        xor_all(s.drop_last()) ^ s.last()
    }
}

/// A four-bit checksum: the exclusive or of every nibble of the data.
pub fn xor_nibble_checksum(data: &[u8]) -> (r: u8)
    ensures
        r == ((xor_all(data@) >> 4u8) ^ (xor_all(data@) & 0xFu8)),
{
    let mut x: u8 = 0;
    let mut i: usize = 0;
    while i < data.len()
        invariant
            i <= data@.len(),
            x == xor_all(data@.subrange(0, i as int)),
        decreases data@.len() - i,
    {
        proof {
            assert(data@.subrange(0, i + 1).drop_last() =~= data@.subrange(0, i as int));
        }
        x = x ^ data[i];
        i += 1;
    }
    proof {
        assert(data@.subrange(0, data@.len() as int) =~= data@);
    }
    (x >> 4u8) ^ (x & 0xF)
}

/// Sum of the high and low nibbles of every byte.
pub open spec fn nibble_sum(s: Seq<u8>) -> nat
    decreases s.len(),
{
    if s.len() == 0 {
        0
    } else {
        nibble_sum(s.drop_last()) + s.last() as nat / 16 + s.last() as nat % 16
    }
}

proof fn lemma_nibbles(e: u8)
    ensures
        e >> 4u8 == e / 16,
        e & 0xFu8 == e % 16,
{
    assert(e >> 4u8 == e / 16) by (bit_vector);
    assert(e & 0xFu8 == e % 16) by (bit_vector);
}

/// A four-bit checksum: the sum of every nibble of the data, modulo 16.
pub fn nibble_sum_checksum(data: &[u8]) -> (r: u8)
    ensures
        r as nat == nibble_sum(data@) % 16,
{
    let mut sum: u8 = 0;
    let mut i: usize = 0;
    while i < data.len()
        invariant
            i <= data@.len(),
            sum as nat == nibble_sum(data@.subrange(0, i as int)) % 16,
        decreases data@.len() - i,
    {
        let e = data[i];
        let ghost before = data@.subrange(0, i as int);
        proof {
            lemma_nibbles(e);
            assert(data@.subrange(0, i + 1).drop_last() =~= before);
        }
        let t: u8 = sum + (e >> 4) + (e & 0xF);
        proof {
            assert(t & 0xFu8 == t % 16) by (bit_vector);
            vstd::arithmetic::div_mod::lemma_add_mod_noop(
                nibble_sum(before) as int, (e / 16 + e % 16) as int, 16);
            vstd::arithmetic::div_mod::lemma_add_mod_noop(
                sum as int, (e / 16 + e % 16) as int, 16);
            vstd::arithmetic::div_mod::lemma_mod_twice(nibble_sum(before) as int, 16);
        }
        sum = t & 0xF;
        i += 1;
    }
    proof {
        assert(data@.subrange(0, data@.len() as int) =~= data@);
    }
    sum
}

} // verus!
