//! The 8-bit cyclic redundancy check used on every byte sequence exchanged
//! with a device.
//!
//! Feedback polynomial: `X^8 + X^5 + X^4 + X^0`.
//! LFSR (Galois configuration):
//! ```text
//!                                                         v     input bit
//! [7]->[6]->[5]->[4]->(XOR)->[3]->(XOR)->[2]->[1]->[0]->(XOR)-> feedback bit
//!  ^                    ^           ^                           feedback mask
//! ```
//! A useful property of this algorithm, proved below as
//! [`lemma_append_crc_is_zero`], is that running it over data with its
//! correct CRC byte appended yields 0 — so a received sequence is validated
//! whole, without separating the data from the checksum.

use vstd::prelude::*;

use crate::error::CrcError;

verus! {

/// One shift of the LFSR: the bit shifted out feeds back through the mask
/// `0b1000_1100`.
pub open spec fn crc8_shift(crc: u8) -> u8 {
    if crc & 0b1 != 0 {
        (crc >> 1) ^ 0b1000_1100
    } else {
        crc >> 1
    }
}

/// The LFSR state after `n` shifts from state `crc`.
pub open spec fn crc8_shifts(crc: u8, n: nat) -> u8
    decreases n,
{
    if n == 0 {
        crc
    } else {
        crc8_shift(crc8_shifts(crc, (n - 1) as nat))
    }
}

/// Folding one input byte into the LFSR state: XOR it in, then shift 8
/// times.
pub open spec fn crc8_byte(crc: u8, byte: u8) -> u8 {
    crc8_shifts(crc ^ byte, 8)
}

/// The checksum of `data` starting from the LFSR state `initial`.
pub open spec fn crc8_with_initial(initial: u8, data: Seq<u8>) -> u8
    decreases data.len(),
{
    if data.len() == 0 {
        initial
    } else {
        crc8_with_initial(crc8_byte(initial, data[0]), data.subrange(1, data.len() as int))
    }
}

/// The checksum of `data` with seed 0.
pub open spec fn crc8(data: Seq<u8>) -> u8 {
    crc8_with_initial(0, data)
}

/// Folding bytes into the state one at a time, from the left, computes the
/// same checksum as the head-first definition.
pub proof fn lemma_crc8_with_initial_push(initial: u8, data: Seq<u8>, byte: u8)
    ensures
        crc8_with_initial(initial, data.push(byte)) == crc8_byte(
            crc8_with_initial(initial, data),
            byte,
        ),
    decreases data.len(),
{
    let pushed = data.push(byte);
    if data.len() == 0 {
        assert(pushed[0] == byte);
        assert(pushed.subrange(1, pushed.len() as int) =~= Seq::<u8>::empty());
        assert(crc8_with_initial(initial, pushed) == crc8_with_initial(
            crc8_byte(initial, byte),
            Seq::<u8>::empty(),
        ));
    } else {
        let rest = data.subrange(1, data.len() as int);
        assert(pushed[0] == data[0]);
        assert(pushed.subrange(1, pushed.len() as int) =~= rest.push(byte));
        assert(crc8_with_initial(initial, pushed) == crc8_with_initial(
            crc8_byte(initial, data[0]),
            rest.push(byte),
        ));
        lemma_crc8_with_initial_push(crc8_byte(initial, data[0]), rest, byte);
    }
}

/// Calculates the crc8 of the input data.
pub fn calculate(data: &[u8]) -> (r: u8)
    ensures
        r == crc8(data@),
{
    calculate_with_initial(0, data)
}

/// Calculates the crc8 of the input data with init value.
pub fn calculate_with_initial(initial: u8, data: &[u8]) -> (r: u8)
    ensures
        r == crc8_with_initial(initial, data@),
{
    let mut crc = initial;
    let mut i: usize = 0;
    while i < data.len()
        invariant
            i <= data@.len(),
            crc == crc8_with_initial(initial, data@.take(i as int)),
        decreases data@.len() - i,
    {
        crc = crc ^ data[i];
        let ghost entry = crc;
        let mut shift: u8 = 0;
        while shift < 8
            invariant
                shift <= 8,
                crc == crc8_shifts(entry, shift as nat),
            decreases 8 - shift,
        {
            // feedback bit at each iteration step
            let bit = crc & 0b1;
            crc = crc >> 1;
            // feedback mask (if feedback bit)
            if bit != 0 {
                crc = crc ^ 0b1000_1100;
            }
            shift = shift + 1;
        }
        proof {
            lemma_crc8_with_initial_push(initial, data@.take(i as int), data@[i as int]);
            assert(data@.take(i as int).push(data@[i as int]) =~= data@.take(i + 1));
        }
        i = i + 1;
    }
    proof {
        assert(data@.take(data@.len() as int) =~= data@);
    }
    crc
}

/// Checks to see if data (including the crc byte) passes the crc check.
pub fn check(data: &[u8]) -> (r: Result<(), CrcError>)
    ensures
        r is Ok <==> crc8(data@) == 0,
        r matches Err(e) ==> e == (CrcError { crc: crc8(data@) }),
{
    match calculate(data) {
        0 => Ok(()),
        crc => Err(CrcError { crc }),
    }
}

/// Shifting the LFSR from the all-zero state leaves it all zero.
proof fn lemma_crc8_shifts_zero(n: nat)
    ensures
        crc8_shifts(0, n) == 0,
    decreases n,
{
    if n > 0 {
        lemma_crc8_shifts_zero((n - 1) as nat);
        assert(0u8 & 0b1 == 0 && 0u8 >> 1 == 0) by (bit_vector);
    }
}

/// Appending the correct CRC byte to any data sequence makes the checksum
/// of the whole sequence 0.
pub proof fn lemma_append_crc_is_zero(data: Seq<u8>)
    ensures
        crc8(data.push(crc8(data))) == 0,
{
    let c = crc8(data);
    lemma_crc8_with_initial_push(0, data, c);
    assert(c ^ c == 0) by (bit_vector);
    lemma_crc8_shifts_zero(8);
}

/// The LFSR shift is invertible: the high bit of the output says whether
/// the feedback mask was applied, and undoing it recovers the input.
proof fn lemma_crc8_shift_injective(a: u8, b: u8)
    requires
        crc8_shift(a) == crc8_shift(b),
    ensures
        a == b,
{
    assert(a == b) by (bit_vector)
        requires
            crc8_shift(a) == crc8_shift(b),
    ;
}

/// Any number of LFSR shifts is invertible.
proof fn lemma_crc8_shifts_injective(a: u8, b: u8, n: nat)
    requires
        crc8_shifts(a, n) == crc8_shifts(b, n),
    ensures
        a == b,
    decreases n,
{
    if n > 0 {
        lemma_crc8_shift_injective(crc8_shifts(a, (n - 1) as nat), crc8_shifts(b, (n - 1) as nat));
        lemma_crc8_shifts_injective(a, b, (n - 1) as nat);
    }
}

/// Exactly one trailing byte makes a sequence pass the validation: the
/// checksum of the bytes before it.  So a reading whose CRC byte was
/// corrupted — or whose data no longer matches its CRC byte — is never
/// accepted.
pub proof fn lemma_trailing_crc_unique(data: Seq<u8>, crc: u8)
    ensures
        crc8(data.push(crc)) == 0 <==> crc == crc8(data),
{
    let state = crc8(data);
    lemma_crc8_with_initial_push(0, data, crc);
    if crc == state {
        assert(state ^ crc == 0) by (bit_vector)
            requires
                crc == state,
        ;
        lemma_crc8_shifts_zero(8);
    }
    if crc8(data.push(crc)) == 0 {
        lemma_crc8_shifts_zero(8);
        lemma_crc8_shifts_injective(state ^ crc, 0, 8);
        assert(crc == state) by (bit_vector)
            requires
                state ^ crc == 0,
        ;
    }
}

} // verus!
