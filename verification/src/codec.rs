//! Byte-level codecs of the backend interface: the seed is submitted as
//! a 32-byte big-endian word, the committed output comes back as one and
//! is decoded into the random value, and a concluded game's record is
//! laid out as nine bytes and hex-encoded for the attestation request.

use vstd::prelude::*;

use crate::coordinator::AttestationRecord;

verus! {

/// The byte at big-endian position `j` (0 is the most significant) of a
/// 64-bit word.
pub open spec fn u64_be_byte(x: u64, j: int) -> u8 {
    ((x >> (((7 - j) * 8) as u64)) & 0xff) as u8
}

/// Encodes a seed as the backend expects its input: one 32-byte
/// big-endian word, the seed in the last eight bytes.
pub fn encode_seed(seed: u64) -> (r: Vec<u8>)
    ensures
        r@.len() == 32,
        forall|i: int| 0 <= i < 24 ==> r@[i] == 0u8,
        forall|j: int| 0 <= j < 8 ==> r@[24 + j] == u64_be_byte(seed, j),
{
    let mut r: Vec<u8> = Vec::new();
    let mut i: usize = 0;
    while i < 24
        invariant
            i <= 24,
            r@.len() == i,
            forall|k: int| 0 <= k < i ==> r@[k] == 0u8,
        decreases 24 - i,
    {
        r.push(0u8);
        i += 1;
    }
    let mut j: usize = 0;
    while j < 8
        invariant
            j <= 8,
            r@.len() == 24 + j,
            forall|k: int| 0 <= k < 24 ==> r@[k] == 0u8,
            forall|k: int| 0 <= k < j ==> r@[24 + k] == u64_be_byte(seed, k),
        decreases 8 - j,
    {
        let shift: u64 = (7 - j as u64) * 8;
        r.push(((seed >> shift) & 0xff) as u8);
        j += 1;
    }
    r
}

/// The value of four bytes read big-endian.
pub open spec fn u32_from_be(b: Seq<u8>) -> int {
    b[0] * 0x100_0000 + b[1] * 0x1_0000 + b[2] * 0x100 + b[3]
}

/// The committed output decoded as the random value: defined exactly for
/// a 32-byte big-endian word whose value lies in `[1, 100]`; anything
/// else (wrong length, high bytes set, value out of range) is malformed
/// and fails the acquisition.
pub open spec fn decoded_value(j: Seq<u8>) -> Option<u32> {
    if j.len() == 32 && (forall|i: int| 0 <= i < 28 ==> j[i] == 0u8) && 1 <= u32_from_be(
        j.subrange(28, 32),
    ) <= 100 {
        Some(u32_from_be(j.subrange(28, 32)) as u32)
    } else {
        None
    }
}

/// Decodes the backend's committed output into the session's random
/// value; `None` on any malformed or out-of-range output.
pub fn decode_journal(journal: &Vec<u8>) -> (r: Option<u32>)
    ensures
        r == decoded_value(journal@),
        r is Some ==> 1 <= r->0 <= 100,
{
    if journal.len() != 32 {
        return None;
    }
    let mut i: usize = 0;
    while i < 28
        invariant
            i <= 28,
            journal@.len() == 32,
            forall|k: int| 0 <= k < i ==> journal@[k] == 0u8,
        decreases 28 - i,
    {
        if journal[i] != 0 {
            return None;
        }
        i += 1;
    }
    let value: u32 = (journal[28] as u32) * 0x100_0000 + (journal[29] as u32) * 0x1_0000 + (
    journal[30] as u32) * 0x100 + (journal[31] as u32);
    proof {
        let tail = journal@.subrange(28, 32);
        assert(tail[0] == journal@[28] && tail[1] == journal@[29] && tail[2] == journal@[30]
            && tail[3] == journal@[31]);
    }
    if 1 <= value && value <= 100 {
        Some(value)
    } else {
        None
    }
}

/// The byte at little-endian position `j` (0 is the least significant)
/// of a 32-bit word.
pub open spec fn u32_le_byte(x: u32, j: int) -> u8 {
    ((x >> ((j * 8) as u32)) & 0xff) as u8
}

/// The nine-byte layout of a concluded game's record, as the attestation
/// program reads it: the random value and the guess little-endian, then
/// one byte for the outcome.
pub open spec fn attestation_bytes(random_number: u32, guess: u32, won: bool) -> Seq<u8> {
    seq![
        u32_le_byte(random_number, 0),
        u32_le_byte(random_number, 1),
        u32_le_byte(random_number, 2),
        u32_le_byte(random_number, 3),
        u32_le_byte(guess, 0),
        u32_le_byte(guess, 1),
        u32_le_byte(guess, 2),
        u32_le_byte(guess, 3),
        if won {
            1u8
        } else {
            0u8
        },
    ]
}

/// Encodes a concluded game's record into its nine-byte layout.
pub fn encode_attestation(record: &AttestationRecord) -> (r: Vec<u8>)
    ensures
        r@ == attestation_bytes(record.random_number, record.guess, record.won),
{
    let mut r: Vec<u8> = Vec::new();
    let rn = record.random_number;
    let g = record.guess;
    r.push((rn & 0xff) as u8);
    r.push(((rn >> 8u32) & 0xff) as u8);
    r.push(((rn >> 16u32) & 0xff) as u8);
    r.push(((rn >> 24u32) & 0xff) as u8);
    r.push((g & 0xff) as u8);
    r.push(((g >> 8u32) & 0xff) as u8);
    r.push(((g >> 16u32) & 0xff) as u8);
    r.push(((g >> 24u32) & 0xff) as u8);
    r.push(if record.won { 1u8 } else { 0u8 });
    proof {
        assert(rn >> 0u32 == rn) by (bit_vector);
        assert(g >> 0u32 == g) by (bit_vector);
        assert(r@ =~= attestation_bytes(record.random_number, record.guess, record.won));
    }
    r
}

/// The lowercase hexadecimal digit of a value below 16.
pub open spec fn hex_digit(n: int) -> char {
    if n == 0 {
        '0'
    } else if n == 1 {
        '1'
    } else if n == 2 {
        '2'
    } else if n == 3 {
        '3'
    } else if n == 4 {
        '4'
    } else if n == 5 {
        '5'
    } else if n == 6 {
        '6'
    } else if n == 7 {
        '7'
    } else if n == 8 {
        '8'
    } else if n == 9 {
        '9'
    } else if n == 10 {
        'a'
    } else if n == 11 {
        'b'
    } else if n == 12 {
        'c'
    } else if n == 13 {
        'd'
    } else if n == 14 {
        'e'
    } else {
        'f'
    }
}

/// The lowercase hexadecimal spelling of a byte sequence: two digits per
/// byte, high nibble first.
pub open spec fn hex_of(b: Seq<u8>) -> Seq<char>
    decreases b.len(),
{
    if b.len() == 0 {
        Seq::empty()
    } else {
        seq![hex_digit(b[0] as int / 16), hex_digit(b[0] as int % 16)] + hex_of(b.drop_first())
    }
}

/// Relies on hex::encode: every input byte becomes two lowercase
/// hexadecimal digits, high nibble first, in input order.
#[verifier::external_body]
fn bytes_to_hex(b: &Vec<u8>) -> (r: String)
    ensures
        r@ == hex_of(b@),
{
    hex::encode(b)
}

/// The hex-encoded input of the attestation request for a concluded
/// game: the nine-byte record, spelled in lowercase hexadecimal.
pub fn attestation_input_hex(record: &AttestationRecord) -> (r: String)
    ensures
        r@ == hex_of(attestation_bytes(record.random_number, record.guess, record.won)),
{
    let bytes = encode_attestation(record);
    bytes_to_hex(&bytes)
}

} // verus!
