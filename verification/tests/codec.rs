use guess_number_game::codec::{attestation_input_hex, decode_journal, encode_attestation, encode_seed};
use guess_number_game::coordinator::AttestationRecord;

#[test]
fn seed_encodes_as_big_endian_word() {
    let bytes = encode_seed(0x0102030405060708);
    assert_eq!(bytes.len(), 32);
    assert!(bytes[..24].iter().all(|&b| b == 0));
    assert_eq!(&bytes[24..], &[1, 2, 3, 4, 5, 6, 7, 8]);
}

#[test]
fn seed_zero_encodes_as_zero_word() {
    assert_eq!(encode_seed(0), vec![0u8; 32]);
}

#[test]
fn journal_decodes_value_in_range() {
    let mut journal = vec![0u8; 32];
    journal[31] = 50;
    assert_eq!(decode_journal(&journal), Some(50));
    journal[31] = 1;
    assert_eq!(decode_journal(&journal), Some(1));
    journal[31] = 100;
    assert_eq!(decode_journal(&journal), Some(100));
}

#[test]
fn journal_round_trips_through_seed_layout() {
    // The committed output uses the same 32-byte big-endian layout as
    // the submitted seed, so a word holding a value in range decodes to
    // that value.
    assert_eq!(decode_journal(&encode_seed(73)), Some(73));
}

#[test]
fn journal_out_of_range_is_malformed() {
    let mut journal = vec![0u8; 32];
    journal[31] = 0;
    assert_eq!(decode_journal(&journal), None);
    journal[31] = 101;
    assert_eq!(decode_journal(&journal), None);
    journal[30] = 1; // value 0x0165 = 357
    journal[31] = 0x65;
    assert_eq!(decode_journal(&journal), None);
}

#[test]
fn journal_with_high_bytes_set_is_malformed() {
    let mut journal = vec![0u8; 32];
    journal[31] = 50;
    journal[0] = 1;
    assert_eq!(decode_journal(&journal), None);
    journal[0] = 0;
    journal[27] = 1;
    assert_eq!(decode_journal(&journal), None);
}

#[test]
fn journal_of_wrong_length_is_malformed() {
    assert_eq!(decode_journal(&vec![]), None);
    assert_eq!(decode_journal(&vec![50u8]), None);
    let mut long = vec![0u8; 33];
    long[32] = 50;
    assert_eq!(decode_journal(&long), None);
    let mut short = vec![0u8; 31];
    short[30] = 50;
    assert_eq!(decode_journal(&short), None);
}

#[test]
fn attestation_record_lays_out_nine_bytes() {
    let record = AttestationRecord { random_number: 50, guess: 60, won: true };
    let bytes = encode_attestation(&record);
    assert_eq!(bytes, vec![50, 0, 0, 0, 60, 0, 0, 0, 1]);

    let record = AttestationRecord { random_number: 0x01020304, guess: 0x0a0b0c0d, won: false };
    let bytes = encode_attestation(&record);
    assert_eq!(bytes, vec![4, 3, 2, 1, 0x0d, 0x0c, 0x0b, 0x0a, 0]);
}

#[test]
fn attestation_input_spells_lowercase_hex() {
    let record = AttestationRecord { random_number: 50, guess: 60, won: true };
    assert_eq!(attestation_input_hex(&record), "320000003c00000001");

    let record = AttestationRecord { random_number: 0xdeadbeef, guess: 2, won: false };
    assert_eq!(attestation_input_hex(&record), "efbeadde0200000000");
}
