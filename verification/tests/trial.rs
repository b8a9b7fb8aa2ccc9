use bmpow::trial::{hash_nonce, preimage, satisfies, trial_from_hash};

fn zeros() -> [u8; 64] {
    [0u8; 64]
}

fn counting() -> [u8; 64] {
    let mut digest = [0u8; 64];
    for (i, byte) in digest.iter_mut().enumerate() {
        *byte = i as u8;
    }
    digest
}

#[test]
fn preimage_is_nonce_then_digest() {
    let message = preimage(0x0102_0304_0506_0708, &counting());
    assert_eq!(message.len(), 72);
    assert_eq!(&message[..8], &[1u8, 2, 3, 4, 5, 6, 7, 8]);
    assert_eq!(&message[8..], &counting()[..]);
}

#[test]
fn trial_is_the_leading_eight_bytes() {
    let mut outer = [0u8; 64];
    outer[6] = 1;
    outer[7] = 2;
    outer[8] = 0xff;
    outer[63] = 0xff;
    assert_eq!(trial_from_hash(&outer), 258);
    let mut top = [0u8; 64];
    top[0] = 0x80;
    assert_eq!(trial_from_hash(&top), 0x8000_0000_0000_0000);
}

#[test]
fn trial_values_of_the_zero_digest() {
    assert_eq!(hash_nonce(0, &zeros()), 0xd57f_209e_faab_2b05);
    assert_eq!(hash_nonce(1, &zeros()), 0x1f91_e7e7_9d84_bd71);
    assert_eq!(hash_nonce(2, &zeros()), 0x8f73_59d8_f4a3_27be);
    assert_eq!(hash_nonce(u64::MAX, &zeros()), 0x1e84_3375_ee87_96ba);
}

#[test]
fn trial_value_depends_on_the_byte_order_of_the_nonce() {
    assert_eq!(hash_nonce(0x0102_0304_0506_0708, &zeros()), 0x3c95_2f8e_046b_c7ea);
}

#[test]
fn trial_values_of_a_counting_digest() {
    assert_eq!(hash_nonce(0, &counting()), 0x758c_5ff6_6baf_5812);
    assert_eq!(hash_nonce(1, &counting()), 0x26ca_4257_aca6_9f0d);
    assert_eq!(hash_nonce(7, &counting()), 0x564f_ae61_bc92_0c48);
}

#[test]
fn trial_is_deterministic() {
    let digest = counting();
    for nonce in 0u64..32 {
        assert_eq!(hash_nonce(nonce, &digest), hash_nonce(nonce, &digest));
    }
}

#[test]
fn target_is_an_inclusive_bound() {
    let trial: u64 = 0x1f91_e7e7_9d84_bd71;
    assert!(satisfies(1, &zeros(), trial));
    assert!(!satisfies(1, &zeros(), trial - 1));
    assert!(satisfies(1, &zeros(), trial + 1));
}

#[test]
fn largest_target_accepts_every_nonce() {
    for nonce in 0u64..16 {
        assert!(satisfies(nonce, &zeros(), u64::MAX));
    }
}

#[test]
fn zero_target_rejects_a_nonzero_trial() {
    assert!(!satisfies(0, &zeros(), 0));
    assert!(!satisfies(1, &zeros(), 0));
}
