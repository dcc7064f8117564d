use filecoin_hashers::poseidon::PoseidonDomain;
use filecoin_hashers::Domain;
use window_post::commitment::as_safe_commitment;
use window_post::error::PostError;

/// The scalar-field modulus, little-endian.
const MODULUS_LE: [u8; 32] = [
    0x01, 0x00, 0x00, 0x00, 0xff, 0xff, 0xff, 0xff, 0xfe, 0x5b, 0xfe, 0xff, 0x02, 0xa4, 0xbd,
    0x53, 0x05, 0xd8, 0xa1, 0x09, 0x08, 0xd8, 0x39, 0x33, 0x48, 0x7d, 0x9d, 0x29, 0x53, 0xa7,
    0xed, 0x73,
];

fn modulus_minus_one() -> [u8; 32] {
    let mut b = MODULUS_LE;
    b[0] = 0x00;
    b
}

#[test]
fn round_trips_zero_buffer() {
    let buf = [0u8; 32];
    let c = as_safe_commitment(&buf, "randomness").unwrap();
    assert_eq!(c.as_bytes(), buf);
}

#[test]
fn round_trips_largest_valid_buffer() {
    let buf = modulus_minus_one();
    let c = as_safe_commitment(&buf, "randomness").unwrap();
    assert_eq!(c.as_bytes(), buf);
}

#[test]
fn round_trips_protocol_style_seed() {
    let buf = [
        156, 40, 35, 233, 178, 130, 183, 47, 22, 168, 5, 55, 185, 78, 43, 202, 117, 156, 69, 3,
        209, 71, 39, 214, 191, 3, 252, 245, 150, 175, 208, 50,
    ];
    let c = as_safe_commitment(&buf, "randomness").unwrap();
    assert_eq!(c.as_bytes(), buf);
}

#[test]
fn rejects_modulus_itself() {
    let r = as_safe_commitment(&MODULUS_LE, "randomness");
    assert!(matches!(r, Err(PostError::InvalidCommitment(_))));
}

#[test]
fn rejects_all_ones_buffer() {
    let buf = [0xffu8; 32];
    let r = as_safe_commitment(&buf, "comm_r");
    match r {
        Err(PostError::InvalidCommitment(label)) => assert_eq!(label, "comm_r"),
        _ => panic!("expected InvalidCommitment"),
    }
}

#[test]
fn rejects_value_just_above_modulus() {
    let mut buf = MODULUS_LE;
    buf[0] = 0x02;
    assert!(as_safe_commitment(&buf, "x").is_err());
}

#[test]
fn agrees_with_backend_encoder() {
    let mut candidates: Vec<[u8; 32]> = vec![
        [0u8; 32],
        modulus_minus_one(),
        MODULUS_LE,
        [0xffu8; 32],
        [
            156, 40, 35, 233, 178, 130, 183, 47, 22, 168, 5, 55, 185, 78, 43, 202, 117, 156, 69,
            3, 209, 71, 39, 214, 191, 3, 252, 245, 150, 175, 208, 50,
        ],
    ];
    let mut high_bit = [0u8; 32];
    high_bit[31] = 0x80;
    candidates.push(high_bit);
    for buf in candidates {
        let ours = as_safe_commitment(&buf, "probe");
        let theirs: anyhow::Result<PoseidonDomain> =
            filecoin_proofs::as_safe_commitment(&buf, "probe");
        assert_eq!(ours.is_ok(), theirs.is_ok());
        if let (Ok(c), Ok(d)) = (ours, theirs) {
            assert_eq!(c.as_bytes().to_vec(), d.into_bytes());
        }
    }
}

#[test]
fn invalid_commitment_description_carries_label() {
    let r = as_safe_commitment(&MODULUS_LE, "randomness");
    match r {
        Err(e) => assert_eq!(e.describe(), "invalid commitment: randomness"),
        Ok(_) => panic!("expected an error"),
    }
}
