use solana_facade::address::PublicAddress;
use solana_facade::error::ApiError;
use solana_facade::keypair::{generate_keypair, parse_secret, Keypair};

const SECRET: [u8; 32] = [
    157, 97, 177, 157, 239, 253, 90, 96, 186, 132, 74, 244, 146, 236, 44, 196, 68, 73, 197, 105,
    123, 50, 105, 25, 112, 59, 172, 3, 28, 174, 127, 96,
];

const PUBLIC: [u8; 32] = [
    215, 90, 152, 1, 130, 177, 10, 183, 213, 75, 254, 211, 201, 100, 7, 58, 14, 225, 114, 243,
    218, 166, 35, 37, 175, 2, 26, 104, 247, 7, 81, 26,
];

const KEYPAIR_TEXT: &str =
    "49W385L4rePHy6PAaQUovbD2aacgN4HsKXSMeUzRg4fmwXszN91JuMFrQRj3vMDpZuRF3ZknQBuRBoWQJEfXstMw";

fn encoding() -> Vec<u8> {
    let mut bytes = SECRET.to_vec();
    bytes.extend_from_slice(&PUBLIC);
    bytes
}

#[test]
fn from_secret_derives_the_known_public_key() {
    let keypair = Keypair::from_secret(SECRET);
    assert_eq!(keypair.pubkey().to_bytes(), PUBLIC);
    assert_eq!(keypair.secret(), SECRET);
    assert_eq!(keypair.to_bytes().to_vec(), encoding());
}

#[test]
fn from_secret_derives_a_second_known_public_key() {
    let secret = [
        76, 205, 8, 155, 40, 255, 150, 218, 157, 182, 195, 70, 236, 17, 78, 15, 91, 138, 49, 159,
        53, 171, 166, 36, 218, 140, 246, 237, 79, 184, 166, 251,
    ];
    let public = [
        61, 64, 23, 195, 232, 67, 137, 90, 146, 183, 10, 167, 77, 27, 126, 188, 156, 152, 44, 207,
        46, 196, 150, 140, 192, 205, 85, 241, 42, 244, 102, 12,
    ];
    assert_eq!(Keypair::from_secret(secret).pubkey().to_bytes(), public);
}

#[test]
fn from_bytes_accepts_a_consistent_encoding() {
    let keypair = Keypair::from_bytes(&encoding()).unwrap();
    assert_eq!(keypair.to_bytes().to_vec(), encoding());
    assert_eq!(keypair.pubkey().to_bytes(), PUBLIC);
}

#[test]
fn from_bytes_rejects_wrong_length() {
    let bytes = encoding();
    assert_eq!(Keypair::from_bytes(&[]).unwrap_err(), ApiError::InvalidSecret);
    assert_eq!(Keypair::from_bytes(&bytes[..32]).unwrap_err(), ApiError::InvalidSecret);
    assert_eq!(Keypair::from_bytes(&bytes[..63]).unwrap_err(), ApiError::InvalidSecret);
    let mut longer = bytes.clone();
    longer.push(0);
    assert_eq!(Keypair::from_bytes(&longer).unwrap_err(), ApiError::InvalidSecret);
}

#[test]
fn from_bytes_rejects_a_public_key_of_another_secret() {
    let mut bytes = encoding();
    bytes[63] ^= 1;
    assert_eq!(Keypair::from_bytes(&bytes).unwrap_err(), ApiError::InvalidSecret);
    let mut bytes = encoding();
    bytes[0] ^= 1;
    assert_eq!(Keypair::from_bytes(&bytes).unwrap_err(), ApiError::InvalidSecret);
    assert_eq!(Keypair::from_bytes(&[0u8; 64]).unwrap_err(), ApiError::InvalidSecret);
}

#[test]
fn parse_secret_reads_known_text() {
    let keypair = parse_secret(KEYPAIR_TEXT).unwrap();
    assert_eq!(keypair.secret(), SECRET);
    assert_eq!(keypair.pubkey().to_bytes(), PUBLIC);
    assert_eq!(keypair.to_base58(), KEYPAIR_TEXT);
}

#[test]
fn parse_secret_rejects_bad_text() {
    assert_eq!(parse_secret("").unwrap_err(), ApiError::InvalidSecret);
    assert_eq!(parse_secret("not-base58!").unwrap_err(), ApiError::InvalidSecret);
    // a public key alone
    assert_eq!(
        parse_secret("FVen3X669xLzsi6N2V91DoiyzHzg1uAgqiT8jZ9nS96Z").unwrap_err(),
        ApiError::InvalidSecret
    );
    // one character of the text changed
    assert_eq!(
        parse_secret(
            "49W385L4rePHy6PAaQUovbD2aacgN4HsKXSMeUzRg4fmwXszN91JuMFrQRj3vMDpZuRF3ZknQBuRBoWQJEfXstMx"
        )
        .unwrap_err(),
        ApiError::InvalidSecret
    );
}

#[test]
fn generate_keypair_is_consistent() {
    for _ in 0..8 {
        let keypair = generate_keypair();
        let bytes = keypair.to_bytes();
        assert_eq!(&bytes[..32], &keypair.secret()[..]);
        assert_eq!(&bytes[32..], &keypair.pubkey().to_bytes()[..]);
        // the public half is the one derived from the secret half
        let again = Keypair::from_secret(keypair.secret());
        assert_eq!(again.pubkey(), keypair.pubkey());
        // and the encoding reads back
        let read = Keypair::from_bytes(&bytes).unwrap();
        assert_eq!(read.to_bytes(), bytes);
        let parsed = parse_secret(&keypair.to_base58()).unwrap();
        assert_eq!(parsed.to_bytes(), bytes);
    }
}

#[test]
fn generate_keypair_twice_gives_two_keypairs() {
    let first = generate_keypair();
    let second = generate_keypair();
    assert_ne!(first.secret(), second.secret());
    assert_ne!(first.pubkey(), second.pubkey());
}

#[test]
fn closes_with_compares_length_and_second_half() {
    let bytes = encoding();
    let public = PublicAddress::from_bytes(PUBLIC);
    assert!(Keypair::closes_with(&bytes, &public));
    assert!(!Keypair::closes_with(&bytes[..63], &public));
    assert!(!Keypair::closes_with(&[], &public));
    assert!(!Keypair::closes_with(&bytes, &PublicAddress::from_bytes(SECRET)));
    let mut other = bytes.clone();
    other[40] ^= 0x80;
    assert!(!Keypair::closes_with(&other, &public));
    // the first half plays no part
    let mut other = bytes.clone();
    other[0] ^= 1;
    assert!(Keypair::closes_with(&other, &public));
}
