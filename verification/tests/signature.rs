use solana_facade::address::PublicAddress;
use solana_facade::error::ApiError;
use solana_facade::keypair::{generate_keypair, Keypair};
use solana_facade::signature::{sign, verify, Signature};

const SECRET_A: [u8; 32] = [
    157, 97, 177, 157, 239, 253, 90, 96, 186, 132, 74, 244, 146, 236, 44, 196, 68, 73, 197, 105,
    123, 50, 105, 25, 112, 59, 172, 3, 28, 174, 127, 96,
];

const PUBLIC_A: [u8; 32] = [
    215, 90, 152, 1, 130, 177, 10, 183, 213, 75, 254, 211, 201, 100, 7, 58, 14, 225, 114, 243,
    218, 166, 35, 37, 175, 2, 26, 104, 247, 7, 81, 26,
];

// signature of the empty message under SECRET_A
const SIGNATURE_A: [u8; 64] = [
    229, 86, 67, 0, 195, 96, 172, 114, 144, 134, 226, 204, 128, 110, 130, 138, 132, 135, 127, 30,
    184, 229, 217, 116, 216, 115, 224, 101, 34, 73, 1, 85, 95, 184, 130, 21, 144, 163, 59, 172,
    198, 30, 57, 112, 28, 249, 180, 107, 210, 91, 245, 240, 89, 91, 190, 36, 101, 81, 65, 67, 142,
    122, 16, 11,
];

const SECRET_B: [u8; 32] = [
    76, 205, 8, 155, 40, 255, 150, 218, 157, 182, 195, 70, 236, 17, 78, 15, 91, 138, 49, 159, 53,
    171, 166, 36, 218, 140, 246, 237, 79, 184, 166, 251,
];

// signature of the one-byte message 0x72 under SECRET_B
const SIGNATURE_B: [u8; 64] = [
    146, 160, 9, 169, 240, 212, 202, 184, 114, 14, 130, 11, 95, 100, 37, 64, 162, 178, 123, 84, 22,
    80, 63, 143, 179, 118, 34, 35, 235, 219, 105, 218, 8, 90, 193, 228, 62, 21, 153, 110, 69, 143,
    54, 19, 208, 241, 29, 140, 56, 123, 46, 174, 180, 48, 42, 238, 176, 13, 41, 22, 18, 187, 12, 0,
];

#[test]
fn sign_gives_the_known_signature_of_the_empty_message() {
    let keypair = Keypair::from_secret(SECRET_A);
    assert_eq!(sign(&keypair, b"").to_bytes(), SIGNATURE_A);
}

#[test]
fn sign_gives_the_known_signature_of_one_byte() {
    let keypair = Keypair::from_secret(SECRET_B);
    assert_eq!(sign(&keypair, &[0x72]).to_bytes(), SIGNATURE_B);
}

#[test]
fn sign_is_a_function_of_secret_and_message() {
    let keypair = Keypair::from_secret(SECRET_A);
    assert_eq!(sign(&keypair, b"hello"), sign(&keypair, b"hello"));
    assert_ne!(sign(&keypair, b"hello"), sign(&keypair, b"hellp"));
    assert_ne!(sign(&keypair, b"hello"), sign(&Keypair::from_secret(SECRET_B), b"hello"));
}

#[test]
fn verify_accepts_the_known_signature() {
    let public = PublicAddress::from_bytes(PUBLIC_A);
    assert_eq!(verify(&public, b"", &SIGNATURE_A), Ok(true));
}

#[test]
fn verify_rejects_a_tampered_signature() {
    let public = PublicAddress::from_bytes(PUBLIC_A);
    for at in [0usize, 31, 32, 63] {
        let mut signature = SIGNATURE_A;
        signature[at] ^= 1;
        assert_eq!(verify(&public, b"", &signature), Ok(false));
    }
    assert_eq!(verify(&public, b"", &[0u8; 64]), Ok(false));
}

#[test]
fn verify_rejects_a_tampered_message() {
    let public = PublicAddress::from_bytes(PUBLIC_A);
    assert_eq!(verify(&public, b"x", &SIGNATURE_A), Ok(false));
    let keypair = Keypair::from_secret(SECRET_A);
    let signature = sign(&keypair, b"pay 10 to bob");
    assert_eq!(verify(&public, b"pay 10 to bob", &signature.to_bytes()), Ok(true));
    assert_eq!(verify(&public, b"pay 90 to bob", &signature.to_bytes()), Ok(false));
}

#[test]
fn verify_gives_false_for_a_key_that_is_no_curve_point() {
    // y = 2 is not the y-coordinate of a point on the curve
    let mut bytes = [0u8; 32];
    bytes[0] = 2;
    let public = PublicAddress::from_bytes(bytes);
    assert_eq!(verify(&public, b"", &SIGNATURE_A), Ok(false));
}

#[test]
fn verify_accepts_what_sign_made() {
    let messages: [&[u8]; 4] = [b"", b"a", b"hello world", &[0u8; 300]];
    for secret in [SECRET_A, SECRET_B, [7u8; 32]] {
        let keypair = Keypair::from_secret(secret);
        for message in messages {
            let signature = sign(&keypair, message);
            assert_eq!(verify(&keypair.pubkey(), message, &signature.to_bytes()), Ok(true));
        }
    }
    for _ in 0..4 {
        let keypair = generate_keypair();
        let signature = sign(&keypair, b"fresh");
        assert_eq!(verify(&keypair.pubkey(), b"fresh", &signature.to_bytes()), Ok(true));
    }
}

#[test]
fn verify_rejects_the_signature_of_another_keypair() {
    let first = Keypair::from_secret(SECRET_A);
    let second = Keypair::from_secret(SECRET_B);
    let messages: [&[u8]; 3] = [b"", b"a", b"hello world"];
    for message in messages {
        let signature = sign(&first, message);
        assert_eq!(verify(&second.pubkey(), message, &signature.to_bytes()), Ok(false));
        let signature = sign(&second, message);
        assert_eq!(verify(&first.pubkey(), message, &signature.to_bytes()), Ok(false));
    }
    let third = generate_keypair();
    let fourth = generate_keypair();
    let signature = sign(&third, b"fresh");
    assert_eq!(verify(&fourth.pubkey(), b"fresh", &signature.to_bytes()), Ok(false));
}

#[test]
fn verify_refuses_every_other_length() {
    let public = PublicAddress::from_bytes(PUBLIC_A);
    assert_eq!(verify(&public, b"", &[]), Err(ApiError::InvalidSignatureEncoding));
    assert_eq!(verify(&public, b"", &SIGNATURE_A[..63]), Err(ApiError::InvalidSignatureEncoding));
    assert_eq!(verify(&public, b"", &SIGNATURE_A[..32]), Err(ApiError::InvalidSignatureEncoding));
    let mut longer = SIGNATURE_A.to_vec();
    longer.push(0);
    assert_eq!(verify(&public, b"", &longer), Err(ApiError::InvalidSignatureEncoding));
}

#[test]
fn signature_from_slice_takes_exactly_64_bytes() {
    assert_eq!(Signature::from_slice(&SIGNATURE_A).unwrap().to_bytes(), SIGNATURE_A);
    assert_eq!(
        Signature::from_slice(&SIGNATURE_A[..63]),
        Err(ApiError::InvalidSignatureEncoding)
    );
    assert_eq!(Signature::from_slice(&[0u8; 65]), Err(ApiError::InvalidSignatureEncoding));
}

#[test]
fn signature_to_base64_writes_known_text() {
    let signature = Signature::from_slice(&SIGNATURE_A).unwrap();
    assert_eq!(
        signature.to_base64(),
        "5VZDAMNgrHKQhuLMgG6CioSHfx645dl02HPgZSJJAVVfuIIVkKM7rMYeOXAc+bRr0lv18FlbviRlUUFDjnoQCw=="
    );
}
