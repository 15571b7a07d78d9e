use rand::{thread_rng, Rng};
use tfslite::hex_codec;
use tfslite::keys::{PrivateKey, PublicKey, Signature, Signer, Verifier};

#[test]
fn test_signing() {
    let key = PrivateKey::generate_random_key();
    let mut data = [0u8; 131072];
    thread_rng().try_fill(&mut data[..]).unwrap();

    let data2 = [0u8; 131072];
    thread_rng().try_fill(&mut data[..]).unwrap();

    let signature = key.sign(data.as_slice()).expect("Signing error!");
    println!("signature {}", signature.as_hex());

    let public_key = key.public_key().expect("Signing error!");

    assert!(public_key
        .verify(data.as_slice(), &signature)
        .expect("Verification error!"));
    println!("signature passed!");

    assert!(!public_key
        .verify(data2.as_slice(), &signature)
        .expect("Verification error!"));
    println!("signature did not pass, as expected!");
}

#[test]
fn signature_verifies_for_the_signed_data_only() {
    let key = PrivateKey::generate_random_key();
    let public_key = key.public_key().unwrap();
    let signature = key.sign(b"one message").unwrap();
    assert!(public_key.verify(b"one message", &signature).unwrap());
    assert!(!public_key.verify(b"another message", &signature).unwrap());
    assert!(!public_key.verify(b"", &signature).unwrap());
}

#[test]
fn signing_is_a_function_of_key_and_data() {
    let key = PrivateKey::load_from_hex(
        "2f1e7b7a130d7ba9da0068b3bb0ba1d79e7e77110302c9f746c3c2a63fe40088",
    )
    .unwrap();
    let first = key.sign(b"payload").unwrap();
    let second = key.sign(b"payload").unwrap();
    assert_eq!(first.as_hex(), second.as_hex());
    assert_eq!(first.as_slice().len(), 64);
    assert_eq!(first.as_hex().len(), 128);
    let other = key.sign(b"payloae").unwrap();
    assert_ne!(first.as_hex(), other.as_hex());
}

#[test]
fn public_key_is_compressed_and_stable() {
    let key = PrivateKey::load_from_hex(
        "2f1e7b7a130d7ba9da0068b3bb0ba1d79e7e77110302c9f746c3c2a63fe40088",
    )
    .unwrap();
    let public_key = key.public_key().unwrap();
    assert_eq!(public_key.as_slice().len(), 33);
    let context = cylinder::secp256k1::Secp256k1Context::new();
    let expected = cylinder::Context::get_public_key(
        &context,
        &cylinder::PrivateKey::new(key.as_slice().to_vec()),
    )
    .unwrap();
    assert_eq!(public_key.as_hex(), expected.as_hex());
    assert_eq!(key.public_key().unwrap().as_hex(), public_key.as_hex());
    assert_ne!(public_key.as_slice(), key.as_slice());
}

#[test]
fn key_that_the_curve_refuses_fails_to_sign() {
    let key = PrivateKey::load_from_bytes(&[0u8; 32]);
    assert!(key.sign(b"data").is_err());
    assert!(key.public_key().is_err());
    let short = PrivateKey::load_from_bytes(&[1u8, 2, 3]);
    let error = short.sign(b"data").unwrap_err();
    assert!(!error.to_string().is_empty());
}

#[test]
fn random_keys_are_thirty_two_bytes_and_differ() {
    let a = PrivateKey::generate_random_key();
    let b = PrivateKey::generate_random_key();
    assert_eq!(a.as_slice().len(), 32);
    assert_eq!(b.as_slice().len(), 32);
    assert_ne!(a.as_hex(), b.as_hex());
    assert!(a.public_key().is_ok());
    assert!(a.sign(b"any message").is_ok());
    assert!(b.sign(b"").is_ok());
}

#[test]
fn keys_read_and_write_hexadecimal() {
    let key = PublicKey::load_from_hex("02AbCdef").unwrap();
    assert_eq!(key.as_slice(), &[0x02, 0xab, 0xcd, 0xef]);
    assert_eq!(key.as_hex(), "02abcdef");
    let same = PublicKey::load_from_bytes(&[0x02, 0xab, 0xcd, 0xef]);
    assert_eq!(same.as_hex(), "02abcdef");
    let private = PrivateKey::new("00ff".to_string()).unwrap();
    assert_eq!(private.as_slice(), &[0x00, 0xff]);
    assert_eq!(private.as_hex(), "00ff");
    let public = PublicKey::new("10".to_string()).unwrap();
    assert_eq!(public.as_slice(), &[0x10]);
}

#[test]
fn keys_refuse_text_that_is_not_hexadecimal() {
    let odd = PublicKey::load_from_hex("abc").unwrap_err();
    assert_eq!(odd.to_string(), "invalid hexadecimal text");
    assert!(PublicKey::load_from_hex("zz").is_err());
    assert!(PrivateKey::load_from_hex("0g").is_err());
    assert!(PrivateKey::load_from_hex("é0").is_err());
    let bad = Signature::from_hex("12345").unwrap_err();
    assert_eq!(bad.to_string(), "invalid hexadecimal text");
    assert!(Signature::new("xy".to_string()).is_err());
}

#[test]
fn signature_reads_and_writes_hexadecimal() {
    let signature = Signature::from_hex("0a0B0c").unwrap();
    assert_eq!(signature.as_slice(), &[10, 11, 12]);
    assert_eq!(signature.as_hex(), "0a0b0c");
    assert_eq!(Signature::from_bytes(vec![255, 0]).as_hex(), "ff00");
}

#[test]
fn verification_fails_on_what_cannot_be_read() {
    let key = PrivateKey::generate_random_key();
    let public_key = key.public_key().unwrap();
    let short = Signature::from_bytes(vec![1, 2, 3]);
    let error = public_key.verify(b"data", &short).unwrap_err();
    assert!(!error.to_string().is_empty());
    let signature = key.sign(b"data").unwrap();
    let broken = PublicKey::load_from_bytes(&[9u8; 5]);
    assert!(broken.verify(b"data", &signature).is_err());
}

#[test]
fn hex_encodes_known_values() {
    assert_eq!(hex_codec::encode(&[]), "");
    assert_eq!(hex_codec::encode(&[0x00, 0x0f, 0xf0, 0xff, 0x7a]), "000ff0ff7a");
    assert_eq!(hex_codec::encode(b"tfslite"), hex::encode(b"tfslite"));
    let all: Vec<u8> = (0..=255u8).collect();
    assert_eq!(hex_codec::encode(&all), hex::encode(&all));
}

#[test]
fn hex_decodes_what_it_encodes() {
    let all: Vec<u8> = (0..=255u8).collect();
    let text = hex_codec::encode(&all);
    assert_eq!(hex_codec::decode(&text), Some(all.clone()));
    assert_eq!(hex_codec::decode(&text.to_uppercase()), Some(all));
    assert_eq!(hex_codec::decode(""), Some(vec![]));
    assert_eq!(hex_codec::decode("0"), None);
    assert_eq!(hex_codec::decode("0x"), None);
    assert_eq!(hex_codec::decode("ab cd"), None);
    assert_eq!(hex_codec::decode("ab\u{e9}0"), None);
}

#[test]
fn signing_succeeds_exactly_where_the_public_key_exists() {
    for bytes in [vec![0u8; 32], vec![0xffu8; 32], vec![1u8; 31], vec![1u8; 33], vec![]] {
        let key = PrivateKey::load_from_bytes(&bytes);
        assert!(key.public_key().is_err());
        assert!(key.sign(b"data").is_err());
    }
    for bytes in [vec![1u8; 32], vec![0xcdu8; 32]] {
        let key = PrivateKey::load_from_bytes(&bytes);
        let public_key = key.public_key().unwrap();
        let signature = key.sign(b"data").unwrap();
        assert!(public_key.verify(b"data", &signature).unwrap());
    }
}
