use ecies::envelope::message_len_fits;
use ecies::error::EciesError;
use ecies::keys::{PrivateScalar, PublicPoint};
use ecies::utils::{
    aes_decrypt, aes_encrypt, aes_encrypt_with_nonce, plaintext_len_fits, generate_keypair,
    keypair_from_draw,
};
use ecies::{decrypt, encrypt, encrypt_with};

const GENERATOR_X: [u8; 32] = [
    0x79, 0xbe, 0x66, 0x7e, 0xf9, 0xdc, 0xbb, 0xac, 0x55, 0xa0, 0x62, 0x95, 0xce, 0x87, 0x0b, 0x07,
    0x02, 0x9b, 0xfc, 0xdb, 0x2d, 0xce, 0x28, 0xd9, 0x59, 0xf2, 0x81, 0x5b, 0x16, 0xf8, 0x17, 0x98,
];
const GENERATOR_Y: [u8; 32] = [
    0x48, 0x3a, 0xda, 0x77, 0x26, 0xa3, 0xc4, 0x65, 0x5d, 0xa4, 0xfb, 0xfc, 0x0e, 0x11, 0x08, 0xa8,
    0xfd, 0x17, 0xb4, 0x48, 0xa6, 0x85, 0x54, 0x19, 0x9c, 0x47, 0xd0, 0x8f, 0xfb, 0x10, 0xd4, 0xb8,
];
const FIELD_PRIME: [u8; 32] = [
    0xff, 0xff, 0xff, 0xff, 0xff, 0xff, 0xff, 0xff, 0xff, 0xff, 0xff, 0xff, 0xff, 0xff, 0xff, 0xff,
    0xff, 0xff, 0xff, 0xff, 0xff, 0xff, 0xff, 0xff, 0xff, 0xff, 0xff, 0xfe, 0xff, 0xff, 0xfc, 0x2f,
];
const GROUP_ORDER: [u8; 32] = [
    0xff, 0xff, 0xff, 0xff, 0xff, 0xff, 0xff, 0xff, 0xff, 0xff, 0xff, 0xff, 0xff, 0xff, 0xff, 0xfe,
    0xba, 0xae, 0xdc, 0xe6, 0xaf, 0x48, 0xa0, 0x3b, 0xbf, 0xd2, 0x5e, 0x8c, 0xd0, 0x36, 0x41, 0x41,
];

fn point(tag: u8, x: &[u8; 32], y: &[u8; 32]) -> Vec<u8> {
    let mut bytes = vec![tag];
    bytes.extend_from_slice(x);
    bytes.extend_from_slice(y);
    bytes
}

fn generator() -> Vec<u8> {
    point(0x04, &GENERATOR_X, &GENERATOR_Y)
}

fn one() -> [u8; 32] {
    let mut bytes = [0u8; 32];
    bytes[31] = 1;
    bytes
}

#[test]
fn short_envelopes_are_malformed() {
    let (sk, pk) = generate_keypair().unwrap();
    let envelope = encrypt(&pk.serialize_uncompressed(), b"helloworld").unwrap();
    for len in 0..65 {
        assert_eq!(
            decrypt(&sk.to_bytes(), &envelope[..len]),
            Err(EciesError::MalformedEnvelope),
            "length {}",
            len
        );
    }
    assert_eq!(
        decrypt(&sk.to_bytes(), &[]),
        Err(EciesError::MalformedEnvelope)
    );
    assert_eq!(
        decrypt(&sk.to_bytes(), &[0x04]),
        Err(EciesError::MalformedEnvelope)
    );
    assert_eq!(
        decrypt(&sk.to_bytes(), &[0u8; 64]),
        Err(EciesError::MalformedEnvelope)
    );
}

#[test]
fn an_envelope_without_a_whole_nonce_is_malformed_input() {
    let (sk, pk) = generate_keypair().unwrap();
    let envelope = encrypt(&pk.serialize_uncompressed(), b"helloworld").unwrap();
    for len in 65..77 {
        assert_eq!(
            decrypt(&sk.to_bytes(), &envelope[..len]),
            Err(EciesError::MalformedInput),
            "length {}",
            len
        );
    }
}

#[test]
fn an_envelope_cut_short_behind_the_nonce_fails_authentication() {
    let (sk, pk) = generate_keypair().unwrap();
    let envelope = encrypt(&pk.serialize_uncompressed(), b"helloworld").unwrap();
    for len in 77..envelope.len() {
        assert_eq!(
            decrypt(&sk.to_bytes(), &envelope[..len]),
            Err(EciesError::AuthenticationFailure),
            "length {}",
            len
        );
    }
    let mut longer = envelope.clone();
    longer.push(0);
    assert_eq!(
        decrypt(&sk.to_bytes(), &longer),
        Err(EciesError::AuthenticationFailure)
    );
}

#[test]
fn public_keys_of_another_length_are_refused() {
    let generator = generator();
    for len in [0usize, 1, 32, 33, 64] {
        assert_eq!(
            encrypt(&generator[..len], b"helloworld"),
            Err(EciesError::InvalidPublicKey),
            "length {}",
            len
        );
    }
    let mut longer = generator.clone();
    longer.push(0);
    assert_eq!(
        encrypt(&longer, b"helloworld"),
        Err(EciesError::InvalidPublicKey)
    );
    // the compressed encoding of the generator: a point, but not in 65 bytes
    let mut compressed = vec![0x02];
    compressed.extend_from_slice(&GENERATOR_X);
    assert_eq!(
        encrypt(&compressed, b"helloworld"),
        Err(EciesError::InvalidPublicKey)
    );
    assert!(PublicPoint::from_bytes(&compressed).is_err());
    assert!(encrypt(&generator, b"helloworld").is_ok());
}

#[test]
fn public_keys_off_the_curve_are_refused() {
    let mut y = GENERATOR_Y;
    y[31] ^= 1;
    assert_eq!(
        encrypt(&point(0x04, &GENERATOR_X, &y), b"helloworld"),
        Err(EciesError::InvalidPublicKey)
    );
    assert_eq!(
        encrypt(&[0x04; 65], b"helloworld"),
        Err(EciesError::InvalidPublicKey)
    );
    let mut zeros = vec![0u8; 65];
    zeros[0] = 0x04;
    assert_eq!(
        encrypt(&zeros, b"helloworld"),
        Err(EciesError::InvalidPublicKey)
    );
    assert_eq!(
        encrypt(&[0u8; 65], b"helloworld"),
        Err(EciesError::InvalidPublicKey)
    );
}

#[test]
fn coordinates_at_or_above_the_field_prime_are_refused() {
    // x = p stands for x = 0 in the field; no point has it in its encoding
    assert_eq!(
        encrypt(&point(0x04, &FIELD_PRIME, &GENERATOR_Y), b"helloworld"),
        Err(EciesError::InvalidPublicKey)
    );
    assert_eq!(
        encrypt(&point(0x04, &GENERATOR_X, &FIELD_PRIME), b"helloworld"),
        Err(EciesError::InvalidPublicKey)
    );
    assert_eq!(
        encrypt(&point(0x04, &[0xff; 32], &[0xff; 32]), b"helloworld"),
        Err(EciesError::InvalidPublicKey)
    );
}

#[test]
fn unknown_tags_are_refused() {
    for tag in [0x00u8, 0x01, 0x02, 0x03, 0x05, 0x06, 0x07, 0x08, 0x40, 0xff] {
        assert_eq!(
            encrypt(&point(tag, &GENERATOR_X, &GENERATOR_Y), b"helloworld"),
            Err(EciesError::InvalidPublicKey),
            "tag {}",
            tag
        );
    }
}

#[test]
fn hybrid_tags_are_refused_whatever_the_parity_of_y() {
    // the generator's y is even: tag 6 would be right of it, tag 7 wrong
    assert_eq!(GENERATOR_Y[31] % 2, 0);
    assert!(PublicPoint::from_bytes(&point(0x06, &GENERATOR_X, &GENERATOR_Y)).is_err());
    assert!(PublicPoint::from_bytes(&point(0x07, &GENERATOR_X, &GENERATOR_Y)).is_err());
    let taken = PublicPoint::from_bytes(&generator()).unwrap();
    assert_eq!(taken.serialize_uncompressed().to_vec(), generator());
    // in an envelope too
    let mut envelope = point(0x06, &GENERATOR_X, &GENERATOR_Y);
    envelope.extend_from_slice(&[0u8; 40]);
    assert_eq!(
        decrypt(&one(), &envelope),
        Err(EciesError::InvalidPublicKey)
    );
}

#[test]
fn the_zero_scalar_is_refused() {
    let (_, pk) = generate_keypair().unwrap();
    let envelope = encrypt(&pk.serialize_uncompressed(), b"helloworld").unwrap();
    assert_eq!(
        decrypt(&[0u8; 32], &envelope),
        Err(EciesError::InvalidPrivateKey)
    );
    assert!(PrivateScalar::from_bytes(&[0u8; 32]).is_err());
    assert!(keypair_from_draw(&[0u8; 32]).is_none());
}

#[test]
fn scalars_at_or_above_the_group_order_are_refused() {
    let (_, pk) = generate_keypair().unwrap();
    let envelope = encrypt(&pk.serialize_uncompressed(), b"helloworld").unwrap();
    assert_eq!(
        decrypt(&GROUP_ORDER, &envelope),
        Err(EciesError::InvalidPrivateKey)
    );
    let mut above = GROUP_ORDER;
    above[31] += 1;
    assert_eq!(
        decrypt(&above, &envelope),
        Err(EciesError::InvalidPrivateKey)
    );
    assert_eq!(
        decrypt(&[0xff; 32], &envelope),
        Err(EciesError::InvalidPrivateKey)
    );
    assert!(keypair_from_draw(&GROUP_ORDER).is_none());
    assert!(keypair_from_draw(&[0xff; 32]).is_none());
}

#[test]
fn the_scalars_at_both_ends_of_the_range_are_taken() {
    let mut largest = GROUP_ORDER;
    largest[31] -= 1;
    for secret in [one(), largest] {
        let scalar = PrivateScalar::from_bytes(&secret).unwrap();
        assert_eq!(scalar.to_bytes(), secret);
        let public = scalar.public_point().serialize_uncompressed();
        let envelope = encrypt(&public, b"helloworld").unwrap();
        assert_eq!(decrypt(&secret, &envelope), Ok(b"helloworld".to_vec()));
    }
}

#[test]
fn scalars_of_another_length_are_refused() {
    let (_, pk) = generate_keypair().unwrap();
    let envelope = encrypt(&pk.serialize_uncompressed(), b"helloworld").unwrap();
    for len in [0usize, 1, 31, 33, 64] {
        assert_eq!(
            decrypt(&vec![1u8; len], &envelope),
            Err(EciesError::InvalidPrivateKey),
            "length {}",
            len
        );
    }
}

#[test]
fn the_private_key_is_checked_before_the_envelope() {
    assert_eq!(
        decrypt(&[0u8; 32], &[]),
        Err(EciesError::InvalidPrivateKey)
    );
    assert_eq!(
        decrypt(&[0u8; 32], &[0u8; 200]),
        Err(EciesError::InvalidPrivateKey)
    );
    assert_eq!(decrypt(&one(), &[]), Err(EciesError::MalformedEnvelope));
}

#[test]
fn an_envelope_that_starts_with_no_point_is_refused() {
    assert_eq!(
        decrypt(&one(), &[0u8; 200]),
        Err(EciesError::InvalidPublicKey)
    );
    let mut y = GENERATOR_Y;
    y[0] ^= 0x80;
    let mut envelope = point(0x04, &GENERATOR_X, &y);
    envelope.extend_from_slice(&[0u8; 40]);
    assert_eq!(
        decrypt(&one(), &envelope),
        Err(EciesError::InvalidPublicKey)
    );
    // the length is checked before the point
    assert_eq!(
        decrypt(&one(), &[0u8; 64]),
        Err(EciesError::MalformedEnvelope)
    );
    // the point is checked before the cipher output
    assert_eq!(
        decrypt(&one(), &[0u8; 65]),
        Err(EciesError::InvalidPublicKey)
    );
    assert_eq!(
        decrypt(&one(), &generator()),
        Err(EciesError::MalformedInput)
    );
}

#[test]
fn a_cipher_output_without_a_whole_nonce_is_malformed() {
    let key = [9u8; 32];
    for len in 0..12 {
        assert_eq!(
            aes_decrypt(&key, &vec![0u8; len]),
            Err(EciesError::MalformedInput),
            "length {}",
            len
        );
    }
}

#[test]
fn a_cipher_output_without_a_whole_tag_fails_authentication() {
    let key = [9u8; 32];
    for len in 12..28 {
        assert_eq!(
            aes_decrypt(&key, &vec![0u8; len]),
            Err(EciesError::AuthenticationFailure),
            "length {}",
            len
        );
    }
}

#[test]
fn a_cipher_output_under_another_key_fails_authentication() {
    let blob = aes_encrypt_with_nonce(&[9u8; 32], &[1u8; 12], b"helloworld").unwrap();
    assert_eq!(aes_decrypt(&[9u8; 32], &blob), Ok(b"helloworld".to_vec()));
    assert_eq!(
        aes_decrypt(&[8u8; 32], &blob),
        Err(EciesError::AuthenticationFailure)
    );
    let mut tampered = blob.clone();
    tampered[0] ^= 1;
    assert_eq!(
        aes_decrypt(&[9u8; 32], &tampered),
        Err(EciesError::AuthenticationFailure)
    );
    let mut tampered = blob.clone();
    let last = tampered.len() - 1;
    tampered[last] ^= 0x80;
    assert_eq!(
        aes_decrypt(&[9u8; 32], &tampered),
        Err(EciesError::AuthenticationFailure)
    );
}

#[test]
fn a_refused_public_key_is_refused_whatever_was_drawn() {
    let ephemeral = PrivateScalar::from_bytes(&one()).unwrap();
    assert_eq!(
        encrypt_with(&[0u8; 65], &ephemeral, &[0u8; 12], b"helloworld"),
        Err(EciesError::InvalidPublicKey)
    );
    assert_eq!(
        encrypt_with(&[], &ephemeral, &[0u8; 12], b"helloworld"),
        Err(EciesError::InvalidPublicKey)
    );
}

#[test]
fn the_longest_message_is_what_the_cipher_takes() {
    let limit: u64 = (1 << 36) - 32;
    for len in [0u64, 1, 1000, limit - 1, limit] {
        if let Ok(len) = usize::try_from(len) {
            assert!(plaintext_len_fits(len), "length {}", len);
            assert!(message_len_fits(len), "length {}", len);
        }
    }
    for len in [limit + 1, limit + 32, 1 << 40] {
        if let Ok(len) = usize::try_from(len) {
            assert!(!plaintext_len_fits(len), "length {}", len);
            assert!(!message_len_fits(len), "length {}", len);
        }
    }
    assert!(!plaintext_len_fits(usize::MAX));
    assert!(!plaintext_len_fits(usize::MAX - 27));
    assert!(!message_len_fits(usize::MAX));
    assert!(!message_len_fits(usize::MAX - 92));
}

#[test]
fn a_message_over_the_limit_is_refused_where_memory_allows() {
    let too_long = match usize::try_from((1u64 << 36) - 31) {
        Ok(len) => len,
        Err(_) => return,
    };
    // Zeroed memory of this size is handed out without being touched, where
    // the system grants the address space at all. Nothing below reads it.
    let mut probe: Vec<u8> = Vec::new();
    if probe.try_reserve_exact(too_long).is_err() {
        return;
    }
    drop(probe);
    let message = vec![0u8; too_long];
    let ephemeral = PrivateScalar::from_bytes(&one()).unwrap();
    assert_eq!(
        encrypt_with(&generator(), &ephemeral, &[0u8; 12], &message),
        Err(EciesError::MessageTooLong)
    );
    assert_eq!(
        encrypt(&generator(), &message),
        Err(EciesError::MessageTooLong)
    );
    assert_eq!(
        aes_encrypt_with_nonce(&[0u8; 32], &[0u8; 12], &message),
        Err(EciesError::MessageTooLong)
    );
    assert_eq!(
        aes_encrypt(&[0u8; 32], &message),
        Err(EciesError::MessageTooLong)
    );
    // the public key is looked at before the message
    assert_eq!(
        encrypt(&[0u8; 65], &message),
        Err(EciesError::InvalidPublicKey)
    );
}
