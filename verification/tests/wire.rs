use fvm_ipld_encoding::{from_slice, to_vec};
use fvm_shared::bigint::bigint_ser::{BigIntDe, BigIntSer};
use fvm_shared::bigint::{BigInt, Sign};
use power_pledge::wire::{decode_bigint, encode_bigint, MAX_BIGINT_SIZE};

fn big(n: i128) -> BigInt {
    BigInt::from(n)
}

/// The bytes of an encoded byte string after its length prefix.
fn payload(cbor: &[u8]) -> Vec<u8> {
    let head = match cbor[0] {
        0x40..=0x57 => 1,
        0x58 => 2,
        _ => panic!("not a short byte string"),
    };
    cbor[head..].to_vec()
}

#[test]
fn zero_has_no_bytes() {
    assert_eq!(encode_bigint(&big(0)), Some(Vec::new()));
    assert_eq!(decode_bigint(&[]), Some(big(0)));
}

#[test]
fn sign_byte_comes_before_the_magnitude() {
    assert_eq!(encode_bigint(&big(1)), Some(vec![0, 1]));
    assert_eq!(encode_bigint(&big(-1)), Some(vec![1, 1]));
    assert_eq!(encode_bigint(&big(255)), Some(vec![0, 255]));
    assert_eq!(encode_bigint(&big(256)), Some(vec![0, 1, 0]));
    assert_eq!(encode_bigint(&big(-1125)), Some(vec![1, 4, 101]));
    assert_eq!(encode_bigint(&big(0x0102_0304_0506)), Some(vec![0, 1, 2, 3, 4, 5, 6]));
}

#[test]
fn decoding_reads_sign_and_magnitude() {
    assert_eq!(decode_bigint(&[0, 1]), Some(big(1)));
    assert_eq!(decode_bigint(&[1, 1]), Some(big(-1)));
    assert_eq!(decode_bigint(&[1, 4, 101]), Some(big(-1125)));
    assert_eq!(decode_bigint(&[0, 0, 0, 7]), Some(big(7)));
    assert_eq!(decode_bigint(&[0]), Some(big(0)));
    assert_eq!(decode_bigint(&[1]), Some(big(0)));
    assert_eq!(decode_bigint(&[1, 0]), Some(big(0)));
}

#[test]
fn decoding_refuses_an_unknown_sign_byte() {
    assert_eq!(decode_bigint(&[2, 1]), None);
    assert_eq!(decode_bigint(&[255]), None);
}

#[test]
fn size_limit_counts_the_sign_byte() {
    let largest = BigInt::from_bytes_be(Sign::Plus, &[255u8; 127]);
    let bytes = encode_bigint(&largest).unwrap();
    assert_eq!(bytes.len(), MAX_BIGINT_SIZE);
    assert_eq!(decode_bigint(&bytes), Some(largest.clone()));
    assert_eq!(decode_bigint(&encode_bigint(&-largest.clone()).unwrap()), Some(-largest.clone()));

    let too_large = largest + 1;
    assert_eq!(encode_bigint(&too_large), None);
    assert_eq!(encode_bigint(&-too_large), None);

    let mut long = vec![0u8; 129];
    long[128] = 1;
    assert_eq!(decode_bigint(&long), None);
    assert_eq!(decode_bigint(&long[..128]), Some(big(0)));
}

#[test]
fn encoding_round_trips() {
    for n in [0i128, 1, -1, 127, 128, 255, 256, -256, 65_535, 65_536, i128::MAX, i128::MIN + 1] {
        let bytes = encode_bigint(&big(n)).unwrap();
        assert_eq!(decode_bigint(&bytes), Some(big(n)));
        assert_eq!(bytes.is_empty(), n == 0);
    }
}

#[test]
fn bytes_are_those_of_the_record_encoding() {
    for n in [0i128, 1, -1, 255, 256, -1125, 1 << 100, -(1 << 100), i128::MAX] {
        let value = big(n);
        let cbor = to_vec(&BigIntSer(&value)).unwrap();
        assert_eq!(encode_bigint(&value).unwrap(), payload(&cbor));
        let back: BigIntDe = from_slice(&cbor).unwrap();
        assert_eq!(decode_bigint(&payload(&cbor)), Some(back.0));
    }
}
