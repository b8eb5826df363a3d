use rdev::codec::{decode, encode};
use rdev::failure::Failure;

const HELLO: [u8; 13] =
    [0x78, 0x9c, 0xcb, 0x48, 0xcd, 0xc9, 0xc9, 0x07, 0x00, 0x06, 0x2c, 0x02, 0x15];

fn sample(len: usize) -> Vec<u8> {
    let mut state: u32 = 0x2545_f491;
    let mut bytes = Vec::with_capacity(len);
    for i in 0..len {
        state = state.wrapping_mul(1_664_525).wrapping_add(1_013_904_223);
        bytes.push(if i % 7 < 3 { (state >> 24) as u8 } else { (i % 251) as u8 });
    }
    bytes
}

#[test]
fn round_trip_gives_the_bytes_back() {
    for len in [0usize, 1, 2, 3, 17, 255, 256, 4096, 70_000, 300_000] {
        let data = sample(len);
        let wire = encode(&data).unwrap();
        assert_eq!(decode(&wire), Ok(data));
    }
}

#[test]
fn round_trip_of_every_single_byte() {
    for byte in 0..=255u8 {
        let wire = encode(&[byte]).unwrap();
        assert_eq!(decode(&wire), Ok(vec![byte]));
    }
}

#[test]
fn encode_writes_a_zlib_stream_at_the_fast_level() {
    let wire = encode(b"hello").unwrap();
    assert_eq!(&wire[..2], &[0x78, 0x01]);
    assert_ne!(wire, b"hello".to_vec());
    assert_eq!(decode(&wire), Ok(b"hello".to_vec()));
}

#[test]
fn encode_of_nothing_is_not_nothing() {
    let wire = encode(&[]).unwrap();
    assert!(!wire.is_empty());
    assert_eq!(decode(&wire), Ok(Vec::new()));
}

#[test]
fn encode_shrinks_what_repeats() {
    let data = vec![b'a'; 100_000];
    let wire = encode(&data).unwrap();
    assert!(wire.len() < 2_000);
    assert_eq!(decode(&wire), Ok(data));
}

#[test]
fn decode_reads_a_stream_of_another_level() {
    assert_eq!(decode(&HELLO), Ok(b"hello".to_vec()));
}

#[test]
fn decode_stops_at_the_end_of_the_stream() {
    let mut wire = HELLO.to_vec();
    wire.extend_from_slice(b"trailing");
    assert_eq!(decode(&wire), Ok(b"hello".to_vec()));
}

#[test]
fn decode_refuses_what_is_no_stream() {
    assert_eq!(decode(b"hello"), Err(Failure::Codec));
    assert_eq!(decode(&[0xff, 0xff, 0xff, 0xff]), Err(Failure::Codec));
}

#[test]
fn decode_refuses_an_empty_stream() {
    assert_eq!(decode(&[]), Err(Failure::Codec));
}

#[test]
fn decode_refuses_a_stream_cut_short() {
    assert_eq!(decode(&HELLO[..HELLO.len() - 1]), Err(Failure::Codec));
    assert_eq!(decode(&HELLO[..5]), Err(Failure::Codec));
    let wire = encode(&sample(50_000)).unwrap();
    assert_eq!(decode(&wire[..wire.len() / 2]), Err(Failure::Codec));
}

#[test]
fn decode_refuses_a_damaged_stream() {
    let mut wire = HELLO.to_vec();
    wire[12] ^= 0x01;
    assert_eq!(decode(&wire), Err(Failure::Codec));
}
