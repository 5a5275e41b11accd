use greeting_client::codec::{decode, encode, get_greeting_count, get_greeting_data_size, ENCODED_SIZE};
use greeting_client::error::{CodecError, Error};

#[test]
fn encode_is_little_endian() {
    assert_eq!(encode(0x01020304), vec![4, 3, 2, 1]);
    assert_eq!(encode(41), vec![41, 0, 0, 0]);
    assert_eq!(encode(u32::MAX), vec![255, 255, 255, 255]);
}

#[test]
fn round_trip_on_samples() {
    for n in [0u32, 1, 41, 42, 255, 256, 65535, 65536, 16777216, 123456789, u32::MAX] {
        assert_eq!(decode(&encode(n)), Ok(n));
    }
}

#[test]
fn decode_refuses_wrong_lengths() {
    assert_eq!(decode(&[]), Err(CodecError::LengthMismatch));
    assert_eq!(decode(&[1, 2, 3]), Err(CodecError::LengthMismatch));
    assert_eq!(decode(&[1, 2, 3, 4, 5]), Err(CodecError::LengthMismatch));
}

#[test]
fn greeting_data_size_is_four() {
    assert_eq!(get_greeting_data_size(), Ok(4));
    assert_eq!(ENCODED_SIZE, 4);
}

#[test]
fn greeting_count_reads_counter() {
    assert_eq!(get_greeting_count(&[42, 0, 0, 0]), Ok(42));
    assert_eq!(get_greeting_count(&[0, 1, 0, 0]), Ok(256));
    assert_eq!(
        get_greeting_count(&[42, 0, 0]),
        Err(Error::Codec(CodecError::LengthMismatch))
    );
}
