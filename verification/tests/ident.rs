use hapi::ident::{
    decode, decode_fixed, decode_owned, encode, CodecError, WireConvention, ID_LEN, ID_WIRE_LEN,
};

fn fixed_buffer() -> Vec<u8> {
    let mut buf = vec![b'x'; ID_LEN];
    buf.push(0);
    buf
}

#[test]
fn decode_fixed_accepts_terminated_buffer() {
    let buf = fixed_buffer();
    let id = decode_fixed(&buf).unwrap();
    assert_eq!(id.bytes().as_slice(), &buf[..ID_LEN]);
}

#[test]
fn decode_fixed_rejects_missing_terminator() {
    let buf = vec![b'x'; ID_WIRE_LEN];
    assert_eq!(decode_fixed(&buf), Err(CodecError::InvalidEncoding));
}

#[test]
fn decode_fixed_rejects_short_buffer() {
    let buf = vec![b'x'; ID_LEN];
    assert_eq!(decode_fixed(&buf), Err(CodecError::InvalidEncoding));
}

#[test]
fn decode_fixed_rejects_interior_nul() {
    let mut buf = fixed_buffer();
    buf[5] = 0;
    assert_eq!(decode_fixed(&buf), Err(CodecError::InvalidEncoding));
}

#[test]
fn decode_fixed_rejects_non_ascii_byte() {
    let mut buf = fixed_buffer();
    buf[7] = 0xC3;
    assert_eq!(decode_fixed(&buf), Err(CodecError::InvalidEncoding));
}

#[test]
fn decode_owned_accepts_exact_run() {
    let buf = fixed_buffer();
    let id = decode_owned(&buf).unwrap();
    assert_eq!(id.bytes().as_slice(), &buf[..ID_LEN]);
}

#[test]
fn decode_owned_discards_after_terminator() {
    let mut buf = vec![b'y'; ID_LEN];
    buf.extend_from_slice(&[b'j', b'u', b'n', b'k', 0]);
    let id = decode_owned(&buf).unwrap();
    assert_eq!(id.bytes().as_slice(), &vec![b'y'; ID_LEN][..]);
}

#[test]
fn decode_owned_rejects_missing_terminator() {
    let buf = vec![b'y'; ID_LEN + 4];
    assert_eq!(decode_owned(&buf), Err(CodecError::InvalidEncoding));
}

#[test]
fn decode_owned_rejects_short_run() {
    let mut buf = vec![b'y'; 30];
    buf.push(0);
    assert_eq!(decode_owned(&buf), Err(CodecError::InvalidEncoding));
}

#[test]
fn decode_dispatches_on_convention() {
    let buf = fixed_buffer();
    let a = decode(WireConvention::FixedBuffer, &buf).unwrap();
    let b = decode(WireConvention::OwnedPointer, &buf).unwrap();
    assert!(a == b);
    let long = {
        let mut v = vec![b'x'; ID_LEN];
        v.extend_from_slice(&[b'!', 0]);
        v
    };
    assert!(decode(WireConvention::FixedBuffer, &long).is_err());
    assert!(decode(WireConvention::OwnedPointer, &long).is_ok());
}

#[test]
fn encode_round_trips() {
    let buf = fixed_buffer();
    let id = decode_fixed(&buf).unwrap();
    assert_eq!(encode(&id), buf);
}

#[test]
fn identifiers_compare_by_bytes() {
    let a = decode_fixed(&fixed_buffer()).unwrap();
    let b = decode_fixed(&fixed_buffer()).unwrap();
    assert!(a == b);
    let mut other = fixed_buffer();
    other[0] = b'z';
    let c = decode_fixed(&other).unwrap();
    assert!(a != c);
}

#[test]
fn duplicate_is_identical() {
    let a = decode_fixed(&fixed_buffer()).unwrap();
    let d = a.duplicate();
    assert!(a == d);
}
