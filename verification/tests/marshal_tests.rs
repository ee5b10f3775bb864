use rpc_dispatch::CallError;
use rpc_dispatch::Marshaller;
use rpc_dispatch::MarshallerBytes;
use rpc_dispatch::MarshallerU32;

#[test]
fn round_trip_bytes() {
    let m = MarshallerBytes;
    let value: Vec<u8> = vec![1, 2, 3, 255, 0];
    let encoded = m.write(&value);
    assert_eq!(encoded, value);
    let decoded = m.read(&encoded).unwrap();
    assert_eq!(decoded, value);
}

#[test]
fn bytes_accepts_empty() {
    let m = MarshallerBytes;
    let decoded = m.read(&[]).unwrap();
    assert_eq!(decoded, Vec::<u8>::new());
}

#[test]
fn round_trip_u32() {
    let m = MarshallerU32;
    let encoded = m.write(&0xDEADBEEFu32);
    assert_eq!(encoded, vec![0xEF, 0xBE, 0xAD, 0xDE]);
    let decoded = m.read(&encoded).unwrap();
    assert_eq!(decoded, 0xDEADBEEF);
}

#[test]
fn round_trip_u32_zero() {
    let m = MarshallerU32;
    let encoded = m.write(&0u32);
    assert_eq!(encoded, vec![0, 0, 0, 0]);
    assert_eq!(m.read(&encoded).unwrap(), 0);
}

#[test]
fn u32_decode_failure_short() {
    let m = MarshallerU32;
    assert_eq!(m.read(&[1, 2, 3]), Err(CallError::DecodeFailure));
}

#[test]
fn u32_decode_failure_long() {
    let m = MarshallerU32;
    assert_eq!(m.read(&[1, 2, 3, 4, 5]), Err(CallError::DecodeFailure));
}
